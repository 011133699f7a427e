//! The entity types, each backed by one fixed-capacity storage record, and
//! their mathematical views.
//!
//! Every field is a plain value: character strings, 64-bit integers, and the
//! raw bytes of an authorization key. Each type's view replaces the
//! executable containers by their sequence abstractions, so that contracts
//! can speak of the logical value alone.

use vstd::prelude::*;

verus! {

/// An identity record: who an account belongs to.
///
/// The display-name (`username`) is set at most once: an empty display-name
/// means the identity is not yet registered.
pub struct User {
    pub user_id: String,
    pub username: String,
    pub public_key: Vec<u8>,
    pub profile_data: String,
}

/// The view of a [`User`].
pub struct UserView {
    pub user_id: Seq<char>,
    pub username: Seq<char>,
    pub public_key: Seq<u8>,
    pub profile_data: Seq<char>,
}

impl View for User {
    type V = UserView;

    open spec fn view(&self) -> UserView {
        UserView {
            user_id: self.user_id@,
            username: self.username@,
            public_key: self.public_key@,
            profile_data: self.profile_data@,
        }
    }
}

/// A post record, owned by an identity.
pub struct Post {
    pub post_id: String,
    pub user_id: String,
    pub content_data: String,
    pub timestamp: u64,
}

/// The view of a [`Post`].
pub struct PostView {
    pub post_id: Seq<char>,
    pub user_id: Seq<char>,
    pub content_data: Seq<char>,
    pub timestamp: u64,
}

impl View for Post {
    type V = PostView;

    open spec fn view(&self) -> PostView {
        PostView {
            post_id: self.post_id@,
            user_id: self.user_id@,
            content_data: self.content_data@,
            timestamp: self.timestamp,
        }
    }
}

/// A media attachment record, linking a locator to a post.
pub struct Media {
    pub media_id: String,
    pub post_id: String,
    pub user_id: String,
    pub media_url: String,
    pub media_type: String,
}

/// The view of a [`Media`].
pub struct MediaView {
    pub media_id: Seq<char>,
    pub post_id: Seq<char>,
    pub user_id: Seq<char>,
    pub media_url: Seq<char>,
    pub media_type: Seq<char>,
}

impl View for Media {
    type V = MediaView;

    open spec fn view(&self) -> MediaView {
        MediaView {
            media_id: self.media_id@,
            post_id: self.post_id@,
            user_id: self.user_id@,
            media_url: self.media_url@,
            media_type: self.media_type@,
        }
    }
}

/// A direct message record between two identities.
pub struct Message {
    pub message_id: String,
    pub sender_user_id: String,
    pub recipient_user_id: String,
    pub message_content: String,
    pub timestamp: u64,
}

/// The view of a [`Message`].
pub struct MessageView {
    pub message_id: Seq<char>,
    pub sender_user_id: Seq<char>,
    pub recipient_user_id: Seq<char>,
    pub message_content: Seq<char>,
    pub timestamp: u64,
}

impl View for Message {
    type V = MessageView;

    open spec fn view(&self) -> MessageView {
        MessageView {
            message_id: self.message_id@,
            sender_user_id: self.sender_user_id@,
            recipient_user_id: self.recipient_user_id@,
            message_content: self.message_content@,
            timestamp: self.timestamp,
        }
    }
}

/// A group record: a set of member identity-ids, kept in insertion order.
pub struct Group {
    pub group_id: String,
    pub members: Vec<String>,
}

/// The view of a [`Group`].
pub struct GroupView {
    pub group_id: Seq<char>,
    pub members: Seq<Seq<char>>,
}

impl View for Group {
    type V = GroupView;

    open spec fn view(&self) -> GroupView {
        GroupView { group_id: self.group_id@, members: self.members.deep_view() }
    }
}

/// A message record addressed to every member of a group.
pub struct GroupMessage {
    pub group_id: String,
    pub user_id: String,
    pub message_content: String,
    pub timestamp: u64,
}

/// The view of a [`GroupMessage`].
pub struct GroupMessageView {
    pub group_id: Seq<char>,
    pub user_id: Seq<char>,
    pub message_content: Seq<char>,
    pub timestamp: u64,
}

impl View for GroupMessage {
    type V = GroupMessageView;

    open spec fn view(&self) -> GroupMessageView {
        GroupMessageView {
            group_id: self.group_id@,
            user_id: self.user_id@,
            message_content: self.message_content@,
            timestamp: self.timestamp,
        }
    }
}

/// One purchase of a monetized content record.
pub struct Purchase {
    pub purchaser_user_id: String,
    pub amount: u64,
    pub timestamp: u64,
}

/// The view of a [`Purchase`].
pub struct PurchaseView {
    pub purchaser_user_id: Seq<char>,
    pub amount: u64,
    pub timestamp: u64,
}

impl View for Purchase {
    type V = PurchaseView;

    open spec fn view(&self) -> PurchaseView {
        PurchaseView {
            purchaser_user_id: self.purchaser_user_id@,
            amount: self.amount,
            timestamp: self.timestamp,
        }
    }
}

impl Purchase {
    /// A copy whose view equals this purchase's view.
    pub fn duplicate(&self) -> (r: Purchase)
        ensures
            r@ == self@,
    {
        Purchase {
            purchaser_user_id: self.purchaser_user_id.clone(),
            amount: self.amount,
            timestamp: self.timestamp,
        }
    }
}

/// A monetized content record: a priced work and its append-only purchase
/// history.
pub struct MonetizedContent {
    pub content_id: String,
    pub creator_user_id: String,
    pub price: u64,
    pub purchase_data: Vec<Purchase>,
}

/// The view of a [`MonetizedContent`].
pub struct MonetizedContentView {
    pub content_id: Seq<char>,
    pub creator_user_id: Seq<char>,
    pub price: u64,
    pub purchase_data: Seq<PurchaseView>,
}

impl View for MonetizedContent {
    type V = MonetizedContentView;

    open spec fn view(&self) -> MonetizedContentView {
        MonetizedContentView {
            content_id: self.content_id@,
            creator_user_id: self.creator_user_id@,
            price: self.price,
            purchase_data: self.purchase_data@.map_values(|p: Purchase| p@),
        }
    }
}

/// A manga work record.
pub struct Manga {
    pub manga_id: String,
    pub creator_user_id: String,
    pub title: String,
    pub description: String,
    pub media_urls: Vec<String>,
    pub timestamp: u64,
}

/// The view of a [`Manga`].
pub struct MangaView {
    pub manga_id: Seq<char>,
    pub creator_user_id: Seq<char>,
    pub title: Seq<char>,
    pub description: Seq<char>,
    pub media_urls: Seq<Seq<char>>,
    pub timestamp: u64,
}

impl View for Manga {
    type V = MangaView;

    open spec fn view(&self) -> MangaView {
        MangaView {
            manga_id: self.manga_id@,
            creator_user_id: self.creator_user_id@,
            title: self.title@,
            description: self.description@,
            media_urls: self.media_urls.deep_view(),
            timestamp: self.timestamp,
        }
    }
}

/// A manga access grant record.
pub struct MangaAccess {
    pub manga_id: String,
    pub user_id: String,
    pub access_data: String,
}

/// The view of a [`MangaAccess`].
pub struct MangaAccessView {
    pub manga_id: Seq<char>,
    pub user_id: Seq<char>,
    pub access_data: Seq<char>,
}

impl View for MangaAccess {
    type V = MangaAccessView;

    open spec fn view(&self) -> MangaAccessView {
        MangaAccessView {
            manga_id: self.manga_id@,
            user_id: self.user_id@,
            access_data: self.access_data@,
        }
    }
}

} // verus!
