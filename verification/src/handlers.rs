//! Per-operation validation and mutation rules.
//!
//! Every handler is a pure function from the loaded entities and the decoded
//! operation fields to either the updated entity (and, for a purchase, the
//! updated balances) or the first error. A handler performs no storage
//! access: the dispatcher loads the records, calls the handler, and writes
//! the result back, so a failing handler leaves every record untouched.

use vstd::prelude::*;

use crate::codec::content_encodable;
use crate::codec::purchases_view;
use crate::codec::spec_encode_content;
use crate::codec::encode_content;
use crate::entities::Group;
use crate::entities::GroupMessage;
use crate::entities::GroupMessageView;
use crate::entities::Manga;
use crate::entities::MangaAccess;
use crate::entities::MangaAccessView;
use crate::entities::MangaView;
use crate::entities::Media;
use crate::entities::MediaView;
use crate::entities::Message;
use crate::entities::MessageView;
use crate::entities::MonetizedContent;
use crate::entities::MonetizedContentView;
use crate::entities::Post;
use crate::entities::PostView;
use crate::entities::Purchase;
use crate::entities::PurchaseView;
use crate::entities::User;
use crate::entities::UserView;
use crate::errors::EngineError;

verus! {

/// Whether `s` is one of the strings of `l`.
pub fn contains_string(l: &Vec<String>, s: &String) -> (r: bool)
    ensures
        r == l.deep_view().contains(s@),
{
    let n = l.len();
    let mut i: usize = 0;
    while i < n
        invariant
            n == l@.len(),
            i <= n,
            l.deep_view().len() == l@.len(),
            forall|j: int| 0 <= j < i ==> l.deep_view()[j] != s@,
        decreases n - i,
    {
        assert(l.deep_view()[i as int] == l@[i as int]@);
        if l[i] == *s {
            assert(l.deep_view()[i as int] == s@);
            assert(l.deep_view().contains(s@));
            return true;
        }
        i = i + 1;
    }
    assert(!l.deep_view().contains(s@));
    false
}

/// A copy of a purchase history, each entry's view kept.
pub fn clone_purchases(l: &Vec<Purchase>) -> (r: Vec<Purchase>)
    ensures
        purchases_view(r@) == purchases_view(l@),
{
    let n = l.len();
    let mut out: Vec<Purchase> = Vec::new();
    let mut i: usize = 0;
    while i < n
        invariant
            n == l@.len(),
            i <= n,
            out@.len() == i as int,
            forall|j: int| 0 <= j < i ==> out@[j]@ == l@[j]@,
        decreases n - i,
    {
        out.push(l[i].duplicate());
        i = i + 1;
    }
    assert(purchases_view(out@) =~= purchases_view(l@));
    out
}

/// Registers an identity: first write wins.
///
/// The display-name may be set at most once; a record whose display-name is
/// already non-empty is rejected with `AlreadyRegistered`, whatever the
/// payload holds. The authorization key is bound to the record's own address
/// key, never taken from the payload.
pub fn register_user(
    stored: &User,
    user_id: String,
    username: String,
    profile_data: String,
    account_key: Vec<u8>,
) -> (r: Result<User, EngineError>)
    ensures
        match r {
            Ok(u) => stored@.username.len() == 0 && u@ == (UserView {
                user_id: user_id@,
                username: username@,
                public_key: account_key@,
                profile_data: profile_data@,
            }),
            Err(e) => e == EngineError::AlreadyRegistered && stored@.username.len() != 0,
        },
{
    if !stored.username.as_str().is_empty() {
        return Err(EngineError::AlreadyRegistered);
    }
    Ok(User { user_id, username, public_key: account_key, profile_data })
}

/// Authenticates an identity: the supplied id and key must both equal the
/// stored ones.
pub fn authenticate_user(stored: &User, user_id: &String, public_key: &Vec<u8>) -> (r: Result<
    (),
    EngineError,
>)
    ensures
        r is Ok <==> (stored@.user_id == user_id@ && stored@.public_key == public_key@),
        r matches Err(e) ==> e == EngineError::IdentityMismatch,
{
    if !(stored.user_id == *user_id) {
        return Err(EngineError::IdentityMismatch);
    }
    if !crate::wire::bytes_eq(&stored.public_key, public_key) {
        return Err(EngineError::IdentityMismatch);
    }
    Ok(())
}

/// Creates a post: the supplied identity-id must equal the id stored in the
/// resolved identity record.
pub fn create_post(
    user: &User,
    post_id: String,
    user_id: String,
    content_data: String,
    timestamp: u64,
) -> (r: Result<Post, EngineError>)
    ensures
        match r {
            Ok(p) => user@.user_id == user_id@ && p@ == (PostView {
                post_id: post_id@,
                user_id: user_id@,
                content_data: content_data@,
                timestamp,
            }),
            Err(e) => e == EngineError::IdentityMismatch && user@.user_id != user_id@,
        },
{
    if !(user.user_id == user_id) {
        return Err(EngineError::IdentityMismatch);
    }
    Ok(Post { post_id, user_id, content_data, timestamp })
}

/// Links a media attachment to a post: the supplied identity-id must equal
/// the id stored in the resolved identity record.
pub fn upload_media(
    user: &User,
    media_id: String,
    post_id: String,
    user_id: String,
    media_url: String,
    media_type: String,
) -> (r: Result<Media, EngineError>)
    ensures
        match r {
            Ok(m) => user@.user_id == user_id@ && m@ == (MediaView {
                media_id: media_id@,
                post_id: post_id@,
                user_id: user_id@,
                media_url: media_url@,
                media_type: media_type@,
            }),
            Err(e) => e == EngineError::IdentityMismatch && user@.user_id != user_id@,
        },
{
    if !(user.user_id == user_id) {
        return Err(EngineError::IdentityMismatch);
    }
    Ok(Media { media_id, post_id, user_id, media_url, media_type })
}

/// Builds a direct message, stamped with the host clock's `now`.
pub fn send_message(
    message_id: String,
    sender_user_id: String,
    recipient_user_id: String,
    message_content: String,
    now: u64,
) -> (m: Message)
    ensures
        m@ == (MessageView {
            message_id: message_id@,
            sender_user_id: sender_user_id@,
            recipient_user_id: recipient_user_id@,
            message_content: message_content@,
            timestamp: now,
        }),
{
    Message { message_id, sender_user_id, recipient_user_id, message_content, timestamp: now }
}

/// Builds a group record with the given membership.
pub fn create_group(group_id: String, members: Vec<String>) -> (g: Group)
    ensures
        g@.group_id == group_id@,
        g@.members == members.deep_view(),
{
    Group { group_id, members }
}

/// Builds a group message, stamped with the host clock's `now`; the sender
/// must be a member of the group.
pub fn send_group_message(
    group: &Group,
    group_id: String,
    user_id: String,
    message_content: String,
    now: u64,
) -> (r: Result<GroupMessage, EngineError>)
    ensures
        r is Ok <==> group@.members.contains(user_id@),
        r matches Ok(m) ==> m@ == (GroupMessageView {
            group_id: group_id@,
            user_id: user_id@,
            message_content: message_content@,
            timestamp: now,
        }),
        r matches Err(e) ==> e == EngineError::IdentityMismatch,
{
    if !contains_string(&group.members, &user_id) {
        return Err(EngineError::IdentityMismatch);
    }
    Ok(GroupMessage { group_id, user_id, message_content, timestamp: now })
}

/// Grants manga access: the supplied identity-id must equal the id stored in
/// the resolved identity record.
pub fn access_manga(
    user: &User,
    manga_id: String,
    user_id: String,
    access_data: String,
) -> (r: Result<MangaAccess, EngineError>)
    ensures
        match r {
            Ok(a) => user@.user_id == user_id@ && a@ == (MangaAccessView {
                manga_id: manga_id@,
                user_id: user_id@,
                access_data: access_data@,
            }),
            Err(e) => e == EngineError::IdentityMismatch && user@.user_id != user_id@,
        },
{
    if !(user.user_id == user_id) {
        return Err(EngineError::IdentityMismatch);
    }
    Ok(MangaAccess { manga_id, user_id, access_data })
}

/// Uploads a manga work: the acting identity must equal the supplied creator
/// id.
pub fn upload_manga(
    creator: &User,
    manga_id: String,
    creator_user_id: String,
    title: String,
    description: String,
    media_urls: Vec<String>,
    timestamp: u64,
) -> (r: Result<Manga, EngineError>)
    ensures
        match r {
            Ok(m) => creator@.user_id == creator_user_id@ && m@ == (MangaView {
                manga_id: manga_id@,
                creator_user_id: creator_user_id@,
                title: title@,
                description: description@,
                media_urls: media_urls.deep_view(),
                timestamp,
            }),
            Err(e) => e == EngineError::IdentityMismatch && creator@.user_id != creator_user_id@,
        },
{
    if !(creator.user_id == creator_user_id) {
        return Err(EngineError::IdentityMismatch);
    }
    Ok(Manga { manga_id, creator_user_id, title, description, media_urls, timestamp })
}

/// Whether monetization is authorized: the acting identity must equal the
/// supplied creator id, and an already-monetized record's creator may not
/// change.
pub open spec fn monetize_allowed(
    creator: UserView,
    stored: MonetizedContentView,
    creator_user_id: Seq<char>,
) -> bool {
    creator.user_id == creator_user_id && (stored.creator_user_id.len() == 0
        || stored.creator_user_id == creator_user_id)
}

/// Creates or re-prices a monetized content record; the purchase history is
/// kept unchanged.
pub fn monetize_content(
    creator: &User,
    stored: &MonetizedContent,
    content_id: String,
    creator_user_id: String,
    price: u64,
) -> (r: Result<MonetizedContent, EngineError>)
    ensures
        match r {
            Ok(c) => monetize_allowed(creator@, stored@, creator_user_id@) && c@
                == (MonetizedContentView {
                content_id: content_id@,
                creator_user_id: creator_user_id@,
                price,
                purchase_data: stored@.purchase_data,
            }),
            Err(e) => e == EngineError::IdentityMismatch && !monetize_allowed(
                creator@,
                stored@,
                creator_user_id@,
            ),
        },
{
    if !(creator.user_id == creator_user_id) {
        return Err(EngineError::IdentityMismatch);
    }
    if !stored.creator_user_id.as_str().is_empty() && !(stored.creator_user_id
        == creator_user_id) {
        return Err(EngineError::IdentityMismatch);
    }
    let purchase_data = clone_purchases(&stored.purchase_data);
    Ok(MonetizedContent { content_id, creator_user_id, price, purchase_data })
}

/// The monetized-content record after appending one purchase.
pub open spec fn purchased_content(
    c: MonetizedContentView,
    purchaser_user_id: Seq<char>,
    amount: u64,
    timestamp: u64,
) -> MonetizedContentView {
    MonetizedContentView {
        content_id: c.content_id,
        creator_user_id: c.creator_user_id,
        price: c.price,
        purchase_data: c.purchase_data.push(
            PurchaseView { purchaser_user_id, amount, timestamp },
        ),
    }
}

/// The creator's balance after a credit, saturating at the largest balance.
pub open spec fn credited(balance: u64, amount: u64) -> u64 {
    if balance + amount > u64::MAX {
        u64::MAX
    } else {
        (balance + amount) as u64
    }
}

/// Purchases a monetized content record.
///
/// The offered amount must equal the stored price exactly (`PriceMismatch`
/// otherwise); the purchaser's balance must cover it (`InsufficientBalance`
/// otherwise); and the history with the new entry must still fit the
/// record's fixed capacity (`HistoryCapacityExceeded` otherwise) — all three
/// are checked before anything is produced, so a failure changes neither
/// balances nor history. On success the purchaser is debited by the amount,
/// the creator credited by it, and exactly one purchase entry, carrying the
/// supplied purchaser id, the amount and the supplied timestamp, is appended.
pub fn purchase_content(
    stored: &MonetizedContent,
    purchaser_user_id: String,
    amount: u64,
    timestamp: u64,
    purchaser_balance: u64,
    creator_balance: u64,
    capacity: usize,
) -> (r: Result<(MonetizedContent, u64, u64), EngineError>)
    ensures
        r is Ok <==> (amount == stored@.price && purchaser_balance >= amount && content_encodable(
            purchased_content(stored@, purchaser_user_id@, amount, timestamp),
        ) && spec_encode_content(
            purchased_content(stored@, purchaser_user_id@, amount, timestamp),
        ).len() <= capacity),
        r matches Ok((c, pb, cb)) ==> ({
            &&& c@ == purchased_content(stored@, purchaser_user_id@, amount, timestamp)
            &&& pb == purchaser_balance - amount
            &&& cb == credited(creator_balance, amount)
        }),
        r matches Err(e) ==> (if amount != stored@.price {
            e == EngineError::PriceMismatch
        } else if purchaser_balance < amount {
            e == EngineError::InsufficientBalance
        } else {
            e == EngineError::HistoryCapacityExceeded
        }),
{
    if amount != stored.price {
        return Err(EngineError::PriceMismatch);
    }
    if purchaser_balance < amount {
        return Err(EngineError::InsufficientBalance);
    }
    let mut purchase_data = clone_purchases(&stored.purchase_data);
    purchase_data.push(Purchase { purchaser_user_id, amount, timestamp });
    let updated = MonetizedContent {
        content_id: stored.content_id.clone(),
        creator_user_id: stored.creator_user_id.clone(),
        price: stored.price,
        purchase_data,
    };
    assert(purchases_view(updated.purchase_data@) =~= stored@.purchase_data.push(
        (PurchaseView { purchaser_user_id: purchaser_user_id@, amount, timestamp }),
    ));
    match encode_content(&updated, capacity) {
        Ok(_) => Ok((updated, purchaser_balance - amount, creator_balance.saturating_add(amount))),
        Err(_) => Err(EngineError::HistoryCapacityExceeded),
    }
}

} // verus!
