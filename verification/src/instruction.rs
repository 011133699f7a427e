//! The operation payload: a closed set of typed operations and its codec.
//!
//! A payload is one tag byte naming the operation, followed by the
//! operation's fields in the record layout's primitive shapes. Unlike a
//! record buffer, a payload is exact: bytes left over after the fields make
//! the payload malformed. A tag outside the operation set fails with
//! `UnknownOperation`; a missing or malformed field, or trailing bytes, fail
//! with `MalformedPayload`.

use vstd::prelude::*;

use crate::errors::EngineError;
use crate::wire::enc_str;
use crate::wire::enc_str_list;
use crate::wire::enc_u64;
use crate::wire::enc_bytes;
use crate::wire::lemma_parse_bytes_of_enc;
use crate::wire::lemma_parse_str_list_of_enc;
use crate::wire::lemma_parse_str_of_enc;
use crate::wire::lemma_parse_u64_of_enc;
use crate::wire::lemma_enc_u64_len;
use crate::wire::parse_bytes;
use crate::wire::parse_str;
use crate::wire::parse_str_list;
use crate::wire::parse_u64;
use crate::wire::push_bytes;
use crate::wire::push_str;
use crate::wire::push_str_list;
use crate::wire::push_u64;
use crate::wire::read_bytes;
use crate::wire::read_string;
use crate::wire::read_string_list;
use crate::wire::read_u64;
use crate::wire::bytes_fit;
use crate::wire::str_fits;
use crate::wire::str_list_fits;

verus! {

/// The operations that act on identity, post, media, message, manga and
/// monetized-content records.
pub enum UserInstruction {
    RegisterUser { user_id: String, username: String, profile_data: String },
    AuthenticateUser { user_id: String, public_key: Vec<u8> },
    CreatePost { post_id: String, user_id: String, content_data: String, timestamp: u64 },
    UploadMedia {
        media_id: String,
        post_id: String,
        user_id: String,
        media_url: String,
        media_type: String,
    },
    SendMessage {
        message_id: String,
        sender_user_id: String,
        recipient_user_id: String,
        message_content: String,
    },
    MonetizeContent { content_id: String, creator_user_id: String, price: u64 },
    PurchaseContent { content_id: String, purchaser_user_id: String, amount: u64, timestamp: u64 },
    UploadManga {
        manga_id: String,
        creator_user_id: String,
        title: String,
        description: String,
        media_urls: Vec<String>,
        timestamp: u64,
    },
    AccessManga { manga_id: String, user_id: String, access_data: String },
}

/// The view of a [`UserInstruction`].
pub enum UserInstructionView {
    RegisterUser { user_id: Seq<char>, username: Seq<char>, profile_data: Seq<char> },
    AuthenticateUser { user_id: Seq<char>, public_key: Seq<u8> },
    CreatePost { post_id: Seq<char>, user_id: Seq<char>, content_data: Seq<char>, timestamp: u64 },
    UploadMedia {
        media_id: Seq<char>,
        post_id: Seq<char>,
        user_id: Seq<char>,
        media_url: Seq<char>,
        media_type: Seq<char>,
    },
    SendMessage {
        message_id: Seq<char>,
        sender_user_id: Seq<char>,
        recipient_user_id: Seq<char>,
        message_content: Seq<char>,
    },
    MonetizeContent { content_id: Seq<char>, creator_user_id: Seq<char>, price: u64 },
    PurchaseContent {
        content_id: Seq<char>,
        purchaser_user_id: Seq<char>,
        amount: u64,
        timestamp: u64,
    },
    UploadManga {
        manga_id: Seq<char>,
        creator_user_id: Seq<char>,
        title: Seq<char>,
        description: Seq<char>,
        media_urls: Seq<Seq<char>>,
        timestamp: u64,
    },
    AccessManga { manga_id: Seq<char>, user_id: Seq<char>, access_data: Seq<char> },
}

impl View for UserInstruction {
    type V = UserInstructionView;

    open spec fn view(&self) -> UserInstructionView {
        match self {
            UserInstruction::RegisterUser { user_id, username, profile_data } => (
                UserInstructionView::RegisterUser {
                user_id: user_id@,
                username: username@,
                profile_data: profile_data@,
            }),
            UserInstruction::AuthenticateUser { user_id, public_key } => (
                UserInstructionView::AuthenticateUser {
                user_id: user_id@,
                public_key: public_key@,
            }),
            UserInstruction::CreatePost { post_id, user_id, content_data, timestamp } => (
                UserInstructionView::CreatePost {
                post_id: post_id@,
                user_id: user_id@,
                content_data: content_data@,
                timestamp: *timestamp,
            }),
            UserInstruction::UploadMedia { media_id, post_id, user_id, media_url, media_type } => (
                UserInstructionView::UploadMedia {
                media_id: media_id@,
                post_id: post_id@,
                user_id: user_id@,
                media_url: media_url@,
                media_type: media_type@,
            }),
            UserInstruction::SendMessage {
                message_id,
                sender_user_id,
                recipient_user_id,
                message_content,
            } => (UserInstructionView::SendMessage {
                message_id: message_id@,
                sender_user_id: sender_user_id@,
                recipient_user_id: recipient_user_id@,
                message_content: message_content@,
            }),
            UserInstruction::MonetizeContent { content_id, creator_user_id, price } => (
                UserInstructionView::MonetizeContent {
                content_id: content_id@,
                creator_user_id: creator_user_id@,
                price: *price,
            }),
            UserInstruction::PurchaseContent {
                content_id,
                purchaser_user_id,
                amount,
                timestamp,
            } => (UserInstructionView::PurchaseContent {
                content_id: content_id@,
                purchaser_user_id: purchaser_user_id@,
                amount: *amount,
                timestamp: *timestamp,
            }),
            UserInstruction::UploadManga {
                manga_id,
                creator_user_id,
                title,
                description,
                media_urls,
                timestamp,
            } => (UserInstructionView::UploadManga {
                manga_id: manga_id@,
                creator_user_id: creator_user_id@,
                title: title@,
                description: description@,
                media_urls: media_urls.deep_view(),
                timestamp: *timestamp,
            }),
            UserInstruction::AccessManga { manga_id, user_id, access_data } => (
                UserInstructionView::AccessManga {
                manga_id: manga_id@,
                user_id: user_id@,
                access_data: access_data@,
            }),
        }
    }
}

/// The operations that act on group records.
pub enum GroupInstruction {
    CreateGroup { group_id: String, members: Vec<String> },
    SendGroupMessage { group_id: String, user_id: String, message_content: String },
}

/// The view of a [`GroupInstruction`].
pub enum GroupInstructionView {
    CreateGroup { group_id: Seq<char>, members: Seq<Seq<char>> },
    SendGroupMessage { group_id: Seq<char>, user_id: Seq<char>, message_content: Seq<char> },
}

impl View for GroupInstruction {
    type V = GroupInstructionView;

    open spec fn view(&self) -> GroupInstructionView {
        match self {
            GroupInstruction::CreateGroup { group_id, members } => (
                GroupInstructionView::CreateGroup {
                group_id: group_id@,
                members: members.deep_view(),
            }),
            GroupInstruction::SendGroupMessage { group_id, user_id, message_content } => (
                GroupInstructionView::SendGroupMessage {
                group_id: group_id@,
                user_id: user_id@,
                message_content: message_content@,
            }),
        }
    }
}

/// One member of the closed operation set.
pub enum Instruction {
    User(UserInstruction),
    Group(GroupInstruction),
}

/// The view of an [`Instruction`].
pub enum InstructionView {
    User(UserInstructionView),
    Group(GroupInstructionView),
}

impl View for Instruction {
    type V = InstructionView;

    open spec fn view(&self) -> InstructionView {
        match self {
            Instruction::User(u) => InstructionView::User(u@),
            Instruction::Group(g) => InstructionView::Group(g@),
        }
    }
}

/// Whether an operation's fields fit their length prefixes.
pub open spec fn instruction_encodable(i: InstructionView) -> bool {
    match i {
        InstructionView::User(u) => match u {
            UserInstructionView::RegisterUser { user_id, username, profile_data } => str_fits(
                user_id,
            ) && str_fits(username) && str_fits(profile_data),
            UserInstructionView::AuthenticateUser { user_id, public_key } => str_fits(user_id)
                && bytes_fit(public_key),
            UserInstructionView::CreatePost { post_id, user_id, content_data, timestamp } =>
                str_fits(post_id) && str_fits(user_id) && str_fits(content_data),
            UserInstructionView::UploadMedia {
                media_id,
                post_id,
                user_id,
                media_url,
                media_type,
            } => str_fits(media_id) && str_fits(post_id) && str_fits(user_id) && str_fits(media_url)
                && str_fits(media_type),
            UserInstructionView::SendMessage {
                message_id,
                sender_user_id,
                recipient_user_id,
                message_content,
            } => str_fits(message_id) && str_fits(sender_user_id) && str_fits(recipient_user_id)
                && str_fits(message_content),
            UserInstructionView::MonetizeContent { content_id, creator_user_id, price } => str_fits(
                content_id,
            ) && str_fits(creator_user_id),
            UserInstructionView::PurchaseContent {
                content_id,
                purchaser_user_id,
                amount,
                timestamp,
            } => str_fits(content_id) && str_fits(purchaser_user_id),
            UserInstructionView::UploadManga {
                manga_id,
                creator_user_id,
                title,
                description,
                media_urls,
                timestamp,
            } => str_fits(manga_id) && str_fits(creator_user_id) && str_fits(title) && str_fits(
                description,
            ) && str_list_fits(media_urls),
            UserInstructionView::AccessManga { manga_id, user_id, access_data } => str_fits(
                manga_id,
            ) && str_fits(user_id) && str_fits(access_data),
        },
        InstructionView::Group(g) => match g {
            GroupInstructionView::CreateGroup { group_id, members } => str_fits(group_id)
                && str_list_fits(members),
            GroupInstructionView::SendGroupMessage { group_id, user_id, message_content } =>
                str_fits(group_id) && str_fits(user_id) && str_fits(message_content),
        },
    }
}

/// The encoding of an operation payload: a tag byte, then the fields.
pub open spec fn spec_encode_instruction(i: InstructionView) -> Seq<u8> {
    match i {
        InstructionView::User(u) => match u {
            UserInstructionView::RegisterUser { user_id, username, profile_data } => seq![0u8]
                + enc_str(user_id) + enc_str(username) + enc_str(profile_data),
            UserInstructionView::AuthenticateUser { user_id, public_key } => seq![1u8] + enc_str(
                user_id,
            ) + enc_bytes(public_key),
            UserInstructionView::CreatePost { post_id, user_id, content_data, timestamp } =>
                seq![2u8] + enc_str(post_id) + enc_str(user_id) + enc_str(content_data) + enc_u64(
                timestamp,
            ),
            UserInstructionView::UploadMedia {
                media_id,
                post_id,
                user_id,
                media_url,
                media_type,
            } => seq![3u8] + enc_str(media_id) + enc_str(post_id) + enc_str(user_id) + enc_str(
                media_url,
            ) + enc_str(media_type),
            UserInstructionView::SendMessage {
                message_id,
                sender_user_id,
                recipient_user_id,
                message_content,
            } => seq![4u8] + enc_str(message_id) + enc_str(sender_user_id) + enc_str(
                recipient_user_id,
            ) + enc_str(message_content),
            UserInstructionView::MonetizeContent { content_id, creator_user_id, price } => seq![5u8]
                + enc_str(content_id) + enc_str(creator_user_id) + enc_u64(price),
            UserInstructionView::PurchaseContent {
                content_id,
                purchaser_user_id,
                amount,
                timestamp,
            } => seq![6u8] + enc_str(content_id) + enc_str(purchaser_user_id) + enc_u64(amount)
                + enc_u64(timestamp),
            UserInstructionView::UploadManga {
                manga_id,
                creator_user_id,
                title,
                description,
                media_urls,
                timestamp,
            } => seq![7u8] + enc_str(manga_id) + enc_str(creator_user_id) + enc_str(title)
                + enc_str(description) + enc_str_list(media_urls) + enc_u64(timestamp),
            UserInstructionView::AccessManga { manga_id, user_id, access_data } => seq![8u8]
                + enc_str(manga_id) + enc_str(user_id) + enc_str(access_data),
        },
        InstructionView::Group(g) => match g {
            GroupInstructionView::CreateGroup { group_id, members } => seq![9u8] + enc_str(group_id)
                + enc_str_list(members),
            GroupInstructionView::SendGroupMessage { group_id, user_id, message_content } =>
                seq![10u8] + enc_str(group_id) + enc_str(user_id) + enc_str(message_content),
        },
    }
}

/// Parses an operation payload: the whole buffer must be consumed.
pub open spec fn spec_decode_instruction(b: Seq<u8>) -> Result<InstructionView, EngineError> {
    if b.len() == 0 {
        Err(EngineError::MalformedPayload)
    } else {
        let tag = b[0];
        if tag == 0u8 {
            match parse_str(b, 1) {
                Some((user_id, p1)) => match parse_str(b, p1) {
                    Some((username, p2)) => match parse_str(b, p2) {
                        Some((profile_data, p3)) => if p3 == b.len() {
                            Ok(
                                InstructionView::User(
                                    UserInstructionView::RegisterUser {
                                        user_id,
                                        username,
                                        profile_data,
                                    },
                                ),
                            )
                        } else {
                            Err(EngineError::MalformedPayload)
                        },
                        None => Err(EngineError::MalformedPayload),
                    },
                    None => Err(EngineError::MalformedPayload),
                },
                None => Err(EngineError::MalformedPayload),
            }
        } else if tag == 1u8 {
            match parse_str(b, 1) {
                Some((user_id, p1)) => match parse_bytes(b, p1) {
                    Some((public_key, p2)) => if p2 == b.len() {
                        Ok(
                            InstructionView::User(
                                UserInstructionView::AuthenticateUser { user_id, public_key },
                            ),
                        )
                    } else {
                        Err(EngineError::MalformedPayload)
                    },
                    None => Err(EngineError::MalformedPayload),
                },
                None => Err(EngineError::MalformedPayload),
            }
        } else if tag == 2u8 {
            match parse_str(b, 1) {
                Some((post_id, p1)) => match parse_str(b, p1) {
                    Some((user_id, p2)) => match parse_str(b, p2) {
                        Some((content_data, p3)) => match parse_u64(b, p3) {
                            Some((timestamp, p4)) => if p4 == b.len() {
                                Ok(
                                    InstructionView::User(
                                        UserInstructionView::CreatePost {
                                            post_id,
                                            user_id,
                                            content_data,
                                            timestamp,
                                        },
                                    ),
                                )
                            } else {
                                Err(EngineError::MalformedPayload)
                            },
                            None => Err(EngineError::MalformedPayload),
                        },
                        None => Err(EngineError::MalformedPayload),
                    },
                    None => Err(EngineError::MalformedPayload),
                },
                None => Err(EngineError::MalformedPayload),
            }
        } else if tag == 3u8 {
            match parse_str(b, 1) {
                Some((media_id, p1)) => match parse_str(b, p1) {
                    Some((post_id, p2)) => match parse_str(b, p2) {
                        Some((user_id, p3)) => match parse_str(b, p3) {
                            Some((media_url, p4)) => match parse_str(b, p4) {
                                Some((media_type, p5)) => if p5 == b.len() {
                                    Ok(
                                        InstructionView::User(
                                            UserInstructionView::UploadMedia {
                                                media_id,
                                                post_id,
                                                user_id,
                                                media_url,
                                                media_type,
                                            },
                                        ),
                                    )
                                } else {
                                    Err(EngineError::MalformedPayload)
                                },
                                None => Err(EngineError::MalformedPayload),
                            },
                            None => Err(EngineError::MalformedPayload),
                        },
                        None => Err(EngineError::MalformedPayload),
                    },
                    None => Err(EngineError::MalformedPayload),
                },
                None => Err(EngineError::MalformedPayload),
            }
        } else if tag == 4u8 {
            match parse_str(b, 1) {
                Some((message_id, p1)) => match parse_str(b, p1) {
                    Some((sender_user_id, p2)) => match parse_str(b, p2) {
                        Some((recipient_user_id, p3)) => match parse_str(b, p3) {
                            Some((message_content, p4)) => if p4 == b.len() {
                                Ok(
                                    InstructionView::User(
                                        UserInstructionView::SendMessage {
                                            message_id,
                                            sender_user_id,
                                            recipient_user_id,
                                            message_content,
                                        },
                                    ),
                                )
                            } else {
                                Err(EngineError::MalformedPayload)
                            },
                            None => Err(EngineError::MalformedPayload),
                        },
                        None => Err(EngineError::MalformedPayload),
                    },
                    None => Err(EngineError::MalformedPayload),
                },
                None => Err(EngineError::MalformedPayload),
            }
        } else if tag == 5u8 {
            match parse_str(b, 1) {
                Some((content_id, p1)) => match parse_str(b, p1) {
                    Some((creator_user_id, p2)) => match parse_u64(b, p2) {
                        Some((price, p3)) => if p3 == b.len() {
                            Ok(
                                InstructionView::User(
                                    UserInstructionView::MonetizeContent {
                                        content_id,
                                        creator_user_id,
                                        price,
                                    },
                                ),
                            )
                        } else {
                            Err(EngineError::MalformedPayload)
                        },
                        None => Err(EngineError::MalformedPayload),
                    },
                    None => Err(EngineError::MalformedPayload),
                },
                None => Err(EngineError::MalformedPayload),
            }
        } else if tag == 6u8 {
            match parse_str(b, 1) {
                Some((content_id, p1)) => match parse_str(b, p1) {
                    Some((purchaser_user_id, p2)) => match parse_u64(b, p2) {
                        Some((amount, p3)) => match parse_u64(b, p3) {
                            Some((timestamp, p4)) => if p4 == b.len() {
                                Ok(
                                    InstructionView::User(
                                        UserInstructionView::PurchaseContent {
                                            content_id,
                                            purchaser_user_id,
                                            amount,
                                            timestamp,
                                        },
                                    ),
                                )
                            } else {
                                Err(EngineError::MalformedPayload)
                            },
                            None => Err(EngineError::MalformedPayload),
                        },
                        None => Err(EngineError::MalformedPayload),
                    },
                    None => Err(EngineError::MalformedPayload),
                },
                None => Err(EngineError::MalformedPayload),
            }
        } else if tag == 7u8 {
            match parse_str(b, 1) {
                Some((manga_id, p1)) => match parse_str(b, p1) {
                    Some((creator_user_id, p2)) => match parse_str(b, p2) {
                        Some((title, p3)) => match parse_str(b, p3) {
                            Some((description, p4)) => match parse_str_list(b, p4) {
                                Some((media_urls, p5)) => match parse_u64(b, p5) {
                                    Some((timestamp, p6)) => if p6 == b.len() {
                                        Ok(
                                            InstructionView::User(
                                                UserInstructionView::UploadManga {
                                                    manga_id,
                                                    creator_user_id,
                                                    title,
                                                    description,
                                                    media_urls,
                                                    timestamp,
                                                },
                                            ),
                                        )
                                    } else {
                                        Err(EngineError::MalformedPayload)
                                    },
                                    None => Err(EngineError::MalformedPayload),
                                },
                                None => Err(EngineError::MalformedPayload),
                            },
                            None => Err(EngineError::MalformedPayload),
                        },
                        None => Err(EngineError::MalformedPayload),
                    },
                    None => Err(EngineError::MalformedPayload),
                },
                None => Err(EngineError::MalformedPayload),
            }
        } else if tag == 8u8 {
            match parse_str(b, 1) {
                Some((manga_id, p1)) => match parse_str(b, p1) {
                    Some((user_id, p2)) => match parse_str(b, p2) {
                        Some((access_data, p3)) => if p3 == b.len() {
                            Ok(
                                InstructionView::User(
                                    UserInstructionView::AccessManga {
                                        manga_id,
                                        user_id,
                                        access_data,
                                    },
                                ),
                            )
                        } else {
                            Err(EngineError::MalformedPayload)
                        },
                        None => Err(EngineError::MalformedPayload),
                    },
                    None => Err(EngineError::MalformedPayload),
                },
                None => Err(EngineError::MalformedPayload),
            }
        } else if tag == 9u8 {
            match parse_str(b, 1) {
                Some((group_id, p1)) => match parse_str_list(b, p1) {
                    Some((members, p2)) => if p2 == b.len() {
                        Ok(
                            InstructionView::Group(
                                GroupInstructionView::CreateGroup { group_id, members },
                            ),
                        )
                    } else {
                        Err(EngineError::MalformedPayload)
                    },
                    None => Err(EngineError::MalformedPayload),
                },
                None => Err(EngineError::MalformedPayload),
            }
        } else if tag == 10u8 {
            match parse_str(b, 1) {
                Some((group_id, p1)) => match parse_str(b, p1) {
                    Some((user_id, p2)) => match parse_str(b, p2) {
                        Some((message_content, p3)) => if p3 == b.len() {
                            Ok(
                                InstructionView::Group(
                                    GroupInstructionView::SendGroupMessage {
                                        group_id,
                                        user_id,
                                        message_content,
                                    },
                                ),
                            )
                        } else {
                            Err(EngineError::MalformedPayload)
                        },
                        None => Err(EngineError::MalformedPayload),
                    },
                    None => Err(EngineError::MalformedPayload),
                },
                None => Err(EngineError::MalformedPayload),
            }
        } else {
            Err(EngineError::UnknownOperation)
        }
    }
}


/// Decodes an operation payload; the whole buffer must be consumed.
#[verifier::rlimit(100)]
pub fn decode_instruction(b: &Vec<u8>) -> (r: Result<Instruction, EngineError>)
    ensures
        match r {
            Ok(i) => spec_decode_instruction(b@) matches Ok(v) && i@ == v
                && instruction_encodable(i@),
            Err(e) => spec_decode_instruction(b@) == Err::<InstructionView, EngineError>(e),
        },
{
    if b.len() == 0 {
        return Err(EngineError::MalformedPayload);
    }
    let tag = b[0];
    if tag == 0u8 {
        let (user_id, p1) = match read_string(b, 1) {
            Some(x) => x,
            None => {
                return Err(EngineError::MalformedPayload);
            },
        };
        let (username, p2) = match read_string(b, p1) {
            Some(x) => x,
            None => {
                return Err(EngineError::MalformedPayload);
            },
        };
        let (profile_data, p3) = match read_string(b, p2) {
            Some(x) => x,
            None => {
                return Err(EngineError::MalformedPayload);
            },
        };
        if p3 != b.len() {
            return Err(EngineError::MalformedPayload);
        }
        Ok(Instruction::User(UserInstruction::RegisterUser { user_id, username, profile_data }))
    } else if tag == 1u8 {
        let (user_id, p1) = match read_string(b, 1) {
            Some(x) => x,
            None => {
                return Err(EngineError::MalformedPayload);
            },
        };
        let (public_key, p2) = match read_bytes(b, p1) {
            Some(x) => x,
            None => {
                return Err(EngineError::MalformedPayload);
            },
        };
        if p2 != b.len() {
            return Err(EngineError::MalformedPayload);
        }
        Ok(Instruction::User(UserInstruction::AuthenticateUser { user_id, public_key }))
    } else if tag == 2u8 {
        let (post_id, p1) = match read_string(b, 1) {
            Some(x) => x,
            None => {
                return Err(EngineError::MalformedPayload);
            },
        };
        let (user_id, p2) = match read_string(b, p1) {
            Some(x) => x,
            None => {
                return Err(EngineError::MalformedPayload);
            },
        };
        let (content_data, p3) = match read_string(b, p2) {
            Some(x) => x,
            None => {
                return Err(EngineError::MalformedPayload);
            },
        };
        let (timestamp, p4) = match read_u64(b, p3) {
            Some(x) => x,
            None => {
                return Err(EngineError::MalformedPayload);
            },
        };
        if p4 != b.len() {
            return Err(EngineError::MalformedPayload);
        }
        Ok(
            Instruction::User(
                UserInstruction::CreatePost { post_id, user_id, content_data, timestamp },
            ),
        )
    } else if tag == 3u8 {
        let (media_id, p1) = match read_string(b, 1) {
            Some(x) => x,
            None => {
                return Err(EngineError::MalformedPayload);
            },
        };
        let (post_id, p2) = match read_string(b, p1) {
            Some(x) => x,
            None => {
                return Err(EngineError::MalformedPayload);
            },
        };
        let (user_id, p3) = match read_string(b, p2) {
            Some(x) => x,
            None => {
                return Err(EngineError::MalformedPayload);
            },
        };
        let (media_url, p4) = match read_string(b, p3) {
            Some(x) => x,
            None => {
                return Err(EngineError::MalformedPayload);
            },
        };
        let (media_type, p5) = match read_string(b, p4) {
            Some(x) => x,
            None => {
                return Err(EngineError::MalformedPayload);
            },
        };
        if p5 != b.len() {
            return Err(EngineError::MalformedPayload);
        }
        Ok(
            Instruction::User(
                UserInstruction::UploadMedia { media_id, post_id, user_id, media_url, media_type },
            ),
        )
    } else if tag == 4u8 {
        let (message_id, p1) = match read_string(b, 1) {
            Some(x) => x,
            None => {
                return Err(EngineError::MalformedPayload);
            },
        };
        let (sender_user_id, p2) = match read_string(b, p1) {
            Some(x) => x,
            None => {
                return Err(EngineError::MalformedPayload);
            },
        };
        let (recipient_user_id, p3) = match read_string(b, p2) {
            Some(x) => x,
            None => {
                return Err(EngineError::MalformedPayload);
            },
        };
        let (message_content, p4) = match read_string(b, p3) {
            Some(x) => x,
            None => {
                return Err(EngineError::MalformedPayload);
            },
        };
        if p4 != b.len() {
            return Err(EngineError::MalformedPayload);
        }
        Ok(
            Instruction::User(
                UserInstruction::SendMessage {
                    message_id,
                    sender_user_id,
                    recipient_user_id,
                    message_content,
                },
            ),
        )
    } else if tag == 5u8 {
        let (content_id, p1) = match read_string(b, 1) {
            Some(x) => x,
            None => {
                return Err(EngineError::MalformedPayload);
            },
        };
        let (creator_user_id, p2) = match read_string(b, p1) {
            Some(x) => x,
            None => {
                return Err(EngineError::MalformedPayload);
            },
        };
        let (price, p3) = match read_u64(b, p2) {
            Some(x) => x,
            None => {
                return Err(EngineError::MalformedPayload);
            },
        };
        if p3 != b.len() {
            return Err(EngineError::MalformedPayload);
        }
        Ok(Instruction::User(UserInstruction::MonetizeContent { content_id, creator_user_id, price }))
    } else if tag == 6u8 {
        let (content_id, p1) = match read_string(b, 1) {
            Some(x) => x,
            None => {
                return Err(EngineError::MalformedPayload);
            },
        };
        let (purchaser_user_id, p2) = match read_string(b, p1) {
            Some(x) => x,
            None => {
                return Err(EngineError::MalformedPayload);
            },
        };
        let (amount, p3) = match read_u64(b, p2) {
            Some(x) => x,
            None => {
                return Err(EngineError::MalformedPayload);
            },
        };
        let (timestamp, p4) = match read_u64(b, p3) {
            Some(x) => x,
            None => {
                return Err(EngineError::MalformedPayload);
            },
        };
        if p4 != b.len() {
            return Err(EngineError::MalformedPayload);
        }
        Ok(
            Instruction::User(
                UserInstruction::PurchaseContent {
                    content_id,
                    purchaser_user_id,
                    amount,
                    timestamp,
                },
            ),
        )
    } else if tag == 7u8 {
        let (manga_id, p1) = match read_string(b, 1) {
            Some(x) => x,
            None => {
                return Err(EngineError::MalformedPayload);
            },
        };
        let (creator_user_id, p2) = match read_string(b, p1) {
            Some(x) => x,
            None => {
                return Err(EngineError::MalformedPayload);
            },
        };
        let (title, p3) = match read_string(b, p2) {
            Some(x) => x,
            None => {
                return Err(EngineError::MalformedPayload);
            },
        };
        let (description, p4) = match read_string(b, p3) {
            Some(x) => x,
            None => {
                return Err(EngineError::MalformedPayload);
            },
        };
        let (media_urls, p5) = match read_string_list(b, p4) {
            Some(x) => x,
            None => {
                return Err(EngineError::MalformedPayload);
            },
        };
        let (timestamp, p6) = match read_u64(b, p5) {
            Some(x) => x,
            None => {
                return Err(EngineError::MalformedPayload);
            },
        };
        if p6 != b.len() {
            return Err(EngineError::MalformedPayload);
        }
        Ok(
            Instruction::User(
                UserInstruction::UploadManga {
                    manga_id,
                    creator_user_id,
                    title,
                    description,
                    media_urls,
                    timestamp,
                },
            ),
        )
    } else if tag == 8u8 {
        let (manga_id, p1) = match read_string(b, 1) {
            Some(x) => x,
            None => {
                return Err(EngineError::MalformedPayload);
            },
        };
        let (user_id, p2) = match read_string(b, p1) {
            Some(x) => x,
            None => {
                return Err(EngineError::MalformedPayload);
            },
        };
        let (access_data, p3) = match read_string(b, p2) {
            Some(x) => x,
            None => {
                return Err(EngineError::MalformedPayload);
            },
        };
        if p3 != b.len() {
            return Err(EngineError::MalformedPayload);
        }
        Ok(Instruction::User(UserInstruction::AccessManga { manga_id, user_id, access_data }))
    } else if tag == 9u8 {
        let (group_id, p1) = match read_string(b, 1) {
            Some(x) => x,
            None => {
                return Err(EngineError::MalformedPayload);
            },
        };
        let (members, p2) = match read_string_list(b, p1) {
            Some(x) => x,
            None => {
                return Err(EngineError::MalformedPayload);
            },
        };
        if p2 != b.len() {
            return Err(EngineError::MalformedPayload);
        }
        Ok(Instruction::Group(GroupInstruction::CreateGroup { group_id, members }))
    } else if tag == 10u8 {
        let (group_id, p1) = match read_string(b, 1) {
            Some(x) => x,
            None => {
                return Err(EngineError::MalformedPayload);
            },
        };
        let (user_id, p2) = match read_string(b, p1) {
            Some(x) => x,
            None => {
                return Err(EngineError::MalformedPayload);
            },
        };
        let (message_content, p3) = match read_string(b, p2) {
            Some(x) => x,
            None => {
                return Err(EngineError::MalformedPayload);
            },
        };
        if p3 != b.len() {
            return Err(EngineError::MalformedPayload);
        }
        Ok(
            Instruction::Group(
                GroupInstruction::SendGroupMessage { group_id, user_id, message_content },
            ),
        )
    } else {
        Err(EngineError::UnknownOperation)
    }
}

/// Encodes an operation payload, or reports that a field is too long for its
/// length prefix.
pub fn encode_instruction(i: &Instruction) -> (r: Result<Vec<u8>, EngineError>)
    ensures
        match r {
            Ok(v) => instruction_encodable(i@) && v@ == spec_encode_instruction(i@),
            Err(e) => e == EngineError::CapacityExceeded && !instruction_encodable(i@),
        },
{
    let mut out: Vec<u8> = Vec::new();
    match i {
        Instruction::User(u) => match u {
            UserInstruction::RegisterUser { user_id, username, profile_data } => {
                out.push(0u8);
                match push_str(&mut out, user_id) {
                    Ok(_) => {},
                    Err(e) => {
                        return Err(e);
                    },
                }
                match push_str(&mut out, username) {
                    Ok(_) => {},
                    Err(e) => {
                        return Err(e);
                    },
                }
                match push_str(&mut out, profile_data) {
                    Ok(_) => {},
                    Err(e) => {
                        return Err(e);
                    },
                }
                assert(out@ =~= spec_encode_instruction(i@));
            },
            UserInstruction::AuthenticateUser { user_id, public_key } => {
                out.push(1u8);
                match push_str(&mut out, user_id) {
                    Ok(_) => {},
                    Err(e) => {
                        return Err(e);
                    },
                }
                match push_bytes(&mut out, public_key) {
                    Ok(_) => {},
                    Err(e) => {
                        return Err(e);
                    },
                }
                assert(out@ =~= spec_encode_instruction(i@));
            },
            UserInstruction::CreatePost { post_id, user_id, content_data, timestamp } => {
                out.push(2u8);
                match push_str(&mut out, post_id) {
                    Ok(_) => {},
                    Err(e) => {
                        return Err(e);
                    },
                }
                match push_str(&mut out, user_id) {
                    Ok(_) => {},
                    Err(e) => {
                        return Err(e);
                    },
                }
                match push_str(&mut out, content_data) {
                    Ok(_) => {},
                    Err(e) => {
                        return Err(e);
                    },
                }
                push_u64(&mut out, *timestamp);
                assert(out@ =~= spec_encode_instruction(i@));
            },
            UserInstruction::UploadMedia { media_id, post_id, user_id, media_url, media_type } => {
                out.push(3u8);
                match push_str(&mut out, media_id) {
                    Ok(_) => {},
                    Err(e) => {
                        return Err(e);
                    },
                }
                match push_str(&mut out, post_id) {
                    Ok(_) => {},
                    Err(e) => {
                        return Err(e);
                    },
                }
                match push_str(&mut out, user_id) {
                    Ok(_) => {},
                    Err(e) => {
                        return Err(e);
                    },
                }
                match push_str(&mut out, media_url) {
                    Ok(_) => {},
                    Err(e) => {
                        return Err(e);
                    },
                }
                match push_str(&mut out, media_type) {
                    Ok(_) => {},
                    Err(e) => {
                        return Err(e);
                    },
                }
                assert(out@ =~= spec_encode_instruction(i@));
            },
            UserInstruction::SendMessage {
                message_id,
                sender_user_id,
                recipient_user_id,
                message_content,
            } => {
                out.push(4u8);
                match push_str(&mut out, message_id) {
                    Ok(_) => {},
                    Err(e) => {
                        return Err(e);
                    },
                }
                match push_str(&mut out, sender_user_id) {
                    Ok(_) => {},
                    Err(e) => {
                        return Err(e);
                    },
                }
                match push_str(&mut out, recipient_user_id) {
                    Ok(_) => {},
                    Err(e) => {
                        return Err(e);
                    },
                }
                match push_str(&mut out, message_content) {
                    Ok(_) => {},
                    Err(e) => {
                        return Err(e);
                    },
                }
                assert(out@ =~= spec_encode_instruction(i@));
            },
            UserInstruction::MonetizeContent { content_id, creator_user_id, price } => {
                out.push(5u8);
                match push_str(&mut out, content_id) {
                    Ok(_) => {},
                    Err(e) => {
                        return Err(e);
                    },
                }
                match push_str(&mut out, creator_user_id) {
                    Ok(_) => {},
                    Err(e) => {
                        return Err(e);
                    },
                }
                push_u64(&mut out, *price);
                assert(out@ =~= spec_encode_instruction(i@));
            },
            UserInstruction::PurchaseContent {
                content_id,
                purchaser_user_id,
                amount,
                timestamp,
            } => {
                out.push(6u8);
                match push_str(&mut out, content_id) {
                    Ok(_) => {},
                    Err(e) => {
                        return Err(e);
                    },
                }
                match push_str(&mut out, purchaser_user_id) {
                    Ok(_) => {},
                    Err(e) => {
                        return Err(e);
                    },
                }
                push_u64(&mut out, *amount);
                push_u64(&mut out, *timestamp);
                assert(out@ =~= spec_encode_instruction(i@));
            },
            UserInstruction::UploadManga {
                manga_id,
                creator_user_id,
                title,
                description,
                media_urls,
                timestamp,
            } => {
                out.push(7u8);
                match push_str(&mut out, manga_id) {
                    Ok(_) => {},
                    Err(e) => {
                        return Err(e);
                    },
                }
                match push_str(&mut out, creator_user_id) {
                    Ok(_) => {},
                    Err(e) => {
                        return Err(e);
                    },
                }
                match push_str(&mut out, title) {
                    Ok(_) => {},
                    Err(e) => {
                        return Err(e);
                    },
                }
                match push_str(&mut out, description) {
                    Ok(_) => {},
                    Err(e) => {
                        return Err(e);
                    },
                }
                match push_str_list(&mut out, media_urls) {
                    Ok(_) => {},
                    Err(e) => {
                        return Err(e);
                    },
                }
                push_u64(&mut out, *timestamp);
                assert(out@ =~= spec_encode_instruction(i@));
            },
            UserInstruction::AccessManga { manga_id, user_id, access_data } => {
                out.push(8u8);
                match push_str(&mut out, manga_id) {
                    Ok(_) => {},
                    Err(e) => {
                        return Err(e);
                    },
                }
                match push_str(&mut out, user_id) {
                    Ok(_) => {},
                    Err(e) => {
                        return Err(e);
                    },
                }
                match push_str(&mut out, access_data) {
                    Ok(_) => {},
                    Err(e) => {
                        return Err(e);
                    },
                }
                assert(out@ =~= spec_encode_instruction(i@));
            },
        },
        Instruction::Group(g) => match g {
            GroupInstruction::CreateGroup { group_id, members } => {
                out.push(9u8);
                match push_str(&mut out, group_id) {
                    Ok(_) => {},
                    Err(e) => {
                        return Err(e);
                    },
                }
                match push_str_list(&mut out, members) {
                    Ok(_) => {},
                    Err(e) => {
                        return Err(e);
                    },
                }
                assert(out@ =~= spec_encode_instruction(i@));
            },
            GroupInstruction::SendGroupMessage { group_id, user_id, message_content } => {
                out.push(10u8);
                match push_str(&mut out, group_id) {
                    Ok(_) => {},
                    Err(e) => {
                        return Err(e);
                    },
                }
                match push_str(&mut out, user_id) {
                    Ok(_) => {},
                    Err(e) => {
                        return Err(e);
                    },
                }
                match push_str(&mut out, message_content) {
                    Ok(_) => {},
                    Err(e) => {
                        return Err(e);
                    },
                }
                assert(out@ =~= spec_encode_instruction(i@));
            },
        },
    }
    Ok(out)
}


/// Round trip of one `RegisterUser` payload.
proof fn lemma_round_trip_register_user(user_id: Seq<char>, username: Seq<char>, profile_data: Seq<char>)
    requires
        instruction_encodable(InstructionView::User(UserInstructionView::RegisterUser { user_id, username, profile_data })),
    ensures
        spec_decode_instruction(
            spec_encode_instruction(InstructionView::User(UserInstructionView::RegisterUser { user_id, username, profile_data })),
        ) == Ok::<InstructionView, EngineError>(
            InstructionView::User(UserInstructionView::RegisterUser { user_id, username, profile_data }),
        ),
{
    let i = InstructionView::User(UserInstructionView::RegisterUser { user_id, username, profile_data });
    let b = spec_encode_instruction(i);
    let e1 = enc_str(user_id);
    let e2 = enc_str(username);
    let e3 = enc_str(profile_data);
    let p1 = 1 + e1.len() as int;
    let p2 = p1 + e2.len() as int;
    let p3 = p2 + e3.len() as int;
    assert(b[0] == 0u8);
    assert(b.subrange(1, p1) =~= e1);
    lemma_parse_str_of_enc(b, 1, user_id);
    assert(b.subrange(p1, p2) =~= e2);
    lemma_parse_str_of_enc(b, p1, username);
    assert(b.subrange(p2, p3) =~= e3);
    lemma_parse_str_of_enc(b, p2, profile_data);
    assert(p3 == b.len());
}

/// Round trip of one `AuthenticateUser` payload.
proof fn lemma_round_trip_authenticate_user(user_id: Seq<char>, public_key: Seq<u8>)
    requires
        instruction_encodable(InstructionView::User(UserInstructionView::AuthenticateUser { user_id, public_key })),
    ensures
        spec_decode_instruction(
            spec_encode_instruction(InstructionView::User(UserInstructionView::AuthenticateUser { user_id, public_key })),
        ) == Ok::<InstructionView, EngineError>(
            InstructionView::User(UserInstructionView::AuthenticateUser { user_id, public_key }),
        ),
{
    let i = InstructionView::User(UserInstructionView::AuthenticateUser { user_id, public_key });
    let b = spec_encode_instruction(i);
    let e1 = enc_str(user_id);
    let e2 = enc_bytes(public_key);
    let p1 = 1 + e1.len() as int;
    let p2 = p1 + e2.len() as int;
    assert(b[0] == 1u8);
    assert(b.subrange(1, p1) =~= e1);
    lemma_parse_str_of_enc(b, 1, user_id);
    assert(b.subrange(p1, p2) =~= e2);
    lemma_parse_bytes_of_enc(b, p1, public_key);
    assert(p2 == b.len());
}

/// Round trip of one `CreatePost` payload.
proof fn lemma_round_trip_create_post(post_id: Seq<char>, user_id: Seq<char>, content_data: Seq<char>, timestamp: u64)
    requires
        instruction_encodable(InstructionView::User(UserInstructionView::CreatePost { post_id, user_id, content_data, timestamp })),
    ensures
        spec_decode_instruction(
            spec_encode_instruction(InstructionView::User(UserInstructionView::CreatePost { post_id, user_id, content_data, timestamp })),
        ) == Ok::<InstructionView, EngineError>(
            InstructionView::User(UserInstructionView::CreatePost { post_id, user_id, content_data, timestamp }),
        ),
{
    let i = InstructionView::User(UserInstructionView::CreatePost { post_id, user_id, content_data, timestamp });
    let b = spec_encode_instruction(i);
    let e1 = enc_str(post_id);
    let e2 = enc_str(user_id);
    let e3 = enc_str(content_data);
    lemma_enc_u64_len(timestamp);
    let p1 = 1 + e1.len() as int;
    let p2 = p1 + e2.len() as int;
    let p3 = p2 + e3.len() as int;
    let p4 = p3 + 8;
    assert(b[0] == 2u8);
    assert(b.subrange(1, p1) =~= e1);
    lemma_parse_str_of_enc(b, 1, post_id);
    assert(b.subrange(p1, p2) =~= e2);
    lemma_parse_str_of_enc(b, p1, user_id);
    assert(b.subrange(p2, p3) =~= e3);
    lemma_parse_str_of_enc(b, p2, content_data);
    assert(b.subrange(p3, p4) =~= enc_u64(timestamp));
    lemma_parse_u64_of_enc(b, p3, timestamp);
    assert(p4 == b.len());
}

/// Round trip of one `UploadMedia` payload.
proof fn lemma_round_trip_upload_media(media_id: Seq<char>, post_id: Seq<char>, user_id: Seq<char>, media_url: Seq<char>, media_type: Seq<char>)
    requires
        instruction_encodable(InstructionView::User(UserInstructionView::UploadMedia { media_id, post_id, user_id, media_url, media_type })),
    ensures
        spec_decode_instruction(
            spec_encode_instruction(InstructionView::User(UserInstructionView::UploadMedia { media_id, post_id, user_id, media_url, media_type })),
        ) == Ok::<InstructionView, EngineError>(
            InstructionView::User(UserInstructionView::UploadMedia { media_id, post_id, user_id, media_url, media_type }),
        ),
{
    let i = InstructionView::User(UserInstructionView::UploadMedia { media_id, post_id, user_id, media_url, media_type });
    let b = spec_encode_instruction(i);
    let e1 = enc_str(media_id);
    let e2 = enc_str(post_id);
    let e3 = enc_str(user_id);
    let e4 = enc_str(media_url);
    let e5 = enc_str(media_type);
    let p1 = 1 + e1.len() as int;
    let p2 = p1 + e2.len() as int;
    let p3 = p2 + e3.len() as int;
    let p4 = p3 + e4.len() as int;
    let p5 = p4 + e5.len() as int;
    assert(b[0] == 3u8);
    assert(b.subrange(1, p1) =~= e1);
    lemma_parse_str_of_enc(b, 1, media_id);
    assert(b.subrange(p1, p2) =~= e2);
    lemma_parse_str_of_enc(b, p1, post_id);
    assert(b.subrange(p2, p3) =~= e3);
    lemma_parse_str_of_enc(b, p2, user_id);
    assert(b.subrange(p3, p4) =~= e4);
    lemma_parse_str_of_enc(b, p3, media_url);
    assert(b.subrange(p4, p5) =~= e5);
    lemma_parse_str_of_enc(b, p4, media_type);
    assert(p5 == b.len());
}

/// Round trip of one `SendMessage` payload.
proof fn lemma_round_trip_send_message(message_id: Seq<char>, sender_user_id: Seq<char>, recipient_user_id: Seq<char>, message_content: Seq<char>)
    requires
        instruction_encodable(InstructionView::User(UserInstructionView::SendMessage { message_id, sender_user_id, recipient_user_id, message_content })),
    ensures
        spec_decode_instruction(
            spec_encode_instruction(InstructionView::User(UserInstructionView::SendMessage { message_id, sender_user_id, recipient_user_id, message_content })),
        ) == Ok::<InstructionView, EngineError>(
            InstructionView::User(UserInstructionView::SendMessage { message_id, sender_user_id, recipient_user_id, message_content }),
        ),
{
    let i = InstructionView::User(UserInstructionView::SendMessage { message_id, sender_user_id, recipient_user_id, message_content });
    let b = spec_encode_instruction(i);
    let e1 = enc_str(message_id);
    let e2 = enc_str(sender_user_id);
    let e3 = enc_str(recipient_user_id);
    let e4 = enc_str(message_content);
    let p1 = 1 + e1.len() as int;
    let p2 = p1 + e2.len() as int;
    let p3 = p2 + e3.len() as int;
    let p4 = p3 + e4.len() as int;
    assert(b[0] == 4u8);
    assert(b.subrange(1, p1) =~= e1);
    lemma_parse_str_of_enc(b, 1, message_id);
    assert(b.subrange(p1, p2) =~= e2);
    lemma_parse_str_of_enc(b, p1, sender_user_id);
    assert(b.subrange(p2, p3) =~= e3);
    lemma_parse_str_of_enc(b, p2, recipient_user_id);
    assert(b.subrange(p3, p4) =~= e4);
    lemma_parse_str_of_enc(b, p3, message_content);
    assert(p4 == b.len());
}

/// Round trip of one `MonetizeContent` payload.
proof fn lemma_round_trip_monetize_content(content_id: Seq<char>, creator_user_id: Seq<char>, price: u64)
    requires
        instruction_encodable(InstructionView::User(UserInstructionView::MonetizeContent { content_id, creator_user_id, price })),
    ensures
        spec_decode_instruction(
            spec_encode_instruction(InstructionView::User(UserInstructionView::MonetizeContent { content_id, creator_user_id, price })),
        ) == Ok::<InstructionView, EngineError>(
            InstructionView::User(UserInstructionView::MonetizeContent { content_id, creator_user_id, price }),
        ),
{
    let i = InstructionView::User(UserInstructionView::MonetizeContent { content_id, creator_user_id, price });
    let b = spec_encode_instruction(i);
    let e1 = enc_str(content_id);
    let e2 = enc_str(creator_user_id);
    lemma_enc_u64_len(price);
    let p1 = 1 + e1.len() as int;
    let p2 = p1 + e2.len() as int;
    let p3 = p2 + 8;
    assert(b[0] == 5u8);
    assert(b.subrange(1, p1) =~= e1);
    lemma_parse_str_of_enc(b, 1, content_id);
    assert(b.subrange(p1, p2) =~= e2);
    lemma_parse_str_of_enc(b, p1, creator_user_id);
    assert(b.subrange(p2, p3) =~= enc_u64(price));
    lemma_parse_u64_of_enc(b, p2, price);
    assert(p3 == b.len());
}

/// Round trip of one `PurchaseContent` payload.
proof fn lemma_round_trip_purchase_content(content_id: Seq<char>, purchaser_user_id: Seq<char>, amount: u64, timestamp: u64)
    requires
        instruction_encodable(InstructionView::User(UserInstructionView::PurchaseContent { content_id, purchaser_user_id, amount, timestamp })),
    ensures
        spec_decode_instruction(
            spec_encode_instruction(InstructionView::User(UserInstructionView::PurchaseContent { content_id, purchaser_user_id, amount, timestamp })),
        ) == Ok::<InstructionView, EngineError>(
            InstructionView::User(UserInstructionView::PurchaseContent { content_id, purchaser_user_id, amount, timestamp }),
        ),
{
    let i = InstructionView::User(UserInstructionView::PurchaseContent { content_id, purchaser_user_id, amount, timestamp });
    let b = spec_encode_instruction(i);
    let e1 = enc_str(content_id);
    let e2 = enc_str(purchaser_user_id);
    lemma_enc_u64_len(amount);
    lemma_enc_u64_len(timestamp);
    let p1 = 1 + e1.len() as int;
    let p2 = p1 + e2.len() as int;
    let p3 = p2 + 8;
    let p4 = p3 + 8;
    assert(b[0] == 6u8);
    assert(b.subrange(1, p1) =~= e1);
    lemma_parse_str_of_enc(b, 1, content_id);
    assert(b.subrange(p1, p2) =~= e2);
    lemma_parse_str_of_enc(b, p1, purchaser_user_id);
    assert(b.subrange(p2, p3) =~= enc_u64(amount));
    lemma_parse_u64_of_enc(b, p2, amount);
    assert(b.subrange(p3, p4) =~= enc_u64(timestamp));
    lemma_parse_u64_of_enc(b, p3, timestamp);
    assert(p4 == b.len());
}

/// Round trip of one `UploadManga` payload.
proof fn lemma_round_trip_upload_manga(manga_id: Seq<char>, creator_user_id: Seq<char>, title: Seq<char>, description: Seq<char>, media_urls: Seq<Seq<char>>, timestamp: u64)
    requires
        instruction_encodable(InstructionView::User(UserInstructionView::UploadManga { manga_id, creator_user_id, title, description, media_urls, timestamp })),
    ensures
        spec_decode_instruction(
            spec_encode_instruction(InstructionView::User(UserInstructionView::UploadManga { manga_id, creator_user_id, title, description, media_urls, timestamp })),
        ) == Ok::<InstructionView, EngineError>(
            InstructionView::User(UserInstructionView::UploadManga { manga_id, creator_user_id, title, description, media_urls, timestamp }),
        ),
{
    let i = InstructionView::User(UserInstructionView::UploadManga { manga_id, creator_user_id, title, description, media_urls, timestamp });
    let b = spec_encode_instruction(i);
    let e1 = enc_str(manga_id);
    let e2 = enc_str(creator_user_id);
    let e3 = enc_str(title);
    let e4 = enc_str(description);
    let e5 = enc_str_list(media_urls);
    lemma_enc_u64_len(timestamp);
    let p1 = 1 + e1.len() as int;
    let p2 = p1 + e2.len() as int;
    let p3 = p2 + e3.len() as int;
    let p4 = p3 + e4.len() as int;
    let p5 = p4 + e5.len() as int;
    let p6 = p5 + 8;
    assert(b[0] == 7u8);
    assert(b.subrange(1, p1) =~= e1);
    lemma_parse_str_of_enc(b, 1, manga_id);
    assert(b.subrange(p1, p2) =~= e2);
    lemma_parse_str_of_enc(b, p1, creator_user_id);
    assert(b.subrange(p2, p3) =~= e3);
    lemma_parse_str_of_enc(b, p2, title);
    assert(b.subrange(p3, p4) =~= e4);
    lemma_parse_str_of_enc(b, p3, description);
    assert(b.subrange(p4, p5) =~= e5);
    lemma_parse_str_list_of_enc(b, p4, media_urls);
    assert(b.subrange(p5, p6) =~= enc_u64(timestamp));
    lemma_parse_u64_of_enc(b, p5, timestamp);
    assert(p6 == b.len());
}

/// Round trip of one `AccessManga` payload.
proof fn lemma_round_trip_access_manga(manga_id: Seq<char>, user_id: Seq<char>, access_data: Seq<char>)
    requires
        instruction_encodable(InstructionView::User(UserInstructionView::AccessManga { manga_id, user_id, access_data })),
    ensures
        spec_decode_instruction(
            spec_encode_instruction(InstructionView::User(UserInstructionView::AccessManga { manga_id, user_id, access_data })),
        ) == Ok::<InstructionView, EngineError>(
            InstructionView::User(UserInstructionView::AccessManga { manga_id, user_id, access_data }),
        ),
{
    let i = InstructionView::User(UserInstructionView::AccessManga { manga_id, user_id, access_data });
    let b = spec_encode_instruction(i);
    let e1 = enc_str(manga_id);
    let e2 = enc_str(user_id);
    let e3 = enc_str(access_data);
    let p1 = 1 + e1.len() as int;
    let p2 = p1 + e2.len() as int;
    let p3 = p2 + e3.len() as int;
    assert(b[0] == 8u8);
    assert(b.subrange(1, p1) =~= e1);
    lemma_parse_str_of_enc(b, 1, manga_id);
    assert(b.subrange(p1, p2) =~= e2);
    lemma_parse_str_of_enc(b, p1, user_id);
    assert(b.subrange(p2, p3) =~= e3);
    lemma_parse_str_of_enc(b, p2, access_data);
    assert(p3 == b.len());
}

/// Round trip of one `CreateGroup` payload.
proof fn lemma_round_trip_create_group(group_id: Seq<char>, members: Seq<Seq<char>>)
    requires
        instruction_encodable(InstructionView::Group(GroupInstructionView::CreateGroup { group_id, members })),
    ensures
        spec_decode_instruction(
            spec_encode_instruction(InstructionView::Group(GroupInstructionView::CreateGroup { group_id, members })),
        ) == Ok::<InstructionView, EngineError>(
            InstructionView::Group(GroupInstructionView::CreateGroup { group_id, members }),
        ),
{
    let i = InstructionView::Group(GroupInstructionView::CreateGroup { group_id, members });
    let b = spec_encode_instruction(i);
    let e1 = enc_str(group_id);
    let e2 = enc_str_list(members);
    let p1 = 1 + e1.len() as int;
    let p2 = p1 + e2.len() as int;
    assert(b[0] == 9u8);
    assert(b.subrange(1, p1) =~= e1);
    lemma_parse_str_of_enc(b, 1, group_id);
    assert(b.subrange(p1, p2) =~= e2);
    lemma_parse_str_list_of_enc(b, p1, members);
    assert(p2 == b.len());
}

/// Round trip of one `SendGroupMessage` payload.
proof fn lemma_round_trip_send_group_message(group_id: Seq<char>, user_id: Seq<char>, message_content: Seq<char>)
    requires
        instruction_encodable(InstructionView::Group(GroupInstructionView::SendGroupMessage { group_id, user_id, message_content })),
    ensures
        spec_decode_instruction(
            spec_encode_instruction(InstructionView::Group(GroupInstructionView::SendGroupMessage { group_id, user_id, message_content })),
        ) == Ok::<InstructionView, EngineError>(
            InstructionView::Group(GroupInstructionView::SendGroupMessage { group_id, user_id, message_content }),
        ),
{
    let i = InstructionView::Group(GroupInstructionView::SendGroupMessage { group_id, user_id, message_content });
    let b = spec_encode_instruction(i);
    let e1 = enc_str(group_id);
    let e2 = enc_str(user_id);
    let e3 = enc_str(message_content);
    let p1 = 1 + e1.len() as int;
    let p2 = p1 + e2.len() as int;
    let p3 = p2 + e3.len() as int;
    assert(b[0] == 10u8);
    assert(b.subrange(1, p1) =~= e1);
    lemma_parse_str_of_enc(b, 1, group_id);
    assert(b.subrange(p1, p2) =~= e2);
    lemma_parse_str_of_enc(b, p1, user_id);
    assert(b.subrange(p2, p3) =~= e3);
    lemma_parse_str_of_enc(b, p2, message_content);
    assert(p3 == b.len());
}

/// Decoding an encoded operation payload yields the operation back.
pub proof fn lemma_instruction_round_trip(i: InstructionView)
    requires
        instruction_encodable(i),
    ensures
        spec_decode_instruction(spec_encode_instruction(i)) == Ok::<
            InstructionView,
            EngineError,
        >(i),
{
    match i {
        InstructionView::User(u) => match u {
            UserInstructionView::RegisterUser { user_id, username, profile_data } => {
                lemma_round_trip_register_user(user_id, username, profile_data);
            },
            UserInstructionView::AuthenticateUser { user_id, public_key } => {
                lemma_round_trip_authenticate_user(user_id, public_key);
            },
            UserInstructionView::CreatePost { post_id, user_id, content_data, timestamp } => {
                lemma_round_trip_create_post(post_id, user_id, content_data, timestamp);
            },
            UserInstructionView::UploadMedia {
                media_id,
                post_id,
                user_id,
                media_url,
                media_type,
            } => {
                lemma_round_trip_upload_media(media_id, post_id, user_id, media_url, media_type);
            },
            UserInstructionView::SendMessage {
                message_id,
                sender_user_id,
                recipient_user_id,
                message_content,
            } => {
                lemma_round_trip_send_message(
                    message_id,
                    sender_user_id,
                    recipient_user_id,
                    message_content,
                );
            },
            UserInstructionView::MonetizeContent { content_id, creator_user_id, price } => {
                lemma_round_trip_monetize_content(content_id, creator_user_id, price);
            },
            UserInstructionView::PurchaseContent {
                content_id,
                purchaser_user_id,
                amount,
                timestamp,
            } => {
                lemma_round_trip_purchase_content(content_id, purchaser_user_id, amount, timestamp);
            },
            UserInstructionView::UploadManga {
                manga_id,
                creator_user_id,
                title,
                description,
                media_urls,
                timestamp,
            } => {
                lemma_round_trip_upload_manga(
                    manga_id,
                    creator_user_id,
                    title,
                    description,
                    media_urls,
                    timestamp,
                );
            },
            UserInstructionView::AccessManga { manga_id, user_id, access_data } => {
                lemma_round_trip_access_manga(manga_id, user_id, access_data);
            },
        },
        InstructionView::Group(g) => match g {
            GroupInstructionView::CreateGroup { group_id, members } => {
                lemma_round_trip_create_group(group_id, members);
            },
            GroupInstructionView::SendGroupMessage { group_id, user_id, message_content } => {
                lemma_round_trip_send_group_message(group_id, user_id, message_content);
            },
        },
    }
}

} // verus!
