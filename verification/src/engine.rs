//! The dispatcher: one invocation, one operation, all or nothing.
//!
//! An invocation carries the engine's identity, an ordered list of account
//! handles, an opaque payload and the host clock's timestamp. The dispatcher
//! decodes the payload, checks that exactly the operation's account slots
//! were supplied and that every supplied record is owned by the engine,
//! loads the records the operation reads, applies the operation's validation
//! and mutation rules, and returns the full updated account list — or the
//! first error, in which case no account is returned and nothing was
//! written. The host commits the returned accounts as one indivisible unit.
//!
//! The account slots are positional, fixed per operation:
//!
//! | operation            | slots                                    |
//! |----------------------|------------------------------------------|
//! | register-identity    | identity record                          |
//! | authenticate         | identity record                          |
//! | create-post          | identity record, post record             |
//! | upload-media         | identity record, media record            |
//! | send-direct-message  | sender, recipient, message record        |
//! | monetize-content     | creator identity, content record         |
//! | purchase-content     | creator, purchaser, content record       |
//! | upload-manga         | creator identity, manga record           |
//! | access-manga         | identity record, access record           |
//! | create-group         | identity record, group record, message   |
//! | send-group-message   | identity record, group record, message   |
//!
//! `spec_process` is the engine's full transition function; the executable
//! `process_instruction` is proved to agree with it on every input.

use vstd::prelude::*;

use vstd::slice::slice_to_vec;

use crate::account::Account;
use crate::account::AccountView;
use crate::account::stored_record;
use crate::account::write_record;
use crate::codec::content_encodable;
use crate::codec::decode_content;
use crate::codec::decode_group;
use crate::codec::decode_manga;
use crate::codec::decode_manga_access;
use crate::codec::decode_media;
use crate::codec::decode_post;
use crate::codec::decode_user;
use crate::codec::encode_content;
use crate::codec::encode_group;
use crate::codec::encode_group_message;
use crate::codec::encode_manga;
use crate::codec::encode_manga_access;
use crate::codec::encode_media;
use crate::codec::encode_message;
use crate::codec::encode_post;
use crate::codec::encode_user;
use crate::codec::group_encodable;
use crate::codec::group_message_encodable;
use crate::codec::manga_access_encodable;
use crate::codec::manga_encodable;
use crate::codec::media_encodable;
use crate::codec::message_encodable;
use crate::codec::post_encodable;
use crate::codec::spec_encode_content;
use crate::codec::spec_encode_group;
use crate::codec::spec_encode_group_message;
use crate::codec::spec_encode_manga;
use crate::codec::spec_encode_manga_access;
use crate::codec::spec_encode_media;
use crate::codec::spec_encode_message;
use crate::codec::spec_encode_post;
use crate::codec::spec_encode_user;
use crate::codec::spec_parse_content;
use crate::codec::spec_parse_group;
use crate::codec::spec_parse_manga;
use crate::codec::spec_parse_manga_access;
use crate::codec::spec_parse_media;
use crate::codec::spec_parse_post;
use crate::codec::spec_parse_user;
use crate::codec::user_encodable;
use crate::entities::GroupMessageView;
use crate::entities::GroupView;
use crate::entities::MangaAccessView;
use crate::entities::MangaView;
use crate::entities::MediaView;
use crate::entities::MessageView;
use crate::entities::MonetizedContentView;
use crate::entities::PostView;
use crate::entities::PurchaseView;
use crate::entities::UserView;
use crate::errors::EngineError;
use crate::handlers::access_manga;
use crate::handlers::authenticate_user;
use crate::handlers::create_group;
use crate::handlers::create_post;
use crate::handlers::credited;
use crate::handlers::monetize_allowed;
use crate::handlers::monetize_content;
use crate::handlers::purchase_content;
use crate::handlers::purchased_content;
use crate::handlers::register_user;
use crate::handlers::send_group_message;
use crate::handlers::send_message;
use crate::handlers::upload_manga;
use crate::handlers::upload_media;
use crate::instruction::GroupInstruction;
use crate::instruction::GroupInstructionView;
use crate::instruction::Instruction;
use crate::instruction::InstructionView;
use crate::instruction::UserInstruction;
use crate::instruction::UserInstructionView;
use crate::instruction::decode_instruction;
use crate::instruction::spec_decode_instruction;

verus! {

/// The views of a list of account handles.
pub open spec fn accounts_view(l: Seq<Account>) -> Seq<AccountView> {
    l.map_values(|a: Account| a@)
}

/// An account with its record buffer replaced.
pub open spec fn with_data(a: AccountView, data: Seq<u8>) -> AccountView {
    AccountView { address: a.address, owner: a.owner, lamports: a.lamports, data }
}

/// An account with its balance replaced.
pub open spec fn with_lamports(a: AccountView, lamports: u64) -> AccountView {
    AccountView { address: a.address, owner: a.owner, lamports, data: a.data }
}

/// Whether every supplied account is owned by the engine.
pub open spec fn all_owned(accts: Seq<AccountView>, program_id: Seq<u8>) -> bool {
    forall|i: int| 0 <= i < accts.len() ==> (#[trigger] accts[i]).owner == program_id
}

/// How many account slots each operation requires.
pub open spec fn op_account_count(i: InstructionView) -> int {
    match i {
        InstructionView::User(u) => match u {
            UserInstructionView::RegisterUser { .. } => 1,
            UserInstructionView::AuthenticateUser { .. } => 1,
            UserInstructionView::CreatePost { .. } => 2,
            UserInstructionView::UploadMedia { .. } => 2,
            UserInstructionView::SendMessage { .. } => 3,
            UserInstructionView::MonetizeContent { .. } => 2,
            UserInstructionView::PurchaseContent { .. } => 3,
            UserInstructionView::UploadManga { .. } => 2,
            UserInstructionView::AccessManga { .. } => 2,
        },
        InstructionView::Group(g) => match g {
            GroupInstructionView::CreateGroup { .. } => 3,
            GroupInstructionView::SendGroupMessage { .. } => 3,
        },
    }
}

/// Registration: the identity record (slot 0) must decode and hold no
/// display-name yet; the new identity's key is the record's own address.
pub open spec fn spec_register(
    accts: Seq<AccountView>,
    user_id: Seq<char>,
    username: Seq<char>,
    profile_data: Seq<char>,
) -> Result<Seq<AccountView>, EngineError>
    recommends
        accts.len() == 1,
{
    match spec_parse_user(accts[0].data) {
        None => Err(EngineError::DecodeError),
        Some((stored, _)) => if stored.username.len() != 0 {
            Err(EngineError::AlreadyRegistered)
        } else {
            let nu = UserView { user_id, username, public_key: accts[0].address, profile_data };
            if user_encodable(nu) && spec_encode_user(nu).len() <= accts[0].data.len() {
                Ok(
                    accts.update(
                        0,
                        with_data(accts[0], stored_record(accts[0].data, spec_encode_user(nu))),
                    ),
                )
            } else {
                Err(EngineError::CapacityExceeded)
            }
        },
    }
}

/// Authentication: the identity record (slot 0) must decode, and the
/// supplied id and key must both match; nothing is written.
pub open spec fn spec_authenticate(
    accts: Seq<AccountView>,
    user_id: Seq<char>,
    public_key: Seq<u8>,
) -> Result<Seq<AccountView>, EngineError>
    recommends
        accts.len() == 1,
{
    match spec_parse_user(accts[0].data) {
        None => Err(EngineError::DecodeError),
        Some((stored, _)) => if stored.user_id == user_id && stored.public_key == public_key {
            Ok(accts)
        } else {
            Err(EngineError::IdentityMismatch)
        },
    }
}

/// Post creation: the identity record (slot 0) and the post record (slot 1)
/// must decode, and the supplied identity-id must equal the stored one.
pub open spec fn spec_create_post(
    accts: Seq<AccountView>,
    post_id: Seq<char>,
    user_id: Seq<char>,
    content_data: Seq<char>,
    timestamp: u64,
) -> Result<Seq<AccountView>, EngineError>
    recommends
        accts.len() == 2,
{
    match spec_parse_user(accts[0].data) {
        None => Err(EngineError::DecodeError),
        Some((user, _)) => match spec_parse_post(accts[1].data) {
            None => Err(EngineError::DecodeError),
            Some(_) => if user.user_id != user_id {
                Err(EngineError::IdentityMismatch)
            } else {
                let np = PostView { post_id, user_id, content_data, timestamp };
                if post_encodable(np) && spec_encode_post(np).len() <= accts[1].data.len() {
                    Ok(
                        accts.update(
                            1,
                            with_data(accts[1], stored_record(accts[1].data, spec_encode_post(np))),
                        ),
                    )
                } else {
                    Err(EngineError::CapacityExceeded)
                }
            },
        },
    }
}

/// Media upload: the identity record (slot 0) and the media record (slot 1)
/// must decode, and the supplied identity-id must equal the stored one.
pub open spec fn spec_upload_media(
    accts: Seq<AccountView>,
    media_id: Seq<char>,
    post_id: Seq<char>,
    user_id: Seq<char>,
    media_url: Seq<char>,
    media_type: Seq<char>,
) -> Result<Seq<AccountView>, EngineError>
    recommends
        accts.len() == 2,
{
    match spec_parse_user(accts[0].data) {
        None => Err(EngineError::DecodeError),
        Some((user, _)) => match spec_parse_media(accts[1].data) {
            None => Err(EngineError::DecodeError),
            Some(_) => if user.user_id != user_id {
                Err(EngineError::IdentityMismatch)
            } else {
                let nm = MediaView { media_id, post_id, user_id, media_url, media_type };
                if media_encodable(nm) && spec_encode_media(nm).len() <= accts[1].data.len() {
                    Ok(
                        accts.update(
                            1,
                            with_data(
                                accts[1],
                                stored_record(accts[1].data, spec_encode_media(nm)),
                            ),
                        ),
                    )
                } else {
                    Err(EngineError::CapacityExceeded)
                }
            },
        },
    }
}

/// Direct message: the message record (slot 2) is overwritten with the new
/// message, stamped with the host clock; no record is read.
pub open spec fn spec_send_message(
    accts: Seq<AccountView>,
    message_id: Seq<char>,
    sender_user_id: Seq<char>,
    recipient_user_id: Seq<char>,
    message_content: Seq<char>,
    now: u64,
) -> Result<Seq<AccountView>, EngineError>
    recommends
        accts.len() == 3,
{
    let nm = MessageView {
        message_id,
        sender_user_id,
        recipient_user_id,
        message_content,
        timestamp: now,
    };
    if message_encodable(nm) && spec_encode_message(nm).len() <= accts[2].data.len() {
        Ok(accts.update(2, with_data(accts[2], stored_record(accts[2].data, spec_encode_message(nm)))))
    } else {
        Err(EngineError::CapacityExceeded)
    }
}

/// Monetization: the creator identity (slot 0) and the content record
/// (slot 1) must decode; the acting identity must equal the supplied creator
/// id, and an already-monetized record's creator may not change. The
/// purchase history is kept.
pub open spec fn spec_monetize(
    accts: Seq<AccountView>,
    content_id: Seq<char>,
    creator_user_id: Seq<char>,
    price: u64,
) -> Result<Seq<AccountView>, EngineError>
    recommends
        accts.len() == 2,
{
    match spec_parse_user(accts[0].data) {
        None => Err(EngineError::DecodeError),
        Some((creator, _)) => match spec_parse_content(accts[1].data) {
            None => Err(EngineError::DecodeError),
            Some((stored, _)) => if !monetize_allowed(creator, stored, creator_user_id) {
                Err(EngineError::IdentityMismatch)
            } else {
                let nc = MonetizedContentView {
                    content_id,
                    creator_user_id,
                    price,
                    purchase_data: stored.purchase_data,
                };
                if content_encodable(nc) && spec_encode_content(nc).len() <= accts[1].data.len() {
                    Ok(
                        accts.update(
                            1,
                            with_data(
                                accts[1],
                                stored_record(accts[1].data, spec_encode_content(nc)),
                            ),
                        ),
                    )
                } else {
                    Err(EngineError::CapacityExceeded)
                }
            },
        },
    }
}

/// Purchase: the content record (slot 2) must decode; the offered amount
/// must equal the price, the purchaser (slot 1) must afford it, and the
/// grown history must still fit the record — then, as one unit, the
/// purchaser is debited, the creator (slot 0) credited, and the purchase
/// appended and written back. On any error no balance moves and no record
/// changes.
pub open spec fn spec_purchase(
    accts: Seq<AccountView>,
    purchaser_user_id: Seq<char>,
    amount: u64,
    timestamp: u64,
) -> Result<Seq<AccountView>, EngineError>
    recommends
        accts.len() == 3,
{
    match spec_parse_content(accts[2].data) {
        None => Err(EngineError::DecodeError),
        Some((stored, _)) => if amount != stored.price {
            Err(EngineError::PriceMismatch)
        } else if accts[1].lamports < amount {
            Err(EngineError::InsufficientBalance)
        } else {
            let nc = purchased_content(stored, purchaser_user_id, amount, timestamp);
            if content_encodable(nc) && spec_encode_content(nc).len() <= accts[2].data.len() {
                Ok(
                    accts.update(1, with_lamports(accts[1], (accts[1].lamports - amount) as u64))
                        .update(0, with_lamports(accts[0], credited(accts[0].lamports, amount)))
                        .update(
                        2,
                        with_data(accts[2], stored_record(accts[2].data, spec_encode_content(nc))),
                    ),
                )
            } else {
                Err(EngineError::HistoryCapacityExceeded)
            }
        },
    }
}

/// Manga upload: the creator identity (slot 0) and the manga record
/// (slot 1) must decode, and the acting identity must equal the supplied
/// creator id.
pub open spec fn spec_upload_manga(
    accts: Seq<AccountView>,
    manga_id: Seq<char>,
    creator_user_id: Seq<char>,
    title: Seq<char>,
    description: Seq<char>,
    media_urls: Seq<Seq<char>>,
    timestamp: u64,
) -> Result<Seq<AccountView>, EngineError>
    recommends
        accts.len() == 2,
{
    match spec_parse_user(accts[0].data) {
        None => Err(EngineError::DecodeError),
        Some((creator, _)) => match spec_parse_manga(accts[1].data) {
            None => Err(EngineError::DecodeError),
            Some(_) => if creator.user_id != creator_user_id {
                Err(EngineError::IdentityMismatch)
            } else {
                let nm = MangaView {
                    manga_id,
                    creator_user_id,
                    title,
                    description,
                    media_urls,
                    timestamp,
                };
                if manga_encodable(nm) && spec_encode_manga(nm).len() <= accts[1].data.len() {
                    Ok(
                        accts.update(
                            1,
                            with_data(
                                accts[1],
                                stored_record(accts[1].data, spec_encode_manga(nm)),
                            ),
                        ),
                    )
                } else {
                    Err(EngineError::CapacityExceeded)
                }
            },
        },
    }
}

/// Manga access: the identity record (slot 0) and the access record
/// (slot 1) must decode, and the supplied identity-id must equal the stored
/// one.
pub open spec fn spec_access_manga(
    accts: Seq<AccountView>,
    manga_id: Seq<char>,
    user_id: Seq<char>,
    access_data: Seq<char>,
) -> Result<Seq<AccountView>, EngineError>
    recommends
        accts.len() == 2,
{
    match spec_parse_user(accts[0].data) {
        None => Err(EngineError::DecodeError),
        Some((user, _)) => match spec_parse_manga_access(accts[1].data) {
            None => Err(EngineError::DecodeError),
            Some(_) => if user.user_id != user_id {
                Err(EngineError::IdentityMismatch)
            } else {
                let na = MangaAccessView { manga_id, user_id, access_data };
                if manga_access_encodable(na) && spec_encode_manga_access(na).len()
                    <= accts[1].data.len() {
                    Ok(
                        accts.update(
                            1,
                            with_data(
                                accts[1],
                                stored_record(accts[1].data, spec_encode_manga_access(na)),
                            ),
                        ),
                    )
                } else {
                    Err(EngineError::CapacityExceeded)
                }
            },
        },
    }
}

/// Group creation: the group record (slot 1) is overwritten with the new
/// group; no record is read.
pub open spec fn spec_create_group(
    accts: Seq<AccountView>,
    group_id: Seq<char>,
    members: Seq<Seq<char>>,
) -> Result<Seq<AccountView>, EngineError>
    recommends
        accts.len() == 3,
{
    let ng = GroupView { group_id, members };
    if group_encodable(ng) && spec_encode_group(ng).len() <= accts[1].data.len() {
        Ok(accts.update(1, with_data(accts[1], stored_record(accts[1].data, spec_encode_group(ng)))))
    } else {
        Err(EngineError::CapacityExceeded)
    }
}

/// Group message: the group record (slot 1) must decode and hold the sender
/// in its membership; the message record (slot 2) is overwritten with the
/// new message, stamped with the host clock.
pub open spec fn spec_send_group_message(
    accts: Seq<AccountView>,
    group_id: Seq<char>,
    user_id: Seq<char>,
    message_content: Seq<char>,
    now: u64,
) -> Result<Seq<AccountView>, EngineError>
    recommends
        accts.len() == 3,
{
    match spec_parse_group(accts[1].data) {
        None => Err(EngineError::DecodeError),
        Some((group, _)) => if !group.members.contains(user_id) {
            Err(EngineError::IdentityMismatch)
        } else {
            let nm = GroupMessageView { group_id, user_id, message_content, timestamp: now };
            if group_message_encodable(nm) && spec_encode_group_message(nm).len()
                <= accts[2].data.len() {
                Ok(
                    accts.update(
                        2,
                        with_data(
                            accts[2],
                            stored_record(accts[2].data, spec_encode_group_message(nm)),
                        ),
                    ),
                )
            } else {
                Err(EngineError::CapacityExceeded)
            }
        },
    }
}

/// The effect of one decoded operation on the supplied accounts.
pub open spec fn spec_apply(
    accts: Seq<AccountView>,
    i: InstructionView,
    now: u64,
) -> Result<Seq<AccountView>, EngineError>
    recommends
        accts.len() == op_account_count(i),
{
    match i {
        InstructionView::User(u) => match u {
            UserInstructionView::RegisterUser { user_id, username, profile_data } => spec_register(
                accts,
                user_id,
                username,
                profile_data,
            ),
            UserInstructionView::AuthenticateUser { user_id, public_key } => spec_authenticate(
                accts,
                user_id,
                public_key,
            ),
            UserInstructionView::CreatePost { post_id, user_id, content_data, timestamp } =>
                spec_create_post(accts, post_id, user_id, content_data, timestamp),
            UserInstructionView::UploadMedia {
                media_id,
                post_id,
                user_id,
                media_url,
                media_type,
            } => spec_upload_media(accts, media_id, post_id, user_id, media_url, media_type),
            UserInstructionView::SendMessage {
                message_id,
                sender_user_id,
                recipient_user_id,
                message_content,
            } => spec_send_message(
                accts,
                message_id,
                sender_user_id,
                recipient_user_id,
                message_content,
                now,
            ),
            UserInstructionView::MonetizeContent { content_id, creator_user_id, price } =>
                spec_monetize(accts, content_id, creator_user_id, price),
            UserInstructionView::PurchaseContent {
                content_id,
                purchaser_user_id,
                amount,
                timestamp,
            } => spec_purchase(accts, purchaser_user_id, amount, timestamp),
            UserInstructionView::UploadManga {
                manga_id,
                creator_user_id,
                title,
                description,
                media_urls,
                timestamp,
            } => spec_upload_manga(
                accts,
                manga_id,
                creator_user_id,
                title,
                description,
                media_urls,
                timestamp,
            ),
            UserInstructionView::AccessManga { manga_id, user_id, access_data } => spec_access_manga(
                accts,
                manga_id,
                user_id,
                access_data,
            ),
        },
        InstructionView::Group(g) => match g {
            GroupInstructionView::CreateGroup { group_id, members } => spec_create_group(
                accts,
                group_id,
                members,
            ),
            GroupInstructionView::SendGroupMessage { group_id, user_id, message_content } =>
                spec_send_group_message(accts, group_id, user_id, message_content, now),
        },
    }
}

/// The engine's full transition function: decode the payload, check the
/// slot count, check every record's owner, then apply the operation.
pub open spec fn spec_process(
    program_id: Seq<u8>,
    accts: Seq<AccountView>,
    payload: Seq<u8>,
    now: u64,
) -> Result<Seq<AccountView>, EngineError> {
    match spec_decode_instruction(payload) {
        Err(e) => Err(e),
        Ok(i) => if accts.len() != op_account_count(i) {
            Err(EngineError::AccountCountMismatch)
        } else if !all_owned(accts, program_id) {
            Err(EngineError::OwnershipMismatch)
        } else {
            spec_apply(accts, i, now)
        },
    }
}


/// A copy of the account list, each account's view kept.
fn clone_accounts(l: &Vec<Account>) -> (r: Vec<Account>)
    ensures
        r@.len() == l@.len(),
        forall|i: int| 0 <= i < l@.len() ==> r@[i]@ == l@[i]@,
        accounts_view(r@) == accounts_view(l@),
{
    let n = l.len();
    let mut out: Vec<Account> = Vec::new();
    let mut i: usize = 0;
    while i < n
        invariant
            n == l@.len(),
            i <= n,
            out@.len() == i as int,
            forall|j: int| 0 <= j < i ==> out@[j]@ == l@[j]@,
        decreases n - i,
    {
        out.push(l[i].duplicate());
        i = i + 1;
    }
    assert(accounts_view(out@) =~= accounts_view(l@));
    out
}

/// An executable copy of an account with its record buffer replaced.
fn account_with_data(a: &Account, data: Vec<u8>) -> (r: Account)
    ensures
        r@ == with_data(a@, data@),
{
    Account {
        address: slice_to_vec(a.address.as_slice()),
        owner: slice_to_vec(a.owner.as_slice()),
        lamports: a.lamports,
        data,
    }
}

/// An executable copy of an account with its balance replaced.
fn account_with_lamports(a: &Account, lamports: u64) -> (r: Account)
    ensures
        r@ == with_lamports(a@, lamports),
{
    Account {
        address: slice_to_vec(a.address.as_slice()),
        owner: slice_to_vec(a.owner.as_slice()),
        lamports,
        data: slice_to_vec(a.data.as_slice()),
    }
}

/// Applies a registration.
fn apply_register(
    accounts: &Vec<Account>,
    user_id: String,
    username: String,
    profile_data: String,
) -> (r: Result<Vec<Account>, EngineError>)
    requires
        accounts@.len() == 1,
    ensures
        match r {
            Ok(out) => spec_register(accounts_view(accounts@), user_id@, username@, profile_data@)
                matches Ok(v) && accounts_view(out@) == v,
            Err(e) => spec_register(accounts_view(accounts@), user_id@, username@, profile_data@)
                == Err::<Seq<AccountView>, EngineError>(e),
        },
{
    proof {
        assert(accounts_view(accounts@)[0] == accounts@[0]@);
    }
    let a0 = &accounts[0];
    let stored = match decode_user(&a0.data) {
        Ok(u) => u,
        Err(e) => {
            return Err(e);
        },
    };
    let key = slice_to_vec(a0.address.as_slice());
    let nu = match register_user(&stored, user_id, username, profile_data, key) {
        Ok(u) => u,
        Err(e) => {
            return Err(e);
        },
    };
    let enc = match encode_user(&nu, a0.data.len()) {
        Ok(v) => v,
        Err(e) => {
            return Err(e);
        },
    };
    let newdata = write_record(&a0.data, &enc);
    let mut out = clone_accounts(accounts);
    let updated = account_with_data(a0, newdata);
    out.set(0, updated);
    proof {
        let accts = accounts_view(accounts@);
        let v = spec_register(accts, user_id@, username@, profile_data@)->Ok_0;
        assert(accounts_view(out@) =~= v);
    }
    Ok(out)
}

/// Applies an authentication; nothing is written.
fn apply_authenticate(accounts: &Vec<Account>, user_id: String, public_key: Vec<u8>) -> (r: Result<
    Vec<Account>,
    EngineError,
>)
    requires
        accounts@.len() == 1,
    ensures
        match r {
            Ok(out) => spec_authenticate(accounts_view(accounts@), user_id@, public_key@)
                matches Ok(v) && accounts_view(out@) == v,
            Err(e) => spec_authenticate(accounts_view(accounts@), user_id@, public_key@) == Err::<
                Seq<AccountView>,
                EngineError,
            >(e),
        },
{
    proof {
        assert(accounts_view(accounts@)[0] == accounts@[0]@);
    }
    let stored = match decode_user(&accounts[0].data) {
        Ok(u) => u,
        Err(e) => {
            return Err(e);
        },
    };
    match authenticate_user(&stored, &user_id, &public_key) {
        Ok(_) => {},
        Err(e) => {
            return Err(e);
        },
    }
    Ok(clone_accounts(accounts))
}

/// Applies a post creation.
fn apply_create_post(
    accounts: &Vec<Account>,
    post_id: String,
    user_id: String,
    content_data: String,
    timestamp: u64,
) -> (r: Result<Vec<Account>, EngineError>)
    requires
        accounts@.len() == 2,
    ensures
        match r {
            Ok(out) => spec_create_post(
                accounts_view(accounts@),
                post_id@,
                user_id@,
                content_data@,
                timestamp,
            ) matches Ok(v) && accounts_view(out@) == v,
            Err(e) => spec_create_post(
                accounts_view(accounts@),
                post_id@,
                user_id@,
                content_data@,
                timestamp,
            ) == Err::<Seq<AccountView>, EngineError>(e),
        },
{
    proof {
        assert(accounts_view(accounts@)[0] == accounts@[0]@);
        assert(accounts_view(accounts@)[1] == accounts@[1]@);
    }
    let user = match decode_user(&accounts[0].data) {
        Ok(u) => u,
        Err(e) => {
            return Err(e);
        },
    };
    match decode_post(&accounts[1].data) {
        Ok(_) => {},
        Err(e) => {
            return Err(e);
        },
    }
    let np = match create_post(&user, post_id, user_id, content_data, timestamp) {
        Ok(p) => p,
        Err(e) => {
            return Err(e);
        },
    };
    let enc = match encode_post(&np, accounts[1].data.len()) {
        Ok(v) => v,
        Err(e) => {
            return Err(e);
        },
    };
    let newdata = write_record(&accounts[1].data, &enc);
    let mut out = clone_accounts(accounts);
    let updated = account_with_data(&accounts[1], newdata);
    out.set(1, updated);
    proof {
        let v = spec_create_post(
            accounts_view(accounts@),
            post_id@,
            user_id@,
            content_data@,
            timestamp,
        )->Ok_0;
        assert(accounts_view(out@) =~= v);
    }
    Ok(out)
}

/// Applies a media upload.
fn apply_upload_media(
    accounts: &Vec<Account>,
    media_id: String,
    post_id: String,
    user_id: String,
    media_url: String,
    media_type: String,
) -> (r: Result<Vec<Account>, EngineError>)
    requires
        accounts@.len() == 2,
    ensures
        match r {
            Ok(out) => spec_upload_media(
                accounts_view(accounts@),
                media_id@,
                post_id@,
                user_id@,
                media_url@,
                media_type@,
            ) matches Ok(v) && accounts_view(out@) == v,
            Err(e) => spec_upload_media(
                accounts_view(accounts@),
                media_id@,
                post_id@,
                user_id@,
                media_url@,
                media_type@,
            ) == Err::<Seq<AccountView>, EngineError>(e),
        },
{
    proof {
        assert(accounts_view(accounts@)[0] == accounts@[0]@);
        assert(accounts_view(accounts@)[1] == accounts@[1]@);
    }
    let user = match decode_user(&accounts[0].data) {
        Ok(u) => u,
        Err(e) => {
            return Err(e);
        },
    };
    match decode_media(&accounts[1].data) {
        Ok(_) => {},
        Err(e) => {
            return Err(e);
        },
    }
    let nm = match upload_media(&user, media_id, post_id, user_id, media_url, media_type) {
        Ok(m) => m,
        Err(e) => {
            return Err(e);
        },
    };
    let enc = match encode_media(&nm, accounts[1].data.len()) {
        Ok(v) => v,
        Err(e) => {
            return Err(e);
        },
    };
    let newdata = write_record(&accounts[1].data, &enc);
    let mut out = clone_accounts(accounts);
    let updated = account_with_data(&accounts[1], newdata);
    out.set(1, updated);
    proof {
        let v = spec_upload_media(
            accounts_view(accounts@),
            media_id@,
            post_id@,
            user_id@,
            media_url@,
            media_type@,
        )->Ok_0;
        assert(accounts_view(out@) =~= v);
    }
    Ok(out)
}

/// Applies a direct message.
fn apply_send_message(
    accounts: &Vec<Account>,
    message_id: String,
    sender_user_id: String,
    recipient_user_id: String,
    message_content: String,
    now: u64,
) -> (r: Result<Vec<Account>, EngineError>)
    requires
        accounts@.len() == 3,
    ensures
        match r {
            Ok(out) => spec_send_message(
                accounts_view(accounts@),
                message_id@,
                sender_user_id@,
                recipient_user_id@,
                message_content@,
                now,
            ) matches Ok(v) && accounts_view(out@) == v,
            Err(e) => spec_send_message(
                accounts_view(accounts@),
                message_id@,
                sender_user_id@,
                recipient_user_id@,
                message_content@,
                now,
            ) == Err::<Seq<AccountView>, EngineError>(e),
        },
{
    proof {
        assert(accounts_view(accounts@)[2] == accounts@[2]@);
    }
    let nm = send_message(message_id, sender_user_id, recipient_user_id, message_content, now);
    let enc = match encode_message(&nm, accounts[2].data.len()) {
        Ok(v) => v,
        Err(e) => {
            return Err(e);
        },
    };
    let newdata = write_record(&accounts[2].data, &enc);
    let mut out = clone_accounts(accounts);
    let updated = account_with_data(&accounts[2], newdata);
    out.set(2, updated);
    proof {
        let v = spec_send_message(
            accounts_view(accounts@),
            message_id@,
            sender_user_id@,
            recipient_user_id@,
            message_content@,
            now,
        )->Ok_0;
        assert(accounts_view(out@) =~= v);
    }
    Ok(out)
}

/// Applies a monetization.
fn apply_monetize(
    accounts: &Vec<Account>,
    content_id: String,
    creator_user_id: String,
    price: u64,
) -> (r: Result<Vec<Account>, EngineError>)
    requires
        accounts@.len() == 2,
    ensures
        match r {
            Ok(out) => spec_monetize(accounts_view(accounts@), content_id@, creator_user_id@, price)
                matches Ok(v) && accounts_view(out@) == v,
            Err(e) => spec_monetize(accounts_view(accounts@), content_id@, creator_user_id@, price)
                == Err::<Seq<AccountView>, EngineError>(e),
        },
{
    proof {
        assert(accounts_view(accounts@)[0] == accounts@[0]@);
        assert(accounts_view(accounts@)[1] == accounts@[1]@);
    }
    let creator = match decode_user(&accounts[0].data) {
        Ok(u) => u,
        Err(e) => {
            return Err(e);
        },
    };
    let stored = match decode_content(&accounts[1].data) {
        Ok(c) => c,
        Err(e) => {
            return Err(e);
        },
    };
    let nc = match monetize_content(&creator, &stored, content_id, creator_user_id, price) {
        Ok(c) => c,
        Err(e) => {
            return Err(e);
        },
    };
    let enc = match encode_content(&nc, accounts[1].data.len()) {
        Ok(v) => v,
        Err(e) => {
            return Err(e);
        },
    };
    let newdata = write_record(&accounts[1].data, &enc);
    let mut out = clone_accounts(accounts);
    let updated = account_with_data(&accounts[1], newdata);
    out.set(1, updated);
    proof {
        let v = spec_monetize(
            accounts_view(accounts@),
            content_id@,
            creator_user_id@,
            price,
        )->Ok_0;
        assert(accounts_view(out@) =~= v);
    }
    Ok(out)
}

/// Applies a purchase: debit, credit and history append as one unit.
fn apply_purchase(
    accounts: &Vec<Account>,
    purchaser_user_id: String,
    amount: u64,
    timestamp: u64,
) -> (r: Result<Vec<Account>, EngineError>)
    requires
        accounts@.len() == 3,
    ensures
        match r {
            Ok(out) => spec_purchase(accounts_view(accounts@), purchaser_user_id@, amount, timestamp)
                matches Ok(v) && accounts_view(out@) == v,
            Err(e) => spec_purchase(accounts_view(accounts@), purchaser_user_id@, amount, timestamp)
                == Err::<Seq<AccountView>, EngineError>(e),
        },
{
    proof {
        assert(accounts_view(accounts@)[0] == accounts@[0]@);
        assert(accounts_view(accounts@)[1] == accounts@[1]@);
        assert(accounts_view(accounts@)[2] == accounts@[2]@);
    }
    let stored = match decode_content(&accounts[2].data) {
        Ok(c) => c,
        Err(e) => {
            return Err(e);
        },
    };
    let (nc, purchaser_after, creator_after) = match purchase_content(
        &stored,
        purchaser_user_id,
        amount,
        timestamp,
        accounts[1].lamports,
        accounts[0].lamports,
        accounts[2].data.len(),
    ) {
        Ok(t) => t,
        Err(e) => {
            return Err(e);
        },
    };
    let enc = match encode_content(&nc, accounts[2].data.len()) {
        Ok(v) => v,
        Err(_) => {
            // Unreachable: the handler established that the grown history
            // still fits the record.
            assert(false);
            return Err(EngineError::HistoryCapacityExceeded);
        },
    };
    let newdata = write_record(&accounts[2].data, &enc);
    let mut out = clone_accounts(accounts);
    let debited_acct = account_with_lamports(&accounts[1], purchaser_after);
    out.set(1, debited_acct);
    let credited_acct = account_with_lamports(&accounts[0], creator_after);
    out.set(0, credited_acct);
    let content_acct = account_with_data(&accounts[2], newdata);
    out.set(2, content_acct);
    proof {
        let v = spec_purchase(
            accounts_view(accounts@),
            purchaser_user_id@,
            amount,
            timestamp,
        )->Ok_0;
        assert(accounts_view(out@) =~= v);
    }
    Ok(out)
}

/// Applies a manga upload.
fn apply_upload_manga(
    accounts: &Vec<Account>,
    manga_id: String,
    creator_user_id: String,
    title: String,
    description: String,
    media_urls: Vec<String>,
    timestamp: u64,
) -> (r: Result<Vec<Account>, EngineError>)
    requires
        accounts@.len() == 2,
    ensures
        match r {
            Ok(out) => spec_upload_manga(
                accounts_view(accounts@),
                manga_id@,
                creator_user_id@,
                title@,
                description@,
                media_urls.deep_view(),
                timestamp,
            ) matches Ok(v) && accounts_view(out@) == v,
            Err(e) => spec_upload_manga(
                accounts_view(accounts@),
                manga_id@,
                creator_user_id@,
                title@,
                description@,
                media_urls.deep_view(),
                timestamp,
            ) == Err::<Seq<AccountView>, EngineError>(e),
        },
{
    proof {
        assert(accounts_view(accounts@)[0] == accounts@[0]@);
        assert(accounts_view(accounts@)[1] == accounts@[1]@);
    }
    let creator = match decode_user(&accounts[0].data) {
        Ok(u) => u,
        Err(e) => {
            return Err(e);
        },
    };
    match decode_manga(&accounts[1].data) {
        Ok(_) => {},
        Err(e) => {
            return Err(e);
        },
    }
    let nm = match upload_manga(
        &creator,
        manga_id,
        creator_user_id,
        title,
        description,
        media_urls,
        timestamp,
    ) {
        Ok(m) => m,
        Err(e) => {
            return Err(e);
        },
    };
    let enc = match encode_manga(&nm, accounts[1].data.len()) {
        Ok(v) => v,
        Err(e) => {
            return Err(e);
        },
    };
    let newdata = write_record(&accounts[1].data, &enc);
    let mut out = clone_accounts(accounts);
    let updated = account_with_data(&accounts[1], newdata);
    out.set(1, updated);
    proof {
        let v = spec_upload_manga(
            accounts_view(accounts@),
            manga_id@,
            creator_user_id@,
            title@,
            description@,
            media_urls.deep_view(),
            timestamp,
        )->Ok_0;
        assert(accounts_view(out@) =~= v);
    }
    Ok(out)
}

/// Applies a manga access grant.
fn apply_access_manga(
    accounts: &Vec<Account>,
    manga_id: String,
    user_id: String,
    access_data: String,
) -> (r: Result<Vec<Account>, EngineError>)
    requires
        accounts@.len() == 2,
    ensures
        match r {
            Ok(out) => spec_access_manga(
                accounts_view(accounts@),
                manga_id@,
                user_id@,
                access_data@,
            ) matches Ok(v) && accounts_view(out@) == v,
            Err(e) => spec_access_manga(accounts_view(accounts@), manga_id@, user_id@, access_data@)
                == Err::<Seq<AccountView>, EngineError>(e),
        },
{
    proof {
        assert(accounts_view(accounts@)[0] == accounts@[0]@);
        assert(accounts_view(accounts@)[1] == accounts@[1]@);
    }
    let user = match decode_user(&accounts[0].data) {
        Ok(u) => u,
        Err(e) => {
            return Err(e);
        },
    };
    match decode_manga_access(&accounts[1].data) {
        Ok(_) => {},
        Err(e) => {
            return Err(e);
        },
    }
    let na = match access_manga(&user, manga_id, user_id, access_data) {
        Ok(a) => a,
        Err(e) => {
            return Err(e);
        },
    };
    let enc = match encode_manga_access(&na, accounts[1].data.len()) {
        Ok(v) => v,
        Err(e) => {
            return Err(e);
        },
    };
    let newdata = write_record(&accounts[1].data, &enc);
    let mut out = clone_accounts(accounts);
    let updated = account_with_data(&accounts[1], newdata);
    out.set(1, updated);
    proof {
        let v = spec_access_manga(
            accounts_view(accounts@),
            manga_id@,
            user_id@,
            access_data@,
        )->Ok_0;
        assert(accounts_view(out@) =~= v);
    }
    Ok(out)
}

/// Applies a group creation.
fn apply_create_group(accounts: &Vec<Account>, group_id: String, members: Vec<String>) -> (r:
    Result<Vec<Account>, EngineError>)
    requires
        accounts@.len() == 3,
    ensures
        match r {
            Ok(out) => spec_create_group(accounts_view(accounts@), group_id@, members.deep_view())
                matches Ok(v) && accounts_view(out@) == v,
            Err(e) => spec_create_group(accounts_view(accounts@), group_id@, members.deep_view())
                == Err::<Seq<AccountView>, EngineError>(e),
        },
{
    proof {
        assert(accounts_view(accounts@)[1] == accounts@[1]@);
    }
    let ng = create_group(group_id, members);
    let enc = match encode_group(&ng, accounts[1].data.len()) {
        Ok(v) => v,
        Err(e) => {
            return Err(e);
        },
    };
    let newdata = write_record(&accounts[1].data, &enc);
    let mut out = clone_accounts(accounts);
    let updated = account_with_data(&accounts[1], newdata);
    out.set(1, updated);
    proof {
        let v = spec_create_group(accounts_view(accounts@), group_id@, members.deep_view())->Ok_0;
        assert(accounts_view(out@) =~= v);
    }
    Ok(out)
}

/// Applies a group message.
fn apply_send_group_message(
    accounts: &Vec<Account>,
    group_id: String,
    user_id: String,
    message_content: String,
    now: u64,
) -> (r: Result<Vec<Account>, EngineError>)
    requires
        accounts@.len() == 3,
    ensures
        match r {
            Ok(out) => spec_send_group_message(
                accounts_view(accounts@),
                group_id@,
                user_id@,
                message_content@,
                now,
            ) matches Ok(v) && accounts_view(out@) == v,
            Err(e) => spec_send_group_message(
                accounts_view(accounts@),
                group_id@,
                user_id@,
                message_content@,
                now,
            ) == Err::<Seq<AccountView>, EngineError>(e),
        },
{
    proof {
        assert(accounts_view(accounts@)[1] == accounts@[1]@);
        assert(accounts_view(accounts@)[2] == accounts@[2]@);
    }
    let group = match decode_group(&accounts[1].data) {
        Ok(g) => g,
        Err(e) => {
            return Err(e);
        },
    };
    let nm = match send_group_message(&group, group_id, user_id, message_content, now) {
        Ok(m) => m,
        Err(e) => {
            return Err(e);
        },
    };
    let enc = match encode_group_message(&nm, accounts[2].data.len()) {
        Ok(v) => v,
        Err(e) => {
            return Err(e);
        },
    };
    let newdata = write_record(&accounts[2].data, &enc);
    let mut out = clone_accounts(accounts);
    let updated = account_with_data(&accounts[2], newdata);
    out.set(2, updated);
    proof {
        let v = spec_send_group_message(
            accounts_view(accounts@),
            group_id@,
            user_id@,
            message_content@,
            now,
        )->Ok_0;
        assert(accounts_view(out@) =~= v);
    }
    Ok(out)
}

/// Processes one invocation: decode, resolve and validate, mutate, encode.
///
/// On success the returned list holds every account, the touched ones
/// updated; on any error nothing is returned and no account was changed.
/// The result agrees with the transition function `spec_process` on every
/// input.
pub fn process_instruction(
    program_id: &Vec<u8>,
    accounts: &Vec<Account>,
    payload: &Vec<u8>,
    now: u64,
) -> (r: Result<Vec<Account>, EngineError>)
    ensures
        match r {
            Ok(out) => spec_process(program_id@, accounts_view(accounts@), payload@, now)
                matches Ok(v) && accounts_view(out@) == v,
            Err(e) => spec_process(program_id@, accounts_view(accounts@), payload@, now) == Err::<
                Seq<AccountView>,
                EngineError,
            >(e),
        },
{
    let instr = match decode_instruction(payload) {
        Ok(i) => i,
        Err(e) => {
            return Err(e);
        },
    };
    let expected: usize = match &instr {
        Instruction::User(u) => match u {
            UserInstruction::RegisterUser { .. } => 1,
            UserInstruction::AuthenticateUser { .. } => 1,
            UserInstruction::CreatePost { .. } => 2,
            UserInstruction::UploadMedia { .. } => 2,
            UserInstruction::SendMessage { .. } => 3,
            UserInstruction::MonetizeContent { .. } => 2,
            UserInstruction::PurchaseContent { .. } => 3,
            UserInstruction::UploadManga { .. } => 2,
            UserInstruction::AccessManga { .. } => 2,
        },
        Instruction::Group(g) => match g {
            GroupInstruction::CreateGroup { .. } => 3,
            GroupInstruction::SendGroupMessage { .. } => 3,
        },
    };
    assert(expected as int == op_account_count(instr@));
    if accounts.len() != expected {
        return Err(EngineError::AccountCountMismatch);
    }
    let n = accounts.len();
    let mut k: usize = 0;
    while k < n
        invariant
            n == accounts@.len(),
            k <= n,
            spec_decode_instruction(payload@) == Ok::<InstructionView, EngineError>(instr@),
            accounts@.len() == op_account_count(instr@),
            accounts_view(accounts@).len() == accounts@.len(),
            forall|j: int|
                0 <= j < k ==> (#[trigger] accounts_view(accounts@)[j]).owner == program_id@,
        decreases n - k,
    {
        assert(accounts_view(accounts@)[k as int] == accounts@[k as int]@);
        if !accounts[k].owned_by(program_id) {
            assert(!all_owned(accounts_view(accounts@), program_id@));
            return Err(EngineError::OwnershipMismatch);
        }
        k = k + 1;
    }
    assert(all_owned(accounts_view(accounts@), program_id@));
    match instr {
        Instruction::User(u) => match u {
            UserInstruction::RegisterUser { user_id, username, profile_data } => apply_register(
                accounts,
                user_id,
                username,
                profile_data,
            ),
            UserInstruction::AuthenticateUser { user_id, public_key } => apply_authenticate(
                accounts,
                user_id,
                public_key,
            ),
            UserInstruction::CreatePost { post_id, user_id, content_data, timestamp } =>
                apply_create_post(accounts, post_id, user_id, content_data, timestamp),
            UserInstruction::UploadMedia { media_id, post_id, user_id, media_url, media_type } =>
                apply_upload_media(accounts, media_id, post_id, user_id, media_url, media_type),
            UserInstruction::SendMessage {
                message_id,
                sender_user_id,
                recipient_user_id,
                message_content,
            } => apply_send_message(
                accounts,
                message_id,
                sender_user_id,
                recipient_user_id,
                message_content,
                now,
            ),
            UserInstruction::MonetizeContent { content_id, creator_user_id, price } =>
                apply_monetize(accounts, content_id, creator_user_id, price),
            UserInstruction::PurchaseContent {
                content_id,
                purchaser_user_id,
                amount,
                timestamp,
            } => apply_purchase(accounts, purchaser_user_id, amount, timestamp),
            UserInstruction::UploadManga {
                manga_id,
                creator_user_id,
                title,
                description,
                media_urls,
                timestamp,
            } => apply_upload_manga(
                accounts,
                manga_id,
                creator_user_id,
                title,
                description,
                media_urls,
                timestamp,
            ),
            UserInstruction::AccessManga { manga_id, user_id, access_data } => apply_access_manga(
                accounts,
                manga_id,
                user_id,
                access_data,
            ),
        },
        Instruction::Group(g) => match g {
            GroupInstruction::CreateGroup { group_id, members } => apply_create_group(
                accounts,
                group_id,
                members,
            ),
            GroupInstruction::SendGroupMessage { group_id, user_id, message_content } =>
                apply_send_group_message(accounts, group_id, user_id, message_content, now),
        },
    }
}


/// Purchase correctness: after a valid purchase of a content record whose
/// price is the offered amount, the creator's balance has grown by exactly
/// that amount, the purchaser's has shrunk by it, and the content record
/// decodes to the same content with exactly one more history entry, which
/// holds the supplied purchaser id, the amount, and the supplied timestamp.
pub proof fn lemma_purchase_correctness(
    accts: Seq<AccountView>,
    purchaser_user_id: Seq<char>,
    amount: u64,
    timestamp: u64,
)
    requires
        accts.len() == 3,
        spec_purchase(accts, purchaser_user_id, amount, timestamp) is Ok,
        accts[0].lamports + amount <= u64::MAX,
    ensures
        ({
            let out = spec_purchase(accts, purchaser_user_id, amount, timestamp)->Ok_0;
            let stored = spec_parse_content(accts[2].data)->Some_0.0;
            &&& out.len() == 3
            &&& amount == stored.price
            &&& out[0].lamports == accts[0].lamports + amount
            &&& out[1].lamports == accts[1].lamports - amount
            &&& spec_parse_content(out[2].data) matches Some(pr) && ({
                &&& pr.0.content_id == stored.content_id
                &&& pr.0.creator_user_id == stored.creator_user_id
                &&& pr.0.price == stored.price
                &&& pr.0.purchase_data == stored.purchase_data.push(
                    (PurchaseView { purchaser_user_id, amount, timestamp }),
                )
                &&& pr.0.purchase_data.len() == stored.purchase_data.len() + 1
            })
        }),
{
    let stored = spec_parse_content(accts[2].data)->Some_0.0;
    let nc = purchased_content(stored, purchaser_user_id, amount, timestamp);
    let e = spec_encode_content(nc);
    let tail = accts[2].data.skip(e.len() as int);
    crate::codec::lemma_content_round_trip(nc, tail);
    assert(stored_record(accts[2].data, e) =~= e + tail);
}

} // verus!
