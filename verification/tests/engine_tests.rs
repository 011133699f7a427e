use animenexa::account::Account;
use animenexa::codec::decode_content;
use animenexa::codec::decode_group_message;
use animenexa::codec::decode_manga;
use animenexa::codec::decode_manga_access;
use animenexa::codec::decode_media;
use animenexa::codec::decode_message;
use animenexa::codec::decode_post;
use animenexa::codec::decode_user;
use animenexa::codec::encode_content;
use animenexa::codec::encode_group;
use animenexa::codec::encode_user;
use animenexa::engine::process_instruction;
use animenexa::entities::Group;
use animenexa::entities::MonetizedContent;
use animenexa::entities::User;
use animenexa::errors::EngineError;
use animenexa::instruction::GroupInstruction;
use animenexa::instruction::Instruction;
use animenexa::instruction::UserInstruction;
use animenexa::instruction::decode_instruction;
use animenexa::instruction::encode_instruction;


fn err_of<T>(r: Result<T, EngineError>) -> EngineError {
    match r {
        Err(e) => e,
        Ok(_) => panic!("expected an error"),
    }
}

fn pid() -> Vec<u8> {
    vec![9u8; 32]
}

fn account(address_byte: u8, lamports: u64, data: Vec<u8>) -> Account {
    Account { address: vec![address_byte; 32], owner: pid(), lamports, data }
}

fn padded(mut enc: Vec<u8>, len: usize) -> Vec<u8> {
    while enc.len() < len {
        enc.push(0);
    }
    enc
}

fn payload(i: Instruction) -> Vec<u8> {
    encode_instruction(&i).unwrap()
}

fn blank_user_record(user_id: &str, capacity: usize) -> Vec<u8> {
    let u = User {
        user_id: user_id.to_string(),
        username: "".to_string(),
        public_key: vec![],
        profile_data: "".to_string(),
    };
    padded(encode_user(&u, capacity).unwrap(), capacity)
}

fn registered_user_record(user_id: &str, username: &str, key: Vec<u8>, capacity: usize) -> Vec<u8> {
    let u = User {
        user_id: user_id.to_string(),
        username: username.to_string(),
        public_key: key,
        profile_data: "{}".to_string(),
    };
    padded(encode_user(&u, capacity).unwrap(), capacity)
}

fn register_payload(user_id: &str, username: &str, profile: &str) -> Vec<u8> {
    payload(Instruction::User(UserInstruction::RegisterUser {
        user_id: user_id.to_string(),
        username: username.to_string(),
        profile_data: profile.to_string(),
    }))
}

#[test]
fn register_binds_name_and_account_key() {
    // Identity{id:"u1", name:""} + register("u1","alice","{}") gives
    // Identity{id:"u1", name:"alice"} with the record's own address as key.
    let accounts = vec![account(7, 0, blank_user_record("u1", 200))];
    let out = process_instruction(&pid(), &accounts, &register_payload("u1", "alice", "{}"), 0)
        .unwrap();
    assert_eq!(out.len(), 1);
    assert_eq!(out[0].data.len(), 200);
    let u = decode_user(&out[0].data).unwrap();
    assert_eq!(u.user_id, "u1");
    assert_eq!(u.username, "alice");
    assert_eq!(u.public_key, vec![7u8; 32]);
    assert_eq!(u.profile_data, "{}");
}

#[test]
fn register_twice_fails_already_registered() {
    let accounts = vec![account(7, 0, blank_user_record("u1", 200))];
    let out = process_instruction(&pid(), &accounts, &register_payload("u1", "alice", "{}"), 0)
        .unwrap();
    // A second registration on the same record fails, whatever the payload.
    let r = process_instruction(&pid(), &out, &register_payload("u1", "bob", "x"), 0);
    assert_eq!(err_of(r), EngineError::AlreadyRegistered);
}

#[test]
fn register_over_capacity_fails() {
    // The record is too small for the new identity: no write, no truncation.
    let accounts = vec![account(7, 0, blank_user_record("", 20))];
    let r = process_instruction(&pid(), &accounts, &register_payload("u1", "alice", "{}"), 0);
    assert_eq!(err_of(r), EngineError::CapacityExceeded);
}

#[test]
fn authenticate_matches_id_and_key() {
    let accounts = vec![account(7, 0, registered_user_record("u1", "alice", vec![7u8; 32], 200))];
    let ok = payload(Instruction::User(UserInstruction::AuthenticateUser {
        user_id: "u1".to_string(),
        public_key: vec![7u8; 32],
    }));
    let out = process_instruction(&pid(), &accounts, &ok, 0).unwrap();
    // Authentication writes nothing.
    assert_eq!(out[0].data, accounts[0].data);

    let wrong_key = payload(Instruction::User(UserInstruction::AuthenticateUser {
        user_id: "u1".to_string(),
        public_key: vec![8u8; 32],
    }));
    assert_eq!(err_of(process_instruction(&pid(), &accounts, &wrong_key, 0)), EngineError::IdentityMismatch);
    let wrong_id = payload(Instruction::User(UserInstruction::AuthenticateUser {
        user_id: "u2".to_string(),
        public_key: vec![7u8; 32],
    }));
    assert_eq!(err_of(process_instruction(&pid(), &accounts, &wrong_id, 0)), EngineError::IdentityMismatch);
}

#[test]
fn create_post_writes_post_record() {
    let accounts = vec![
        account(7, 0, registered_user_record("u1", "alice", vec![7u8; 32], 200)),
        account(8, 0, vec![0u8; 100]),
    ];
    let p = payload(Instruction::User(UserInstruction::CreatePost {
        post_id: "p1".to_string(),
        user_id: "u1".to_string(),
        content_data: "{\"text\":\"hi\"}".to_string(),
        timestamp: 111,
    }));
    let out = process_instruction(&pid(), &accounts, &p, 0).unwrap();
    let post = decode_post(&out[1].data).unwrap();
    assert_eq!(post.post_id, "p1");
    assert_eq!(post.user_id, "u1");
    assert_eq!(post.content_data, "{\"text\":\"hi\"}");
    assert_eq!(post.timestamp, 111);
    // The identity record is untouched.
    assert_eq!(out[0].data, accounts[0].data);
}

#[test]
fn create_post_with_spoofed_id_fails() {
    let accounts = vec![
        account(7, 0, registered_user_record("u1", "alice", vec![7u8; 32], 200)),
        account(8, 0, vec![0u8; 100]),
    ];
    let p = payload(Instruction::User(UserInstruction::CreatePost {
        post_id: "p1".to_string(),
        user_id: "someone-else".to_string(),
        content_data: "x".to_string(),
        timestamp: 0,
    }));
    assert_eq!(err_of(process_instruction(&pid(), &accounts, &p, 0)), EngineError::IdentityMismatch);
}

#[test]
fn upload_media_links_media_to_post() {
    let accounts = vec![
        account(7, 0, registered_user_record("u1", "alice", vec![7u8; 32], 200)),
        account(8, 0, vec![0u8; 120]),
    ];
    let p = payload(Instruction::User(UserInstruction::UploadMedia {
        media_id: "m1".to_string(),
        post_id: "p1".to_string(),
        user_id: "u1".to_string(),
        media_url: "ipfs://x".to_string(),
        media_type: "image/png".to_string(),
    }));
    let out = process_instruction(&pid(), &accounts, &p, 0).unwrap();
    let m = decode_media(&out[1].data).unwrap();
    assert_eq!(m.media_id, "m1");
    assert_eq!(m.post_id, "p1");
    assert_eq!(m.user_id, "u1");
    assert_eq!(m.media_url, "ipfs://x");
    assert_eq!(m.media_type, "image/png");
}

#[test]
fn send_message_stamps_host_clock() {
    let accounts = vec![
        account(1, 0, vec![0u8; 50]),
        account(2, 0, vec![0u8; 50]),
        account(3, 0, vec![0u8; 200]),
    ];
    let p = payload(Instruction::User(UserInstruction::SendMessage {
        message_id: "msg1".to_string(),
        sender_user_id: "u1".to_string(),
        recipient_user_id: "u2".to_string(),
        message_content: "hello".to_string(),
    }));
    let out = process_instruction(&pid(), &accounts, &p, 424242).unwrap();
    let m = decode_message(&out[2].data).unwrap();
    assert_eq!(m.message_id, "msg1");
    assert_eq!(m.sender_user_id, "u1");
    assert_eq!(m.recipient_user_id, "u2");
    assert_eq!(m.message_content, "hello");
    assert_eq!(m.timestamp, 424242);
}

fn group_record(members: Vec<&str>, capacity: usize) -> Vec<u8> {
    let g = Group {
        group_id: "g1".to_string(),
        members: members.into_iter().map(|s| s.to_string()).collect(),
    };
    padded(encode_group(&g, capacity).unwrap(), capacity)
}

#[test]
fn create_group_writes_membership() {
    let accounts = vec![
        account(1, 0, vec![0u8; 50]),
        account(2, 0, vec![0u8; 200]),
        account(3, 0, vec![0u8; 200]),
    ];
    let p = payload(Instruction::Group(GroupInstruction::CreateGroup {
        group_id: "g1".to_string(),
        members: vec!["u1".to_string(), "u2".to_string()],
    }));
    let out = process_instruction(&pid(), &accounts, &p, 0).unwrap();
    let g = animenexa::codec::decode_group(&out[1].data).unwrap();
    assert_eq!(g.group_id, "g1");
    assert_eq!(g.members, vec!["u1".to_string(), "u2".to_string()]);
}

#[test]
fn group_message_from_member_is_stored() {
    let accounts = vec![
        account(1, 0, vec![0u8; 50]),
        account(2, 0, group_record(vec!["u1", "u2"], 200)),
        account(3, 0, vec![0u8; 200]),
    ];
    let p = payload(Instruction::Group(GroupInstruction::SendGroupMessage {
        group_id: "g1".to_string(),
        user_id: "u2".to_string(),
        message_content: "hi all".to_string(),
    }));
    let out = process_instruction(&pid(), &accounts, &p, 555).unwrap();
    let m = decode_group_message(&out[2].data).unwrap();
    assert_eq!(m.group_id, "g1");
    assert_eq!(m.user_id, "u2");
    assert_eq!(m.message_content, "hi all");
    assert_eq!(m.timestamp, 555);
}

#[test]
fn group_message_from_non_member_fails() {
    let accounts = vec![
        account(1, 0, vec![0u8; 50]),
        account(2, 0, group_record(vec!["u1", "u2"], 200)),
        account(3, 0, vec![0u8; 200]),
    ];
    let p = payload(Instruction::Group(GroupInstruction::SendGroupMessage {
        group_id: "g1".to_string(),
        user_id: "intruder".to_string(),
        message_content: "hi".to_string(),
    }));
    assert_eq!(err_of(process_instruction(&pid(), &accounts, &p, 555)), EngineError::IdentityMismatch);
}

fn content_record(price: u64, capacity: usize) -> Vec<u8> {
    let c = MonetizedContent {
        content_id: "c1".to_string(),
        creator_user_id: "u1".to_string(),
        price,
        purchase_data: vec![],
    };
    padded(encode_content(&c, capacity).unwrap(), capacity)
}

#[test]
fn monetize_sets_price_and_keeps_history() {
    let accounts = vec![
        account(7, 0, registered_user_record("u1", "alice", vec![7u8; 32], 200)),
        account(8, 0, content_record(30, 300)),
    ];
    let p = payload(Instruction::User(UserInstruction::MonetizeContent {
        content_id: "c1".to_string(),
        creator_user_id: "u1".to_string(),
        price: 99,
    }));
    let out = process_instruction(&pid(), &accounts, &p, 0).unwrap();
    let c = decode_content(&out[1].data).unwrap();
    assert_eq!(c.content_id, "c1");
    assert_eq!(c.creator_user_id, "u1");
    assert_eq!(c.price, 99);
    assert!(c.purchase_data.is_empty());
}

#[test]
fn monetize_by_wrong_creator_fails() {
    let accounts = vec![
        account(7, 0, registered_user_record("u1", "alice", vec![7u8; 32], 200)),
        account(8, 0, content_record(30, 300)),
    ];
    let p = payload(Instruction::User(UserInstruction::MonetizeContent {
        content_id: "c1".to_string(),
        creator_user_id: "not-u1".to_string(),
        price: 99,
    }));
    assert_eq!(err_of(process_instruction(&pid(), &accounts, &p, 0)), EngineError::IdentityMismatch);
}

fn purchase_payload(amount: u64, timestamp: u64) -> Vec<u8> {
    payload(Instruction::User(UserInstruction::PurchaseContent {
        content_id: "c1".to_string(),
        purchaser_user_id: "u2".to_string(),
        amount,
        timestamp,
    }))
}

#[test]
fn purchase_moves_funds_and_appends_history() {
    // Creator balance 100, purchaser balance 50, price 30: afterwards
    // 130 and 20, and exactly one history entry with the supplied fields.
    let accounts = vec![
        account(1, 100, vec![0u8; 10]),
        account(2, 50, vec![0u8; 10]),
        account(3, 0, content_record(30, 300)),
    ];
    let out = process_instruction(&pid(), &accounts, &purchase_payload(30, 777), 0).unwrap();
    assert_eq!(out[0].lamports, 130);
    assert_eq!(out[1].lamports, 20);
    let c = decode_content(&out[2].data).unwrap();
    assert_eq!(c.price, 30);
    assert_eq!(c.purchase_data.len(), 1);
    assert_eq!(c.purchase_data[0].purchaser_user_id, "u2");
    assert_eq!(c.purchase_data[0].amount, 30);
    assert_eq!(c.purchase_data[0].timestamp, 777);
    // The funding records' buffers are untouched.
    assert_eq!(out[0].data, accounts[0].data);
    assert_eq!(out[1].data, accounts[1].data);
}

#[test]
fn purchase_with_wrong_amount_fails() {
    // Underpayment and overpayment both fail; no balance moves because no
    // account list is produced at all.
    let accounts = vec![
        account(1, 100, vec![0u8; 10]),
        account(2, 50, vec![0u8; 10]),
        account(3, 0, content_record(30, 300)),
    ];
    assert_eq!(err_of(process_instruction(&pid(), &accounts, &purchase_payload(29, 777), 0)), EngineError::PriceMismatch);
    assert_eq!(err_of(process_instruction(&pid(), &accounts, &purchase_payload(31, 777), 0)), EngineError::PriceMismatch);
}

#[test]
fn purchase_with_insufficient_balance_fails() {
    let accounts = vec![
        account(1, 100, vec![0u8; 10]),
        account(2, 29, vec![0u8; 10]),
        account(3, 0, content_record(30, 300)),
    ];
    assert_eq!(err_of(process_instruction(&pid(), &accounts, &purchase_payload(30, 777), 0)), EngineError::InsufficientBalance);
}

#[test]
fn purchase_into_full_record_fails_before_any_balance_move() {
    // The content record has no spare capacity for one more history entry.
    let exact = encode_content(
        &MonetizedContent {
            content_id: "c1".to_string(),
            creator_user_id: "u1".to_string(),
            price: 30,
            purchase_data: vec![],
        },
        10_000,
    )
    .unwrap();
    let accounts = vec![
        account(1, 100, vec![0u8; 10]),
        account(2, 50, vec![0u8; 10]),
        account(3, 0, exact),
    ];
    assert_eq!(err_of(process_instruction(&pid(), &accounts, &purchase_payload(30, 777), 0)), EngineError::HistoryCapacityExceeded);
}

#[test]
fn upload_manga_writes_record() {
    let accounts = vec![
        account(7, 0, registered_user_record("u1", "alice", vec![7u8; 32], 200)),
        account(8, 0, vec![0u8; 300]),
    ];
    let p = payload(Instruction::User(UserInstruction::UploadManga {
        manga_id: "mg1".to_string(),
        creator_user_id: "u1".to_string(),
        title: "Title".to_string(),
        description: "Desc".to_string(),
        media_urls: vec!["ipfs://p1".to_string()],
        timestamp: 12,
    }));
    let out = process_instruction(&pid(), &accounts, &p, 0).unwrap();
    let m = decode_manga(&out[1].data).unwrap();
    assert_eq!(m.manga_id, "mg1");
    assert_eq!(m.creator_user_id, "u1");
    assert_eq!(m.media_urls, vec!["ipfs://p1".to_string()]);
    assert_eq!(m.timestamp, 12);
}

#[test]
fn access_manga_writes_grant() {
    let accounts = vec![
        account(7, 0, registered_user_record("u1", "alice", vec![7u8; 32], 200)),
        account(8, 0, vec![0u8; 100]),
    ];
    let p = payload(Instruction::User(UserInstruction::AccessManga {
        manga_id: "mg1".to_string(),
        user_id: "u1".to_string(),
        access_data: "token".to_string(),
    }));
    let out = process_instruction(&pid(), &accounts, &p, 0).unwrap();
    let a = decode_manga_access(&out[1].data).unwrap();
    assert_eq!(a.manga_id, "mg1");
    assert_eq!(a.user_id, "u1");
    assert_eq!(a.access_data, "token");
}

#[test]
fn wrong_slot_count_fails() {
    let accounts = vec![
        account(7, 0, blank_user_record("u1", 200)),
        account(8, 0, vec![0u8; 100]),
    ];
    assert_eq!(err_of(process_instruction(&pid(), &accounts, &register_payload("u1", "alice", "{}"), 0)), EngineError::AccountCountMismatch);
}

#[test]
fn foreign_owner_fails() {
    let mut a = account(7, 0, blank_user_record("u1", 200));
    a.owner = vec![1u8; 32];
    let accounts = vec![a];
    assert_eq!(err_of(process_instruction(&pid(), &accounts, &register_payload("u1", "alice", "{}"), 0)), EngineError::OwnershipMismatch);
}

#[test]
fn garbage_record_fails_decode() {
    let accounts = vec![account(7, 0, vec![255u8; 8])];
    assert_eq!(err_of(process_instruction(&pid(), &accounts, &register_payload("u1", "alice", "{}"), 0)), EngineError::DecodeError);
}

#[test]
fn unknown_tag_fails() {
    let accounts = vec![account(7, 0, blank_user_record("u1", 200))];
    assert_eq!(err_of(process_instruction(&pid(), &accounts, &vec![99u8], 0)), EngineError::UnknownOperation);
}

#[test]
fn malformed_payload_fails() {
    let accounts = vec![account(7, 0, blank_user_record("u1", 200))];
    assert_eq!(err_of(process_instruction(&pid(), &accounts, &vec![], 0)), EngineError::MalformedPayload);
    // Trailing bytes after the operation's fields are refused.
    let mut p = register_payload("u1", "alice", "{}");
    p.push(0);
    assert_eq!(err_of(process_instruction(&pid(), &accounts, &p, 0)), EngineError::MalformedPayload);
    // A truncated payload is refused.
    let q = register_payload("u1", "alice", "{}");
    let q_short = q[..q.len() - 1].to_vec();
    assert_eq!(err_of(process_instruction(&pid(), &accounts, &q_short, 0)), EngineError::MalformedPayload);
}

#[test]
fn instruction_payload_round_trip() {
    let p = payload(Instruction::User(UserInstruction::UploadManga {
        manga_id: "mg1".to_string(),
        creator_user_id: "u1".to_string(),
        title: "T".to_string(),
        description: "D".to_string(),
        media_urls: vec!["a".to_string(), "b".to_string()],
        timestamp: 5,
    }));
    match decode_instruction(&p).unwrap() {
        Instruction::User(UserInstruction::UploadManga {
            manga_id,
            creator_user_id,
            title,
            description,
            media_urls,
            timestamp,
        }) => {
            assert_eq!(manga_id, "mg1");
            assert_eq!(creator_user_id, "u1");
            assert_eq!(title, "T");
            assert_eq!(description, "D");
            assert_eq!(media_urls, vec!["a".to_string(), "b".to_string()]);
            assert_eq!(timestamp, 5);
        },
        _ => panic!("decoded to the wrong operation"),
    }
}
