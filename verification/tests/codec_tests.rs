use animenexa::codec::decode_content;
use animenexa::codec::decode_group;
use animenexa::codec::decode_group_message;
use animenexa::codec::decode_manga;
use animenexa::codec::decode_manga_access;
use animenexa::codec::decode_media;
use animenexa::codec::decode_message;
use animenexa::codec::decode_post;
use animenexa::codec::decode_user;
use animenexa::codec::encode_content;
use animenexa::codec::encode_group;
use animenexa::codec::encode_group_message;
use animenexa::codec::encode_manga;
use animenexa::codec::encode_manga_access;
use animenexa::codec::encode_media;
use animenexa::codec::encode_message;
use animenexa::codec::encode_post;
use animenexa::codec::encode_user;
use animenexa::entities::Group;
use animenexa::entities::GroupMessage;
use animenexa::entities::Manga;
use animenexa::entities::MangaAccess;
use animenexa::entities::Media;
use animenexa::entities::Message;
use animenexa::entities::MonetizedContent;
use animenexa::entities::Post;
use animenexa::entities::Purchase;
use animenexa::entities::User;
use animenexa::errors::EngineError;

const CAP: usize = 10_000;

fn err_of<T>(r: Result<T, EngineError>) -> EngineError {
    match r {
        Err(e) => e,
        Ok(_) => panic!("expected an error"),
    }
}


fn padded(mut enc: Vec<u8>, len: usize) -> Vec<u8> {
    while enc.len() < len {
        enc.push(0);
    }
    enc
}

#[test]
fn user_round_trip() {
    let u = User {
        user_id: "u1".to_string(),
        username: "alice".to_string(),
        public_key: vec![1, 2, 3, 4],
        profile_data: "{\"bio\":\"héllo\"}".to_string(),
    };
    let enc = encode_user(&u, CAP).unwrap();
    let d = decode_user(&enc).unwrap();
    assert_eq!(d.user_id, u.user_id);
    assert_eq!(d.username, u.username);
    assert_eq!(d.public_key, u.public_key);
    assert_eq!(d.profile_data, u.profile_data);
    // A record keeps its fixed capacity: trailing padding is ignored.
    let d2 = decode_user(&padded(enc, 300)).unwrap();
    assert_eq!(d2.user_id, u.user_id);
    assert_eq!(d2.username, u.username);
}

#[test]
fn post_round_trip() {
    let p = Post {
        post_id: "p1".to_string(),
        user_id: "u1".to_string(),
        content_data: "{\"text\":\"hi\"}".to_string(),
        timestamp: 123_456_789,
    };
    let enc = encode_post(&p, CAP).unwrap();
    let d = decode_post(&enc).unwrap();
    assert_eq!(d.post_id, p.post_id);
    assert_eq!(d.user_id, p.user_id);
    assert_eq!(d.content_data, p.content_data);
    assert_eq!(d.timestamp, p.timestamp);
}

#[test]
fn media_round_trip() {
    let m = Media {
        media_id: "m1".to_string(),
        post_id: "p1".to_string(),
        user_id: "u1".to_string(),
        media_url: "ipfs://abc".to_string(),
        media_type: "image/png".to_string(),
    };
    let enc = encode_media(&m, CAP).unwrap();
    let d = decode_media(&enc).unwrap();
    assert_eq!(d.media_id, m.media_id);
    assert_eq!(d.post_id, m.post_id);
    assert_eq!(d.user_id, m.user_id);
    assert_eq!(d.media_url, m.media_url);
    assert_eq!(d.media_type, m.media_type);
}

#[test]
fn message_round_trip() {
    let m = Message {
        message_id: "msg1".to_string(),
        sender_user_id: "u1".to_string(),
        recipient_user_id: "u2".to_string(),
        message_content: "hello".to_string(),
        timestamp: 42,
    };
    let enc = encode_message(&m, CAP).unwrap();
    let d = decode_message(&enc).unwrap();
    assert_eq!(d.message_id, m.message_id);
    assert_eq!(d.sender_user_id, m.sender_user_id);
    assert_eq!(d.recipient_user_id, m.recipient_user_id);
    assert_eq!(d.message_content, m.message_content);
    assert_eq!(d.timestamp, m.timestamp);
}

#[test]
fn group_round_trip() {
    let g = Group {
        group_id: "g1".to_string(),
        members: vec!["u1".to_string(), "u2".to_string(), "u3".to_string()],
    };
    let enc = encode_group(&g, CAP).unwrap();
    let d = decode_group(&enc).unwrap();
    assert_eq!(d.group_id, g.group_id);
    assert_eq!(d.members, g.members);
}

#[test]
fn group_with_no_members_round_trip() {
    let g = Group { group_id: "lonely".to_string(), members: vec![] };
    let enc = encode_group(&g, CAP).unwrap();
    let d = decode_group(&enc).unwrap();
    assert_eq!(d.group_id, g.group_id);
    assert!(d.members.is_empty());
}

#[test]
fn group_message_round_trip() {
    let m = GroupMessage {
        group_id: "g1".to_string(),
        user_id: "u2".to_string(),
        message_content: "hi all".to_string(),
        timestamp: 7,
    };
    let enc = encode_group_message(&m, CAP).unwrap();
    let d = decode_group_message(&enc).unwrap();
    assert_eq!(d.group_id, m.group_id);
    assert_eq!(d.user_id, m.user_id);
    assert_eq!(d.message_content, m.message_content);
    assert_eq!(d.timestamp, m.timestamp);
}

#[test]
fn content_round_trip() {
    let c = MonetizedContent {
        content_id: "c1".to_string(),
        creator_user_id: "u1".to_string(),
        price: 30,
        purchase_data: vec![
            Purchase { purchaser_user_id: "u2".to_string(), amount: 30, timestamp: 100 },
            Purchase { purchaser_user_id: "u3".to_string(), amount: 30, timestamp: 200 },
        ],
    };
    let enc = encode_content(&c, CAP).unwrap();
    let d = decode_content(&enc).unwrap();
    assert_eq!(d.content_id, c.content_id);
    assert_eq!(d.creator_user_id, c.creator_user_id);
    assert_eq!(d.price, c.price);
    assert_eq!(d.purchase_data.len(), 2);
    assert_eq!(d.purchase_data[0].purchaser_user_id, "u2");
    assert_eq!(d.purchase_data[0].amount, 30);
    assert_eq!(d.purchase_data[0].timestamp, 100);
    assert_eq!(d.purchase_data[1].purchaser_user_id, "u3");
    assert_eq!(d.purchase_data[1].timestamp, 200);
}

#[test]
fn manga_round_trip() {
    let m = Manga {
        manga_id: "mg1".to_string(),
        creator_user_id: "u1".to_string(),
        title: "Title".to_string(),
        description: "Desc".to_string(),
        media_urls: vec!["ipfs://p1".to_string(), "ipfs://p2".to_string()],
        timestamp: 9,
    };
    let enc = encode_manga(&m, CAP).unwrap();
    let d = decode_manga(&enc).unwrap();
    assert_eq!(d.manga_id, m.manga_id);
    assert_eq!(d.creator_user_id, m.creator_user_id);
    assert_eq!(d.title, m.title);
    assert_eq!(d.description, m.description);
    assert_eq!(d.media_urls, m.media_urls);
    assert_eq!(d.timestamp, m.timestamp);
}

#[test]
fn manga_access_round_trip() {
    let a = MangaAccess {
        manga_id: "mg1".to_string(),
        user_id: "u1".to_string(),
        access_data: "token".to_string(),
    };
    let enc = encode_manga_access(&a, CAP).unwrap();
    let d = decode_manga_access(&enc).unwrap();
    assert_eq!(d.manga_id, a.manga_id);
    assert_eq!(d.user_id, a.user_id);
    assert_eq!(d.access_data, a.access_data);
}

#[test]
fn encode_over_capacity_fails() {
    let u = User {
        user_id: "u1".to_string(),
        username: "alice".to_string(),
        public_key: vec![0; 32],
        profile_data: "{}".to_string(),
    };
    // The record is far too small: encoding must refuse, never truncate.
    assert_eq!(encode_user(&u, 10), Err(EngineError::CapacityExceeded));
    let exact = encode_user(&u, CAP).unwrap().len();
    assert_eq!(encode_user(&u, exact - 1), Err(EngineError::CapacityExceeded));
    assert!(encode_user(&u, exact).is_ok());
}

#[test]
fn decode_truncated_fails() {
    assert_eq!(err_of(decode_user(&vec![1, 0, 0])), EngineError::DecodeError);
    assert_eq!(err_of(decode_post(&vec![])), EngineError::DecodeError);
    // A length prefix larger than the rest of the buffer is malformed.
    assert_eq!(err_of(decode_user(&vec![255, 255, 255, 255, 0, 0])), EngineError::DecodeError);
}

#[test]
fn decode_invalid_utf8_fails() {
    // One byte of 0xFF is not valid UTF-8.
    let bad = vec![1, 0, 0, 0, 0xFF, 0, 0, 0, 0, 0, 0, 0, 0, 0, 0, 0, 0];
    assert_eq!(err_of(decode_user(&bad)), EngineError::DecodeError);
}

#[test]
fn all_zero_record_decodes_empty() {
    // A freshly allocated record is all zeros and decodes to the empty
    // entity; re-encoding it does not reproduce the padding.
    let blank = vec![0u8; 64];
    let d = decode_user(&blank).unwrap();
    assert_eq!(d.user_id, "");
    assert_eq!(d.username, "");
    assert!(d.public_key.is_empty());
    assert_eq!(d.profile_data, "");
    let re = encode_user(&d, 64).unwrap();
    assert_eq!(re.len(), 16);
    assert_ne!(re.len(), blank.len());
}
