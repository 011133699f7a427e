//! The record layout (length-prefixed strings and lists, little-endian
//! integers) is the same layout borsh derives for the corresponding field
//! tuples; these tests hold the two encoders against each other.

use animenexa::codec::encode_content;
use animenexa::codec::encode_group;
use animenexa::codec::encode_manga;
use animenexa::codec::encode_user;
use animenexa::entities::Group;
use animenexa::entities::Manga;
use animenexa::entities::MonetizedContent;
use animenexa::entities::Purchase;
use animenexa::entities::User;

const CAP: usize = 10_000;

#[test]
fn user_layout_matches_borsh() {
    let u = User {
        user_id: "u1".to_string(),
        username: "alice".to_string(),
        public_key: vec![7, 8, 9],
        profile_data: "{}".to_string(),
    };
    let ours = encode_user(&u, CAP).unwrap();
    let theirs = borsh::to_vec(&(
        "u1".to_string(),
        "alice".to_string(),
        vec![7u8, 8, 9],
        "{}".to_string(),
    ))
    .unwrap();
    assert_eq!(ours, theirs);
}

#[test]
fn group_layout_matches_borsh() {
    let g = Group {
        group_id: "g1".to_string(),
        members: vec!["u1".to_string(), "u2".to_string()],
    };
    let ours = encode_group(&g, CAP).unwrap();
    let theirs =
        borsh::to_vec(&("g1".to_string(), vec!["u1".to_string(), "u2".to_string()])).unwrap();
    assert_eq!(ours, theirs);
}

#[test]
fn content_layout_matches_borsh() {
    let c = MonetizedContent {
        content_id: "c1".to_string(),
        creator_user_id: "u1".to_string(),
        price: 30,
        purchase_data: vec![Purchase {
            purchaser_user_id: "u2".to_string(),
            amount: 30,
            timestamp: 100,
        }],
    };
    let ours = encode_content(&c, CAP).unwrap();
    let theirs = borsh::to_vec(&(
        "c1".to_string(),
        "u1".to_string(),
        30u64,
        vec![("u2".to_string(), 30u64, 100u64)],
    ))
    .unwrap();
    assert_eq!(ours, theirs);
}

#[test]
fn manga_layout_matches_borsh() {
    let m = Manga {
        manga_id: "mg1".to_string(),
        creator_user_id: "u1".to_string(),
        title: "T".to_string(),
        description: "D".to_string(),
        media_urls: vec!["a".to_string(), "b".to_string()],
        timestamp: 5,
    };
    let ours = encode_manga(&m, CAP).unwrap();
    let theirs = borsh::to_vec(&(
        "mg1".to_string(),
        "u1".to_string(),
        "T".to_string(),
        "D".to_string(),
        vec!["a".to_string(), "b".to_string()],
        5u64,
    ))
    .unwrap();
    assert_eq!(ours, theirs);
}
