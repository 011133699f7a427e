//! The record codec: one encoder and one decoder per entity type.
//!
//! Encoding is total on encodable values and fails with
//! [`EngineError::CapacityExceeded`] exactly when the encoded bytes would not
//! fit the record's fixed capacity (or a length would not fit its 32-bit
//! prefix). Decoding reads the entity's fields from the front of the buffer
//! and ignores the remaining bytes: a record keeps its full fixed capacity,
//! so an encoding is followed by the padding the host allocated. For that
//! reason `encode(decode(b)) == b` does not hold in general, while
//! `decode(encode(v)) == v` holds for every encodable value; the
//! `lemma_*_round_trip` proofs state the latter for each entity type.

use vstd::prelude::*;

use crate::entities::Group;
use crate::entities::GroupMessage;
use crate::entities::GroupMessageView;
use crate::entities::GroupView;
use crate::entities::Manga;
use crate::entities::MangaAccess;
use crate::entities::MangaAccessView;
use crate::entities::MangaView;
use crate::entities::Media;
use crate::entities::MediaView;
use crate::entities::Message;
use crate::entities::MessageView;
use crate::entities::MonetizedContent;
use crate::entities::MonetizedContentView;
use crate::entities::Post;
use crate::entities::PostView;
use crate::entities::Purchase;
use crate::entities::PurchaseView;
use crate::entities::User;
use crate::entities::UserView;
use crate::errors::EngineError;
use crate::wire::bytes_fit;
use crate::wire::enc_bytes;
use crate::wire::enc_str;
use crate::wire::enc_str_list;
use crate::wire::enc_u32;
use crate::wire::enc_u64;
use crate::wire::lemma_enc_u64_len;
use crate::wire::lemma_parse_bytes_of_enc;
use crate::wire::lemma_parse_str_list_of_enc;
use crate::wire::lemma_parse_str_of_enc;
use crate::wire::lemma_parse_u32_of_enc;
use crate::wire::lemma_parse_u64_of_enc;
use crate::wire::parse_bytes;
use crate::wire::parse_str;
use crate::wire::parse_str_list;
use crate::wire::parse_u32;
use crate::wire::parse_u64;
use crate::wire::push_bytes;
use crate::wire::push_str;
use crate::wire::push_str_list;
use crate::wire::push_u32;
use crate::wire::push_u64;
use crate::wire::read_bytes;
use crate::wire::read_string;
use crate::wire::read_string_list;
use crate::wire::read_u32;
use crate::wire::read_u64;
use crate::wire::str_fits;
use crate::wire::str_list_fits;

use vstd::bytes::lemma_auto_spec_u32_to_from_le_bytes;
use vstd::string::StrSliceExecFns;

verus! {

// ===========================================================================
// Purchase and purchase lists
// ===========================================================================
/// Whether a purchase can be encoded.
pub open spec fn purchase_encodable(p: PurchaseView) -> bool {
    str_fits(p.purchaser_user_id)
}

/// The encoding of one purchase: purchaser id, amount, timestamp.
pub open spec fn spec_encode_purchase(p: PurchaseView) -> Seq<u8> {
    enc_str(p.purchaser_user_id) + enc_u64(p.amount) + enc_u64(p.timestamp)
}

/// Whether a purchase history can be encoded.
pub open spec fn purchases_encodable(l: Seq<PurchaseView>) -> bool {
    l.len() <= u32::MAX && (forall|i: int|
        0 <= i < l.len() ==> purchase_encodable(#[trigger] l[i]))
}

/// The concatenation of the encodings of a history's purchases.
pub open spec fn enc_purchase_items(l: Seq<PurchaseView>) -> Seq<u8>
    decreases l.len(),
{
    if l.len() == 0 {
        Seq::<u8>::empty()
    } else {
        spec_encode_purchase(l[0]) + enc_purchase_items(l.drop_first())
    }
}

/// A count-prefixed purchase history.
pub open spec fn enc_purchase_list(l: Seq<PurchaseView>) -> Seq<u8> {
    enc_u32(l.len() as u32) + enc_purchase_items(l)
}

/// Reads one purchase at `pos`.
pub open spec fn parse_purchase(b: Seq<u8>, pos: int) -> Option<(PurchaseView, int)> {
    match parse_str(b, pos) {
        Some((purchaser_user_id, p1)) => match parse_u64(b, p1) {
            Some((amount, p2)) => match parse_u64(b, p2) {
                Some((timestamp, p3)) => Some(
                    (PurchaseView { purchaser_user_id, amount, timestamp }, p3),
                ),
                None => None,
            },
            None => None,
        },
        None => None,
    }
}

/// Reads exactly `n` consecutive purchases starting at `pos`.
pub open spec fn parse_purchase_items(b: Seq<u8>, pos: int, n: nat) -> Option<
    (Seq<PurchaseView>, int),
>
    decreases n,
{
    if n == 0 {
        Some((Seq::<PurchaseView>::empty(), pos))
    } else {
        match parse_purchase(b, pos) {
            Some((p, q)) => match parse_purchase_items(b, q, (n - 1) as nat) {
                Some((rest, r)) => Some((seq![p] + rest, r)),
                None => None,
            },
            None => None,
        }
    }
}

/// Reads a count-prefixed purchase history at `pos`.
pub open spec fn parse_purchase_list(b: Seq<u8>, pos: int) -> Option<(Seq<PurchaseView>, int)> {
    match parse_u32(b, pos) {
        Some((n, p)) => parse_purchase_items(b, p, n as nat),
        None => None,
    }
}

/// Parsing bytes that hold `spec_encode_purchase(p)` yields `p`.
pub proof fn lemma_parse_purchase_of_enc(b: Seq<u8>, pos: int, p: PurchaseView)
    requires
        0 <= pos,
        purchase_encodable(p),
        pos + spec_encode_purchase(p).len() <= b.len(),
        b.subrange(pos, pos + spec_encode_purchase(p).len()) == spec_encode_purchase(p),
    ensures
        parse_purchase(b, pos) == Some((p, pos + spec_encode_purchase(p).len())),
{
    let e = spec_encode_purchase(p);
    let e1 = enc_str(p.purchaser_user_id);
    let e2 = enc_u64(p.amount);
    let e3 = enc_u64(p.timestamp);
    lemma_enc_u64_len(p.amount);
    lemma_enc_u64_len(p.timestamp);
    assert(b.subrange(pos, pos + e1.len()) =~= e.subrange(0, e1.len() as int));
    assert(e.subrange(0, e1.len() as int) =~= e1);
    lemma_parse_str_of_enc(b, pos, p.purchaser_user_id);
    let p1 = pos + e1.len() as int;
    assert(b.subrange(p1, p1 + 8) =~= e.subrange(e1.len() as int, e1.len() as int + 8));
    assert(e.subrange(e1.len() as int, e1.len() as int + 8) =~= e2);
    lemma_parse_u64_of_enc(b, p1, p.amount);
    let p2 = p1 + 8;
    assert(b.subrange(p2, p2 + 8) =~= e.subrange(e1.len() as int + 8, e.len() as int));
    assert(e.subrange(e1.len() as int + 8, e.len() as int) =~= e3);
    lemma_parse_u64_of_enc(b, p2, p.timestamp);
    assert(PurchaseView { purchaser_user_id: p.purchaser_user_id, amount: p.amount, timestamp: p.timestamp } == p);
}

/// Parsing bytes that hold `enc_purchase_items(l)` yields `l`.
pub proof fn lemma_parse_purchase_items_of_enc(b: Seq<u8>, pos: int, l: Seq<PurchaseView>)
    requires
        0 <= pos,
        purchases_encodable(l),
        pos + enc_purchase_items(l).len() <= b.len(),
        b.subrange(pos, pos + enc_purchase_items(l).len()) == enc_purchase_items(l),
    ensures
        parse_purchase_items(b, pos, l.len()) == Some((l, pos + enc_purchase_items(l).len())),
    decreases l.len(),
{
    if l.len() == 0 {
        assert(l =~= Seq::<PurchaseView>::empty());
    } else {
        let e = enc_purchase_items(l);
        let e0 = spec_encode_purchase(l[0]);
        let rest = enc_purchase_items(l.drop_first());
        assert(e == e0 + rest);
        assert(b.subrange(pos, pos + e0.len() as int) =~= e.subrange(0, e0.len() as int));
        assert(e.subrange(0, e0.len() as int) =~= e0);
        lemma_parse_purchase_of_enc(b, pos, l[0]);
        let p = pos + e0.len() as int;
        assert(b.subrange(p, p + rest.len() as int) =~= e.subrange(
            e0.len() as int,
            e.len() as int,
        ));
        assert(e.subrange(e0.len() as int, e.len() as int) =~= rest);
        assert(forall|i: int|
            0 <= i < l.drop_first().len() ==> purchase_encodable(#[trigger] l.drop_first()[i]));
        lemma_parse_purchase_items_of_enc(b, p, l.drop_first());
        assert(seq![l[0]] + l.drop_first() =~= l);
    }
}

/// Parsing bytes that hold `enc_purchase_list(l)` yields `l`.
pub proof fn lemma_parse_purchase_list_of_enc(b: Seq<u8>, pos: int, l: Seq<PurchaseView>)
    requires
        0 <= pos,
        purchases_encodable(l),
        pos + enc_purchase_list(l).len() <= b.len(),
        b.subrange(pos, pos + enc_purchase_list(l).len()) == enc_purchase_list(l),
    ensures
        parse_purchase_list(b, pos) == Some((l, pos + enc_purchase_list(l).len())),
{
    lemma_auto_spec_u32_to_from_le_bytes();
    let e = enc_purchase_list(l);
    let items = enc_purchase_items(l);
    assert(b.subrange(pos, pos + 4) =~= e.subrange(0, 4));
    assert(e.subrange(0, 4) =~= enc_u32(l.len() as u32));
    lemma_parse_u32_of_enc(b, pos, l.len() as u32);
    let p = pos + 4;
    assert(b.subrange(p, p + items.len() as int) =~= e.subrange(4, e.len() as int));
    assert(e.subrange(4, e.len() as int) =~= items);
    lemma_parse_purchase_items_of_enc(b, p, l);
}

/// Appending one purchase's encoding to the encoding of the purchases before
/// it gives the encoding of the purchases through it.
proof fn lemma_enc_purchase_items_snoc(l: Seq<PurchaseView>, i: int)
    requires
        0 <= i < l.len(),
    ensures
        enc_purchase_items(l.subrange(0, i + 1)) == enc_purchase_items(l.subrange(0, i))
            + spec_encode_purchase(l[i]),
    decreases i,
{
    if i == 0 {
        assert(l.subrange(0, 1) =~= seq![l[0]]);
        assert(seq![l[0]].drop_first() =~= Seq::<PurchaseView>::empty());
        assert(l.subrange(0, 0) =~= Seq::<PurchaseView>::empty());
        assert(enc_purchase_items(l.subrange(0, 0)) + spec_encode_purchase(l[0])
            =~= spec_encode_purchase(l[0]) + Seq::<u8>::empty());
        assert(spec_encode_purchase(l[0]) + Seq::<u8>::empty() =~= spec_encode_purchase(l[0]));
    } else {
        let t = l.drop_first();
        lemma_enc_purchase_items_snoc(t, i - 1);
        assert(l.subrange(0, i + 1).drop_first() =~= t.subrange(0, i));
        assert(l.subrange(0, i).drop_first() =~= t.subrange(0, i - 1));
        assert(enc_purchase_items(l.subrange(0, i + 1)) == spec_encode_purchase(l[0])
            + enc_purchase_items(t.subrange(0, i)));
        assert(enc_purchase_items(l.subrange(0, i)) == spec_encode_purchase(l[0])
            + enc_purchase_items(t.subrange(0, i - 1)));
        assert(spec_encode_purchase(l[0]) + (enc_purchase_items(t.subrange(0, i - 1))
            + spec_encode_purchase(t[i - 1])) =~= (spec_encode_purchase(l[0])
            + enc_purchase_items(t.subrange(0, i - 1))) + spec_encode_purchase(t[i - 1]));
    }
}

/// The view of a purchase vector.
pub open spec fn purchases_view(l: Seq<Purchase>) -> Seq<PurchaseView> {
    l.map_values(|p: Purchase| p@)
}

/// Reads one purchase.
fn read_purchase(b: &Vec<u8>, pos: usize) -> (r: Option<(Purchase, usize)>)
    ensures
        match r {
            Some((p, q)) => parse_purchase(b@, pos as int) == Some((p@, q as int))
                && purchase_encodable(p@),
            None => parse_purchase(b@, pos as int) is None,
        },
{
    let (purchaser_user_id, p1) = match read_string(b, pos) {
        Some(x) => x,
        None => {
            return None;
        },
    };
    let (amount, p2) = match read_u64(b, p1) {
        Some(x) => x,
        None => {
            return None;
        },
    };
    let (timestamp, p3) = match read_u64(b, p2) {
        Some(x) => x,
        None => {
            return None;
        },
    };
    Some((Purchase { purchaser_user_id, amount, timestamp }, p3))
}

/// Reads a count-prefixed purchase history.
fn read_purchase_list(b: &Vec<u8>, pos: usize) -> (r: Option<(Vec<Purchase>, usize)>)
    ensures
        match r {
            Some((l, p)) => parse_purchase_list(b@, pos as int) == Some(
                (purchases_view(l@), p as int),
            ) && purchases_encodable(purchases_view(l@)),
            None => parse_purchase_list(b@, pos as int) is None,
        },
{
    match read_u32(b, pos) {
        Some((n, p0)) => {
            let mut out: Vec<Purchase> = Vec::new();
            let mut cur: usize = p0;
            let mut i: u32 = 0;
            loop
                invariant
                    i <= n,
                    out@.len() == i as int,
                    purchases_encodable(purchases_view(out@)),
                    parse_purchase_list(b@, pos as int) == parse_purchase_items(
                        b@,
                        p0 as int,
                        n as nat,
                    ),
                    parse_purchase_items(b@, p0 as int, n as nat) == (match parse_purchase_items(
                        b@,
                        cur as int,
                        (n - i) as nat,
                    ) {
                        Some((rest, q)) => Some((purchases_view(out@) + rest, q)),
                        None => None,
                    }),
                decreases n - i,
            {
                if i == n {
                    assert(parse_purchase_items(b@, cur as int, 0) == Some(
                        (Seq::<PurchaseView>::empty(), cur as int),
                    ));
                    assert(purchases_view(out@) + Seq::<PurchaseView>::empty() =~= purchases_view(
                        out@,
                    ));
                    return Some((out, cur));
                }
                match read_purchase(b, cur) {
                    Some((p, q)) => {
                        let ghost old_view = purchases_view(out@);
                        let ghost pv = p@;
                        out.push(p);
                        proof {
                            assert(purchases_view(out@) =~= old_view + seq![pv]);
                            assert(forall|j: int|
                                0 <= j < purchases_view(out@).len() ==> purchase_encodable(
                                    #[trigger] purchases_view(out@)[j],
                                ));
                            assert((old_view + seq![pv]) + parse_purchase_items(
                                b@,
                                q as int,
                                (n - i - 1) as nat,
                            )->Some_0.0 =~= old_view + (seq![pv] + parse_purchase_items(
                                b@,
                                q as int,
                                (n - i - 1) as nat,
                            )->Some_0.0));
                        }
                        cur = q;
                        i = i + 1;
                    },
                    None => {
                        return None;
                    },
                }
            }
        },
        None => None,
    }
}

/// Appends `spec_encode_purchase(p@)`, or reports that the purchaser id is
/// too long for its length prefix.
fn push_purchase(out: &mut Vec<u8>, p: &Purchase) -> (r: Result<(), EngineError>)
    ensures
        match r {
            Ok(_) => purchase_encodable(p@) && final(out)@ == old(out)@ + spec_encode_purchase(p@),
            Err(e) => e == EngineError::CapacityExceeded && !purchase_encodable(p@) && final(out)@
                == old(out)@,
        },
{
    match push_str(out, &p.purchaser_user_id) {
        Ok(_) => {},
        Err(e) => {
            return Err(e);
        },
    }
    push_u64(out, p.amount);
    push_u64(out, p.timestamp);
    assert(final(out)@ =~= old(out)@ + spec_encode_purchase(p@));
    Ok(())
}

/// Appends `enc_purchase_list(purchases_view(l@))`, or reports that the
/// history or one of its purchaser ids is too long for its length prefix.
fn push_purchase_list(out: &mut Vec<u8>, l: &Vec<Purchase>) -> (r: Result<(), EngineError>)
    ensures
        match r {
            Ok(_) => purchases_encodable(purchases_view(l@)) && final(out)@ == old(out)@
                + enc_purchase_list(purchases_view(l@)),
            Err(e) => e == EngineError::CapacityExceeded && !purchases_encodable(
                purchases_view(l@),
            ) && final(out)@ == old(out)@,
        },
{
    let ghost lv = purchases_view(l@);
    if l.len() > u32::MAX as usize {
        assert(lv.len() == l@.len());
        return Err(EngineError::CapacityExceeded);
    }
    // A purchaser id too long for its prefix makes the whole history
    // unencodable; the record stays untouched, so scan before writing.
    let mut k: usize = 0;
    while k < l.len()
        invariant
            k <= l@.len(),
            lv == purchases_view(l@),
            lv.len() == l@.len(),
            forall|j: int| 0 <= j < k ==> purchase_encodable(#[trigger] lv[j]),
        decreases l@.len() - k,
    {
        assert(lv[k as int] == l@[k as int]@);
        let raw = l[k].purchaser_user_id.as_str().as_bytes_vec();
        if raw.len() > u32::MAX as usize {
            assert(!purchase_encodable(lv[k as int]));
            return Err(EngineError::CapacityExceeded);
        }
        assert(purchase_encodable(lv[k as int]));
        k = k + 1;
    }
    push_u32(out, l.len() as u32);
    let ghost base = out@;
    let mut i: usize = 0;
    while i < l.len()
        invariant
            i <= l@.len(),
            lv == purchases_view(l@),
            lv.len() == l@.len(),
            purchases_encodable(lv),
            out@ == base + enc_purchase_items(lv.subrange(0, i as int)),
        decreases l@.len() - i,
    {
        let res = push_purchase(out, &l[i]);
        proof {
            lemma_enc_purchase_items_snoc(lv, i as int);
            assert(l@[i as int]@ == lv[i as int]);
        }
        match res {
            Ok(_) => {},
            Err(_) => {
                // Unreachable: every purchaser id was length-checked above.
                assert(false);
            },
        }
        i = i + 1;
    }
    assert(lv.subrange(0, lv.len() as int) =~= lv);
    Ok(())
}

// ===========================================================================
// User
// ===========================================================================
/// Whether a user record can be encoded.
pub open spec fn user_encodable(u: UserView) -> bool {
    str_fits(u.user_id) && str_fits(u.username) && bytes_fit(u.public_key) && str_fits(
        u.profile_data,
    )
}

/// The encoding of a user record.
pub open spec fn spec_encode_user(u: UserView) -> Seq<u8> {
    enc_str(u.user_id) + enc_str(u.username) + enc_bytes(u.public_key) + enc_str(u.profile_data)
}

/// Reads a user record from the front of a buffer.
pub open spec fn spec_parse_user(b: Seq<u8>) -> Option<(UserView, int)> {
    match parse_str(b, 0) {
        Some((user_id, p1)) => match parse_str(b, p1) {
            Some((username, p2)) => match parse_bytes(b, p2) {
                Some((public_key, p3)) => match parse_str(b, p3) {
                    Some((profile_data, p4)) => Some(
                        (UserView { user_id, username, public_key, profile_data }, p4),
                    ),
                    None => None,
                },
                None => None,
            },
            None => None,
        },
        None => None,
    }
}

/// Encodes a user record, within a record capacity of `cap` bytes.
pub fn encode_user(u: &User, cap: usize) -> (r: Result<Vec<u8>, EngineError>)
    ensures
        match r {
            Ok(v) => user_encodable(u@) && v@ == spec_encode_user(u@) && v@.len() <= cap,
            Err(e) => e == EngineError::CapacityExceeded && !(user_encodable(u@)
                && spec_encode_user(u@).len() <= cap),
        },
{
    let mut out: Vec<u8> = Vec::new();
    match push_str(&mut out, &u.user_id) {
        Ok(_) => {},
        Err(e) => {
            return Err(e);
        },
    }
    match push_str(&mut out, &u.username) {
        Ok(_) => {},
        Err(e) => {
            return Err(e);
        },
    }
    match push_bytes(&mut out, &u.public_key) {
        Ok(_) => {},
        Err(e) => {
            return Err(e);
        },
    }
    match push_str(&mut out, &u.profile_data) {
        Ok(_) => {},
        Err(e) => {
            return Err(e);
        },
    }
    assert(out@ =~= spec_encode_user(u@));
    if out.len() > cap {
        return Err(EngineError::CapacityExceeded);
    }
    Ok(out)
}

/// Decodes a user record from the front of a buffer.
pub fn decode_user(b: &Vec<u8>) -> (r: Result<User, EngineError>)
    ensures
        match r {
            Ok(u) => spec_parse_user(b@) matches Some(pr) && u@ == pr.0 && user_encodable(u@),
            Err(e) => e == EngineError::DecodeError && spec_parse_user(b@) is None,
        },
{
    let (user_id, p1) = match read_string(b, 0) {
        Some(x) => x,
        None => {
            return Err(EngineError::DecodeError);
        },
    };
    let (username, p2) = match read_string(b, p1) {
        Some(x) => x,
        None => {
            return Err(EngineError::DecodeError);
        },
    };
    let (public_key, p3) = match read_bytes(b, p2) {
        Some(x) => x,
        None => {
            return Err(EngineError::DecodeError);
        },
    };
    let (profile_data, _p4) = match read_string(b, p3) {
        Some(x) => x,
        None => {
            return Err(EngineError::DecodeError);
        },
    };
    Ok(User { user_id, username, public_key, profile_data })
}

/// Decoding an encoded user record yields the record back, whatever padding
/// follows the encoding in the fixed-capacity buffer.
pub proof fn lemma_user_round_trip(u: UserView, tail: Seq<u8>)
    requires
        user_encodable(u),
    ensures
        spec_parse_user(spec_encode_user(u) + tail) == Some(
            (u, spec_encode_user(u).len() as int),
        ),
{
    let e = spec_encode_user(u);
    let b = e + tail;
    let e1 = enc_str(u.user_id);
    let e2 = enc_str(u.username);
    let e3 = enc_bytes(u.public_key);
    let e4 = enc_str(u.profile_data);
    let p1 = e1.len() as int;
    let p2 = p1 + e2.len() as int;
    let p3 = p2 + e3.len() as int;
    let p4 = p3 + e4.len() as int;
    assert(b.subrange(0, p1) =~= e1);
    lemma_parse_str_of_enc(b, 0, u.user_id);
    assert(b.subrange(p1, p2) =~= e2);
    lemma_parse_str_of_enc(b, p1, u.username);
    assert(b.subrange(p2, p3) =~= e3);
    lemma_parse_bytes_of_enc(b, p2, u.public_key);
    assert(b.subrange(p3, p4) =~= e4);
    lemma_parse_str_of_enc(b, p3, u.profile_data);
    assert(UserView {
        user_id: u.user_id,
        username: u.username,
        public_key: u.public_key,
        profile_data: u.profile_data,
    } == u);
}

// ===========================================================================
// Post
// ===========================================================================
/// Whether a post record can be encoded.
pub open spec fn post_encodable(p: PostView) -> bool {
    str_fits(p.post_id) && str_fits(p.user_id) && str_fits(p.content_data)
}

/// The encoding of a post record.
pub open spec fn spec_encode_post(p: PostView) -> Seq<u8> {
    enc_str(p.post_id) + enc_str(p.user_id) + enc_str(p.content_data) + enc_u64(p.timestamp)
}

/// Reads a post record from the front of a buffer.
pub open spec fn spec_parse_post(b: Seq<u8>) -> Option<(PostView, int)> {
    match parse_str(b, 0) {
        Some((post_id, p1)) => match parse_str(b, p1) {
            Some((user_id, p2)) => match parse_str(b, p2) {
                Some((content_data, p3)) => match parse_u64(b, p3) {
                    Some((timestamp, p4)) => Some(
                        (PostView { post_id, user_id, content_data, timestamp }, p4),
                    ),
                    None => None,
                },
                None => None,
            },
            None => None,
        },
        None => None,
    }
}

/// Encodes a post record, within a record capacity of `cap` bytes.
pub fn encode_post(p: &Post, cap: usize) -> (r: Result<Vec<u8>, EngineError>)
    ensures
        match r {
            Ok(v) => post_encodable(p@) && v@ == spec_encode_post(p@) && v@.len() <= cap,
            Err(e) => e == EngineError::CapacityExceeded && !(post_encodable(p@)
                && spec_encode_post(p@).len() <= cap),
        },
{
    let mut out: Vec<u8> = Vec::new();
    match push_str(&mut out, &p.post_id) {
        Ok(_) => {},
        Err(e) => {
            return Err(e);
        },
    }
    match push_str(&mut out, &p.user_id) {
        Ok(_) => {},
        Err(e) => {
            return Err(e);
        },
    }
    match push_str(&mut out, &p.content_data) {
        Ok(_) => {},
        Err(e) => {
            return Err(e);
        },
    }
    push_u64(&mut out, p.timestamp);
    assert(out@ =~= spec_encode_post(p@));
    if out.len() > cap {
        return Err(EngineError::CapacityExceeded);
    }
    Ok(out)
}

/// Decodes a post record from the front of a buffer.
pub fn decode_post(b: &Vec<u8>) -> (r: Result<Post, EngineError>)
    ensures
        match r {
            Ok(p) => spec_parse_post(b@) matches Some(pr) && p@ == pr.0 && post_encodable(p@),
            Err(e) => e == EngineError::DecodeError && spec_parse_post(b@) is None,
        },
{
    let (post_id, p1) = match read_string(b, 0) {
        Some(x) => x,
        None => {
            return Err(EngineError::DecodeError);
        },
    };
    let (user_id, p2) = match read_string(b, p1) {
        Some(x) => x,
        None => {
            return Err(EngineError::DecodeError);
        },
    };
    let (content_data, p3) = match read_string(b, p2) {
        Some(x) => x,
        None => {
            return Err(EngineError::DecodeError);
        },
    };
    let (timestamp, _p4) = match read_u64(b, p3) {
        Some(x) => x,
        None => {
            return Err(EngineError::DecodeError);
        },
    };
    Ok(Post { post_id, user_id, content_data, timestamp })
}

/// Decoding an encoded post record yields the record back.
pub proof fn lemma_post_round_trip(p: PostView, tail: Seq<u8>)
    requires
        post_encodable(p),
    ensures
        spec_parse_post(spec_encode_post(p) + tail) == Some(
            (p, spec_encode_post(p).len() as int),
        ),
{
    let e = spec_encode_post(p);
    let b = e + tail;
    lemma_enc_u64_len(p.timestamp);
    let e1 = enc_str(p.post_id);
    let e2 = enc_str(p.user_id);
    let e3 = enc_str(p.content_data);
    let p1 = e1.len() as int;
    let p2 = p1 + e2.len() as int;
    let p3 = p2 + e3.len() as int;
    let p4 = p3 + 8;
    assert(b.subrange(0, p1) =~= e1);
    lemma_parse_str_of_enc(b, 0, p.post_id);
    assert(b.subrange(p1, p2) =~= e2);
    lemma_parse_str_of_enc(b, p1, p.user_id);
    assert(b.subrange(p2, p3) =~= e3);
    lemma_parse_str_of_enc(b, p2, p.content_data);
    assert(b.subrange(p3, p4) =~= enc_u64(p.timestamp));
    lemma_parse_u64_of_enc(b, p3, p.timestamp);
    assert(PostView {
        post_id: p.post_id,
        user_id: p.user_id,
        content_data: p.content_data,
        timestamp: p.timestamp,
    } == p);
}


// ===========================================================================
// Media
// ===========================================================================
/// Whether a media record can be encoded.
pub open spec fn media_encodable(m: MediaView) -> bool {
    str_fits(m.media_id) && str_fits(m.post_id) && str_fits(m.user_id) && str_fits(m.media_url)
        && str_fits(m.media_type)
}

/// The encoding of a media record.
pub open spec fn spec_encode_media(m: MediaView) -> Seq<u8> {
    enc_str(m.media_id) + enc_str(m.post_id) + enc_str(m.user_id) + enc_str(m.media_url) + enc_str(
        m.media_type,
    )
}

/// Reads a media record from the front of a buffer.
pub open spec fn spec_parse_media(b: Seq<u8>) -> Option<(MediaView, int)> {
    match parse_str(b, 0) {
        Some((media_id, p1)) => match parse_str(b, p1) {
            Some((post_id, p2)) => match parse_str(b, p2) {
                Some((user_id, p3)) => match parse_str(b, p3) {
                    Some((media_url, p4)) => match parse_str(b, p4) {
                        Some((media_type, p5)) => Some(
                            (MediaView { media_id, post_id, user_id, media_url, media_type }, p5),
                        ),
                        None => None,
                    },
                    None => None,
                },
                None => None,
            },
            None => None,
        },
        None => None,
    }
}

/// Encodes a media record, within a record capacity of `cap` bytes.
pub fn encode_media(m: &Media, cap: usize) -> (r: Result<Vec<u8>, EngineError>)
    ensures
        match r {
            Ok(v) => media_encodable(m@) && v@ == spec_encode_media(m@) && v@.len() <= cap,
            Err(e) => e == EngineError::CapacityExceeded && !(media_encodable(m@)
                && spec_encode_media(m@).len() <= cap),
        },
{
    let mut out: Vec<u8> = Vec::new();
    match push_str(&mut out, &m.media_id) {
        Ok(_) => {},
        Err(e) => {
            return Err(e);
        },
    }
    match push_str(&mut out, &m.post_id) {
        Ok(_) => {},
        Err(e) => {
            return Err(e);
        },
    }
    match push_str(&mut out, &m.user_id) {
        Ok(_) => {},
        Err(e) => {
            return Err(e);
        },
    }
    match push_str(&mut out, &m.media_url) {
        Ok(_) => {},
        Err(e) => {
            return Err(e);
        },
    }
    match push_str(&mut out, &m.media_type) {
        Ok(_) => {},
        Err(e) => {
            return Err(e);
        },
    }
    assert(out@ =~= spec_encode_media(m@));
    if out.len() > cap {
        return Err(EngineError::CapacityExceeded);
    }
    Ok(out)
}

/// Decodes a media record from the front of a buffer.
pub fn decode_media(b: &Vec<u8>) -> (r: Result<Media, EngineError>)
    ensures
        match r {
            Ok(m) => spec_parse_media(b@) matches Some(pr) && m@ == pr.0 && media_encodable(m@),
            Err(e) => e == EngineError::DecodeError && spec_parse_media(b@) is None,
        },
{
    let (media_id, p1) = match read_string(b, 0) {
        Some(x) => x,
        None => {
            return Err(EngineError::DecodeError);
        },
    };
    let (post_id, p2) = match read_string(b, p1) {
        Some(x) => x,
        None => {
            return Err(EngineError::DecodeError);
        },
    };
    let (user_id, p3) = match read_string(b, p2) {
        Some(x) => x,
        None => {
            return Err(EngineError::DecodeError);
        },
    };
    let (media_url, p4) = match read_string(b, p3) {
        Some(x) => x,
        None => {
            return Err(EngineError::DecodeError);
        },
    };
    let (media_type, _p5) = match read_string(b, p4) {
        Some(x) => x,
        None => {
            return Err(EngineError::DecodeError);
        },
    };
    Ok(Media { media_id, post_id, user_id, media_url, media_type })
}

/// Decoding an encoded media record yields the record back.
pub proof fn lemma_media_round_trip(m: MediaView, tail: Seq<u8>)
    requires
        media_encodable(m),
    ensures
        spec_parse_media(spec_encode_media(m) + tail) == Some(
            (m, spec_encode_media(m).len() as int),
        ),
{
    let e = spec_encode_media(m);
    let b = e + tail;
    let e1 = enc_str(m.media_id);
    let e2 = enc_str(m.post_id);
    let e3 = enc_str(m.user_id);
    let e4 = enc_str(m.media_url);
    let e5 = enc_str(m.media_type);
    let p1 = e1.len() as int;
    let p2 = p1 + e2.len() as int;
    let p3 = p2 + e3.len() as int;
    let p4 = p3 + e4.len() as int;
    let p5 = p4 + e5.len() as int;
    assert(b.subrange(0, p1) =~= e1);
    lemma_parse_str_of_enc(b, 0, m.media_id);
    assert(b.subrange(p1, p2) =~= e2);
    lemma_parse_str_of_enc(b, p1, m.post_id);
    assert(b.subrange(p2, p3) =~= e3);
    lemma_parse_str_of_enc(b, p2, m.user_id);
    assert(b.subrange(p3, p4) =~= e4);
    lemma_parse_str_of_enc(b, p3, m.media_url);
    assert(b.subrange(p4, p5) =~= e5);
    lemma_parse_str_of_enc(b, p4, m.media_type);
    assert(MediaView {
        media_id: m.media_id,
        post_id: m.post_id,
        user_id: m.user_id,
        media_url: m.media_url,
        media_type: m.media_type,
    } == m);
}

// ===========================================================================
// Message
// ===========================================================================
/// Whether a direct-message record can be encoded.
pub open spec fn message_encodable(m: MessageView) -> bool {
    str_fits(m.message_id) && str_fits(m.sender_user_id) && str_fits(m.recipient_user_id)
        && str_fits(m.message_content)
}

/// The encoding of a direct-message record.
pub open spec fn spec_encode_message(m: MessageView) -> Seq<u8> {
    enc_str(m.message_id) + enc_str(m.sender_user_id) + enc_str(m.recipient_user_id) + enc_str(
        m.message_content,
    ) + enc_u64(m.timestamp)
}

/// Reads a direct-message record from the front of a buffer.
pub open spec fn spec_parse_message(b: Seq<u8>) -> Option<(MessageView, int)> {
    match parse_str(b, 0) {
        Some((message_id, p1)) => match parse_str(b, p1) {
            Some((sender_user_id, p2)) => match parse_str(b, p2) {
                Some((recipient_user_id, p3)) => match parse_str(b, p3) {
                    Some((message_content, p4)) => match parse_u64(b, p4) {
                        Some((timestamp, p5)) => Some(
                            (
                                MessageView {
                                    message_id,
                                    sender_user_id,
                                    recipient_user_id,
                                    message_content,
                                    timestamp,
                                },
                                p5,
                            ),
                        ),
                        None => None,
                    },
                    None => None,
                },
                None => None,
            },
            None => None,
        },
        None => None,
    }
}

/// Encodes a direct-message record, within a record capacity of `cap` bytes.
pub fn encode_message(m: &Message, cap: usize) -> (r: Result<Vec<u8>, EngineError>)
    ensures
        match r {
            Ok(v) => message_encodable(m@) && v@ == spec_encode_message(m@) && v@.len() <= cap,
            Err(e) => e == EngineError::CapacityExceeded && !(message_encodable(m@)
                && spec_encode_message(m@).len() <= cap),
        },
{
    let mut out: Vec<u8> = Vec::new();
    match push_str(&mut out, &m.message_id) {
        Ok(_) => {},
        Err(e) => {
            return Err(e);
        },
    }
    match push_str(&mut out, &m.sender_user_id) {
        Ok(_) => {},
        Err(e) => {
            return Err(e);
        },
    }
    match push_str(&mut out, &m.recipient_user_id) {
        Ok(_) => {},
        Err(e) => {
            return Err(e);
        },
    }
    match push_str(&mut out, &m.message_content) {
        Ok(_) => {},
        Err(e) => {
            return Err(e);
        },
    }
    push_u64(&mut out, m.timestamp);
    assert(out@ =~= spec_encode_message(m@));
    if out.len() > cap {
        return Err(EngineError::CapacityExceeded);
    }
    Ok(out)
}

/// Decodes a direct-message record from the front of a buffer.
pub fn decode_message(b: &Vec<u8>) -> (r: Result<Message, EngineError>)
    ensures
        match r {
            Ok(m) => spec_parse_message(b@) matches Some(pr) && m@ == pr.0 && message_encodable(
                m@,
            ),
            Err(e) => e == EngineError::DecodeError && spec_parse_message(b@) is None,
        },
{
    let (message_id, p1) = match read_string(b, 0) {
        Some(x) => x,
        None => {
            return Err(EngineError::DecodeError);
        },
    };
    let (sender_user_id, p2) = match read_string(b, p1) {
        Some(x) => x,
        None => {
            return Err(EngineError::DecodeError);
        },
    };
    let (recipient_user_id, p3) = match read_string(b, p2) {
        Some(x) => x,
        None => {
            return Err(EngineError::DecodeError);
        },
    };
    let (message_content, p4) = match read_string(b, p3) {
        Some(x) => x,
        None => {
            return Err(EngineError::DecodeError);
        },
    };
    let (timestamp, _p5) = match read_u64(b, p4) {
        Some(x) => x,
        None => {
            return Err(EngineError::DecodeError);
        },
    };
    Ok(Message { message_id, sender_user_id, recipient_user_id, message_content, timestamp })
}

/// Decoding an encoded direct-message record yields the record back.
pub proof fn lemma_message_round_trip(m: MessageView, tail: Seq<u8>)
    requires
        message_encodable(m),
    ensures
        spec_parse_message(spec_encode_message(m) + tail) == Some(
            (m, spec_encode_message(m).len() as int),
        ),
{
    let e = spec_encode_message(m);
    let b = e + tail;
    lemma_enc_u64_len(m.timestamp);
    let e1 = enc_str(m.message_id);
    let e2 = enc_str(m.sender_user_id);
    let e3 = enc_str(m.recipient_user_id);
    let e4 = enc_str(m.message_content);
    let p1 = e1.len() as int;
    let p2 = p1 + e2.len() as int;
    let p3 = p2 + e3.len() as int;
    let p4 = p3 + e4.len() as int;
    let p5 = p4 + 8;
    assert(b.subrange(0, p1) =~= e1);
    lemma_parse_str_of_enc(b, 0, m.message_id);
    assert(b.subrange(p1, p2) =~= e2);
    lemma_parse_str_of_enc(b, p1, m.sender_user_id);
    assert(b.subrange(p2, p3) =~= e3);
    lemma_parse_str_of_enc(b, p2, m.recipient_user_id);
    assert(b.subrange(p3, p4) =~= e4);
    lemma_parse_str_of_enc(b, p3, m.message_content);
    assert(b.subrange(p4, p5) =~= enc_u64(m.timestamp));
    lemma_parse_u64_of_enc(b, p4, m.timestamp);
    assert(MessageView {
        message_id: m.message_id,
        sender_user_id: m.sender_user_id,
        recipient_user_id: m.recipient_user_id,
        message_content: m.message_content,
        timestamp: m.timestamp,
    } == m);
}

// ===========================================================================
// Group
// ===========================================================================
/// Whether a group record can be encoded.
pub open spec fn group_encodable(g: GroupView) -> bool {
    str_fits(g.group_id) && str_list_fits(g.members)
}

/// The encoding of a group record.
pub open spec fn spec_encode_group(g: GroupView) -> Seq<u8> {
    enc_str(g.group_id) + enc_str_list(g.members)
}

/// Reads a group record from the front of a buffer.
pub open spec fn spec_parse_group(b: Seq<u8>) -> Option<(GroupView, int)> {
    match parse_str(b, 0) {
        Some((group_id, p1)) => match parse_str_list(b, p1) {
            Some((members, p2)) => Some((GroupView { group_id, members }, p2)),
            None => None,
        },
        None => None,
    }
}

/// Encodes a group record, within a record capacity of `cap` bytes.
pub fn encode_group(g: &Group, cap: usize) -> (r: Result<Vec<u8>, EngineError>)
    ensures
        match r {
            Ok(v) => group_encodable(g@) && v@ == spec_encode_group(g@) && v@.len() <= cap,
            Err(e) => e == EngineError::CapacityExceeded && !(group_encodable(g@)
                && spec_encode_group(g@).len() <= cap),
        },
{
    let mut out: Vec<u8> = Vec::new();
    match push_str(&mut out, &g.group_id) {
        Ok(_) => {},
        Err(e) => {
            return Err(e);
        },
    }
    match push_str_list(&mut out, &g.members) {
        Ok(_) => {},
        Err(e) => {
            return Err(e);
        },
    }
    assert(out@ =~= spec_encode_group(g@));
    if out.len() > cap {
        return Err(EngineError::CapacityExceeded);
    }
    Ok(out)
}

/// Decodes a group record from the front of a buffer.
pub fn decode_group(b: &Vec<u8>) -> (r: Result<Group, EngineError>)
    ensures
        match r {
            Ok(g) => spec_parse_group(b@) matches Some(pr) && g@ == pr.0 && group_encodable(g@),
            Err(e) => e == EngineError::DecodeError && spec_parse_group(b@) is None,
        },
{
    let (group_id, p1) = match read_string(b, 0) {
        Some(x) => x,
        None => {
            return Err(EngineError::DecodeError);
        },
    };
    let (members, _p2) = match read_string_list(b, p1) {
        Some(x) => x,
        None => {
            return Err(EngineError::DecodeError);
        },
    };
    Ok(Group { group_id, members })
}

/// Decoding an encoded group record yields the record back.
pub proof fn lemma_group_round_trip(g: GroupView, tail: Seq<u8>)
    requires
        group_encodable(g),
    ensures
        spec_parse_group(spec_encode_group(g) + tail) == Some(
            (g, spec_encode_group(g).len() as int),
        ),
{
    let e = spec_encode_group(g);
    let b = e + tail;
    let e1 = enc_str(g.group_id);
    let e2 = enc_str_list(g.members);
    let p1 = e1.len() as int;
    let p2 = p1 + e2.len() as int;
    assert(b.subrange(0, p1) =~= e1);
    lemma_parse_str_of_enc(b, 0, g.group_id);
    assert(b.subrange(p1, p2) =~= e2);
    lemma_parse_str_list_of_enc(b, p1, g.members);
    assert(GroupView { group_id: g.group_id, members: g.members } == g);
}

// ===========================================================================
// GroupMessage
// ===========================================================================
/// Whether a group-message record can be encoded.
pub open spec fn group_message_encodable(m: GroupMessageView) -> bool {
    str_fits(m.group_id) && str_fits(m.user_id) && str_fits(m.message_content)
}

/// The encoding of a group-message record.
pub open spec fn spec_encode_group_message(m: GroupMessageView) -> Seq<u8> {
    enc_str(m.group_id) + enc_str(m.user_id) + enc_str(m.message_content) + enc_u64(m.timestamp)
}

/// Reads a group-message record from the front of a buffer.
pub open spec fn spec_parse_group_message(b: Seq<u8>) -> Option<(GroupMessageView, int)> {
    match parse_str(b, 0) {
        Some((group_id, p1)) => match parse_str(b, p1) {
            Some((user_id, p2)) => match parse_str(b, p2) {
                Some((message_content, p3)) => match parse_u64(b, p3) {
                    Some((timestamp, p4)) => Some(
                        (GroupMessageView { group_id, user_id, message_content, timestamp }, p4),
                    ),
                    None => None,
                },
                None => None,
            },
            None => None,
        },
        None => None,
    }
}

/// Encodes a group-message record, within a record capacity of `cap` bytes.
pub fn encode_group_message(m: &GroupMessage, cap: usize) -> (r: Result<Vec<u8>, EngineError>)
    ensures
        match r {
            Ok(v) => group_message_encodable(m@) && v@ == spec_encode_group_message(m@)
                && v@.len() <= cap,
            Err(e) => e == EngineError::CapacityExceeded && !(group_message_encodable(m@)
                && spec_encode_group_message(m@).len() <= cap),
        },
{
    let mut out: Vec<u8> = Vec::new();
    match push_str(&mut out, &m.group_id) {
        Ok(_) => {},
        Err(e) => {
            return Err(e);
        },
    }
    match push_str(&mut out, &m.user_id) {
        Ok(_) => {},
        Err(e) => {
            return Err(e);
        },
    }
    match push_str(&mut out, &m.message_content) {
        Ok(_) => {},
        Err(e) => {
            return Err(e);
        },
    }
    push_u64(&mut out, m.timestamp);
    assert(out@ =~= spec_encode_group_message(m@));
    if out.len() > cap {
        return Err(EngineError::CapacityExceeded);
    }
    Ok(out)
}

/// Decodes a group-message record from the front of a buffer.
pub fn decode_group_message(b: &Vec<u8>) -> (r: Result<GroupMessage, EngineError>)
    ensures
        match r {
            Ok(m) => spec_parse_group_message(b@) matches Some(pr) && m@ == pr.0
                && group_message_encodable(m@),
            Err(e) => e == EngineError::DecodeError && spec_parse_group_message(b@) is None,
        },
{
    let (group_id, p1) = match read_string(b, 0) {
        Some(x) => x,
        None => {
            return Err(EngineError::DecodeError);
        },
    };
    let (user_id, p2) = match read_string(b, p1) {
        Some(x) => x,
        None => {
            return Err(EngineError::DecodeError);
        },
    };
    let (message_content, p3) = match read_string(b, p2) {
        Some(x) => x,
        None => {
            return Err(EngineError::DecodeError);
        },
    };
    let (timestamp, _p4) = match read_u64(b, p3) {
        Some(x) => x,
        None => {
            return Err(EngineError::DecodeError);
        },
    };
    Ok(GroupMessage { group_id, user_id, message_content, timestamp })
}

/// Decoding an encoded group-message record yields the record back.
pub proof fn lemma_group_message_round_trip(m: GroupMessageView, tail: Seq<u8>)
    requires
        group_message_encodable(m),
    ensures
        spec_parse_group_message(spec_encode_group_message(m) + tail) == Some(
            (m, spec_encode_group_message(m).len() as int),
        ),
{
    let e = spec_encode_group_message(m);
    let b = e + tail;
    lemma_enc_u64_len(m.timestamp);
    let e1 = enc_str(m.group_id);
    let e2 = enc_str(m.user_id);
    let e3 = enc_str(m.message_content);
    let p1 = e1.len() as int;
    let p2 = p1 + e2.len() as int;
    let p3 = p2 + e3.len() as int;
    let p4 = p3 + 8;
    assert(b.subrange(0, p1) =~= e1);
    lemma_parse_str_of_enc(b, 0, m.group_id);
    assert(b.subrange(p1, p2) =~= e2);
    lemma_parse_str_of_enc(b, p1, m.user_id);
    assert(b.subrange(p2, p3) =~= e3);
    lemma_parse_str_of_enc(b, p2, m.message_content);
    assert(b.subrange(p3, p4) =~= enc_u64(m.timestamp));
    lemma_parse_u64_of_enc(b, p3, m.timestamp);
    assert(GroupMessageView {
        group_id: m.group_id,
        user_id: m.user_id,
        message_content: m.message_content,
        timestamp: m.timestamp,
    } == m);
}

// ===========================================================================
// MonetizedContent
// ===========================================================================
/// Whether a monetized-content record can be encoded.
pub open spec fn content_encodable(c: MonetizedContentView) -> bool {
    str_fits(c.content_id) && str_fits(c.creator_user_id) && purchases_encodable(c.purchase_data)
}

/// The encoding of a monetized-content record.
pub open spec fn spec_encode_content(c: MonetizedContentView) -> Seq<u8> {
    enc_str(c.content_id) + enc_str(c.creator_user_id) + enc_u64(c.price) + enc_purchase_list(
        c.purchase_data,
    )
}

/// Reads a monetized-content record from the front of a buffer.
pub open spec fn spec_parse_content(b: Seq<u8>) -> Option<(MonetizedContentView, int)> {
    match parse_str(b, 0) {
        Some((content_id, p1)) => match parse_str(b, p1) {
            Some((creator_user_id, p2)) => match parse_u64(b, p2) {
                Some((price, p3)) => match parse_purchase_list(b, p3) {
                    Some((purchase_data, p4)) => Some(
                        (
                            MonetizedContentView {
                                content_id,
                                creator_user_id,
                                price,
                                purchase_data,
                            },
                            p4,
                        ),
                    ),
                    None => None,
                },
                None => None,
            },
            None => None,
        },
        None => None,
    }
}

/// Encodes a monetized-content record, within a record capacity of `cap`
/// bytes.
pub fn encode_content(c: &MonetizedContent, cap: usize) -> (r: Result<Vec<u8>, EngineError>)
    ensures
        match r {
            Ok(v) => content_encodable(c@) && v@ == spec_encode_content(c@) && v@.len() <= cap,
            Err(e) => e == EngineError::CapacityExceeded && !(content_encodable(c@)
                && spec_encode_content(c@).len() <= cap),
        },
{
    let mut out: Vec<u8> = Vec::new();
    match push_str(&mut out, &c.content_id) {
        Ok(_) => {},
        Err(e) => {
            return Err(e);
        },
    }
    match push_str(&mut out, &c.creator_user_id) {
        Ok(_) => {},
        Err(e) => {
            return Err(e);
        },
    }
    push_u64(&mut out, c.price);
    match push_purchase_list(&mut out, &c.purchase_data) {
        Ok(_) => {},
        Err(e) => {
            return Err(e);
        },
    }
    assert(out@ =~= spec_encode_content(c@));
    if out.len() > cap {
        return Err(EngineError::CapacityExceeded);
    }
    Ok(out)
}

/// Decodes a monetized-content record from the front of a buffer.
pub fn decode_content(b: &Vec<u8>) -> (r: Result<MonetizedContent, EngineError>)
    ensures
        match r {
            Ok(c) => spec_parse_content(b@) matches Some(pr) && c@ == pr.0 && content_encodable(
                c@,
            ),
            Err(e) => e == EngineError::DecodeError && spec_parse_content(b@) is None,
        },
{
    let (content_id, p1) = match read_string(b, 0) {
        Some(x) => x,
        None => {
            return Err(EngineError::DecodeError);
        },
    };
    let (creator_user_id, p2) = match read_string(b, p1) {
        Some(x) => x,
        None => {
            return Err(EngineError::DecodeError);
        },
    };
    let (price, p3) = match read_u64(b, p2) {
        Some(x) => x,
        None => {
            return Err(EngineError::DecodeError);
        },
    };
    let (purchase_data, _p4) = match read_purchase_list(b, p3) {
        Some(x) => x,
        None => {
            return Err(EngineError::DecodeError);
        },
    };
    Ok(MonetizedContent { content_id, creator_user_id, price, purchase_data })
}

/// Decoding an encoded monetized-content record yields the record back.
pub proof fn lemma_content_round_trip(c: MonetizedContentView, tail: Seq<u8>)
    requires
        content_encodable(c),
    ensures
        spec_parse_content(spec_encode_content(c) + tail) == Some(
            (c, spec_encode_content(c).len() as int),
        ),
{
    let e = spec_encode_content(c);
    let b = e + tail;
    lemma_enc_u64_len(c.price);
    let e1 = enc_str(c.content_id);
    let e2 = enc_str(c.creator_user_id);
    let e4 = enc_purchase_list(c.purchase_data);
    let p1 = e1.len() as int;
    let p2 = p1 + e2.len() as int;
    let p3 = p2 + 8;
    let p4 = p3 + e4.len() as int;
    assert(b.subrange(0, p1) =~= e1);
    lemma_parse_str_of_enc(b, 0, c.content_id);
    assert(b.subrange(p1, p2) =~= e2);
    lemma_parse_str_of_enc(b, p1, c.creator_user_id);
    assert(b.subrange(p2, p3) =~= enc_u64(c.price));
    lemma_parse_u64_of_enc(b, p2, c.price);
    assert(b.subrange(p3, p4) =~= e4);
    lemma_parse_purchase_list_of_enc(b, p3, c.purchase_data);
    assert(MonetizedContentView {
        content_id: c.content_id,
        creator_user_id: c.creator_user_id,
        price: c.price,
        purchase_data: c.purchase_data,
    } == c);
}

/// Decoding an encoded purchase yields the purchase back.
pub proof fn lemma_purchase_round_trip(p: PurchaseView, tail: Seq<u8>)
    requires
        purchase_encodable(p),
    ensures
        parse_purchase(spec_encode_purchase(p) + tail, 0) == Some(
            (p, spec_encode_purchase(p).len() as int),
        ),
{
    let e = spec_encode_purchase(p);
    let b = e + tail;
    assert(b.subrange(0, e.len() as int) =~= e);
    lemma_parse_purchase_of_enc(b, 0, p);
}

// ===========================================================================
// Manga
// ===========================================================================
/// Whether a manga record can be encoded.
pub open spec fn manga_encodable(m: MangaView) -> bool {
    str_fits(m.manga_id) && str_fits(m.creator_user_id) && str_fits(m.title) && str_fits(
        m.description,
    ) && str_list_fits(m.media_urls)
}

/// The encoding of a manga record.
pub open spec fn spec_encode_manga(m: MangaView) -> Seq<u8> {
    enc_str(m.manga_id) + enc_str(m.creator_user_id) + enc_str(m.title) + enc_str(m.description)
        + enc_str_list(m.media_urls) + enc_u64(m.timestamp)
}

/// Reads a manga record from the front of a buffer.
pub open spec fn spec_parse_manga(b: Seq<u8>) -> Option<(MangaView, int)> {
    match parse_str(b, 0) {
        Some((manga_id, p1)) => match parse_str(b, p1) {
            Some((creator_user_id, p2)) => match parse_str(b, p2) {
                Some((title, p3)) => match parse_str(b, p3) {
                    Some((description, p4)) => match parse_str_list(b, p4) {
                        Some((media_urls, p5)) => match parse_u64(b, p5) {
                            Some((timestamp, p6)) => Some(
                                (
                                    MangaView {
                                        manga_id,
                                        creator_user_id,
                                        title,
                                        description,
                                        media_urls,
                                        timestamp,
                                    },
                                    p6,
                                ),
                            ),
                            None => None,
                        },
                        None => None,
                    },
                    None => None,
                },
                None => None,
            },
            None => None,
        },
        None => None,
    }
}

/// Encodes a manga record, within a record capacity of `cap` bytes.
pub fn encode_manga(m: &Manga, cap: usize) -> (r: Result<Vec<u8>, EngineError>)
    ensures
        match r {
            Ok(v) => manga_encodable(m@) && v@ == spec_encode_manga(m@) && v@.len() <= cap,
            Err(e) => e == EngineError::CapacityExceeded && !(manga_encodable(m@)
                && spec_encode_manga(m@).len() <= cap),
        },
{
    let mut out: Vec<u8> = Vec::new();
    match push_str(&mut out, &m.manga_id) {
        Ok(_) => {},
        Err(e) => {
            return Err(e);
        },
    }
    match push_str(&mut out, &m.creator_user_id) {
        Ok(_) => {},
        Err(e) => {
            return Err(e);
        },
    }
    match push_str(&mut out, &m.title) {
        Ok(_) => {},
        Err(e) => {
            return Err(e);
        },
    }
    match push_str(&mut out, &m.description) {
        Ok(_) => {},
        Err(e) => {
            return Err(e);
        },
    }
    match push_str_list(&mut out, &m.media_urls) {
        Ok(_) => {},
        Err(e) => {
            return Err(e);
        },
    }
    push_u64(&mut out, m.timestamp);
    assert(out@ =~= spec_encode_manga(m@));
    if out.len() > cap {
        return Err(EngineError::CapacityExceeded);
    }
    Ok(out)
}

/// Decodes a manga record from the front of a buffer.
pub fn decode_manga(b: &Vec<u8>) -> (r: Result<Manga, EngineError>)
    ensures
        match r {
            Ok(m) => spec_parse_manga(b@) matches Some(pr) && m@ == pr.0 && manga_encodable(m@),
            Err(e) => e == EngineError::DecodeError && spec_parse_manga(b@) is None,
        },
{
    let (manga_id, p1) = match read_string(b, 0) {
        Some(x) => x,
        None => {
            return Err(EngineError::DecodeError);
        },
    };
    let (creator_user_id, p2) = match read_string(b, p1) {
        Some(x) => x,
        None => {
            return Err(EngineError::DecodeError);
        },
    };
    let (title, p3) = match read_string(b, p2) {
        Some(x) => x,
        None => {
            return Err(EngineError::DecodeError);
        },
    };
    let (description, p4) = match read_string(b, p3) {
        Some(x) => x,
        None => {
            return Err(EngineError::DecodeError);
        },
    };
    let (media_urls, p5) = match read_string_list(b, p4) {
        Some(x) => x,
        None => {
            return Err(EngineError::DecodeError);
        },
    };
    let (timestamp, _p6) = match read_u64(b, p5) {
        Some(x) => x,
        None => {
            return Err(EngineError::DecodeError);
        },
    };
    Ok(Manga { manga_id, creator_user_id, title, description, media_urls, timestamp })
}

/// Decoding an encoded manga record yields the record back.
pub proof fn lemma_manga_round_trip(m: MangaView, tail: Seq<u8>)
    requires
        manga_encodable(m),
    ensures
        spec_parse_manga(spec_encode_manga(m) + tail) == Some(
            (m, spec_encode_manga(m).len() as int),
        ),
{
    let e = spec_encode_manga(m);
    let b = e + tail;
    lemma_enc_u64_len(m.timestamp);
    let e1 = enc_str(m.manga_id);
    let e2 = enc_str(m.creator_user_id);
    let e3 = enc_str(m.title);
    let e4 = enc_str(m.description);
    let e5 = enc_str_list(m.media_urls);
    let p1 = e1.len() as int;
    let p2 = p1 + e2.len() as int;
    let p3 = p2 + e3.len() as int;
    let p4 = p3 + e4.len() as int;
    let p5 = p4 + e5.len() as int;
    let p6 = p5 + 8;
    assert(b.subrange(0, p1) =~= e1);
    lemma_parse_str_of_enc(b, 0, m.manga_id);
    assert(b.subrange(p1, p2) =~= e2);
    lemma_parse_str_of_enc(b, p1, m.creator_user_id);
    assert(b.subrange(p2, p3) =~= e3);
    lemma_parse_str_of_enc(b, p2, m.title);
    assert(b.subrange(p3, p4) =~= e4);
    lemma_parse_str_of_enc(b, p3, m.description);
    assert(b.subrange(p4, p5) =~= e5);
    lemma_parse_str_list_of_enc(b, p4, m.media_urls);
    assert(b.subrange(p5, p6) =~= enc_u64(m.timestamp));
    lemma_parse_u64_of_enc(b, p5, m.timestamp);
    assert(MangaView {
        manga_id: m.manga_id,
        creator_user_id: m.creator_user_id,
        title: m.title,
        description: m.description,
        media_urls: m.media_urls,
        timestamp: m.timestamp,
    } == m);
}

// ===========================================================================
// MangaAccess
// ===========================================================================
/// Whether a manga-access record can be encoded.
pub open spec fn manga_access_encodable(a: MangaAccessView) -> bool {
    str_fits(a.manga_id) && str_fits(a.user_id) && str_fits(a.access_data)
}

/// The encoding of a manga-access record.
pub open spec fn spec_encode_manga_access(a: MangaAccessView) -> Seq<u8> {
    enc_str(a.manga_id) + enc_str(a.user_id) + enc_str(a.access_data)
}

/// Reads a manga-access record from the front of a buffer.
pub open spec fn spec_parse_manga_access(b: Seq<u8>) -> Option<(MangaAccessView, int)> {
    match parse_str(b, 0) {
        Some((manga_id, p1)) => match parse_str(b, p1) {
            Some((user_id, p2)) => match parse_str(b, p2) {
                Some((access_data, p3)) => Some((MangaAccessView { manga_id, user_id, access_data }, p3)),
                None => None,
            },
            None => None,
        },
        None => None,
    }
}

/// Encodes a manga-access record, within a record capacity of `cap` bytes.
pub fn encode_manga_access(a: &MangaAccess, cap: usize) -> (r: Result<Vec<u8>, EngineError>)
    ensures
        match r {
            Ok(v) => manga_access_encodable(a@) && v@ == spec_encode_manga_access(a@) && v@.len()
                <= cap,
            Err(e) => e == EngineError::CapacityExceeded && !(manga_access_encodable(a@)
                && spec_encode_manga_access(a@).len() <= cap),
        },
{
    let mut out: Vec<u8> = Vec::new();
    match push_str(&mut out, &a.manga_id) {
        Ok(_) => {},
        Err(e) => {
            return Err(e);
        },
    }
    match push_str(&mut out, &a.user_id) {
        Ok(_) => {},
        Err(e) => {
            return Err(e);
        },
    }
    match push_str(&mut out, &a.access_data) {
        Ok(_) => {},
        Err(e) => {
            return Err(e);
        },
    }
    assert(out@ =~= spec_encode_manga_access(a@));
    if out.len() > cap {
        return Err(EngineError::CapacityExceeded);
    }
    Ok(out)
}

/// Decodes a manga-access record from the front of a buffer.
pub fn decode_manga_access(b: &Vec<u8>) -> (r: Result<MangaAccess, EngineError>)
    ensures
        match r {
            Ok(a) => spec_parse_manga_access(b@) matches Some(pr) && a@ == pr.0
                && manga_access_encodable(a@),
            Err(e) => e == EngineError::DecodeError && spec_parse_manga_access(b@) is None,
        },
{
    let (manga_id, p1) = match read_string(b, 0) {
        Some(x) => x,
        None => {
            return Err(EngineError::DecodeError);
        },
    };
    let (user_id, p2) = match read_string(b, p1) {
        Some(x) => x,
        None => {
            return Err(EngineError::DecodeError);
        },
    };
    let (access_data, _p3) = match read_string(b, p2) {
        Some(x) => x,
        None => {
            return Err(EngineError::DecodeError);
        },
    };
    Ok(MangaAccess { manga_id, user_id, access_data })
}

/// Decoding an encoded manga-access record yields the record back.
pub proof fn lemma_manga_access_round_trip(a: MangaAccessView, tail: Seq<u8>)
    requires
        manga_access_encodable(a),
    ensures
        spec_parse_manga_access(spec_encode_manga_access(a) + tail) == Some(
            (a, spec_encode_manga_access(a).len() as int),
        ),
{
    let e = spec_encode_manga_access(a);
    let b = e + tail;
    let e1 = enc_str(a.manga_id);
    let e2 = enc_str(a.user_id);
    let e3 = enc_str(a.access_data);
    let p1 = e1.len() as int;
    let p2 = p1 + e2.len() as int;
    let p3 = p2 + e3.len() as int;
    assert(b.subrange(0, p1) =~= e1);
    lemma_parse_str_of_enc(b, 0, a.manga_id);
    assert(b.subrange(p1, p2) =~= e2);
    lemma_parse_str_of_enc(b, p1, a.user_id);
    assert(b.subrange(p2, p3) =~= e3);
    lemma_parse_str_of_enc(b, p2, a.access_data);
    assert(MangaAccessView { manga_id: a.manga_id, user_id: a.user_id, access_data: a.access_data }
        == a);
}

} // verus!
