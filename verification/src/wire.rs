//! Byte-level primitives of the record layout.
//!
//! Every entity and every operation payload is laid out from four primitive
//! shapes: a 32-bit little-endian integer, a 64-bit little-endian integer, a
//! length-prefixed byte string (a 32-bit little-endian length followed by
//! that many bytes), and a length-prefixed list. A character string is the
//! length-prefixed UTF-8 encoding of its characters.
//!
//! Each shape has a specification-level encoder (`enc_*`), a
//! specification-level parser (`parse_*`, reading at a position and
//! returning the value and the position after it), verified executable
//! readers and writers, and a lemma that parsing an encoding yields the
//! encoded value back.

use vstd::prelude::*;

use vstd::bytes::lemma_auto_spec_u32_to_from_le_bytes;
use vstd::bytes::lemma_auto_spec_u64_to_from_le_bytes;
use vstd::bytes::spec_u32_from_le_bytes;
use vstd::bytes::spec_u32_to_le_bytes;
use vstd::bytes::spec_u64_from_le_bytes;
use vstd::bytes::spec_u64_to_le_bytes;
use vstd::bytes::u32_from_le_bytes;
use vstd::bytes::u32_to_le_bytes;
use vstd::bytes::u64_from_le_bytes;
use vstd::bytes::u64_to_le_bytes;
use vstd::slice::slice_subrange;
use vstd::slice::slice_to_vec;
use vstd::string::StrSliceExecFns;
use vstd::utf8::decode_utf8;
use vstd::utf8::encode_utf8;
use vstd::utf8::encode_utf8_decode_utf8;
use vstd::utf8::encode_utf8_valid_utf8;
use vstd::utf8::valid_utf8;

use crate::errors::EngineError;

verus! {

// ---------------------------------------------------------------------------
// Specification-level encoders
// ---------------------------------------------------------------------------
/// The four little-endian bytes of a 32-bit integer.
pub open spec fn enc_u32(x: u32) -> Seq<u8> {
    spec_u32_to_le_bytes(x)
}

/// The eight little-endian bytes of a 64-bit integer.
pub open spec fn enc_u64(x: u64) -> Seq<u8> {
    spec_u64_to_le_bytes(x)
}

/// Whether a byte string is short enough for its 32-bit length prefix.
pub open spec fn bytes_fit(b: Seq<u8>) -> bool {
    b.len() <= u32::MAX
}

/// A length-prefixed byte string; meaningful when `bytes_fit(b)` holds.
pub open spec fn enc_bytes(b: Seq<u8>) -> Seq<u8> {
    enc_u32(b.len() as u32) + b
}

/// Whether a character string's UTF-8 form is short enough for its length
/// prefix.
pub open spec fn str_fits(s: Seq<char>) -> bool {
    bytes_fit(encode_utf8(s))
}

/// A length-prefixed character string, stored as UTF-8.
pub open spec fn enc_str(s: Seq<char>) -> Seq<u8> {
    enc_bytes(encode_utf8(s))
}

/// Whether every string of a list fits, and the list's count fits its own
/// 32-bit prefix.
pub open spec fn str_list_fits(l: Seq<Seq<char>>) -> bool {
    l.len() <= u32::MAX && (forall|i: int| 0 <= i < l.len() ==> str_fits(#[trigger] l[i]))
}

/// The concatenation of the encodings of a list's strings.
pub open spec fn enc_str_items(l: Seq<Seq<char>>) -> Seq<u8>
    decreases l.len(),
{
    if l.len() == 0 {
        Seq::<u8>::empty()
    } else {
        enc_str(l[0]) + enc_str_items(l.drop_first())
    }
}

/// A count-prefixed list of strings.
pub open spec fn enc_str_list(l: Seq<Seq<char>>) -> Seq<u8> {
    enc_u32(l.len() as u32) + enc_str_items(l)
}

// ---------------------------------------------------------------------------
// Specification-level parsers
// ---------------------------------------------------------------------------
/// Reads a 32-bit little-endian integer at `pos`.
pub open spec fn parse_u32(b: Seq<u8>, pos: int) -> Option<(u32, int)> {
    if 0 <= pos && pos + 4 <= b.len() {
        Some((spec_u32_from_le_bytes(b.subrange(pos, pos + 4)), pos + 4))
    } else {
        None
    }
}

/// Reads a 64-bit little-endian integer at `pos`.
pub open spec fn parse_u64(b: Seq<u8>, pos: int) -> Option<(u64, int)> {
    if 0 <= pos && pos + 8 <= b.len() {
        Some((spec_u64_from_le_bytes(b.subrange(pos, pos + 8)), pos + 8))
    } else {
        None
    }
}

/// Reads a length-prefixed byte string at `pos`.
pub open spec fn parse_bytes(b: Seq<u8>, pos: int) -> Option<(Seq<u8>, int)> {
    match parse_u32(b, pos) {
        Some((n, p)) => if p + n <= b.len() {
            Some((b.subrange(p, p + n), p + n))
        } else {
            None
        },
        None => None,
    }
}

/// Reads a length-prefixed character string at `pos`; the prefixed bytes
/// must be valid UTF-8.
pub open spec fn parse_str(b: Seq<u8>, pos: int) -> Option<(Seq<char>, int)> {
    match parse_bytes(b, pos) {
        Some((raw, p)) => if valid_utf8(raw) {
            Some((decode_utf8(raw), p))
        } else {
            None
        },
        None => None,
    }
}

/// Reads exactly `n` consecutive character strings starting at `pos`.
pub open spec fn parse_str_items(b: Seq<u8>, pos: int, n: nat) -> Option<(Seq<Seq<char>>, int)>
    decreases n,
{
    if n == 0 {
        Some((Seq::<Seq<char>>::empty(), pos))
    } else {
        match parse_str(b, pos) {
            Some((s, p)) => match parse_str_items(b, p, (n - 1) as nat) {
                Some((rest, q)) => Some((seq![s] + rest, q)),
                None => None,
            },
            None => None,
        }
    }
}

/// Reads a count-prefixed list of character strings at `pos`.
pub open spec fn parse_str_list(b: Seq<u8>, pos: int) -> Option<(Seq<Seq<char>>, int)> {
    match parse_u32(b, pos) {
        Some((n, p)) => parse_str_items(b, p, n as nat),
        None => None,
    }
}

// ---------------------------------------------------------------------------
// Lengths of the primitive encodings
// ---------------------------------------------------------------------------
/// `enc_u64` always takes eight bytes.
pub proof fn lemma_enc_u64_len(x: u64)
    ensures
        enc_u64(x).len() == 8,
{
    lemma_auto_spec_u64_to_from_le_bytes();
    assert(spec_u64_to_le_bytes(x).len() == 8);
}

// ---------------------------------------------------------------------------
// Parsing an encoding yields the encoded value
// ---------------------------------------------------------------------------
/// Parsing four bytes that hold `enc_u32(x)` yields `x`.
pub proof fn lemma_parse_u32_of_enc(b: Seq<u8>, pos: int, x: u32)
    requires
        0 <= pos,
        pos + 4 <= b.len(),
        b.subrange(pos, pos + 4) == enc_u32(x),
    ensures
        parse_u32(b, pos) == Some((x, pos + 4)),
{
    lemma_auto_spec_u32_to_from_le_bytes();
    assert(spec_u32_to_le_bytes(x).len() == 4);
    assert(b.subrange(pos, pos + 4) == spec_u32_to_le_bytes(x));
}

/// Parsing eight bytes that hold `enc_u64(x)` yields `x`.
pub proof fn lemma_parse_u64_of_enc(b: Seq<u8>, pos: int, x: u64)
    requires
        0 <= pos,
        pos + 8 <= b.len(),
        b.subrange(pos, pos + 8) == enc_u64(x),
    ensures
        parse_u64(b, pos) == Some((x, pos + 8)),
{
    lemma_auto_spec_u64_to_from_le_bytes();
    assert(spec_u64_to_le_bytes(x).len() == 8);
    assert(b.subrange(pos, pos + 8) == spec_u64_to_le_bytes(x));
}

/// Parsing bytes that hold `enc_bytes(v)` yields `v`.
pub proof fn lemma_parse_bytes_of_enc(b: Seq<u8>, pos: int, v: Seq<u8>)
    requires
        0 <= pos,
        bytes_fit(v),
        pos + enc_bytes(v).len() <= b.len(),
        b.subrange(pos, pos + enc_bytes(v).len()) == enc_bytes(v),
    ensures
        parse_bytes(b, pos) == Some((v, pos + enc_bytes(v).len())),
{
    lemma_auto_spec_u32_to_from_le_bytes();
    let n = v.len() as u32;
    let e = enc_bytes(v);
    assert(e.len() == 4 + v.len());
    assert(b.subrange(pos, pos + 4) =~= e.subrange(0, 4));
    assert(e.subrange(0, 4) =~= enc_u32(n));
    lemma_parse_u32_of_enc(b, pos, n);
    assert(b.subrange(pos + 4, pos + 4 + n) =~= e.subrange(4, e.len() as int));
    assert(e.subrange(4, e.len() as int) =~= v);
}

/// Parsing bytes that hold `enc_str(s)` yields `s`.
pub proof fn lemma_parse_str_of_enc(b: Seq<u8>, pos: int, s: Seq<char>)
    requires
        0 <= pos,
        str_fits(s),
        pos + enc_str(s).len() <= b.len(),
        b.subrange(pos, pos + enc_str(s).len()) == enc_str(s),
    ensures
        parse_str(b, pos) == Some((s, pos + enc_str(s).len())),
{
    let raw = encode_utf8(s);
    lemma_parse_bytes_of_enc(b, pos, raw);
    encode_utf8_valid_utf8(s);
    encode_utf8_decode_utf8(s);
}

/// Parsing bytes that hold `enc_str_items(l)` yields `l`.
pub proof fn lemma_parse_str_items_of_enc(b: Seq<u8>, pos: int, l: Seq<Seq<char>>)
    requires
        0 <= pos,
        str_list_fits(l),
        pos + enc_str_items(l).len() <= b.len(),
        b.subrange(pos, pos + enc_str_items(l).len()) == enc_str_items(l),
    ensures
        parse_str_items(b, pos, l.len()) == Some((l, pos + enc_str_items(l).len())),
    decreases l.len(),
{
    if l.len() == 0 {
        assert(parse_str_items(b, pos, 0) == Some((Seq::<Seq<char>>::empty(), pos)));
        assert(l =~= Seq::<Seq<char>>::empty());
    } else {
        let e = enc_str_items(l);
        let e0 = enc_str(l[0]);
        let rest = enc_str_items(l.drop_first());
        assert(e == e0 + rest);
        assert(b.subrange(pos, pos + e0.len() as int) =~= e.subrange(0, e0.len() as int));
        assert(e.subrange(0, e0.len() as int) =~= e0);
        lemma_parse_str_of_enc(b, pos, l[0]);
        let p = pos + e0.len() as int;
        assert(b.subrange(p, p + rest.len() as int) =~= e.subrange(
            e0.len() as int,
            e.len() as int,
        ));
        assert(e.subrange(e0.len() as int, e.len() as int) =~= rest);
        lemma_parse_str_items_of_enc(b, p, l.drop_first());
        assert(seq![l[0]] + l.drop_first() =~= l);
    }
}

/// Parsing bytes that hold `enc_str_list(l)` yields `l`.
pub proof fn lemma_parse_str_list_of_enc(b: Seq<u8>, pos: int, l: Seq<Seq<char>>)
    requires
        0 <= pos,
        str_list_fits(l),
        pos + enc_str_list(l).len() <= b.len(),
        b.subrange(pos, pos + enc_str_list(l).len()) == enc_str_list(l),
    ensures
        parse_str_list(b, pos) == Some((l, pos + enc_str_list(l).len())),
{
    lemma_auto_spec_u32_to_from_le_bytes();
    let e = enc_str_list(l);
    let items = enc_str_items(l);
    assert(b.subrange(pos, pos + 4) =~= e.subrange(0, 4));
    assert(e.subrange(0, 4) =~= enc_u32(l.len() as u32));
    lemma_parse_u32_of_enc(b, pos, l.len() as u32);
    let p = pos + 4;
    assert(b.subrange(p, p + items.len() as int) =~= e.subrange(4, e.len() as int));
    assert(e.subrange(4, e.len() as int) =~= items);
    lemma_parse_str_items_of_enc(b, p, l);
}

// ---------------------------------------------------------------------------
// Executable readers
// ---------------------------------------------------------------------------
/// Whether two byte vectors hold the same bytes.
pub fn bytes_eq(a: &Vec<u8>, b: &Vec<u8>) -> (r: bool)
    ensures
        r == (a@ == b@),
{
    if a.len() != b.len() {
        assert(a@ != b@);
        return false;
    }
    let n = a.len();
    let mut i: usize = 0;
    while i < n
        invariant
            n == a@.len() == b@.len(),
            i <= n,
            forall|j: int| 0 <= j < i ==> a@[j] == b@[j],
        decreases n - i,
    {
        if a[i] != b[i] {
            return false;
        }
        i = i + 1;
    }
    assert(a@ =~= b@);
    true
}

/// Reads a 32-bit little-endian integer.
pub fn read_u32(b: &Vec<u8>, pos: usize) -> (r: Option<(u32, usize)>)
    ensures
        match r {
            Some((x, p)) => parse_u32(b@, pos as int) == Some((x, p as int)),
            None => parse_u32(b@, pos as int) is None,
        },
{
    if b.len() >= 4 && pos <= b.len() - 4 {
        let s = slice_subrange(b.as_slice(), pos, pos + 4);
        Some((u32_from_le_bytes(s), pos + 4))
    } else {
        None
    }
}

/// Reads a 64-bit little-endian integer.
pub fn read_u64(b: &Vec<u8>, pos: usize) -> (r: Option<(u64, usize)>)
    ensures
        match r {
            Some((x, p)) => parse_u64(b@, pos as int) == Some((x, p as int)),
            None => parse_u64(b@, pos as int) is None,
        },
{
    if b.len() >= 8 && pos <= b.len() - 8 {
        let s = slice_subrange(b.as_slice(), pos, pos + 8);
        Some((u64_from_le_bytes(s), pos + 8))
    } else {
        None
    }
}

/// Reads a length-prefixed byte string.
pub fn read_bytes(b: &Vec<u8>, pos: usize) -> (r: Option<(Vec<u8>, usize)>)
    ensures
        match r {
            Some((v, p)) => parse_bytes(b@, pos as int) == Some((v@, p as int)) && bytes_fit(v@),
            None => parse_bytes(b@, pos as int) is None,
        },
{
    match read_u32(b, pos) {
        Some((n, p)) => {
            if n as usize <= b.len() - p {
                let v = slice_to_vec(slice_subrange(b.as_slice(), p, p + n as usize));
                Some((v, p + n as usize))
            } else {
                None
            }
        },
        None => None,
    }
}

/// Relies on `String::from_utf8`: it succeeds exactly on the byte sequences
/// that are valid UTF-8, and returns the string whose characters those bytes
/// encode, as vstd's UTF-8 model states it.
#[verifier::external_body]
pub(crate) fn string_from_utf8(v: Vec<u8>) -> (r: Option<String>)
    ensures
        r is Some <==> valid_utf8(v@),
        r matches Some(s) ==> s@ == decode_utf8(v@),
{
    match String::from_utf8(v) {
        Ok(s) => Some(s),
        Err(_) => None,
    }
}

/// Reads a length-prefixed character string.
pub fn read_string(b: &Vec<u8>, pos: usize) -> (r: Option<(String, usize)>)
    ensures
        match r {
            Some((s, p)) => parse_str(b@, pos as int) == Some((s@, p as int)) && str_fits(s@),
            None => parse_str(b@, pos as int) is None,
        },
{
    match read_bytes(b, pos) {
        Some((raw, p)) => {
            let ghost raw_view = raw@;
            match string_from_utf8(raw) {
                Some(s) => {
                    proof {
                        vstd::utf8::decode_utf8_encode_utf8(raw_view);
                    }
                    Some((s, p))
                },
                None => None,
            }
        },
        None => None,
    }
}

/// Reads a count-prefixed list of character strings.
pub fn read_string_list(b: &Vec<u8>, pos: usize) -> (r: Option<(Vec<String>, usize)>)
    ensures
        match r {
            Some((l, p)) => parse_str_list(b@, pos as int) == Some((l.deep_view(), p as int))
                && str_list_fits(l.deep_view()),
            None => parse_str_list(b@, pos as int) is None,
        },
{
    match read_u32(b, pos) {
        Some((n, p0)) => {
            let mut out: Vec<String> = Vec::new();
            let mut cur: usize = p0;
            let mut i: u32 = 0;
            loop
                invariant
                    i <= n,
                    out@.len() == i as int,
                    str_list_fits(out.deep_view()),
                    parse_str_list(b@, pos as int) == parse_str_items(b@, p0 as int, n as nat),
                    parse_str_items(b@, p0 as int, n as nat) == (match parse_str_items(
                        b@,
                        cur as int,
                        (n - i) as nat,
                    ) {
                        Some((rest, q)) => Some((out.deep_view() + rest, q)),
                        None => None,
                    }),
                decreases n - i,
            {
                if i == n {
                    assert(parse_str_items(b@, cur as int, 0) == Some(
                        (Seq::<Seq<char>>::empty(), cur as int),
                    ));
                    assert(out.deep_view() + Seq::<Seq<char>>::empty() =~= out.deep_view());
                    return Some((out, cur));
                }
                match read_string(b, cur) {
                    Some((s, p)) => {
                        let ghost old_out = out.deep_view();
                        out.push(s);
                        proof {
                            assert(out.deep_view() =~= old_out + seq![s@]);
                            assert(forall|j: int|
                                0 <= j < out.deep_view().len() ==> str_fits(
                                    #[trigger] out.deep_view()[j],
                                ));
                            assert((old_out + seq![s@]) + parse_str_items(
                                b@,
                                p as int,
                                (n - i - 1) as nat,
                            )->Some_0.0 =~= old_out + (seq![s@] + parse_str_items(
                                b@,
                                p as int,
                                (n - i - 1) as nat,
                            )->Some_0.0));
                        }
                        cur = p;
                        i = i + 1;
                    },
                    None => {
                        return None;
                    },
                }
            }
        },
        None => None,
    }
}

// ---------------------------------------------------------------------------
// Executable writers
// ---------------------------------------------------------------------------
/// Appends `enc_u32(x)`.
pub fn push_u32(out: &mut Vec<u8>, x: u32)
    ensures
        final(out)@ == old(out)@ + enc_u32(x),
{
    let mut e = u32_to_le_bytes(x);
    out.append(&mut e);
}

/// Appends `enc_u64(x)`.
pub fn push_u64(out: &mut Vec<u8>, x: u64)
    ensures
        final(out)@ == old(out)@ + enc_u64(x),
{
    let mut e = u64_to_le_bytes(x);
    out.append(&mut e);
}

/// Appends `enc_bytes(b@)`, or reports that the byte string is too long for
/// its length prefix.
pub fn push_bytes(out: &mut Vec<u8>, b: &Vec<u8>) -> (r: Result<(), EngineError>)
    ensures
        match r {
            Ok(_) => bytes_fit(b@) && final(out)@ == old(out)@ + enc_bytes(b@),
            Err(e) => e == EngineError::CapacityExceeded && !bytes_fit(b@) && final(out)@ == old(out)@,
        },
{
    if b.len() > u32::MAX as usize {
        return Err(EngineError::CapacityExceeded);
    }
    push_u32(out, b.len() as u32);
    let mut e = slice_to_vec(b.as_slice());
    out.append(&mut e);
    assert(final(out)@ =~= old(out)@ + enc_bytes(b@));
    Ok(())
}

/// Appends `enc_str(s@)`, or reports that the string is too long for its
/// length prefix.
pub fn push_str(out: &mut Vec<u8>, s: &String) -> (r: Result<(), EngineError>)
    ensures
        match r {
            Ok(_) => str_fits(s@) && final(out)@ == old(out)@ + enc_str(s@),
            Err(e) => e == EngineError::CapacityExceeded && !str_fits(s@) && final(out)@ == old(out)@,
        },
{
    let raw = s.as_str().as_bytes_vec();
    push_bytes(out, &raw)
}

/// Appends `enc_str_list(l.deep_view())`, or reports that the list or one of
/// its strings is too long for its length prefix.
pub fn push_str_list(out: &mut Vec<u8>, l: &Vec<String>) -> (r: Result<(), EngineError>)
    ensures
        match r {
            Ok(_) => str_list_fits(l.deep_view()) && final(out)@ == old(out)@ + enc_str_list(
                l.deep_view(),
            ),
            Err(e) => e == EngineError::CapacityExceeded && !str_list_fits(l.deep_view()) && final(out)@ == old(out)@,
        },
{
    if l.len() > u32::MAX as usize {
        assert(l.deep_view().len() == l@.len());
        return Err(EngineError::CapacityExceeded);
    }
    let ghost lv = l.deep_view();
    // A string too long for its prefix makes the whole list unencodable; the
    // record stays untouched, so scan before writing anything.
    let mut k: usize = 0;
    while k < l.len()
        invariant
            k <= l@.len(),
            lv == l.deep_view(),
            lv.len() == l@.len(),
            forall|j: int| 0 <= j < k ==> str_fits(#[trigger] lv[j]),
        decreases l@.len() - k,
    {
        assert(lv[k as int] == l@[k as int]@);
        let raw = l[k].as_str().as_bytes_vec();
        if raw.len() > u32::MAX as usize {
            assert(!str_fits(lv[k as int]));
            return Err(EngineError::CapacityExceeded);
        }
        assert(str_fits(lv[k as int]));
        k = k + 1;
    }
    push_u32(out, l.len() as u32);
    let ghost base = out@;
    let mut i: usize = 0;
    while i < l.len()
        invariant
            i <= l@.len(),
            lv == l.deep_view(),
            lv.len() == l@.len(),
            str_list_fits(lv),
            out@ == base + enc_str_items(lv.subrange(0, i as int)),
        decreases l@.len() - i,
    {
        let ghost before = out@;
        let res = push_str(out, &l[i]);
        proof {
            lemma_enc_str_items_snoc(lv, i as int);
        }
        match res {
            Ok(_) => {},
            Err(_) => {
                // Unreachable: every string was length-checked above.
                assert(false);
            },
        }
        i = i + 1;
    }
    assert(lv.subrange(0, lv.len() as int) =~= lv);
    Ok(())
}

/// Appending one string's encoding to the encoding of the items before it
/// gives the encoding of the items through it.
proof fn lemma_enc_str_items_snoc(l: Seq<Seq<char>>, i: int)
    requires
        0 <= i < l.len(),
    ensures
        enc_str_items(l.subrange(0, i + 1)) == enc_str_items(l.subrange(0, i)) + enc_str(l[i]),
    decreases i,
{
    if i == 0 {
        assert(l.subrange(0, 1) =~= seq![l[0]]);
        assert(enc_str_items(seq![l[0]]) == enc_str(l[0]) + enc_str_items(
            seq![l[0]].drop_first(),
        ));
        assert(seq![l[0]].drop_first() =~= Seq::<Seq<char>>::empty());
        assert(l.subrange(0, 0) =~= Seq::<Seq<char>>::empty());
        assert(enc_str_items(l.subrange(0, 0)) + enc_str(l[0]) =~= enc_str(l[0])
            + Seq::<u8>::empty());
        assert(enc_str(l[0]) + Seq::<u8>::empty() =~= enc_str(l[0]));
    } else {
        let t = l.drop_first();
        lemma_enc_str_items_snoc(t, i - 1);
        assert(l.subrange(0, i + 1).drop_first() =~= t.subrange(0, i));
        assert(l.subrange(0, i).drop_first() =~= t.subrange(0, i - 1));
        assert(enc_str_items(l.subrange(0, i + 1)) == enc_str(l[0]) + enc_str_items(
            t.subrange(0, i),
        ));
        assert(enc_str_items(l.subrange(0, i)) == enc_str(l[0]) + enc_str_items(
            t.subrange(0, i - 1),
        ));
        assert(enc_str(l[0]) + (enc_str_items(t.subrange(0, i - 1)) + enc_str(t[i - 1]))
            =~= (enc_str(l[0]) + enc_str_items(t.subrange(0, i - 1))) + enc_str(t[i - 1]));
    }
}

} // verus!
