//! Compact self-describing binary encoding of wire trees, used for
//! out-of-band storage and interop. Every node starts with a tag byte;
//! counts and integers are fixed-width little-endian; characters are
//! stored as their scalar values. Decoding bytes produced by encoding a
//! tree yields the same tree: the round trip is proven below.

use vstd::prelude::*;
use vstd::bytes::{
    spec_u64_to_le_bytes, spec_u64_from_le_bytes, lemma_auto_spec_u64_to_from_le_bytes,
    u64_to_le_bytes, u64_from_le_bytes, spec_u32_to_le_bytes, spec_u32_from_le_bytes,
    lemma_auto_spec_u32_to_from_le_bytes, u32_to_le_bytes, u32_from_le_bytes,
};
use vstd::slice::slice_subrange;
use vstd::utf8::{is_scalar, char_is_scalar, char_u32_cast};
use crate::json::{DecodeError, Json, JVal, jvals_of, jpairs_of, jval_of, lemma_jvals_of,
    lemma_jpairs_of, lemma_jvals_push, lemma_jpairs_push, push_char};

verus! {

/// Converts a scalar value back to a character.
///
/// Relies on `char::from_u32`: returns the character with the given code
/// when the code is a Unicode scalar value, and `None` otherwise.
#[verifier::external_body]
fn char_from_u32(u: u32) -> (r: Option<char>)
    ensures
        r == (if is_scalar(u) {
            Some(u as char)
        } else {
            None::<char>
        }),
{
    char::from_u32(u)
}

/// The encoding of a string's characters: four little-endian bytes of
/// each scalar value, in order.
pub open spec fn enc_chars(s: Seq<char>) -> Seq<u8>
    decreases s.len(),
{
    if s.len() == 0 {
        Seq::empty()
    } else {
        spec_u32_to_le_bytes(s[0] as u32) + enc_chars(s.subrange(1, s.len() as int))
    }
}

/// The encoding of a string: its character count, then its characters.
pub open spec fn enc_str(s: Seq<char>) -> Seq<u8> {
    spec_u64_to_le_bytes(s.len() as u64) + enc_chars(s)
}

/// The encoding of a wire tree.
pub open spec fn enc_jval(v: JVal) -> Seq<u8>
    decreases v, 0int,
{
    match v {
        JVal::Null => seq![0u8],
        JVal::Bool(b) => if b {
            seq![2u8]
        } else {
            seq![1u8]
        },
        JVal::UInt(n) => seq![3u8] + spec_u64_to_le_bytes(n),
        JVal::Str(s) => seq![4u8] + enc_str(s),
        JVal::Arr(items) => seq![5u8] + spec_u64_to_le_bytes(items.len() as u64) + enc_items(items),
        JVal::Obj(pairs) => seq![6u8] + spec_u64_to_le_bytes(pairs.len() as u64) + enc_members(
            pairs,
        ),
    }
}

pub open spec fn enc_items(s: Seq<JVal>) -> Seq<u8>
    decreases s, 1int,
{
    if s.len() == 0 {
        Seq::empty()
    } else {
        enc_jval(s[0]) + enc_items(s.subrange(1, s.len() as int))
    }
}

pub open spec fn enc_members(s: Seq<(Seq<char>, JVal)>) -> Seq<u8>
    decreases s, 1int,
{
    if s.len() == 0 {
        Seq::empty()
    } else {
        enc_str(s[0].0) + enc_jval(s[0].1) + enc_members(s.subrange(1, s.len() as int))
    }
}

/// A tree is encodable when every count it stores fits the fixed-width
/// count field. Every tree built from in-memory values satisfies this.
pub open spec fn jval_wf(v: JVal) -> bool
    decreases v, 0int,
{
    match v {
        JVal::Null => true,
        JVal::Bool(_) => true,
        JVal::UInt(_) => true,
        JVal::Str(s) => s.len() <= u64::MAX,
        JVal::Arr(items) => items.len() <= u64::MAX && items_wf(items),
        JVal::Obj(pairs) => pairs.len() <= u64::MAX && members_wf(pairs),
    }
}

pub open spec fn items_wf(s: Seq<JVal>) -> bool
    decreases s, 1int,
{
    if s.len() == 0 {
        true
    } else {
        jval_wf(s[0]) && items_wf(s.subrange(1, s.len() as int))
    }
}

pub open spec fn members_wf(s: Seq<(Seq<char>, JVal)>) -> bool
    decreases s, 1int,
{
    if s.len() == 0 {
        true
    } else {
        s[0].0.len() <= u64::MAX && jval_wf(s[0].1) && members_wf(s.subrange(1, s.len() as int))
    }
}

/// Decodes `n` characters from the front of `bytes`, giving the
/// characters and the count of bytes consumed.
pub open spec fn dec_chars(bytes: Seq<u8>, n: nat) -> Result<(Seq<char>, int), DecodeError>
    decreases n,
{
    if n == 0 {
        Ok((Seq::empty(), 0))
    } else if bytes.len() < 4 {
        Err(DecodeError::Truncated)
    } else {
        let u = spec_u32_from_le_bytes(bytes.subrange(0, 4));
        if !is_scalar(u) {
            Err(DecodeError::InvalidChar)
        } else {
            match dec_chars(bytes.subrange(4, bytes.len() as int), (n - 1) as nat) {
                Ok((s, k)) => Ok((seq![u as char] + s, 4 + k)),
                Err(e) => Err(e),
            }
        }
    }
}

/// Decodes a string from the front of `bytes`.
pub open spec fn dec_str(bytes: Seq<u8>) -> Result<(Seq<char>, int), DecodeError> {
    if bytes.len() < 8 {
        Err(DecodeError::Truncated)
    } else {
        let n = spec_u64_from_le_bytes(bytes.subrange(0, 8));
        match dec_chars(bytes.subrange(8, bytes.len() as int), n as nat) {
            Ok((s, k)) => Ok((s, 8 + k)),
            Err(e) => Err(e),
        }
    }
}

/// Decodes one wire tree from the front of `bytes`, giving the tree and
/// the count of bytes consumed.
pub open spec fn dec_jval(bytes: Seq<u8>) -> Result<(JVal, int), DecodeError>
    decreases bytes.len(), 0int, 0int,
{
    if bytes.len() < 1 {
        Err(DecodeError::Truncated)
    } else {
        let tag = bytes[0];
        if tag == 0 {
            Ok((JVal::Null, 1))
        } else if tag == 1 {
            Ok((JVal::Bool(false), 1))
        } else if tag == 2 {
            Ok((JVal::Bool(true), 1))
        } else if tag == 3 {
            if bytes.len() < 9 {
                Err(DecodeError::Truncated)
            } else {
                Ok((JVal::UInt(spec_u64_from_le_bytes(bytes.subrange(1, 9))), 9))
            }
        } else if tag == 4 {
            match dec_str(bytes.subrange(1, bytes.len() as int)) {
                Ok((s, k)) => Ok((JVal::Str(s), 1 + k)),
                Err(e) => Err(e),
            }
        } else if tag == 5 {
            if bytes.len() < 9 {
                Err(DecodeError::Truncated)
            } else {
                let n = spec_u64_from_le_bytes(bytes.subrange(1, 9));
                match dec_items(bytes.subrange(9, bytes.len() as int), n as nat) {
                    Ok((items, k)) => Ok((JVal::Arr(items), 9 + k)),
                    Err(e) => Err(e),
                }
            }
        } else if tag == 6 {
            if bytes.len() < 9 {
                Err(DecodeError::Truncated)
            } else {
                let n = spec_u64_from_le_bytes(bytes.subrange(1, 9));
                match dec_members(bytes.subrange(9, bytes.len() as int), n as nat) {
                    Ok((pairs, k)) => Ok((JVal::Obj(pairs), 9 + k)),
                    Err(e) => Err(e),
                }
            }
        } else {
            Err(DecodeError::InvalidTag)
        }
    }
}

/// Decodes `n` array elements from the front of `bytes`.
pub open spec fn dec_items(bytes: Seq<u8>, n: nat) -> Result<(Seq<JVal>, int), DecodeError>
    decreases bytes.len(), 1int, n,
{
    if n == 0 {
        Ok((Seq::empty(), 0))
    } else {
        match dec_jval(bytes) {
            Err(e) => Err(e),
            Ok((v, k)) => if k < 1 || k > bytes.len() {
                Err(DecodeError::Truncated)
            } else {
                match dec_items(bytes.subrange(k, bytes.len() as int), (n - 1) as nat) {
                    Ok((s, k2)) => Ok((seq![v] + s, k + k2)),
                    Err(e) => Err(e),
                }
            },
        }
    }
}

/// Decodes `n` object members from the front of `bytes`.
pub open spec fn dec_members(bytes: Seq<u8>, n: nat) -> Result<
    (Seq<(Seq<char>, JVal)>, int),
    DecodeError,
>
    decreases bytes.len(), 2int, n,
{
    if n == 0 {
        Ok((Seq::empty(), 0))
    } else {
        match dec_str(bytes) {
            Err(e) => Err(e),
            Ok((key, k)) => if k < 1 || k > bytes.len() {
                Err(DecodeError::Truncated)
            } else {
                match dec_jval(bytes.subrange(k, bytes.len() as int)) {
                    Err(e) => Err(e),
                    Ok((v, k2)) => if k2 < 0 || k + k2 > bytes.len() {
                        Err(DecodeError::Truncated)
                    } else {
                        match dec_members(
                            bytes.subrange(k + k2, bytes.len() as int),
                            (n - 1) as nat,
                        ) {
                            Ok((rest, k3)) => Ok((seq![(key, v)] + rest, k + k2 + k3)),
                            Err(e) => Err(e),
                        }
                    },
                }
            },
        }
    }
}

/// Decodes a complete encoded tree; bytes past its end are an error.
pub open spec fn decode_spec(bytes: Seq<u8>) -> Result<JVal, DecodeError> {
    match dec_jval(bytes) {
        Ok((v, k)) => if k == bytes.len() {
            Ok(v)
        } else {
            Err(DecodeError::TrailingData)
        },
        Err(e) => Err(e),
    }
}

pub proof fn lemma_enc_chars_len(s: Seq<char>)
    ensures
        enc_chars(s).len() == 4 * s.len(),
    decreases s.len(),
{
    lemma_auto_spec_u32_to_from_le_bytes();
    if s.len() > 0 {
        lemma_enc_chars_len(s.subrange(1, s.len() as int));
    }
}

pub proof fn lemma_dec_enc_chars(s: Seq<char>, rest: Seq<u8>)
    ensures
        dec_chars(enc_chars(s) + rest, s.len() as nat) == Ok::<(Seq<char>, int), DecodeError>(
            (s, 4 * s.len() as int),
        ),
    decreases s.len(),
{
    lemma_auto_spec_u32_to_from_le_bytes();
    lemma_enc_chars_len(s);
    if s.len() == 0 {
        assert(enc_chars(s) + rest =~= rest);
        assert(s =~= Seq::<char>::empty());
    } else {
        let u = s[0] as u32;
        char_is_scalar(s[0]);
        char_u32_cast(s[0], u);
        let bytes = enc_chars(s) + rest;
        let tail = s.subrange(1, s.len() as int);
        lemma_enc_chars_len(tail);
        assert(spec_u32_to_le_bytes(u).len() == 4);
        assert(spec_u32_from_le_bytes(spec_u32_to_le_bytes(u)) == u);
        assert(bytes.subrange(0, 4) =~= spec_u32_to_le_bytes(u));
        assert(bytes.subrange(4, bytes.len() as int) =~= enc_chars(tail) + rest);
        lemma_dec_enc_chars(tail, rest);
        assert(seq![u as char] + tail =~= s);
    }
}

pub proof fn lemma_dec_enc_str(s: Seq<char>, rest: Seq<u8>)
    requires
        s.len() <= u64::MAX,
    ensures
        dec_str(enc_str(s) + rest) == Ok::<(Seq<char>, int), DecodeError>((s, 8 + 4 * s.len() as int)),
        enc_str(s).len() == 8 + 4 * s.len() as int,
{
    lemma_auto_spec_u64_to_from_le_bytes();
    lemma_enc_chars_len(s);
    let bytes = enc_str(s) + rest;
    assert(bytes.subrange(0, 8) =~= spec_u64_to_le_bytes(s.len() as u64));
    assert(bytes.subrange(8, bytes.len() as int) =~= enc_chars(s) + rest);
    lemma_dec_enc_chars(s, rest);
}

/// Decoding the encoding of a tree, whatever follows it, yields the tree
/// back and consumes exactly its encoding.
pub proof fn lemma_dec_enc(v: JVal, rest: Seq<u8>)
    requires
        jval_wf(v),
    ensures
        dec_jval(enc_jval(v) + rest) == Ok::<(JVal, int), DecodeError>(
            (v, enc_jval(v).len() as int),
        ),
        enc_jval(v).len() >= 1,
    decreases v, 0int,
{
    lemma_auto_spec_u64_to_from_le_bytes();
    let bytes = enc_jval(v) + rest;
    match v {
        JVal::Null => {},
        JVal::Bool(_) => {},
        JVal::UInt(n) => {
            assert(bytes.subrange(1, 9) =~= spec_u64_to_le_bytes(n));
        },
        JVal::Str(s) => {
            assert(bytes.subrange(1, bytes.len() as int) =~= enc_str(s) + rest);
            lemma_dec_enc_str(s, rest);
        },
        JVal::Arr(items) => {
            assert(bytes.subrange(1, 9) =~= spec_u64_to_le_bytes(items.len() as u64));
            assert(bytes.subrange(9, bytes.len() as int) =~= enc_items(items) + rest);
            lemma_dec_enc_items(items, rest);
        },
        JVal::Obj(pairs) => {
            assert(bytes.subrange(1, 9) =~= spec_u64_to_le_bytes(pairs.len() as u64));
            assert(bytes.subrange(9, bytes.len() as int) =~= enc_members(pairs) + rest);
            lemma_dec_enc_members(pairs, rest);
        },
    }
}

pub proof fn lemma_dec_enc_items(s: Seq<JVal>, rest: Seq<u8>)
    requires
        items_wf(s),
        s.len() <= u64::MAX,
    ensures
        dec_items(enc_items(s) + rest, s.len() as nat) == Ok::<(Seq<JVal>, int), DecodeError>(
            (s, enc_items(s).len() as int),
        ),
    decreases s, 1int,
{
    if s.len() == 0 {
        assert(enc_items(s) + rest =~= rest);
        assert(s =~= Seq::<JVal>::empty());
    } else {
        let head = s[0];
        let tail = s.subrange(1, s.len() as int);
        let bytes = enc_items(s) + rest;
        assert(bytes =~= enc_jval(head) + (enc_items(tail) + rest));
        lemma_dec_enc(head, enc_items(tail) + rest);
        let k = enc_jval(head).len() as int;
        assert(bytes.subrange(k, bytes.len() as int) =~= enc_items(tail) + rest);
        lemma_dec_enc_items(tail, rest);
        assert(seq![head] + tail =~= s);
    }
}

pub proof fn lemma_dec_enc_members(s: Seq<(Seq<char>, JVal)>, rest: Seq<u8>)
    requires
        members_wf(s),
        s.len() <= u64::MAX,
    ensures
        dec_members(enc_members(s) + rest, s.len() as nat) == Ok::<
            (Seq<(Seq<char>, JVal)>, int),
            DecodeError,
        >((s, enc_members(s).len() as int)),
    decreases s, 1int,
{
    if s.len() == 0 {
        assert(enc_members(s) + rest =~= rest);
        assert(s =~= Seq::<(Seq<char>, JVal)>::empty());
    } else {
        let key = s[0].0;
        let val = s[0].1;
        let tail = s.subrange(1, s.len() as int);
        let bytes = enc_members(s) + rest;
        assert(bytes =~= enc_str(key) + (enc_jval(val) + (enc_members(tail) + rest)));
        lemma_dec_enc_str(key, enc_jval(val) + (enc_members(tail) + rest));
        let k = enc_str(key).len() as int;
        assert(bytes.subrange(k, bytes.len() as int) =~= enc_jval(val) + (enc_members(tail)
            + rest));
        lemma_dec_enc(val, enc_members(tail) + rest);
        let k2 = enc_jval(val).len() as int;
        assert(bytes.subrange(k + k2, bytes.len() as int) =~= enc_members(tail) + rest);
        lemma_dec_enc_members(tail, rest);
        assert(seq![(key, val)] + tail =~= s);
        assert((seq![(key, val)] + tail)[0] == (key, val));
    }
}

/// The binary round trip: decoding the encoding of any encodable tree
/// yields the same tree. Every configuration object's wire tree held in
/// memory is encodable, so for every such object
/// `decode(encode(x)) == x`.
pub proof fn lemma_codec_round_trip(v: JVal)
    requires
        jval_wf(v),
    ensures
        decode_spec(enc_jval(v)) == Ok::<JVal, DecodeError>(v),
{
    lemma_dec_enc(v, Seq::empty());
    assert(enc_jval(v) + Seq::empty() =~= enc_jval(v));
}

pub proof fn lemma_enc_chars_snoc(s: Seq<char>)
    requires
        s.len() > 0,
    ensures
        enc_chars(s) == enc_chars(s.drop_last()) + spec_u32_to_le_bytes(s.last() as u32),
    decreases s.len(),
{
    if s.len() == 1 {
        assert(s.drop_last() =~= Seq::<char>::empty());
        assert(s.subrange(1, 1) =~= Seq::<char>::empty());
        assert(enc_chars(s) =~= enc_chars(s.drop_last()) + spec_u32_to_le_bytes(s.last() as u32));
    } else {
        let t = s.subrange(1, s.len() as int);
        lemma_enc_chars_snoc(t);
        assert(s.drop_last().subrange(1, s.len() - 1) =~= t.drop_last());
        assert(s.drop_last()[0] == s[0]);
        assert(t.last() == s.last());
        assert(enc_chars(s) =~= enc_chars(s.drop_last()) + spec_u32_to_le_bytes(s.last() as u32));
    }
}

pub proof fn lemma_enc_items_snoc(s: Seq<JVal>)
    requires
        s.len() > 0,
    ensures
        enc_items(s) == enc_items(s.drop_last()) + enc_jval(s.last()),
    decreases s.len(),
{
    if s.len() == 1 {
        assert(s.drop_last() =~= Seq::<JVal>::empty());
        assert(s.subrange(1, 1) =~= Seq::<JVal>::empty());
        assert(enc_items(s) =~= enc_items(s.drop_last()) + enc_jval(s.last()));
    } else {
        let t = s.subrange(1, s.len() as int);
        lemma_enc_items_snoc(t);
        assert(s.drop_last().subrange(1, s.len() - 1) =~= t.drop_last());
        assert(s.drop_last()[0] == s[0]);
        assert(t.last() == s.last());
        assert(enc_items(s) =~= enc_items(s.drop_last()) + enc_jval(s.last()));
    }
}

pub proof fn lemma_enc_members_snoc(s: Seq<(Seq<char>, JVal)>)
    requires
        s.len() > 0,
    ensures
        enc_members(s) == enc_members(s.drop_last()) + enc_str(s.last().0) + enc_jval(s.last().1),
    decreases s.len(),
{
    if s.len() == 1 {
        assert(s.drop_last() =~= Seq::<(Seq<char>, JVal)>::empty());
        assert(s.subrange(1, 1) =~= Seq::<(Seq<char>, JVal)>::empty());
        assert(enc_members(s) =~= enc_members(s.drop_last()) + enc_str(s.last().0) + enc_jval(
            s.last().1,
        ));
    } else {
        let t = s.subrange(1, s.len() as int);
        lemma_enc_members_snoc(t);
        assert(s.drop_last().subrange(1, s.len() - 1) =~= t.drop_last());
        assert(s.drop_last()[0] == s[0]);
        assert(t.last() == s.last());
        assert(enc_members(s) =~= enc_members(s.drop_last()) + enc_str(s.last().0) + enc_jval(
            s.last().1,
        ));
    }
}

/// Appends the encoding of a string.
fn push_str_enc(out: &mut Vec<u8>, s: &String)
    ensures
        final(out)@ == old(out)@ + enc_str(s@),
{
    let ghost base = out@;
    let n = s.as_str().unicode_len();
    let mut le = u64_to_le_bytes(n as u64);
    out.append(&mut le);
    let ghost prefix = out@;
    proof {
        assert(enc_chars(s@.take(0)) =~= Seq::<u8>::empty());
        assert(out@ =~= prefix + enc_chars(s@.take(0)));
    }
    let mut i: usize = 0;
    while i < n
        invariant
            n == s@.len(),
            i <= n,
            prefix == base + spec_u64_to_le_bytes(n as u64),
            out@ =~= prefix + enc_chars(s@.take(i as int)),
        decreases n - i,
    {
        let c = s.as_str().get_char(i);
        let mut le4 = u32_to_le_bytes(c as u32);
        out.append(&mut le4);
        proof {
            lemma_enc_chars_snoc(s@.take(i as int + 1));
            assert(s@.take(i as int + 1).drop_last() =~= s@.take(i as int));
            assert(s@.take(i as int + 1).last() == s@[i as int]);
            assert(out@ =~= prefix + enc_chars(s@.take(i as int + 1)));
        }
        i += 1;
    }
    proof {
        assert(s@.take(n as int) =~= s@);
        assert(out@ =~= base + enc_str(s@));
    }
}

/// Appends the encoding of a tree.
pub fn encode_into(j: &Json, out: &mut Vec<u8>)
    ensures
        final(out)@ == old(out)@ + enc_jval(j@),
    decreases j,
{
    let ghost base = out@;
    match j {
        Json::Null => {
            out.push(0u8);
            proof {
                assert(out@ =~= base + enc_jval(j@));
            }
        },
        Json::Bool(b) => {
            if *b {
                out.push(2u8);
            } else {
                out.push(1u8);
            }
            proof {
                assert(out@ =~= base + enc_jval(j@));
            }
        },
        Json::UInt(n) => {
            out.push(3u8);
            let mut le = u64_to_le_bytes(*n);
            out.append(&mut le);
            proof {
                assert(out@ =~= base + enc_jval(j@));
            }
        },
        Json::Str(s) => {
            out.push(4u8);
            push_str_enc(out, s);
            proof {
                assert(out@ =~= base + enc_jval(j@));
            }
        },
        Json::Arr(items) => {
            out.push(5u8);
            let mut le = u64_to_le_bytes(items.len() as u64);
            out.append(&mut le);
            let ghost prefix = out@;
            proof {
                lemma_jvals_of(items@);
                assert(enc_items(jvals_of(items@).take(0)) =~= Seq::<u8>::empty());
                assert(out@ =~= prefix + enc_items(jvals_of(items@).take(0)));
            }
            let mut i: usize = 0;
            while i < items.len()
                invariant
                    *j == Json::Arr(*items),
                    i <= items@.len(),
                    jvals_of(items@).len() == items@.len(),
                    forall|k: int|
                        0 <= k < items@.len() ==> jvals_of(items@)[k] == jval_of(items@[k]),
                    prefix == base + seq![5u8] + spec_u64_to_le_bytes(items@.len() as u64),
                    out@ =~= prefix + enc_items(jvals_of(items@).take(i as int)),
                decreases items@.len() - i,
            {
                proof {
                    assert(decreases_to!(*j => (*j)->Arr_0));
                    assert(decreases_to!((*j)->Arr_0 => (*j)->Arr_0@));
                    assert(decreases_to!((*j)->Arr_0@ => (*j)->Arr_0@[i as int]));
                }
                encode_into(&items[i], out);
                proof {
                    lemma_enc_items_snoc(jvals_of(items@).take(i as int + 1));
                    assert(jvals_of(items@).take(i as int + 1).drop_last() =~= jvals_of(
                        items@,
                    ).take(i as int));
                    assert(jvals_of(items@).take(i as int + 1).last() == jval_of(
                        items@[i as int],
                    ));
                    assert(out@ =~= prefix + enc_items(jvals_of(items@).take(i as int + 1)));
                }
                i += 1;
            }
            proof {
                assert(jvals_of(items@).take(items@.len() as int) =~= jvals_of(items@));
                assert(out@ =~= base + enc_jval(j@));
            }
        },
        Json::Obj(pairs) => {
            out.push(6u8);
            let mut le = u64_to_le_bytes(pairs.len() as u64);
            out.append(&mut le);
            let ghost prefix = out@;
            proof {
                lemma_jpairs_of(pairs@);
                assert(enc_members(jpairs_of(pairs@).take(0)) =~= Seq::<u8>::empty());
                assert(out@ =~= prefix + enc_members(jpairs_of(pairs@).take(0)));
            }
            let mut i: usize = 0;
            while i < pairs.len()
                invariant
                    *j == Json::Obj(*pairs),
                    i <= pairs@.len(),
                    jpairs_of(pairs@).len() == pairs@.len(),
                    forall|k: int|
                        0 <= k < pairs@.len() ==> jpairs_of(pairs@)[k] == (
                        pairs@[k].0@,
                        jval_of(pairs@[k].1),
                        ),
                    prefix == base + seq![6u8] + spec_u64_to_le_bytes(pairs@.len() as u64),
                    out@ =~= prefix + enc_members(jpairs_of(pairs@).take(i as int)),
                decreases pairs@.len() - i,
            {
                push_str_enc(out, &pairs[i].0);
                proof {
                    assert(decreases_to!(*j => (*j)->Obj_0));
                    assert(decreases_to!((*j)->Obj_0 => (*j)->Obj_0@));
                    assert(decreases_to!((*j)->Obj_0@ => (*j)->Obj_0@[i as int]));
                    assert(decreases_to!((*j)->Obj_0@[i as int] => (*j)->Obj_0@[i as int].1));
                }
                encode_into(&pairs[i].1, out);
                proof {
                    lemma_enc_members_snoc(jpairs_of(pairs@).take(i as int + 1));
                    assert(jpairs_of(pairs@).take(i as int + 1).drop_last() =~= jpairs_of(
                        pairs@,
                    ).take(i as int));
                    assert(jpairs_of(pairs@).take(i as int + 1).last() == (
                        pairs@[i as int].0@,
                        jval_of(pairs@[i as int].1),
                    ));
                    assert(out@ =~= prefix + enc_members(jpairs_of(pairs@).take(i as int + 1)));
                }
                i += 1;
            }
            proof {
                assert(jpairs_of(pairs@).take(pairs@.len() as int) =~= jpairs_of(pairs@));
                assert(out@ =~= base + enc_jval(j@));
            }
        },
    }
}

/// Encodes a tree to its binary form.
pub fn encode(j: &Json) -> (out: Vec<u8>)
    ensures
        out@ == enc_jval(j@),
{
    let mut out: Vec<u8> = Vec::new();
    encode_into(j, &mut out);
    proof {
        assert(Seq::<u8>::empty() + enc_jval(j@) =~= enc_jval(j@));
    }
    out
}

/// Reads a fixed-width count or integer at `pos`.
fn read_u64_at(bytes: &Vec<u8>, pos: usize) -> (x: u64)
    requires
        pos + 8 <= bytes@.len(),
    ensures
        x == spec_u64_from_le_bytes(bytes@.subrange(pos as int, pos as int + 8)),
{
    let _total = bytes.len();
    let sl = slice_subrange(bytes.as_slice(), pos, pos + 8);
    u64_from_le_bytes(sl)
}

/// Reads a fixed-width scalar value at `pos`.
fn read_u32_at(bytes: &Vec<u8>, pos: usize) -> (x: u32)
    requires
        pos + 4 <= bytes@.len(),
    ensures
        x == spec_u32_from_le_bytes(bytes@.subrange(pos as int, pos as int + 4)),
{
    let _total = bytes.len();
    let sl = slice_subrange(bytes.as_slice(), pos, pos + 4);
    u32_from_le_bytes(sl)
}

/// Decodes `n` characters starting at `pos`, giving the string and the
/// position after it.
fn decode_chars_at(bytes: &Vec<u8>, pos: usize, n: u64) -> (r: Result<(String, usize), DecodeError>)
    requires
        pos <= bytes@.len(),
    ensures
        match r {
            Ok(p) => pos <= p.1 <= bytes@.len() && dec_chars(
                bytes@.subrange(pos as int, bytes@.len() as int),
                n as nat,
            ) == Ok::<(Seq<char>, int), DecodeError>((p.0@, p.1 - pos)),
            Err(e) => dec_chars(bytes@.subrange(pos as int, bytes@.len() as int), n as nat)
                == Err::<(Seq<char>, int), DecodeError>(e),
        },
{
    let ghost len = bytes@.len() as int;
    let ghost whole = bytes@.subrange(pos as int, len);
    let mut acc = String::new();
    let mut cur: usize = pos;
    let mut rem: u64 = n;
    while rem > 0
        invariant
            pos <= cur <= bytes@.len(),
            len == bytes@.len() as int,
            whole == bytes@.subrange(pos as int, len),
            dec_chars(whole, n as nat) == (match dec_chars(
                bytes@.subrange(cur as int, len),
                rem as nat,
            ) {
                Ok(p) => Ok::<(Seq<char>, int), DecodeError>(
                    (acc@ + p.0, (cur - pos) as int + p.1),
                ),
                Err(e) => Err::<(Seq<char>, int), DecodeError>(e),
            }),
        decreases rem,
    {
        let ghost tail = bytes@.subrange(cur as int, len);
        if bytes.len() - cur < 4 {
            return Err(DecodeError::Truncated);
        }
        let u = read_u32_at(bytes, cur);
        proof {
            assert(tail.subrange(0, 4) =~= bytes@.subrange(cur as int, cur as int + 4));
        }
        match char_from_u32(u) {
            None => {
                return Err(DecodeError::InvalidChar);
            },
            Some(c) => {
                let ghost acc_old = acc@;
                push_char(&mut acc, c);
                proof {
                    assert(tail.subrange(4, tail.len() as int) =~= bytes@.subrange(
                        cur as int + 4,
                        len,
                    ));
                    let d = dec_chars(bytes@.subrange(cur as int + 4, len), (rem - 1) as nat);
                    match d {
                        Ok(p) => {
                            assert(acc_old + (seq![c] + p.0) =~= acc@ + p.0);
                        },
                        Err(_) => {},
                    }
                }
                cur = cur + 4;
                rem = rem - 1;
            },
        }
    }
    proof {
        assert(acc@ + Seq::<char>::empty() =~= acc@);
    }
    Ok((acc, cur))
}

/// Decodes a string starting at `pos`, giving the string and the position
/// after it.
fn decode_str_at(bytes: &Vec<u8>, pos: usize) -> (r: Result<(String, usize), DecodeError>)
    requires
        pos <= bytes@.len(),
    ensures
        match r {
            Ok(p) => pos <= p.1 <= bytes@.len() && dec_str(
                bytes@.subrange(pos as int, bytes@.len() as int),
            ) == Ok::<(Seq<char>, int), DecodeError>((p.0@, p.1 - pos)),
            Err(e) => dec_str(bytes@.subrange(pos as int, bytes@.len() as int)) == Err::<
                (Seq<char>, int),
                DecodeError,
            >(e),
        },
{
    let ghost len = bytes@.len() as int;
    let ghost tail = bytes@.subrange(pos as int, len);
    if bytes.len() - pos < 8 {
        return Err(DecodeError::Truncated);
    }
    let n = read_u64_at(bytes, pos);
    proof {
        assert(tail.subrange(0, 8) =~= bytes@.subrange(pos as int, pos as int + 8));
        assert(tail.subrange(8, tail.len() as int) =~= bytes@.subrange(pos as int + 8, len));
    }
    match decode_chars_at(bytes, pos + 8, n) {
        Ok((s, end)) => Ok((s, end)),
        Err(e) => Err(e),
    }
}

/// Decodes one tree starting at `pos`, giving the tree and the position
/// after it.
pub fn decode_at(bytes: &Vec<u8>, pos: usize) -> (r: Result<(Json, usize), DecodeError>)
    requires
        pos <= bytes@.len(),
    ensures
        match r {
            Ok(p) => pos <= p.1 <= bytes@.len() && dec_jval(
                bytes@.subrange(pos as int, bytes@.len() as int),
            ) == Ok::<(JVal, int), DecodeError>((p.0@, p.1 - pos)),
            Err(e) => dec_jval(bytes@.subrange(pos as int, bytes@.len() as int)) == Err::<
                (JVal, int),
                DecodeError,
            >(e),
        },
    decreases bytes@.len() - pos, 0int,
{
    let ghost len = bytes@.len() as int;
    let ghost tail = bytes@.subrange(pos as int, len);
    if bytes.len() - pos < 1 {
        return Err(DecodeError::Truncated);
    }
    let tag = bytes[pos];
    proof {
        assert(tail[0] == bytes@[pos as int]);
    }
    if tag == 0 {
        Ok((Json::Null, pos + 1))
    } else if tag == 1 {
        Ok((Json::Bool(false), pos + 1))
    } else if tag == 2 {
        Ok((Json::Bool(true), pos + 1))
    } else if tag == 3 {
        if bytes.len() - pos < 9 {
            return Err(DecodeError::Truncated);
        }
        let n = read_u64_at(bytes, pos + 1);
        proof {
            assert(tail.subrange(1, 9) =~= bytes@.subrange(pos as int + 1, pos as int + 9));
        }
        Ok((Json::UInt(n), pos + 9))
    } else if tag == 4 {
        proof {
            assert(tail.subrange(1, tail.len() as int) =~= bytes@.subrange(pos as int + 1, len));
        }
        match decode_str_at(bytes, pos + 1) {
            Ok((s, end)) => Ok((Json::Str(s), end)),
            Err(e) => Err(e),
        }
    } else if tag == 5 {
        if bytes.len() - pos < 9 {
            return Err(DecodeError::Truncated);
        }
        let n = read_u64_at(bytes, pos + 1);
        proof {
            assert(tail.subrange(1, 9) =~= bytes@.subrange(pos as int + 1, pos as int + 9));
            assert(tail.subrange(9, tail.len() as int) =~= bytes@.subrange(pos as int + 9, len));
        }
        match decode_items_at(bytes, pos + 9, n) {
            Ok((items, end)) => Ok((Json::Arr(items), end)),
            Err(e) => Err(e),
        }
    } else if tag == 6 {
        if bytes.len() - pos < 9 {
            return Err(DecodeError::Truncated);
        }
        let n = read_u64_at(bytes, pos + 1);
        proof {
            assert(tail.subrange(1, 9) =~= bytes@.subrange(pos as int + 1, pos as int + 9));
            assert(tail.subrange(9, tail.len() as int) =~= bytes@.subrange(pos as int + 9, len));
        }
        match decode_members_at(bytes, pos + 9, n) {
            Ok((pairs, end)) => Ok((Json::Obj(pairs), end)),
            Err(e) => Err(e),
        }
    } else {
        Err(DecodeError::InvalidTag)
    }
}

/// Decodes `n` array elements starting at `pos`.
fn decode_items_at(bytes: &Vec<u8>, pos: usize, n: u64) -> (r: Result<
    (Vec<Json>, usize),
    DecodeError,
>)
    requires
        pos <= bytes@.len(),
    ensures
        match r {
            Ok(p) => pos <= p.1 <= bytes@.len() && dec_items(
                bytes@.subrange(pos as int, bytes@.len() as int),
                n as nat,
            ) == Ok::<(Seq<JVal>, int), DecodeError>((jvals_of(p.0@), p.1 - pos)),
            Err(e) => dec_items(bytes@.subrange(pos as int, bytes@.len() as int), n as nat)
                == Err::<(Seq<JVal>, int), DecodeError>(e),
        },
    decreases bytes@.len() - pos, 1int,
{
    let ghost len = bytes@.len() as int;
    let ghost whole = bytes@.subrange(pos as int, len);
    let mut acc: Vec<Json> = Vec::new();
    let mut cur: usize = pos;
    let mut rem: u64 = n;
    proof {
        assert(jvals_of(acc@) =~= Seq::<JVal>::empty());
    }
    while rem > 0
        invariant
            pos <= cur <= bytes@.len(),
            len == bytes@.len() as int,
            whole == bytes@.subrange(pos as int, len),
            dec_items(whole, n as nat) == (match dec_items(
                bytes@.subrange(cur as int, len),
                rem as nat,
            ) {
                Ok(p) => Ok::<(Seq<JVal>, int), DecodeError>(
                    (jvals_of(acc@) + p.0, (cur - pos) as int + p.1),
                ),
                Err(e) => Err::<(Seq<JVal>, int), DecodeError>(e),
            }),
        decreases rem,
    {
        let ghost tail = bytes@.subrange(cur as int, len);
        match decode_at(bytes, cur) {
            Err(e) => {
                return Err(e);
            },
            Ok((v, end)) => {
                proof {
                    assert(tail.subrange((end - cur) as int, tail.len() as int) =~= bytes@.subrange(
                        end as int,
                        len,
                    ));
                }
                if end == cur {
                    // A decoded tree always consumes at least one byte;
                    // this branch is unreachable and returns the error the
                    // model gives an empty consumption.
                    return Err(DecodeError::Truncated);
                }
                let ghost acc_old = acc@;
                acc.push(v);
                proof {
                    lemma_jvals_push(acc_old, v);
                    assert(acc@ =~= acc_old.push(v));
                    let d = dec_items(bytes@.subrange(end as int, len), (rem - 1) as nat);
                    match d {
                        Ok(p) => {
                            assert(jvals_of(acc_old) + (seq![v@] + p.0) =~= jvals_of(acc@) + p.0);
                        },
                        Err(_) => {},
                    }
                }
                cur = end;
                rem = rem - 1;
            },
        }
    }
    proof {
        assert(jvals_of(acc@) + Seq::<JVal>::empty() =~= jvals_of(acc@));
    }
    Ok((acc, cur))
}

/// Decodes `n` object members starting at `pos`.
fn decode_members_at(bytes: &Vec<u8>, pos: usize, n: u64) -> (r: Result<
    (Vec<(String, Json)>, usize),
    DecodeError,
>)
    requires
        pos <= bytes@.len(),
    ensures
        match r {
            Ok(p) => pos <= p.1 <= bytes@.len() && dec_members(
                bytes@.subrange(pos as int, bytes@.len() as int),
                n as nat,
            ) == Ok::<(Seq<(Seq<char>, JVal)>, int), DecodeError>((jpairs_of(p.0@), p.1 - pos)),
            Err(e) => dec_members(bytes@.subrange(pos as int, bytes@.len() as int), n as nat)
                == Err::<(Seq<(Seq<char>, JVal)>, int), DecodeError>(e),
        },
    decreases bytes@.len() - pos, 2int,
{
    let ghost len = bytes@.len() as int;
    let ghost whole = bytes@.subrange(pos as int, len);
    let mut acc: Vec<(String, Json)> = Vec::new();
    let mut cur: usize = pos;
    let mut rem: u64 = n;
    proof {
        assert(jpairs_of(acc@) =~= Seq::<(Seq<char>, JVal)>::empty());
    }
    while rem > 0
        invariant
            pos <= cur <= bytes@.len(),
            len == bytes@.len() as int,
            whole == bytes@.subrange(pos as int, len),
            dec_members(whole, n as nat) == (match dec_members(
                bytes@.subrange(cur as int, len),
                rem as nat,
            ) {
                Ok(p) => Ok::<(Seq<(Seq<char>, JVal)>, int), DecodeError>(
                    (jpairs_of(acc@) + p.0, (cur - pos) as int + p.1),
                ),
                Err(e) => Err::<(Seq<(Seq<char>, JVal)>, int), DecodeError>(e),
            }),
        decreases rem,
    {
        let ghost tail = bytes@.subrange(cur as int, len);
        let (key, mid) = match decode_str_at(bytes, cur) {
            Err(e) => {
                return Err(e);
            },
            Ok(p) => p,
        };
        proof {
            assert(tail.subrange((mid - cur) as int, tail.len() as int) =~= bytes@.subrange(
                mid as int,
                len,
            ));
        }
        if mid == cur {
            // A decoded string always consumes its count field; this
            // branch is unreachable and mirrors the model's guard.
            return Err(DecodeError::Truncated);
        }
        match decode_at(bytes, mid) {
            Err(e) => {
                return Err(e);
            },
            Ok((v, end)) => {
                proof {
                    assert(bytes@.subrange(mid as int, len).subrange(
                        (end - mid) as int,
                        (len - mid) as int,
                    ) =~= bytes@.subrange(end as int, len));
                    assert(tail.subrange((end - cur) as int, tail.len() as int) =~= bytes@.subrange(
                        end as int,
                        len,
                    ));
                }
                let ghost acc_old = acc@;
                acc.push((key, v));
                proof {
                    lemma_jpairs_push(acc_old, (acc@[acc_old.len() as int].0, acc@[acc_old.len() as int].1));
                    assert(acc@ =~= acc_old.push(acc@[acc_old.len() as int]));
                    let d = dec_members(bytes@.subrange(end as int, len), (rem - 1) as nat);
                    match d {
                        Ok(p) => {
                            assert(jpairs_of(acc_old) + (seq![
                                (acc@[acc_old.len() as int].0@, jval_of(acc@[acc_old.len() as int].1)),
                            ] + p.0) =~= jpairs_of(acc@) + p.0);
                        },
                        Err(_) => {},
                    }
                }
                cur = end;
                rem = rem - 1;
            },
        }
    }
    proof {
        assert(jpairs_of(acc@) + Seq::<(Seq<char>, JVal)>::empty() =~= jpairs_of(acc@));
    }
    Ok((acc, cur))
}

/// Decodes a complete binary form back to its tree; malformed input and
/// bytes past the end of the encoded tree are decode errors.
pub fn decode(bytes: &Vec<u8>) -> (r: Result<Json, DecodeError>)
    ensures
        match r {
            Ok(v) => decode_spec(bytes@) == Ok::<JVal, DecodeError>(v@),
            Err(e) => decode_spec(bytes@) == Err::<JVal, DecodeError>(e),
        },
{
    proof {
        assert(bytes@.subrange(0, bytes@.len() as int) =~= bytes@);
    }
    match decode_at(bytes, 0) {
        Err(e) => Err(e),
        Ok((v, end)) => {
            if end == bytes.len() {
                Ok(v)
            } else {
                Err(DecodeError::TrailingData)
            }
        },
    }
}

} // verus!
