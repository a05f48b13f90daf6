//! Generic structured wire data: the JSON-like trees that every
//! configuration object serializes into and parses from, together with
//! their mathematical model and the errors that decoding can raise.

use vstd::prelude::*;

verus! {

/// An error raised while decoding wire data back into a value.
///
/// No error is recovered internally: each one is surfaced to the caller
/// of the decoding call that produced it.
#[derive(Debug, Clone, Copy, PartialEq, Eq, Structural)]
pub enum DecodeError {
    /// The binary input ended before the encoded value was complete.
    Truncated,
    /// The binary input carries a tag byte that names no known node kind.
    InvalidTag,
    /// The binary input carries a character code outside the valid range.
    InvalidChar,
    /// The binary input continues past the end of the encoded value.
    TrailingData,
    /// A field holds data of the wrong structural kind for its schema.
    WrongType,
    /// An enumeration field holds a literal outside its documented set.
    UnknownVariant,
    /// A commitment-level field holds a literal outside
    /// `processed`, `confirmed`, `finalized`.
    InvalidCommitment,
    /// A polymorphic selector matched none of its known shapes.
    UnknownShape,
}

/// Generic structured data in wire form.
///
/// Object members keep their order; serialization renders them exactly as
/// held. Absent optional fields are represented by leaving the member out
/// of the object entirely, never by `Null`.
#[derive(Debug)]
pub enum Json {
    Null,
    Bool(bool),
    UInt(u64),
    Str(String),
    Arr(Vec<Json>),
    Obj(Vec<(String, Json)>),
}

/// The mathematical model of a [`Json`] tree: strings are sequences of
/// characters, vectors are sequences.
pub ghost enum JVal {
    Null,
    Bool(bool),
    UInt(u64),
    Str(Seq<char>),
    Arr(Seq<JVal>),
    Obj(Seq<(Seq<char>, JVal)>),
}

pub open spec fn jval_of(j: Json) -> JVal
    decreases j,
{
    match j {
        Json::Null => JVal::Null,
        Json::Bool(b) => JVal::Bool(b),
        Json::UInt(n) => JVal::UInt(n),
        Json::Str(s) => JVal::Str(s@),
        Json::Arr(items) => JVal::Arr(jvals_of(items@)),
        Json::Obj(pairs) => JVal::Obj(jpairs_of(pairs@)),
    }
}

pub open spec fn jvals_of(s: Seq<Json>) -> Seq<JVal>
    decreases s,
{
    if s.len() == 0 {
        Seq::empty()
    } else {
        jvals_of(s.drop_last()).push(jval_of(s.last()))
    }
}

pub open spec fn jpairs_of(s: Seq<(String, Json)>) -> Seq<(Seq<char>, JVal)>
    decreases s,
{
    if s.len() == 0 {
        Seq::empty()
    } else {
        jpairs_of(s.drop_last()).push((s.last().0@, jval_of(s.last().1)))
    }
}

impl View for Json {
    type V = JVal;

    open spec fn view(&self) -> JVal {
        jval_of(*self)
    }
}

pub broadcast proof fn lemma_jvals_of(s: Seq<Json>)
    ensures
        (#[trigger] jvals_of(s)).len() == s.len(),
        forall|i: int| 0 <= i < s.len() ==> jvals_of(s)[i] == jval_of(s[i]),
    decreases s,
{
    if s.len() > 0 {
        lemma_jvals_of(s.drop_last());
    }
}

pub broadcast proof fn lemma_jpairs_of(s: Seq<(String, Json)>)
    ensures
        (#[trigger] jpairs_of(s)).len() == s.len(),
        forall|i: int| 0 <= i < s.len() ==> jpairs_of(s)[i] == (s[i].0@, jval_of(s[i].1)),
    decreases s,
{
    if s.len() > 0 {
        lemma_jpairs_of(s.drop_last());
    }
}

/// First value held under `key` among the object members `pairs`,
/// or `None` when no member carries that key.
pub open spec fn obj_get(pairs: Seq<(Seq<char>, JVal)>, key: Seq<char>) -> Option<JVal>
    decreases pairs,
{
    if pairs.len() == 0 {
        None
    } else if pairs[0].0 == key {
        Some(pairs[0].1)
    } else {
        obj_get(pairs.subrange(1, pairs.len() as int), key)
    }
}

/// Looking a key up in a concatenation of member lists searches the
/// left-hand list first.
pub proof fn lemma_obj_get_concat(a: Seq<(Seq<char>, JVal)>, b: Seq<(Seq<char>, JVal)>, key: Seq<char>)
    ensures
        obj_get(a + b, key) == if obj_get(a, key) is Some {
            obj_get(a, key)
        } else {
            obj_get(b, key)
        },
    decreases a,
{
    if a.len() == 0 {
        assert(a + b =~= b);
    } else {
        assert((a + b)[0] == a[0]);
        if a[0].0 == key {
        } else {
            assert((a + b).subrange(1, (a + b).len() as int) =~= a.subrange(1, a.len() as int) + b);
            lemma_obj_get_concat(a.subrange(1, a.len() as int), b, key);
        }
    }
}

pub proof fn lemma_obj_get_single(key: Seq<char>, v: JVal, probe: Seq<char>)
    ensures
        obj_get(seq![(key, v)], probe) == if probe == key {
            Some(v)
        } else {
            None::<JVal>
        },
{
    let s = seq![(key, v)];
    assert(s.len() == 1 && s[0] == (key, v));
    if probe != key {
        assert(s.subrange(1, 1) =~= Seq::<(Seq<char>, JVal)>::empty());
        assert(obj_get(s.subrange(1, 1), probe) is None);
        assert(obj_get(s, probe) is None);
    } else {
        assert(obj_get(s, probe) == Some(v));
    }
}

/// One optional object member: a singleton member list when the field is
/// present, the empty list when it is absent. Serialization of every
/// configuration object is a concatenation of such member lists, so an
/// absent field is omitted from the object entirely.
pub open spec fn opt_pair(key: Seq<char>, v: Option<JVal>) -> Seq<(Seq<char>, JVal)> {
    match v {
        Some(j) => seq![(key, j)],
        None => Seq::empty(),
    }
}

/// A required object member.
pub open spec fn req_pair(key: Seq<char>, v: JVal) -> Seq<(Seq<char>, JVal)> {
    seq![(key, v)]
}

/// The view of an optional value.
pub open spec fn opt_view<T: View>(v: Option<T>) -> Option<T::V> {
    match v {
        Some(t) => Some(t@),
        None => None,
    }
}

/// Maps an optional field value to its optional wire tree.
pub open spec fn opt_jmap<A>(v: Option<A>, f: spec_fn(A) -> JVal) -> Option<JVal> {
    match v {
        Some(a) => Some(f(a)),
        None => None,
    }
}

pub proof fn lemma_obj_get_opt_pair(key: Seq<char>, v: Option<JVal>)
    ensures
        forall|probe: Seq<char>|
            #[trigger] obj_get(opt_pair(key, v), probe) == if probe == key {
                v
            } else {
                None::<JVal>
            },
{
    assert forall|probe: Seq<char>|
        #[trigger] obj_get(opt_pair(key, v), probe) == if probe == key {
            v
        } else {
            None::<JVal>
        } by {
        match v {
            Some(j) => {
                lemma_obj_get_single(key, j, probe);
            },
            None => {
                assert(opt_pair(key, v).len() == 0);
            },
        }
    }
}

pub proof fn lemma_obj_get_req_pair(key: Seq<char>, v: JVal)
    ensures
        forall|probe: Seq<char>|
            #[trigger] obj_get(req_pair(key, v), probe) == if probe == key {
                Some(v)
            } else {
                None::<JVal>
            },
{
    assert forall|probe: Seq<char>|
        #[trigger] obj_get(req_pair(key, v), probe) == if probe == key {
            Some(v)
        } else {
            None::<JVal>
        } by {
        lemma_obj_get_single(key, v, probe);
    }
}

pub proof fn lemma_obj_get_concat_all(a: Seq<(Seq<char>, JVal)>, b: Seq<(Seq<char>, JVal)>)
    ensures
        forall|probe: Seq<char>|
            #[trigger] obj_get(a + b, probe) == if obj_get(a, probe) is Some {
                obj_get(a, probe)
            } else {
                obj_get(b, probe)
            },
{
    assert forall|probe: Seq<char>|
        #[trigger] obj_get(a + b, probe) == if obj_get(a, probe) is Some {
            obj_get(a, probe)
        } else {
            obj_get(b, probe)
        } by {
        lemma_obj_get_concat(a, b, probe);
    }
}

pub proof fn lemma_jpairs_push(s: Seq<(String, Json)>, x: (String, Json))
    ensures
        jpairs_of(s.push(x)) == jpairs_of(s).push((x.0@, jval_of(x.1))),
{
    assert(s.push(x).drop_last() =~= s);
    assert(s.push(x).last() == x);
}

/// Appends one rendered member to an object under construction.
pub fn push_pair(pairs: &mut Vec<(String, Json)>, key: &str, v: Json)
    ensures
        jpairs_of(final(pairs)@) == jpairs_of(old(pairs)@).push((key@, v@)),
{
    let ghost snap = pairs@;
    let k = key.to_owned();
    pairs.push((k, v));
    proof {
        lemma_jpairs_push(snap, (pairs@[snap.len() as int].0, pairs@[snap.len() as int].1));
        assert(pairs@ =~= snap.push(pairs@[snap.len() as int]));
    }
}

/// The view of an optional wire tree.
pub open spec fn opt_jval_of(v: Option<Json>) -> Option<JVal> {
    match v {
        Some(j) => Some(j@),
        None => None,
    }
}

/// Appends one optional member to an object under construction: the
/// member when the field is present, nothing when it is absent.
pub fn push_opt_pair(pairs: &mut Vec<(String, Json)>, key: &str, v: Option<Json>)
    ensures
        jpairs_of(final(pairs)@) == jpairs_of(old(pairs)@) + opt_pair(key@, opt_jval_of(v)),
{
    let ghost snap = jpairs_of(pairs@);
    match v {
        Some(j) => {
            push_pair(pairs, key, j);
            proof {
                assert(snap.push((key@, jval_of(j))) =~= snap + opt_pair(key@, opt_jval_of(Some(j))));
            }
        },
        None => {
            proof {
                assert(jpairs_of(pairs@) =~= snap + opt_pair(key@, opt_jval_of(None::<Json>)));
            }
        },
    }
}

/// Model-level read of an optional unsigned-integer field.
pub open spec fn parse_opt_u64(ps: Seq<(Seq<char>, JVal)>, key: Seq<char>) -> Result<
    Option<u64>,
    DecodeError,
> {
    match obj_get(ps, key) {
        None => Ok(None),
        Some(JVal::UInt(n)) => Ok(Some(n)),
        Some(_) => Err(DecodeError::WrongType),
    }
}

/// Model-level read of an optional boolean field.
pub open spec fn parse_opt_bool(ps: Seq<(Seq<char>, JVal)>, key: Seq<char>) -> Result<
    Option<bool>,
    DecodeError,
> {
    match obj_get(ps, key) {
        None => Ok(None),
        Some(JVal::Bool(b)) => Ok(Some(b)),
        Some(_) => Err(DecodeError::WrongType),
    }
}

/// Model-level read of an optional string field.
pub open spec fn parse_opt_str(ps: Seq<(Seq<char>, JVal)>, key: Seq<char>) -> Result<
    Option<Seq<char>>,
    DecodeError,
> {
    match obj_get(ps, key) {
        None => Ok(None),
        Some(JVal::Str(s)) => Ok(Some(s)),
        Some(_) => Err(DecodeError::WrongType),
    }
}

pub proof fn lemma_jvals_push(s: Seq<Json>, x: Json)
    ensures
        jvals_of(s.push(x)) == jvals_of(s).push(jval_of(x)),
{
    assert(s.push(x).drop_last() =~= s);
    assert(s.push(x).last() == x);
}

/// The views of a sequence of strings.
pub open spec fn strs_view(s: Seq<String>) -> Seq<Seq<char>> {
    s.map_values(|x: String| x@)
}

/// Model-level parse of every element of an array through one element
/// parser; the error of the earliest failing element is surfaced.
pub open spec fn parse_seq<T>(
    items: Seq<JVal>,
    f: spec_fn(JVal) -> Result<T, DecodeError>,
) -> Result<Seq<T>, DecodeError>
    decreases items.len(),
{
    if items.len() == 0 {
        Ok(Seq::empty())
    } else {
        match parse_seq(items.drop_last(), f) {
            Err(e) => Err(e),
            Ok(init) => match f(items.last()) {
                Ok(t) => Ok(init.push(t)),
                Err(e) => Err(e),
            },
        }
    }
}

/// Once a prefix of the array fails to parse, the whole array fails the
/// same way.
pub proof fn lemma_parse_seq_extend<T>(
    items: Seq<JVal>,
    i: int,
    f: spec_fn(JVal) -> Result<T, DecodeError>,
)
    requires
        0 <= i <= items.len(),
        parse_seq(items.take(i), f) is Err,
    ensures
        parse_seq(items, f) == parse_seq(items.take(i), f),
    decreases items.len() - i,
{
    if i == items.len() {
        assert(items.take(i) =~= items);
    } else {
        assert(items.take(i + 1).drop_last() =~= items.take(i));
        assert(items.take(i + 1).last() == items[i]);
        lemma_parse_seq_extend(items, i + 1, f);
    }
}

/// An array whose elements are each the wire form of a value that parses
/// back parses back to the sequence of those values.
pub proof fn lemma_parse_seq_round_trip<T>(
    s: Seq<T>,
    w: spec_fn(T) -> JVal,
    f: spec_fn(JVal) -> Result<T, DecodeError>,
)
    requires
        forall|i: int| 0 <= i < s.len() ==> #[trigger] f(w(s[i])) == Ok::<T, DecodeError>(s[i]),
    ensures
        parse_seq(s.map_values(w), f) == Ok::<Seq<T>, DecodeError>(s),
    decreases s.len(),
{
    if s.len() == 0 {
        assert(s.map_values(w) =~= Seq::<JVal>::empty());
        assert(s =~= Seq::<T>::empty());
    } else {
        lemma_parse_seq_round_trip(s.drop_last(), w, f);
        assert(s.map_values(w).drop_last() =~= s.drop_last().map_values(w));
        assert(s.map_values(w).last() == w(s.last()));
        assert(s.drop_last().push(s.last()) =~= s);
    }
}

/// Renders a list of strings to a wire array.
pub fn strings_to_json(v: &Vec<String>) -> (r: Json)
    ensures
        r@ == JVal::Arr(strs_view(v@).map_values(|s: Seq<char>| JVal::Str(s))),
{
    let mut items: Vec<Json> = Vec::new();
    let mut i: usize = 0;
    while i < v.len()
        invariant
            i <= v@.len(),
            jvals_of(items@) =~= strs_view(v@.take(i as int)).map_values(
                |s: Seq<char>| JVal::Str(s),
            ),
        decreases v@.len() - i,
    {
        let ghost snap = items@;
        items.push(Json::Str(v[i].clone()));
        proof {
            lemma_jvals_push(snap, items@.last());
            assert(items@ =~= snap.push(items@.last()));
            assert(strs_view(v@.take(i as int + 1)).map_values(|s: Seq<char>| JVal::Str(s)) =~= jvals_of(
                snap,
            ).push(JVal::Str(v@[i as int]@)));
        }
        i += 1;
    }
    proof {
        assert(v@.take(v@.len() as int) =~= v@);
    }
    Json::Arr(items)
}

/// Parses a wire array of strings; an element of any other kind is a
/// decode error.
pub fn strings_from_json(items: &Vec<Json>) -> (r: Result<Vec<String>, DecodeError>)
    ensures
        match r {
            Ok(v) => parse_seq(jvals_of(items@), |jv: JVal| str_of_jval(jv)) == Ok::<
                Seq<Seq<char>>,
                DecodeError,
            >(strs_view(v@)),
            Err(e) => parse_seq(jvals_of(items@), |jv: JVal| str_of_jval(jv)) == Err::<
                Seq<Seq<char>>,
                DecodeError,
            >(e),
        },
{
    proof {
        lemma_jvals_of(items@);
    }
    let ghost all = jvals_of(items@);
    let ghost f = |jv: JVal| str_of_jval(jv);
    let mut out: Vec<String> = Vec::new();
    proof {
        assert(all.take(0) =~= Seq::<JVal>::empty());
        assert(strs_view(out@) =~= Seq::<Seq<char>>::empty());
    }
    let mut i: usize = 0;
    while i < items.len()
        invariant
            i <= items@.len(),
            all == jvals_of(items@),
            all.len() == items@.len(),
            forall|k: int| 0 <= k < items@.len() ==> all[k] == jval_of(items@[k]),
            f == (|jv: JVal| str_of_jval(jv)),
            parse_seq(all.take(i as int), f) == Ok::<Seq<Seq<char>>, DecodeError>(strs_view(out@)),
        decreases items@.len() - i,
    {
        let ghost snap_out = out@;
        match &items[i] {
            Json::Str(s) => {
                out.push(s.clone());
            },
            _ => {
                proof {
                    assert(all.take(i as int + 1).drop_last() =~= all.take(i as int));
                    assert(all.take(i as int + 1).last() == all[i as int]);
                    assert(parse_seq(all.take(i as int + 1), f) is Err);
                    lemma_parse_seq_extend(all, i as int + 1, f);
                }
                return Err(DecodeError::WrongType);
            },
        }
        proof {
            assert(all.take(i as int + 1).drop_last() =~= all.take(i as int));
            assert(all.take(i as int + 1).last() == all[i as int]);
            assert(out@ =~= snap_out.push(out@.last()));
            assert(strs_view(out@) =~= strs_view(snap_out).push(out@.last()@));
        }
        i += 1;
    }
    proof {
        assert(all.take(items@.len() as int) =~= all);
    }
    Ok(out)
}

/// The characters of a wire string node.
pub open spec fn str_of_jval(v: JVal) -> Result<Seq<char>, DecodeError> {
    match v {
        JVal::Str(s) => Ok(s),
        _ => Err(DecodeError::WrongType),
    }
}

/// Model-level read of an optional sub-value field through its own parser.
pub open spec fn parse_opt_sub<T>(
    ps: Seq<(Seq<char>, JVal)>,
    key: Seq<char>,
    f: spec_fn(JVal) -> Result<T, DecodeError>,
) -> Result<Option<T>, DecodeError> {
    match obj_get(ps, key) {
        None => Ok(None),
        Some(jv) => match f(jv) {
            Ok(t) => Ok(Some(t)),
            Err(e) => Err(e),
        },
    }
}

/// Model-level read of an optional byte-sized integer field.
pub open spec fn parse_opt_u8(ps: Seq<(Seq<char>, JVal)>, key: Seq<char>) -> Result<
    Option<u8>,
    DecodeError,
> {
    match obj_get(ps, key) {
        None => Ok(None),
        Some(JVal::UInt(n)) => if n <= u8::MAX as u64 {
            Ok(Some(n as u8))
        } else {
            Err(DecodeError::WrongType)
        },
        Some(_) => Err(DecodeError::WrongType),
    }
}

/// Reads an optional unsigned-integer member.
pub fn get_opt_u64(pairs: &Vec<(String, Json)>, key: &str) -> (r: Result<Option<u64>, DecodeError>)
    ensures
        r == parse_opt_u64(jpairs_of(pairs@), key@),
{
    match json_obj_get(pairs, key) {
        None => Ok(None),
        Some(j) => match j {
            Json::UInt(n) => Ok(Some(*n)),
            _ => Err(DecodeError::WrongType),
        },
    }
}

/// Reads an optional boolean member.
pub fn get_opt_bool(pairs: &Vec<(String, Json)>, key: &str) -> (r: Result<
    Option<bool>,
    DecodeError,
>)
    ensures
        r == parse_opt_bool(jpairs_of(pairs@), key@),
{
    match json_obj_get(pairs, key) {
        None => Ok(None),
        Some(j) => match j {
            Json::Bool(b) => Ok(Some(*b)),
            _ => Err(DecodeError::WrongType),
        },
    }
}

/// Model-level read of an optional machine-sized integer field.
pub open spec fn parse_opt_usize(ps: Seq<(Seq<char>, JVal)>, key: Seq<char>) -> Result<
    Option<usize>,
    DecodeError,
> {
    match obj_get(ps, key) {
        None => Ok(None),
        Some(JVal::UInt(n)) => if n <= usize::MAX as u64 {
            Ok(Some(n as usize))
        } else {
            Err(DecodeError::WrongType)
        },
        Some(_) => Err(DecodeError::WrongType),
    }
}

/// Model-level read of a boolean field whose documented default is
/// `false`: an absent member reads as `false`.
pub open spec fn parse_bool_or_false(ps: Seq<(Seq<char>, JVal)>, key: Seq<char>) -> Result<
    bool,
    DecodeError,
> {
    match obj_get(ps, key) {
        None => Ok(false),
        Some(JVal::Bool(b)) => Ok(b),
        Some(_) => Err(DecodeError::WrongType),
    }
}

/// Reads an optional machine-sized integer member; a value above the
/// machine range is a decode error.
pub fn get_opt_usize(pairs: &Vec<(String, Json)>, key: &str) -> (r: Result<
    Option<usize>,
    DecodeError,
>)
    ensures
        r == parse_opt_usize(jpairs_of(pairs@), key@),
{
    match json_obj_get(pairs, key) {
        None => Ok(None),
        Some(j) => match j {
            Json::UInt(n) => if *n <= usize::MAX as u64 {
                Ok(Some(*n as usize))
            } else {
                Err(DecodeError::WrongType)
            },
            _ => Err(DecodeError::WrongType),
        },
    }
}

/// Reads a boolean member that defaults to `false` when absent.
pub fn get_bool_or_false(pairs: &Vec<(String, Json)>, key: &str) -> (r: Result<bool, DecodeError>)
    ensures
        r == parse_bool_or_false(jpairs_of(pairs@), key@),
{
    match json_obj_get(pairs, key) {
        None => Ok(false),
        Some(j) => match j {
            Json::Bool(b) => Ok(*b),
            _ => Err(DecodeError::WrongType),
        },
    }
}

/// Reads an optional byte-sized integer member; a value above the byte
/// range is a decode error.
pub fn get_opt_u8(pairs: &Vec<(String, Json)>, key: &str) -> (r: Result<Option<u8>, DecodeError>)
    ensures
        r == parse_opt_u8(jpairs_of(pairs@), key@),
{
    match json_obj_get(pairs, key) {
        None => Ok(None),
        Some(j) => match j {
            Json::UInt(n) => if *n <= u8::MAX as u64 {
                Ok(Some(*n as u8))
            } else {
                Err(DecodeError::WrongType)
            },
            _ => Err(DecodeError::WrongType),
        },
    }
}

/// Reads an optional string member.
pub fn get_opt_string(pairs: &Vec<(String, Json)>, key: &str) -> (r: Result<
    Option<String>,
    DecodeError,
>)
    ensures
        match r {
            Ok(v) => parse_opt_str(jpairs_of(pairs@), key@) == Ok::<Option<Seq<char>>, DecodeError>(
                opt_view(v),
            ),
            Err(e) => parse_opt_str(jpairs_of(pairs@), key@) == Err::<Option<Seq<char>>, DecodeError>(
                e,
            ),
        },
{
    match json_obj_get(pairs, key) {
        None => Ok(None),
        Some(j) => match j {
            Json::Str(s) => Ok(Some(s.clone())),
            _ => Err(DecodeError::WrongType),
        },
    }
}

/// A decoded value agrees with the model-level result `s`: same error, or a
/// value whose view is the modelled one.
pub open spec fn res_agrees<T: View>(r: Result<T, DecodeError>, s: Result<T::V, DecodeError>) -> bool {
    match (r, s) {
        (Ok(v), Ok(w)) => v@ == w,
        (Err(e), Err(f)) => e == f,
        _ => false,
    }
}

/// Equality of optional unsigned integers.
pub fn opt_u64_eq(a: &Option<u64>, b: &Option<u64>) -> (r: bool)
    ensures
        r == (a == b),
{
    match (a, b) {
        (Some(x), Some(y)) => x == y,
        (None, None) => true,
        _ => false,
    }
}

/// Equality of optional byte-sized integers.
pub fn opt_u8_eq(a: &Option<u8>, b: &Option<u8>) -> (r: bool)
    ensures
        r == (a == b),
{
    match (a, b) {
        (Some(x), Some(y)) => x == y,
        (None, None) => true,
        _ => false,
    }
}

/// Equality of optional machine-sized integers.
pub fn opt_usize_eq(a: &Option<usize>, b: &Option<usize>) -> (r: bool)
    ensures
        r == (a == b),
{
    match (a, b) {
        (Some(x), Some(y)) => x == y,
        (None, None) => true,
        _ => false,
    }
}

/// Equality of optional strings, as equality of their characters.
pub fn opt_string_eq(a: &Option<String>, b: &Option<String>) -> (r: bool)
    ensures
        r == (opt_view(*a) == opt_view(*b)),
{
    match (a, b) {
        (Some(x), Some(y)) => {
            let same = *x == *y;
            proof {
                if same {
                    assert(opt_view(*a) == opt_view(*b));
                }
            }
            same
        },
        (None, None) => true,
        _ => false,
    }
}

/// Clones an optional string, keeping its characters.
pub fn clone_opt_string(v: &Option<String>) -> (r: Option<String>)
    ensures
        opt_view(r) == opt_view(*v),
{
    match v {
        Some(s) => Some(s.clone()),
        None => None,
    }
}

/// Equality of optional booleans.
pub fn opt_bool_eq(a: &Option<bool>, b: &Option<bool>) -> (r: bool)
    ensures
        r == (a == b),
{
    match (a, b) {
        (Some(x), Some(y)) => x == y,
        (None, None) => true,
        _ => false,
    }
}

/// Appends one character to a string under construction.
///
/// Relies on `String::push`: appends the given character to the end of
/// the string.
#[verifier::external_body]
pub fn push_char(s: &mut String, c: char)
    ensures
        final(s)@ == old(s)@.push(c),
{
    s.push(c);
}

/// Character-wise string equality.
pub fn str_eq(a: &str, b: &str) -> (r: bool)
    ensures
        r == (a@ == b@),
{
    let alen = a.unicode_len();
    let blen = b.unicode_len();
    if alen != blen {
        assert(a@ != b@);
        return false;
    }
    let mut i: usize = 0;
    while i < alen
        invariant
            alen == a@.len(),
            alen == b@.len(),
            i <= alen,
            forall|k: int| 0 <= k < i ==> a@[k] == b@[k],
        decreases alen - i,
    {
        if a.get_char(i) != b.get_char(i) {
            return false;
        }
        i += 1;
    }
    proof {
        assert(a@ =~= b@);
    }
    true
}

/// First value held under `key` in `pairs`, as [`obj_get`] gives it.
pub fn json_obj_get<'a>(pairs: &'a Vec<(String, Json)>, key: &str) -> (r: Option<&'a Json>)
    ensures
        match r {
            Some(j) => obj_get(jpairs_of(pairs@), key@) == Some(j@),
            None => obj_get(jpairs_of(pairs@), key@) is None,
        },
{
    proof {
        lemma_jpairs_of(pairs@);
    }
    let ghost all = jpairs_of(pairs@);
    proof {
        assert(all.subrange(0, all.len() as int) =~= all);
    }
    let mut i: usize = 0;
    while i < pairs.len()
        invariant
            all == jpairs_of(pairs@),
            all.len() == pairs@.len(),
            forall|k: int| 0 <= k < pairs@.len() ==> all[k] == (pairs@[k].0@, jval_of(pairs@[k].1)),
            i <= pairs@.len(),
            obj_get(all, key@) == obj_get(all.subrange(i as int, all.len() as int), key@),
        decreases pairs@.len() - i,
    {
        let ghost rest = all.subrange(i as int, all.len() as int);
        if str_eq(pairs[i].0.as_str(), key) {
            assert(rest[0] == (pairs@[i as int].0@, jval_of(pairs@[i as int].1)));
            return Some(&pairs[i].1);
        }
        proof {
            assert(rest[0] == (pairs@[i as int].0@, jval_of(pairs@[i as int].1)));
            assert(rest.subrange(1, rest.len() as int) =~= all.subrange(
                i as int + 1,
                all.len() as int,
            ));
        }
        i += 1;
    }
    proof {
        assert(all.subrange(all.len() as int, all.len() as int) =~= Seq::<(Seq<char>, JVal)>::empty());
    }
    None
}

} // verus!
