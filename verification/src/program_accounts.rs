//! Configuration model for program-account scans: the account-info config,
//! account filters, and the two program-accounts configurations. The
//! embedded account-info config is flattened into the parent's wire
//! object, so the embedding is invisible on the wire.

use vstd::prelude::*;
use crate::primitives::{CommitmentLevel, UiAccountEncoding};
use crate::json::{
    DecodeError, Json, JVal, jpairs_of, jvals_of, jval_of, lemma_jvals_of, lemma_jvals_push, obj_get, opt_jmap, opt_pair, opt_view, req_pair, parse_opt_u64, parse_opt_sub, parse_opt_bool, parse_opt_str, parse_seq, lemma_parse_seq_extend, lemma_parse_seq_round_trip, push_opt_pair, push_pair, get_opt_u64, get_opt_usize, get_opt_bool, get_opt_string, json_obj_get, lemma_obj_get_opt_pair, lemma_obj_get_req_pair, lemma_obj_get_concat_all, opt_u64_eq, opt_bool_eq, opt_string_eq, clone_opt_string, res_agrees, str_eq,
};

verus! {

/// Model of a data-slice request.
pub ghost struct DataSliceView {
    pub offset: usize,
    pub length: usize,
}

/// Requests a slice of the returned account data: `length` bytes starting
/// at `offset`. Both bounds are required.
#[derive(Debug, Clone, Copy)]
pub struct UiDataSliceConfig {
    offset: usize,
    length: usize,
}

impl View for UiDataSliceConfig {
    type V = DataSliceView;

    closed spec fn view(&self) -> DataSliceView {
        DataSliceView { offset: self.offset, length: self.length }
    }
}

impl DataSliceView {
    pub open spec fn wire_pairs(self) -> Seq<(Seq<char>, JVal)> {
        req_pair("offset"@, JVal::UInt(self.offset as u64)) + req_pair(
            "length"@,
            JVal::UInt(self.length as u64),
        )
    }

    pub open spec fn wire(self) -> JVal {
        JVal::Obj(self.wire_pairs())
    }

    pub open spec fn parse(v: JVal) -> Result<DataSliceView, DecodeError> {
        match v {
            JVal::Obj(ps) => {
                let offset = match obj_get(ps, "offset"@) {
                    Some(JVal::UInt(n)) => if n <= usize::MAX as u64 {
                        Ok(n as usize)
                    } else {
                        Err(DecodeError::WrongType)
                    },
                    Some(_) => Err(DecodeError::WrongType),
                    None => Err(DecodeError::WrongType),
                };
                let length = match obj_get(ps, "length"@) {
                    Some(JVal::UInt(n)) => if n <= usize::MAX as u64 {
                        Ok(n as usize)
                    } else {
                        Err(DecodeError::WrongType)
                    },
                    Some(_) => Err(DecodeError::WrongType),
                    None => Err(DecodeError::WrongType),
                };
                if offset is Err {
                    Err(offset->Err_0)
                } else if length is Err {
                    Err(length->Err_0)
                } else {
                    Ok(DataSliceView { offset: offset->Ok_0, length: length->Ok_0 })
                }
            },
            _ => Err(DecodeError::WrongType),
        }
    }
}

impl UiDataSliceConfig {
    pub fn new(offset: usize, length: usize) -> (r: Self)
        ensures
            r@ == (DataSliceView { offset, length }),
    {
        UiDataSliceConfig { offset, length }
    }

    pub fn offset(&self) -> (r: usize)
        ensures
            r == self@.offset,
    {
        self.offset
    }

    pub fn length(&self) -> (r: usize)
        ensures
            r == self@.length,
    {
        self.length
    }

    pub fn to_json(&self) -> (j: Json)
        ensures
            j@ == self@.wire(),
    {
        let mut pairs: Vec<(String, Json)> = Vec::new();
        push_pair(&mut pairs, "offset", Json::UInt(self.offset as u64));
        proof {
            assert(jpairs_of(pairs@) =~= req_pair("offset"@, JVal::UInt(self@.offset as u64)));
        }
        push_pair(&mut pairs, "length", Json::UInt(self.length as u64));
        proof {
            assert(jpairs_of(pairs@) =~= self@.wire_pairs());
        }
        Json::Obj(pairs)
    }

    pub fn from_json(j: &Json) -> (r: Result<Self, DecodeError>)
        ensures
            res_agrees(r, DataSliceView::parse(j@)),
    {
        match j {
            Json::Obj(pairs) => {
                let offset = match get_opt_usize(pairs, "offset") {
                    Ok(Some(n)) => n,
                    Ok(None) => return Err(DecodeError::WrongType),
                    Err(e) => return Err(e),
                };
                let length = match get_opt_usize(pairs, "length") {
                    Ok(Some(n)) => n,
                    Ok(None) => return Err(DecodeError::WrongType),
                    Err(e) => return Err(e),
                };
                Ok(UiDataSliceConfig { offset, length })
            },
            _ => Err(DecodeError::WrongType),
        }
    }
}

impl PartialEq for UiDataSliceConfig {
    fn eq(&self, other: &Self) -> (r: bool) {
        self.offset == other.offset && self.length == other.length
    }
}

impl Eq for UiDataSliceConfig {

}

impl vstd::std_specs::cmp::PartialEqSpecImpl for UiDataSliceConfig {
    open spec fn obeys_eq_spec() -> bool {
        true
    }

    open spec fn eq_spec(&self, other: &Self) -> bool {
        self@ == other@
    }
}

/// Every data-slice request parses back from its own wire form.
pub proof fn lemma_data_slice_round_trip(v: DataSliceView)
    ensures
        DataSliceView::parse(v.wire()) == Ok::<DataSliceView, DecodeError>(v),
{
    reveal_strlit("offset");
    reveal_strlit("length");
    assert("length"@[0] != "offset"@[0]);
    lemma_obj_get_req_pair("offset"@, JVal::UInt(v.offset as u64));
    lemma_obj_get_req_pair("length"@, JVal::UInt(v.length as u64));
    lemma_obj_get_concat_all(
        req_pair("offset"@, JVal::UInt(v.offset as u64)),
        req_pair("length"@, JVal::UInt(v.length as u64)),
    );
}

/// Model of an account-info configuration.
pub ghost struct AccountInfoConfigView {
    pub encoding: Option<UiAccountEncoding>,
    pub data_slice: Option<DataSliceView>,
    pub commitment: Option<CommitmentLevel>,
    pub min_context_slot: Option<u64>,
}

/// Configuration for fetching account data: encoding, an optional data
/// slice, the commitment level, and the minimum evaluation slot. Every
/// field is optional.
#[derive(Debug, Clone, Copy)]
pub struct RpcAccountInfoConfig {
    encoding: Option<UiAccountEncoding>,
    data_slice: Option<UiDataSliceConfig>,
    commitment: Option<CommitmentLevel>,
    min_context_slot: Option<u64>,
}

impl View for RpcAccountInfoConfig {
    type V = AccountInfoConfigView;

    closed spec fn view(&self) -> AccountInfoConfigView {
        AccountInfoConfigView {
            encoding: self.encoding,
            data_slice: opt_view(self.data_slice),
            commitment: self.commitment,
            min_context_slot: self.min_context_slot,
        }
    }
}

/// The wire form of a commitment-level field that is nested one level
/// deep: `{"commitment": <level>}`.
pub open spec fn commitment_config_wire(c: CommitmentLevel) -> JVal {
    JVal::Obj(req_pair("commitment"@, c.wire()))
}

/// Parses a nested commitment object; a literal outside the documented
/// set is a decode error, never coerced.
pub open spec fn commitment_config_of_jval(v: JVal) -> Result<CommitmentLevel, DecodeError> {
    match v {
        JVal::Obj(ps) => match obj_get(ps, "commitment"@) {
            Some(JVal::Str(s)) => CommitmentLevel::parse_str(s),
            Some(_) => Err(DecodeError::WrongType),
            None => Err(DecodeError::WrongType),
        },
        _ => Err(DecodeError::WrongType),
    }
}

/// Renders a nested commitment object.
fn commitment_config_to_json(c: &CommitmentLevel) -> (j: Json)
    ensures
        j@ == commitment_config_wire(*c),
{
    let mut pairs: Vec<(String, Json)> = Vec::new();
    push_pair(&mut pairs, "commitment", c.to_json());
    proof {
        assert(jpairs_of(pairs@) =~= req_pair("commitment"@, c.wire()));
    }
    Json::Obj(pairs)
}

/// Parses a nested commitment object.
fn commitment_config_from_json(j: &Json) -> (r: Result<CommitmentLevel, DecodeError>)
    ensures
        r == commitment_config_of_jval(j@),
{
    match j {
        Json::Obj(pairs) => match json_obj_get(pairs, "commitment") {
            Some(sub) => match sub {
                Json::Str(s) => CommitmentLevel::parse_wire(s.as_str()),
                _ => Err(DecodeError::WrongType),
            },
            None => Err(DecodeError::WrongType),
        },
        _ => Err(DecodeError::WrongType),
    }
}

impl AccountInfoConfigView {
    /// The wire members, in canonical order; the commitment is nested
    /// under its own key, every absent field is omitted.
    pub open spec fn wire_pairs(self) -> Seq<(Seq<char>, JVal)> {
        opt_pair("encoding"@, opt_jmap(self.encoding, |e: UiAccountEncoding| e.wire())) + opt_pair(
            "dataSlice"@,
            opt_jmap(self.data_slice, |d: DataSliceView| d.wire()),
        ) + opt_pair(
            "commitment"@,
            opt_jmap(self.commitment, |c: CommitmentLevel| commitment_config_wire(c)),
        ) + opt_pair("minContextSlot"@, opt_jmap(self.min_context_slot, |n: u64| JVal::UInt(n)))
    }

    pub open spec fn wire(self) -> JVal {
        JVal::Obj(self.wire_pairs())
    }

    /// Reads the account-info fields out of an object's members; the same
    /// members may also carry the fields of an embedding parent.
    pub open spec fn parse_fields(ps: Seq<(Seq<char>, JVal)>) -> Result<
        AccountInfoConfigView,
        DecodeError,
    > {
        let encoding = parse_opt_sub(ps, "encoding"@, |jv: JVal| UiAccountEncoding::parse(jv));
        let data_slice = parse_opt_sub(ps, "dataSlice"@, |jv: JVal| DataSliceView::parse(jv));
        let commitment = parse_opt_sub(
            ps,
            "commitment"@,
            |jv: JVal| commitment_config_of_jval(jv),
        );
        let min_context_slot = parse_opt_u64(ps, "minContextSlot"@);
        if encoding is Err {
            Err(encoding->Err_0)
        } else if data_slice is Err {
            Err(data_slice->Err_0)
        } else if commitment is Err {
            Err(commitment->Err_0)
        } else if min_context_slot is Err {
            Err(min_context_slot->Err_0)
        } else {
            Ok(
                AccountInfoConfigView {
                    encoding: encoding->Ok_0,
                    data_slice: data_slice->Ok_0,
                    commitment: commitment->Ok_0,
                    min_context_slot: min_context_slot->Ok_0,
                },
            )
        }
    }

    pub open spec fn parse(v: JVal) -> Result<AccountInfoConfigView, DecodeError> {
        match v {
            JVal::Obj(ps) => Self::parse_fields(ps),
            _ => Err(DecodeError::WrongType),
        }
    }
}

impl RpcAccountInfoConfig {
    pub fn new(
        encoding: Option<UiAccountEncoding>,
        data_slice: Option<UiDataSliceConfig>,
        commitment: Option<CommitmentLevel>,
        min_context_slot: Option<u64>,
    ) -> (r: Self)
        ensures
            r@ == (AccountInfoConfigView {
                encoding,
                data_slice: opt_view(data_slice),
                commitment,
                min_context_slot,
            }),
    {
        RpcAccountInfoConfig { encoding, data_slice, commitment, min_context_slot }
    }

    /// The canonical default instance: every field absent.
    pub fn new_default() -> (r: Self)
        ensures
            r@ == (AccountInfoConfigView {
                encoding: None,
                data_slice: None,
                commitment: None,
                min_context_slot: None,
            }),
    {
        Self::new(None, None, None, None)
    }

    pub fn encoding(&self) -> (r: Option<UiAccountEncoding>)
        ensures
            r == self@.encoding,
    {
        self.encoding
    }

    pub fn data_slice(&self) -> (r: Option<UiDataSliceConfig>)
        ensures
            opt_view(r) == self@.data_slice,
    {
        self.data_slice
    }

    pub fn commitment(&self) -> (r: Option<CommitmentLevel>)
        ensures
            r == self@.commitment,
    {
        self.commitment
    }

    pub fn min_context_slot(&self) -> (r: Option<u64>)
        ensures
            r == self@.min_context_slot,
    {
        self.min_context_slot
    }

    /// Appends the account-info members to an object under construction;
    /// an embedding parent flattens them into its own wire object.
    pub fn push_fields(&self, pairs: &mut Vec<(String, Json)>)
        ensures
            jpairs_of(final(pairs)@) == jpairs_of(old(pairs)@) + self@.wire_pairs(),
    {
        let ghost snap = jpairs_of(pairs@);
        push_opt_pair(
            pairs,
            "encoding",
            match &self.encoding {
                Some(e) => Some(e.to_json()),
                None => None,
            },
        );
        push_opt_pair(
            pairs,
            "dataSlice",
            match &self.data_slice {
                Some(d) => Some(d.to_json()),
                None => None,
            },
        );
        push_opt_pair(
            pairs,
            "commitment",
            match &self.commitment {
                Some(c) => Some(commitment_config_to_json(c)),
                None => None,
            },
        );
        push_opt_pair(
            pairs,
            "minContextSlot",
            match self.min_context_slot {
                Some(n) => Some(Json::UInt(n)),
                None => None,
            },
        );
        proof {
            let g1 = opt_pair("encoding"@, opt_jmap(self@.encoding, |e: UiAccountEncoding| e.wire()));
            let g2 = opt_pair("dataSlice"@, opt_jmap(self@.data_slice, |d: DataSliceView| d.wire()));
            let g3 = opt_pair(
                "commitment"@,
                opt_jmap(self@.commitment, |c: CommitmentLevel| commitment_config_wire(c)),
            );
            let g4 = opt_pair(
                "minContextSlot"@,
                opt_jmap(self@.min_context_slot, |n: u64| JVal::UInt(n)),
            );
            assert(snap + g1 + g2 + g3 + g4 =~= snap + (g1 + g2 + g3 + g4));
        }
    }

    /// Renders the configuration to its own wire object.
    pub fn to_json(&self) -> (j: Json)
        ensures
            j@ == self@.wire(),
    {
        let mut pairs: Vec<(String, Json)> = Vec::new();
        self.push_fields(&mut pairs);
        proof {
            assert(Seq::<(Seq<char>, JVal)>::empty() + self@.wire_pairs() =~= self@.wire_pairs());
        }
        Json::Obj(pairs)
    }

    /// Reads the account-info fields out of an object's members.
    pub fn from_fields(pairs: &Vec<(String, Json)>) -> (r: Result<Self, DecodeError>)
        ensures
            res_agrees(r, AccountInfoConfigView::parse_fields(jpairs_of(pairs@))),
    {
        let encoding = match json_obj_get(pairs, "encoding") {
            None => None,
            Some(sub) => match UiAccountEncoding::from_json(sub) {
                Ok(v) => Some(v),
                Err(e) => return Err(e),
            },
        };
        let data_slice = match json_obj_get(pairs, "dataSlice") {
            None => None,
            Some(sub) => match UiDataSliceConfig::from_json(sub) {
                Ok(v) => Some(v),
                Err(e) => return Err(e),
            },
        };
        let commitment = match json_obj_get(pairs, "commitment") {
            None => None,
            Some(sub) => match commitment_config_from_json(sub) {
                Ok(v) => Some(v),
                Err(e) => return Err(e),
            },
        };
        let min_context_slot = match get_opt_u64(pairs, "minContextSlot") {
            Ok(v) => v,
            Err(e) => return Err(e),
        };
        Ok(RpcAccountInfoConfig { encoding, data_slice, commitment, min_context_slot })
    }

    /// Parses the configuration from its own wire object.
    pub fn from_json(j: &Json) -> (r: Result<Self, DecodeError>)
        ensures
            res_agrees(r, AccountInfoConfigView::parse(j@)),
    {
        match j {
            Json::Obj(pairs) => Self::from_fields(pairs),
            _ => Err(DecodeError::WrongType),
        }
    }
}

impl Default for RpcAccountInfoConfig {
    fn default() -> (r: Self)
        ensures
            r@ == (AccountInfoConfigView {
                encoding: None,
                data_slice: None,
                commitment: None,
                min_context_slot: None,
            }),
    {
        Self::new_default()
    }
}

/// Equality of optional account encodings.
fn opt_account_encoding_eq(a: &Option<UiAccountEncoding>, b: &Option<UiAccountEncoding>) -> (r:
    bool)
    ensures
        r == (a == b),
{
    match (a, b) {
        (Some(x), Some(y)) => x == y,
        (None, None) => true,
        _ => false,
    }
}

/// Equality of optional data slices.
fn opt_data_slice_eq(a: &Option<UiDataSliceConfig>, b: &Option<UiDataSliceConfig>) -> (r: bool)
    ensures
        r == (opt_view(*a) == opt_view(*b)),
{
    match (a, b) {
        (Some(x), Some(y)) => x == y,
        (None, None) => true,
        _ => false,
    }
}

/// Equality of optional commitment levels.
fn opt_commitment_eq(a: &Option<CommitmentLevel>, b: &Option<CommitmentLevel>) -> (r: bool)
    ensures
        r == (a == b),
{
    match (a, b) {
        (Some(x), Some(y)) => x == y,
        (None, None) => true,
        _ => false,
    }
}

impl PartialEq for RpcAccountInfoConfig {
    fn eq(&self, other: &Self) -> (r: bool) {
        opt_account_encoding_eq(&self.encoding, &other.encoding) && opt_data_slice_eq(
            &self.data_slice,
            &other.data_slice,
        ) && opt_commitment_eq(&self.commitment, &other.commitment) && opt_u64_eq(
            &self.min_context_slot,
            &other.min_context_slot,
        )
    }
}

impl Eq for RpcAccountInfoConfig {

}

impl vstd::std_specs::cmp::PartialEqSpecImpl for RpcAccountInfoConfig {
    open spec fn obeys_eq_spec() -> bool {
        true
    }

    open spec fn eq_spec(&self, other: &Self) -> bool {
        self@ == other@
    }
}

/// Equality of account-info configurations is structural over every field.
pub proof fn lemma_account_info_config_eq_is_structural(
    a: AccountInfoConfigView,
    b: AccountInfoConfigView,
)
    ensures
        (a == b) <==> (a.encoding == b.encoding && a.data_slice == b.data_slice && a.commitment
            == b.commitment && a.min_context_slot == b.min_context_slot),
{
}

/// The wire form of an account-info configuration holds exactly the
/// present fields, each under its documented camelCase name.
pub proof fn lemma_account_info_config_wire_members(v: AccountInfoConfigView)
    ensures
        obj_get(v.wire_pairs(), "encoding"@) == opt_jmap(
            v.encoding,
            |e: UiAccountEncoding| e.wire(),
        ),
        obj_get(v.wire_pairs(), "dataSlice"@) == opt_jmap(v.data_slice, |d: DataSliceView| d.wire()),
        obj_get(v.wire_pairs(), "commitment"@) == opt_jmap(
            v.commitment,
            |c: CommitmentLevel| commitment_config_wire(c),
        ),
        obj_get(v.wire_pairs(), "minContextSlot"@) == opt_jmap(
            v.min_context_slot,
            |n: u64| JVal::UInt(n),
        ),
        v.encoding is None && v.data_slice is None && v.commitment is None && v.min_context_slot
            is None ==> v.wire_pairs().len() == 0,
{
    reveal_strlit("encoding");
    reveal_strlit("dataSlice");
    reveal_strlit("commitment");
    reveal_strlit("minContextSlot");
    assert("dataSlice"@.len() != "encoding"@.len());
    assert("commitment"@.len() != "encoding"@.len());
    assert("commitment"@.len() != "dataSlice"@.len());
    assert("minContextSlot"@.len() != "encoding"@.len());
    assert("minContextSlot"@.len() != "dataSlice"@.len());
    assert("minContextSlot"@.len() != "commitment"@.len());
    let g1 = opt_pair("encoding"@, opt_jmap(v.encoding, |e: UiAccountEncoding| e.wire()));
    let g2 = opt_pair("dataSlice"@, opt_jmap(v.data_slice, |d: DataSliceView| d.wire()));
    let g3 = opt_pair(
        "commitment"@,
        opt_jmap(v.commitment, |c: CommitmentLevel| commitment_config_wire(c)),
    );
    let g4 = opt_pair("minContextSlot"@, opt_jmap(v.min_context_slot, |n: u64| JVal::UInt(n)));
    lemma_obj_get_opt_pair("encoding"@, opt_jmap(v.encoding, |e: UiAccountEncoding| e.wire()));
    lemma_obj_get_opt_pair("dataSlice"@, opt_jmap(v.data_slice, |d: DataSliceView| d.wire()));
    lemma_obj_get_opt_pair(
        "commitment"@,
        opt_jmap(v.commitment, |c: CommitmentLevel| commitment_config_wire(c)),
    );
    lemma_obj_get_opt_pair(
        "minContextSlot"@,
        opt_jmap(v.min_context_slot, |n: u64| JVal::UInt(n)),
    );
    lemma_obj_get_concat_all(g1, g2);
    lemma_obj_get_concat_all(g1 + g2, g3);
    lemma_obj_get_concat_all(g1 + g2 + g3, g4);
}

/// Every account-info configuration parses back from its own wire form.
pub proof fn lemma_account_info_config_round_trip(v: AccountInfoConfigView)
    ensures
        AccountInfoConfigView::parse_fields(v.wire_pairs()) == Ok::<
            AccountInfoConfigView,
            DecodeError,
        >(v),
        AccountInfoConfigView::parse(v.wire()) == Ok::<AccountInfoConfigView, DecodeError>(v),
{
    lemma_account_info_config_wire_members(v);
    match v.encoding {
        Some(e) => crate::primitives::lemma_account_encoding_round_trip(e),
        None => {},
    }
    match v.data_slice {
        Some(d) => lemma_data_slice_round_trip(d),
        None => {},
    }
    match v.commitment {
        Some(c) => {
            lemma_obj_get_req_pair("commitment"@, c.wire());
            crate::primitives::lemma_commitment_round_trip(c);
        },
        None => {},
    }
}

/// Model of one account filter.
pub ghost enum FilterTypeView {
    DataSize(u64),
    Memcmp { offset: u64, bytes: Seq<char> },
}

/// One account filter: match accounts of an exact data size, or accounts
/// whose data at an offset compares equal to the given encoded bytes. The
/// bytes are carried in their textual encoded form as an opaque scalar.
#[derive(Debug)]
pub enum RpcFilterType {
    DataSize(u64),
    Memcmp { offset: u64, bytes: String },
}

impl View for RpcFilterType {
    type V = FilterTypeView;

    open spec fn view(&self) -> FilterTypeView {
        match self {
            RpcFilterType::DataSize(n) => FilterTypeView::DataSize(*n),
            RpcFilterType::Memcmp { offset, bytes } => FilterTypeView::Memcmp {
                offset: *offset,
                bytes: bytes@,
            },
        }
    }
}

impl FilterTypeView {
    /// The canonical wire shape of the held variant.
    pub open spec fn wire(self) -> JVal {
        match self {
            FilterTypeView::DataSize(n) => JVal::Obj(req_pair("dataSize"@, JVal::UInt(n))),
            FilterTypeView::Memcmp { offset, bytes } => JVal::Obj(
                req_pair(
                    "memcmp"@,
                    JVal::Obj(
                        req_pair("offset"@, JVal::UInt(offset)) + req_pair(
                            "bytes"@,
                            JVal::Str(bytes),
                        ),
                    ),
                ),
            ),
        }
    }

    /// Structural matching of the two known filter shapes; data matching
    /// neither is a shape-mismatch error.
    pub open spec fn parse(v: JVal) -> Result<FilterTypeView, DecodeError> {
        match v {
            JVal::Obj(ps) => if ps.len() == 1 && ps[0].0 == "dataSize"@ {
                match ps[0].1 {
                    JVal::UInt(n) => Ok(FilterTypeView::DataSize(n)),
                    _ => Err(DecodeError::UnknownShape),
                }
            } else if ps.len() == 1 && ps[0].0 == "memcmp"@ {
                match ps[0].1 {
                    JVal::Obj(inner) => {
                        let offset = parse_opt_u64(inner, "offset"@);
                        let bytes = parse_opt_str(inner, "bytes"@);
                        match (offset, bytes) {
                            (Ok(Some(o)), Ok(Some(b))) => Ok(
                                FilterTypeView::Memcmp { offset: o, bytes: b },
                            ),
                            _ => Err(DecodeError::UnknownShape),
                        }
                    },
                    _ => Err(DecodeError::UnknownShape),
                }
            } else {
                Err(DecodeError::UnknownShape)
            },
            _ => Err(DecodeError::UnknownShape),
        }
    }
}

impl RpcFilterType {
    /// Renders the filter to its canonical wire shape.
    pub fn to_json(&self) -> (j: Json)
        ensures
            j@ == self@.wire(),
    {
        match self {
            RpcFilterType::DataSize(n) => {
                let mut pairs: Vec<(String, Json)> = Vec::new();
                push_pair(&mut pairs, "dataSize", Json::UInt(*n));
                proof {
                    assert(jpairs_of(pairs@) =~= req_pair("dataSize"@, JVal::UInt(*n)));
                }
                Json::Obj(pairs)
            },
            RpcFilterType::Memcmp { offset, bytes } => {
                let mut inner: Vec<(String, Json)> = Vec::new();
                push_pair(&mut inner, "offset", Json::UInt(*offset));
                proof {
                    assert(jpairs_of(inner@) =~= req_pair("offset"@, JVal::UInt(*offset)));
                }
                push_pair(&mut inner, "bytes", Json::Str(bytes.clone()));
                proof {
                    assert(jpairs_of(inner@) =~= req_pair("offset"@, JVal::UInt(*offset))
                        + req_pair("bytes"@, JVal::Str(bytes@)));
                }
                let mut pairs: Vec<(String, Json)> = Vec::new();
                push_pair(&mut pairs, "memcmp", Json::Obj(inner));
                proof {
                    assert(jpairs_of(pairs@) =~= req_pair(
                        "memcmp"@,
                        JVal::Obj(
                            req_pair("offset"@, JVal::UInt(*offset)) + req_pair(
                                "bytes"@,
                                JVal::Str(bytes@),
                            ),
                        ),
                    ));
                }
                Json::Obj(pairs)
            },
        }
    }

    /// Parses a filter by trying the two known shapes; data matching
    /// neither fails with a shape-mismatch error.
    pub fn from_json(j: &Json) -> (r: Result<Self, DecodeError>)
        ensures
            res_agrees(r, FilterTypeView::parse(j@)),
    {
        match j {
            Json::Obj(pairs) => {
                proof {
                    crate::json::lemma_jpairs_of(pairs@);
                }
                if pairs.len() == 1 && str_eq(pairs[0].0.as_str(), "dataSize") {
                    match &pairs[0].1 {
                        Json::UInt(n) => Ok(RpcFilterType::DataSize(*n)),
                        _ => Err(DecodeError::UnknownShape),
                    }
                } else if pairs.len() == 1 && str_eq(pairs[0].0.as_str(), "memcmp") {
                    match &pairs[0].1 {
                        Json::Obj(inner) => {
                            let offset = match get_opt_u64(inner, "offset") {
                                Ok(Some(o)) => o,
                                _ => return Err(DecodeError::UnknownShape),
                            };
                            let bytes = match get_opt_string(inner, "bytes") {
                                Ok(Some(b)) => b,
                                _ => return Err(DecodeError::UnknownShape),
                            };
                            Ok(RpcFilterType::Memcmp { offset, bytes })
                        },
                        _ => Err(DecodeError::UnknownShape),
                    }
                } else {
                    Err(DecodeError::UnknownShape)
                }
            },
            _ => Err(DecodeError::UnknownShape),
        }
    }
}

impl Clone for RpcFilterType {
    fn clone(&self) -> (r: Self)
        ensures
            r@ == self@,
    {
        match self {
            RpcFilterType::DataSize(n) => RpcFilterType::DataSize(*n),
            RpcFilterType::Memcmp { offset, bytes } => RpcFilterType::Memcmp {
                offset: *offset,
                bytes: bytes.clone(),
            },
        }
    }
}

impl PartialEq for RpcFilterType {
    fn eq(&self, other: &Self) -> (r: bool) {
        match (self, other) {
            (RpcFilterType::DataSize(a), RpcFilterType::DataSize(b)) => a == b,
            (
                RpcFilterType::Memcmp { offset: ao, bytes: ab },
                RpcFilterType::Memcmp { offset: bo, bytes: bb },
            ) => ao == bo && *ab == *bb,
            _ => false,
        }
    }
}

impl Eq for RpcFilterType {

}

impl vstd::std_specs::cmp::PartialEqSpecImpl for RpcFilterType {
    open spec fn obeys_eq_spec() -> bool {
        true
    }

    open spec fn eq_spec(&self, other: &Self) -> bool {
        self@ == other@
    }
}

/// Every account filter parses back from its own wire shape.
pub proof fn lemma_filter_type_round_trip(v: FilterTypeView)
    ensures
        FilterTypeView::parse(v.wire()) == Ok::<FilterTypeView, DecodeError>(v),
{
    reveal_strlit("dataSize");
    reveal_strlit("memcmp");
    reveal_strlit("offset");
    reveal_strlit("bytes");
    match v {
        FilterTypeView::DataSize(n) => {
            assert(req_pair("dataSize"@, JVal::UInt(n)).len() == 1);
        },
        FilterTypeView::Memcmp { offset, bytes } => {
            let inner = req_pair("offset"@, JVal::UInt(offset)) + req_pair(
                "bytes"@,
                JVal::Str(bytes),
            );
            let outer = req_pair("memcmp"@, JVal::Obj(inner));
            assert(outer.len() == 1);
            assert("memcmp"@ != "dataSize"@) by {
                assert("memcmp"@.len() != "dataSize"@.len());
            }
            assert("bytes"@ != "offset"@) by {
                assert("bytes"@.len() != "offset"@.len());
            }
            lemma_obj_get_req_pair("offset"@, JVal::UInt(offset));
            lemma_obj_get_req_pair("bytes"@, JVal::Str(bytes));
            lemma_obj_get_concat_all(
                req_pair("offset"@, JVal::UInt(offset)),
                req_pair("bytes"@, JVal::Str(bytes)),
            );
        },
    }
}

/// The views of a filter list.
pub open spec fn filter_views(s: Seq<RpcFilterType>) -> Seq<FilterTypeView> {
    s.map_values(|f: RpcFilterType| f@)
}

/// Parses one filter element.
pub open spec fn filter_of_jval(v: JVal) -> Result<FilterTypeView, DecodeError> {
    FilterTypeView::parse(v)
}

/// Renders a filter list to a wire array.
fn filters_to_json(v: &Vec<RpcFilterType>) -> (r: Json)
    ensures
        r@ == JVal::Arr(filter_views(v@).map_values(|f: FilterTypeView| f.wire())),
{
    let mut items: Vec<Json> = Vec::new();
    proof {
        assert(jvals_of(items@) =~= filter_views(v@.take(0)).map_values(
            |f: FilterTypeView| f.wire(),
        ));
    }
    let mut i: usize = 0;
    while i < v.len()
        invariant
            i <= v@.len(),
            jvals_of(items@) =~= filter_views(v@.take(i as int)).map_values(
                |f: FilterTypeView| f.wire(),
            ),
        decreases v@.len() - i,
    {
        let ghost snap = items@;
        items.push(v[i].to_json());
        proof {
            lemma_jvals_push(snap, items@.last());
            assert(items@ =~= snap.push(items@.last()));
            assert(filter_views(v@.take(i as int + 1)).map_values(|f: FilterTypeView| f.wire())
                =~= jvals_of(snap).push(v@[i as int]@.wire()));
        }
        i += 1;
    }
    proof {
        assert(v@.take(v@.len() as int) =~= v@);
    }
    Json::Arr(items)
}

/// Parses a filter list from a wire array.
fn filters_from_json(items: &Vec<Json>) -> (r: Result<Vec<RpcFilterType>, DecodeError>)
    ensures
        match r {
            Ok(v) => parse_seq(jvals_of(items@), |jv: JVal| filter_of_jval(jv)) == Ok::<
                Seq<FilterTypeView>,
                DecodeError,
            >(filter_views(v@)),
            Err(e) => parse_seq(jvals_of(items@), |jv: JVal| filter_of_jval(jv)) == Err::<
                Seq<FilterTypeView>,
                DecodeError,
            >(e),
        },
{
    proof {
        lemma_jvals_of(items@);
    }
    let ghost all = jvals_of(items@);
    let ghost f = |jv: JVal| filter_of_jval(jv);
    let mut out: Vec<RpcFilterType> = Vec::new();
    proof {
        assert(all.take(0) =~= Seq::<JVal>::empty());
        assert(filter_views(out@) =~= Seq::<FilterTypeView>::empty());
    }
    let mut i: usize = 0;
    while i < items.len()
        invariant
            i <= items@.len(),
            all == jvals_of(items@),
            all.len() == items@.len(),
            forall|k: int| 0 <= k < items@.len() ==> all[k] == jval_of(items@[k]),
            f == (|jv: JVal| filter_of_jval(jv)),
            parse_seq(all.take(i as int), f) == Ok::<Seq<FilterTypeView>, DecodeError>(
                filter_views(out@),
            ),
        decreases items@.len() - i,
    {
        let ghost snap_out = out@;
        proof {
            assert(all.take(i as int + 1).drop_last() =~= all.take(i as int));
            assert(all.take(i as int + 1).last() == all[i as int]);
        }
        match RpcFilterType::from_json(&items[i]) {
            Ok(ft) => {
                out.push(ft);
            },
            Err(e) => {
                proof {
                    assert(parse_seq(all.take(i as int + 1), f) is Err);
                    lemma_parse_seq_extend(all, i as int + 1, f);
                }
                return Err(e);
            },
        }
        proof {
            assert(out@ =~= snap_out.push(out@.last()));
            assert(filter_views(out@) =~= filter_views(snap_out).push(out@.last()@));
        }
        i += 1;
    }
    proof {
        assert(all.take(items@.len() as int) =~= all);
    }
    Ok(out)
}

/// Clones a filter list.
fn clone_filters(v: &Vec<RpcFilterType>) -> (r: Vec<RpcFilterType>)
    ensures
        filter_views(r@) == filter_views(v@),
{
    let mut out: Vec<RpcFilterType> = Vec::new();
    proof {
        assert(filter_views(out@) =~= filter_views(v@.take(0)));
    }
    let mut i: usize = 0;
    while i < v.len()
        invariant
            i <= v@.len(),
            filter_views(out@) =~= filter_views(v@.take(i as int)),
        decreases v@.len() - i,
    {
        let ghost snap = out@;
        out.push(v[i].clone());
        proof {
            assert(out@ =~= snap.push(out@.last()));
            assert(filter_views(v@.take(i as int + 1)) =~= filter_views(snap).push(v@[i as int]@));
        }
        i += 1;
    }
    proof {
        assert(v@.take(v@.len() as int) =~= v@);
    }
    out
}

/// Equality of filter lists.
fn filters_eq(a: &Vec<RpcFilterType>, b: &Vec<RpcFilterType>) -> (r: bool)
    ensures
        r == (filter_views(a@) == filter_views(b@)),
{
    if a.len() != b.len() {
        proof {
            assert(filter_views(a@).len() != filter_views(b@).len());
        }
        return false;
    }
    let mut i: usize = 0;
    while i < a.len()
        invariant
            a@.len() == b@.len(),
            i <= a@.len(),
            forall|k: int| 0 <= k < i ==> a@[k]@ == b@[k]@,
        decreases a@.len() - i,
    {
        if !(a[i] == b[i]) {
            proof {
                assert(filter_views(a@)[i as int] != filter_views(b@)[i as int]);
            }
            return false;
        }
        i += 1;
    }
    proof {
        assert(filter_views(a@) =~= filter_views(b@));
    }
    true
}

/// Equality of optional filter lists.
fn opt_filters_eq(a: &Option<Vec<RpcFilterType>>, b: &Option<Vec<RpcFilterType>>) -> (r: bool)
    ensures
        r == (opt_filter_views(*a) == opt_filter_views(*b)),
{
    match (a, b) {
        (Some(x), Some(y)) => filters_eq(x, y),
        (None, None) => true,
        _ => false,
    }
}

/// The views of an optional filter list.
pub open spec fn opt_filter_views(v: Option<Vec<RpcFilterType>>) -> Option<Seq<FilterTypeView>> {
    match v {
        Some(fs) => Some(filter_views(fs@)),
        None => None,
    }
}

/// Clones an optional filter list.
fn clone_opt_filters(v: &Option<Vec<RpcFilterType>>) -> (r: Option<Vec<RpcFilterType>>)
    ensures
        opt_filter_views(r) == opt_filter_views(*v),
{
    match v {
        Some(fs) => Some(clone_filters(fs)),
        None => None,
    }
}

/// The wire form of an optional filter list.
pub open spec fn opt_filters_wire(v: Option<Seq<FilterTypeView>>) -> Option<JVal> {
    opt_jmap(v, |fs: Seq<FilterTypeView>| JVal::Arr(fs.map_values(|f: FilterTypeView| f.wire())))
}

/// Model-level read of an optional filter-list field.
pub open spec fn parse_opt_filters(ps: Seq<(Seq<char>, JVal)>, key: Seq<char>) -> Result<
    Option<Seq<FilterTypeView>>,
    DecodeError,
> {
    match obj_get(ps, key) {
        None => Ok(None),
        Some(JVal::Arr(items)) => match parse_seq(items, |jv: JVal| filter_of_jval(jv)) {
            Ok(fs) => Ok(Some(fs)),
            Err(e) => Err(e),
        },
        Some(_) => Err(DecodeError::WrongType),
    }
}

/// Reads an optional filter-list member.
fn get_opt_filters(pairs: &Vec<(String, Json)>, key: &str) -> (r: Result<
    Option<Vec<RpcFilterType>>,
    DecodeError,
>)
    ensures
        match r {
            Ok(v) => parse_opt_filters(jpairs_of(pairs@), key@) == Ok::<
                Option<Seq<FilterTypeView>>,
                DecodeError,
            >(opt_filter_views(v)),
            Err(e) => parse_opt_filters(jpairs_of(pairs@), key@) == Err::<
                Option<Seq<FilterTypeView>>,
                DecodeError,
            >(e),
        },
{
    match json_obj_get(pairs, key) {
        None => Ok(None),
        Some(sub) => match sub {
            Json::Arr(items) => match filters_from_json(items) {
                Ok(fs) => Ok(Some(fs)),
                Err(e) => Err(e),
            },
            _ => Err(DecodeError::WrongType),
        },
    }
}

/// Model of a program-accounts scan configuration.
pub ghost struct ProgramAccountsConfigView {
    pub filters: Option<Seq<FilterTypeView>>,
    pub account_config: AccountInfoConfigView,
    pub with_context: Option<bool>,
    pub sort_results: Option<bool>,
}

/// Configuration object for a program-accounts scan. The embedded
/// account-info configuration is flattened into the same wire object: the
/// embedding is invisible on the wire.
#[derive(Debug)]
pub struct RpcProgramAccountsConfig {
    filters: Option<Vec<RpcFilterType>>,
    account_config: RpcAccountInfoConfig,
    with_context: Option<bool>,
    sort_results: Option<bool>,
}

impl View for RpcProgramAccountsConfig {
    type V = ProgramAccountsConfigView;

    closed spec fn view(&self) -> ProgramAccountsConfigView {
        ProgramAccountsConfigView {
            filters: opt_filter_views(self.filters),
            account_config: self.account_config@,
            with_context: self.with_context,
            sort_results: self.sort_results,
        }
    }
}

impl ProgramAccountsConfigView {
    /// The wire members: the optional filter list, then the flattened
    /// account-info members, then the scan options; absent fields are
    /// omitted.
    pub open spec fn wire_pairs(self) -> Seq<(Seq<char>, JVal)> {
        opt_pair("filters"@, opt_filters_wire(self.filters)) + self.account_config.wire_pairs()
            + opt_pair("withContext"@, opt_jmap(self.with_context, |b: bool| JVal::Bool(b)))
            + opt_pair("sortResults"@, opt_jmap(self.sort_results, |b: bool| JVal::Bool(b)))
    }

    pub open spec fn wire(self) -> JVal {
        JVal::Obj(self.wire_pairs())
    }

    pub open spec fn parse(v: JVal) -> Result<ProgramAccountsConfigView, DecodeError> {
        match v {
            JVal::Obj(ps) => {
                let filters = parse_opt_filters(ps, "filters"@);
                let account_config = AccountInfoConfigView::parse_fields(ps);
                let with_context = parse_opt_bool(ps, "withContext"@);
                let sort_results = parse_opt_bool(ps, "sortResults"@);
                if filters is Err {
                    Err(filters->Err_0)
                } else if account_config is Err {
                    Err(account_config->Err_0)
                } else if with_context is Err {
                    Err(with_context->Err_0)
                } else if sort_results is Err {
                    Err(sort_results->Err_0)
                } else {
                    Ok(
                        ProgramAccountsConfigView {
                            filters: filters->Ok_0,
                            account_config: account_config->Ok_0,
                            with_context: with_context->Ok_0,
                            sort_results: sort_results->Ok_0,
                        },
                    )
                }
            },
            _ => Err(DecodeError::WrongType),
        }
    }
}

impl RpcProgramAccountsConfig {
    pub fn new(
        account_config: RpcAccountInfoConfig,
        filters: Option<Vec<RpcFilterType>>,
        with_context: Option<bool>,
        sort_results: Option<bool>,
    ) -> (r: Self)
        ensures
            r@ == (ProgramAccountsConfigView {
                filters: opt_filter_views(filters),
                account_config: account_config@,
                with_context,
                sort_results,
            }),
    {
        RpcProgramAccountsConfig { filters, account_config, with_context, sort_results }
    }

    /// The canonical default instance: no filters, a default account-info
    /// configuration, no scan options.
    pub fn new_default() -> (r: Self)
        ensures
            r@ == (ProgramAccountsConfigView {
                filters: None,
                account_config: AccountInfoConfigView {
                    encoding: None,
                    data_slice: None,
                    commitment: None,
                    min_context_slot: None,
                },
                with_context: None,
                sort_results: None,
            }),
    {
        Self::new(RpcAccountInfoConfig::new_default(), None, None, None)
    }

    pub fn account_config(&self) -> (r: RpcAccountInfoConfig)
        ensures
            r@ == self@.account_config,
    {
        self.account_config
    }

    pub fn filters(&self) -> (r: Option<Vec<RpcFilterType>>)
        ensures
            opt_filter_views(r) == self@.filters,
    {
        clone_opt_filters(&self.filters)
    }

    pub fn with_context(&self) -> (r: Option<bool>)
        ensures
            r == self@.with_context,
    {
        self.with_context
    }

    /// Renders the configuration to its wire tree; the account-info
    /// members appear directly in this object.
    pub fn to_json(&self) -> (j: Json)
        ensures
            j@ == self@.wire(),
    {
        let mut pairs: Vec<(String, Json)> = Vec::new();
        let ghost g1 = opt_pair("filters"@, opt_filters_wire(self@.filters));
        push_opt_pair(
            &mut pairs,
            "filters",
            match &self.filters {
                Some(fs) => Some(filters_to_json(fs)),
                None => None,
            },
        );
        proof {
            assert(jpairs_of(pairs@) =~= g1);
        }
        self.account_config.push_fields(&mut pairs);
        push_opt_pair(
            &mut pairs,
            "withContext",
            match self.with_context {
                Some(b) => Some(Json::Bool(b)),
                None => None,
            },
        );
        push_opt_pair(
            &mut pairs,
            "sortResults",
            match self.sort_results {
                Some(b) => Some(Json::Bool(b)),
                None => None,
            },
        );
        proof {
            assert(jpairs_of(pairs@) == self@.wire_pairs());
        }
        Json::Obj(pairs)
    }

    /// Parses the configuration back from a wire tree, reading the
    /// account-info members from the same object.
    pub fn from_json(j: &Json) -> (r: Result<Self, DecodeError>)
        ensures
            res_agrees(r, ProgramAccountsConfigView::parse(j@)),
    {
        match j {
            Json::Obj(pairs) => {
                let filters = match get_opt_filters(pairs, "filters") {
                    Ok(v) => v,
                    Err(e) => return Err(e),
                };
                let account_config = match RpcAccountInfoConfig::from_fields(pairs) {
                    Ok(v) => v,
                    Err(e) => return Err(e),
                };
                let with_context = match get_opt_bool(pairs, "withContext") {
                    Ok(v) => v,
                    Err(e) => return Err(e),
                };
                let sort_results = match get_opt_bool(pairs, "sortResults") {
                    Ok(v) => v,
                    Err(e) => return Err(e),
                };
                Ok(RpcProgramAccountsConfig { filters, account_config, with_context, sort_results })
            },
            _ => Err(DecodeError::WrongType),
        }
    }
}

impl Default for RpcProgramAccountsConfig {
    fn default() -> (r: Self)
        ensures
            r@ == (ProgramAccountsConfigView {
                filters: None,
                account_config: AccountInfoConfigView {
                    encoding: None,
                    data_slice: None,
                    commitment: None,
                    min_context_slot: None,
                },
                with_context: None,
                sort_results: None,
            }),
    {
        Self::new_default()
    }
}

impl Clone for RpcProgramAccountsConfig {
    fn clone(&self) -> (r: Self)
        ensures
            r@ == self@,
    {
        RpcProgramAccountsConfig {
            filters: clone_opt_filters(&self.filters),
            account_config: self.account_config,
            with_context: self.with_context,
            sort_results: self.sort_results,
        }
    }
}

impl PartialEq for RpcProgramAccountsConfig {
    fn eq(&self, other: &Self) -> (r: bool) {
        opt_filters_eq(&self.filters, &other.filters) && self.account_config
            == other.account_config && opt_bool_eq(&self.with_context, &other.with_context)
            && opt_bool_eq(&self.sort_results, &other.sort_results)
    }
}

impl Eq for RpcProgramAccountsConfig {

}

impl vstd::std_specs::cmp::PartialEqSpecImpl for RpcProgramAccountsConfig {
    open spec fn obeys_eq_spec() -> bool {
        true
    }

    open spec fn eq_spec(&self, other: &Self) -> bool {
        self@ == other@
    }
}

/// Equality of program-accounts configurations is structural over every
/// field, the embedded account-info configuration included.
pub proof fn lemma_program_accounts_config_eq_is_structural(
    a: ProgramAccountsConfigView,
    b: ProgramAccountsConfigView,
)
    ensures
        (a == b) <==> (a.filters == b.filters && a.account_config == b.account_config
            && a.with_context == b.with_context && a.sort_results == b.sort_results),
{
}

/// The wire form of a program-accounts configuration holds exactly the
/// present fields, the embedded account-info members flattened in among
/// them under their own names.
pub proof fn lemma_program_accounts_config_wire_members(v: ProgramAccountsConfigView)
    ensures
        obj_get(v.wire_pairs(), "filters"@) == opt_filters_wire(v.filters),
        obj_get(v.wire_pairs(), "encoding"@) == opt_jmap(
            v.account_config.encoding,
            |e: UiAccountEncoding| e.wire(),
        ),
        obj_get(v.wire_pairs(), "dataSlice"@) == opt_jmap(
            v.account_config.data_slice,
            |d: DataSliceView| d.wire(),
        ),
        obj_get(v.wire_pairs(), "commitment"@) == opt_jmap(
            v.account_config.commitment,
            |c: CommitmentLevel| commitment_config_wire(c),
        ),
        obj_get(v.wire_pairs(), "minContextSlot"@) == opt_jmap(
            v.account_config.min_context_slot,
            |n: u64| JVal::UInt(n),
        ),
        obj_get(v.wire_pairs(), "withContext"@) == opt_jmap(
            v.with_context,
            |b: bool| JVal::Bool(b),
        ),
        obj_get(v.wire_pairs(), "sortResults"@) == opt_jmap(
            v.sort_results,
            |b: bool| JVal::Bool(b),
        ),
{
    reveal_strlit("filters");
    reveal_strlit("encoding");
    reveal_strlit("dataSlice");
    reveal_strlit("commitment");
    reveal_strlit("minContextSlot");
    reveal_strlit("withContext");
    reveal_strlit("sortResults");
    assert("encoding"@.len() != "filters"@.len());
    assert("dataSlice"@.len() != "filters"@.len());
    assert("dataSlice"@.len() != "encoding"@.len());
    assert("commitment"@.len() != "filters"@.len());
    assert("commitment"@.len() != "encoding"@.len());
    assert("commitment"@.len() != "dataSlice"@.len());
    assert("minContextSlot"@.len() != "filters"@.len());
    assert("minContextSlot"@.len() != "encoding"@.len());
    assert("minContextSlot"@.len() != "dataSlice"@.len());
    assert("minContextSlot"@.len() != "commitment"@.len());
    assert("withContext"@.len() != "filters"@.len());
    assert("withContext"@.len() != "encoding"@.len());
    assert("withContext"@.len() != "dataSlice"@.len());
    assert("withContext"@.len() != "commitment"@.len());
    assert("withContext"@.len() != "minContextSlot"@.len());
    assert("sortResults"@.len() != "filters"@.len());
    assert("sortResults"@.len() != "encoding"@.len());
    assert("sortResults"@.len() != "dataSlice"@.len());
    assert("sortResults"@.len() != "commitment"@.len());
    assert("sortResults"@.len() != "minContextSlot"@.len());
    assert("sortResults"@[0] != "withContext"@[0]);
    let a = v.account_config;
    let g1 = opt_pair("filters"@, opt_filters_wire(v.filters));
    let a1 = opt_pair("encoding"@, opt_jmap(a.encoding, |e: UiAccountEncoding| e.wire()));
    let a2 = opt_pair("dataSlice"@, opt_jmap(a.data_slice, |d: DataSliceView| d.wire()));
    let a3 = opt_pair(
        "commitment"@,
        opt_jmap(a.commitment, |c: CommitmentLevel| commitment_config_wire(c)),
    );
    let a4 = opt_pair("minContextSlot"@, opt_jmap(a.min_context_slot, |n: u64| JVal::UInt(n)));
    let g2 = opt_pair("withContext"@, opt_jmap(v.with_context, |b: bool| JVal::Bool(b)));
    let g3 = opt_pair("sortResults"@, opt_jmap(v.sort_results, |b: bool| JVal::Bool(b)));
    lemma_obj_get_opt_pair("filters"@, opt_filters_wire(v.filters));
    lemma_obj_get_opt_pair("encoding"@, opt_jmap(a.encoding, |e: UiAccountEncoding| e.wire()));
    lemma_obj_get_opt_pair("dataSlice"@, opt_jmap(a.data_slice, |d: DataSliceView| d.wire()));
    lemma_obj_get_opt_pair(
        "commitment"@,
        opt_jmap(a.commitment, |c: CommitmentLevel| commitment_config_wire(c)),
    );
    lemma_obj_get_opt_pair(
        "minContextSlot"@,
        opt_jmap(a.min_context_slot, |n: u64| JVal::UInt(n)),
    );
    lemma_obj_get_opt_pair("withContext"@, opt_jmap(v.with_context, |b: bool| JVal::Bool(b)));
    lemma_obj_get_opt_pair("sortResults"@, opt_jmap(v.sort_results, |b: bool| JVal::Bool(b)));
    lemma_obj_get_concat_all(a1, a2);
    lemma_obj_get_concat_all(a1 + a2, a3);
    lemma_obj_get_concat_all(a1 + a2 + a3, a4);
    lemma_obj_get_concat_all(g1, a.wire_pairs());
    lemma_obj_get_concat_all(g1 + a.wire_pairs(), g2);
    lemma_obj_get_concat_all(g1 + a.wire_pairs() + g2, g3);
}

/// Every program-accounts configuration parses back from its own wire
/// form: flattening the account-info members loses nothing.
#[verifier::rlimit(60)]
pub proof fn lemma_program_accounts_config_round_trip(v: ProgramAccountsConfigView)
    ensures
        ProgramAccountsConfigView::parse(v.wire()) == Ok::<ProgramAccountsConfigView, DecodeError>(
            v,
        ),
{
    lemma_program_accounts_config_wire_members(v);
    match v.filters {
        Some(fs) => {
            assert forall|i: int| 0 <= i < fs.len() implies #[trigger] filter_of_jval(
                fs[i].wire(),
            ) == Ok::<FilterTypeView, DecodeError>(fs[i]) by {
                lemma_filter_type_round_trip(fs[i]);
            }
            lemma_parse_seq_round_trip(
                fs,
                |f: FilterTypeView| f.wire(),
                |jv: JVal| filter_of_jval(jv),
            );
        },
        None => {},
    }
    match v.account_config.encoding {
        Some(e) => crate::primitives::lemma_account_encoding_round_trip(e),
        None => {},
    }
    match v.account_config.data_slice {
        Some(d) => lemma_data_slice_round_trip(d),
        None => {},
    }
    match v.account_config.commitment {
        Some(c) => {
            lemma_obj_get_req_pair("commitment"@, c.wire());
            crate::primitives::lemma_commitment_round_trip(c);
        },
        None => {},
    }
}

/// Model of a paged program-accounts scan configuration.
pub ghost struct ProgramAccountsV2ConfigView {
    pub filters: Option<Seq<FilterTypeView>>,
    pub account_config: AccountInfoConfigView,
    pub with_context: Option<bool>,
    pub sort_results: Option<bool>,
    pub limit: Option<u64>,
    pub pagination_key: Option<Seq<char>>,
    pub changed_since_slot: Option<u64>,
}

/// Configuration object for an incremental, paged program-accounts scan.
/// On top of the base fields it carries a page-size limit, an opaque
/// pagination cursor echoed back from a prior response and never
/// interpreted by this layer, and a change-horizon slot.
#[derive(Debug)]
pub struct RpcProgramAccountsV2Config {
    filters: Option<Vec<RpcFilterType>>,
    account_config: RpcAccountInfoConfig,
    with_context: Option<bool>,
    sort_results: Option<bool>,
    limit: Option<u64>,
    pagination_key: Option<String>,
    changed_since_slot: Option<u64>,
}

impl View for RpcProgramAccountsV2Config {
    type V = ProgramAccountsV2ConfigView;

    closed spec fn view(&self) -> ProgramAccountsV2ConfigView {
        ProgramAccountsV2ConfigView {
            filters: opt_filter_views(self.filters),
            account_config: self.account_config@,
            with_context: self.with_context,
            sort_results: self.sort_results,
            limit: self.limit,
            pagination_key: opt_view(self.pagination_key),
            changed_since_slot: self.changed_since_slot,
        }
    }
}

impl ProgramAccountsV2ConfigView {
    /// The wire members: the optional filter list, the flattened
    /// account-info members, then the scan and pagination options; absent
    /// fields are omitted.
    pub open spec fn wire_pairs(self) -> Seq<(Seq<char>, JVal)> {
        opt_pair("filters"@, opt_filters_wire(self.filters)) + self.account_config.wire_pairs()
            + opt_pair("withContext"@, opt_jmap(self.with_context, |b: bool| JVal::Bool(b)))
            + opt_pair("sortResults"@, opt_jmap(self.sort_results, |b: bool| JVal::Bool(b)))
            + opt_pair("limit"@, opt_jmap(self.limit, |n: u64| JVal::UInt(n))) + opt_pair(
            "paginationKey"@,
            opt_jmap(self.pagination_key, |s: Seq<char>| JVal::Str(s)),
        ) + opt_pair(
            "changedSinceSlot"@,
            opt_jmap(self.changed_since_slot, |n: u64| JVal::UInt(n)),
        )
    }

    pub open spec fn wire(self) -> JVal {
        JVal::Obj(self.wire_pairs())
    }

    pub open spec fn parse(v: JVal) -> Result<ProgramAccountsV2ConfigView, DecodeError> {
        match v {
            JVal::Obj(ps) => {
                let filters = parse_opt_filters(ps, "filters"@);
                let account_config = AccountInfoConfigView::parse_fields(ps);
                let with_context = parse_opt_bool(ps, "withContext"@);
                let sort_results = parse_opt_bool(ps, "sortResults"@);
                let limit = parse_opt_u64(ps, "limit"@);
                let pagination_key = parse_opt_str(ps, "paginationKey"@);
                let changed_since_slot = parse_opt_u64(ps, "changedSinceSlot"@);
                if filters is Err {
                    Err(filters->Err_0)
                } else if account_config is Err {
                    Err(account_config->Err_0)
                } else if with_context is Err {
                    Err(with_context->Err_0)
                } else if sort_results is Err {
                    Err(sort_results->Err_0)
                } else if limit is Err {
                    Err(limit->Err_0)
                } else if pagination_key is Err {
                    Err(pagination_key->Err_0)
                } else if changed_since_slot is Err {
                    Err(changed_since_slot->Err_0)
                } else {
                    Ok(
                        ProgramAccountsV2ConfigView {
                            filters: filters->Ok_0,
                            account_config: account_config->Ok_0,
                            with_context: with_context->Ok_0,
                            sort_results: sort_results->Ok_0,
                            limit: limit->Ok_0,
                            pagination_key: pagination_key->Ok_0,
                            changed_since_slot: changed_since_slot->Ok_0,
                        },
                    )
                }
            },
            _ => Err(DecodeError::WrongType),
        }
    }
}

impl RpcProgramAccountsV2Config {
    pub fn new(
        account_config: RpcAccountInfoConfig,
        filters: Option<Vec<RpcFilterType>>,
        with_context: Option<bool>,
        sort_results: Option<bool>,
        limit: Option<u64>,
        pagination_key: Option<String>,
        changed_since_slot: Option<u64>,
    ) -> (r: Self)
        ensures
            r@ == (ProgramAccountsV2ConfigView {
                filters: opt_filter_views(filters),
                account_config: account_config@,
                with_context,
                sort_results,
                limit,
                pagination_key: opt_view(pagination_key),
                changed_since_slot,
            }),
    {
        RpcProgramAccountsV2Config {
            filters,
            account_config,
            with_context,
            sort_results,
            limit,
            pagination_key,
            changed_since_slot,
        }
    }

    /// The canonical default instance: every field absent, a default
    /// account-info configuration.
    pub fn new_default() -> (r: Self)
        ensures
            r@ == (ProgramAccountsV2ConfigView {
                filters: None,
                account_config: AccountInfoConfigView {
                    encoding: None,
                    data_slice: None,
                    commitment: None,
                    min_context_slot: None,
                },
                with_context: None,
                sort_results: None,
                limit: None,
                pagination_key: None,
                changed_since_slot: None,
            }),
    {
        Self::new(RpcAccountInfoConfig::new_default(), None, None, None, None, None, None)
    }

    pub fn account_config(&self) -> (r: RpcAccountInfoConfig)
        ensures
            r@ == self@.account_config,
    {
        self.account_config
    }

    pub fn filters(&self) -> (r: Option<Vec<RpcFilterType>>)
        ensures
            opt_filter_views(r) == self@.filters,
    {
        clone_opt_filters(&self.filters)
    }

    pub fn with_context(&self) -> (r: Option<bool>)
        ensures
            r == self@.with_context,
    {
        self.with_context
    }

    pub fn sort_results(&self) -> (r: Option<bool>)
        ensures
            r == self@.sort_results,
    {
        self.sort_results
    }

    pub fn limit(&self) -> (r: Option<u64>)
        ensures
            r == self@.limit,
    {
        self.limit
    }

    pub fn pagination_key(&self) -> (r: Option<String>)
        ensures
            opt_view(r) == self@.pagination_key,
    {
        clone_opt_string(&self.pagination_key)
    }

    pub fn changed_since_slot(&self) -> (r: Option<u64>)
        ensures
            r == self@.changed_since_slot,
    {
        self.changed_since_slot
    }

    /// Renders the configuration to its wire tree; the account-info
    /// members appear directly in this object.
    pub fn to_json(&self) -> (j: Json)
        ensures
            j@ == self@.wire(),
    {
        let mut pairs: Vec<(String, Json)> = Vec::new();
        let ghost g1 = opt_pair("filters"@, opt_filters_wire(self@.filters));
        push_opt_pair(
            &mut pairs,
            "filters",
            match &self.filters {
                Some(fs) => Some(filters_to_json(fs)),
                None => None,
            },
        );
        proof {
            assert(jpairs_of(pairs@) =~= g1);
        }
        self.account_config.push_fields(&mut pairs);
        push_opt_pair(
            &mut pairs,
            "withContext",
            match self.with_context {
                Some(b) => Some(Json::Bool(b)),
                None => None,
            },
        );
        push_opt_pair(
            &mut pairs,
            "sortResults",
            match self.sort_results {
                Some(b) => Some(Json::Bool(b)),
                None => None,
            },
        );
        push_opt_pair(
            &mut pairs,
            "limit",
            match self.limit {
                Some(n) => Some(Json::UInt(n)),
                None => None,
            },
        );
        push_opt_pair(
            &mut pairs,
            "paginationKey",
            match &self.pagination_key {
                Some(s) => Some(Json::Str(s.clone())),
                None => None,
            },
        );
        push_opt_pair(
            &mut pairs,
            "changedSinceSlot",
            match self.changed_since_slot {
                Some(n) => Some(Json::UInt(n)),
                None => None,
            },
        );
        proof {
            assert(jpairs_of(pairs@) == self@.wire_pairs());
        }
        Json::Obj(pairs)
    }

    /// Parses the configuration back from a wire tree, reading the
    /// account-info members from the same object; the pagination cursor is
    /// echoed through unchanged.
    pub fn from_json(j: &Json) -> (r: Result<Self, DecodeError>)
        ensures
            res_agrees(r, ProgramAccountsV2ConfigView::parse(j@)),
    {
        match j {
            Json::Obj(pairs) => {
                let filters = match get_opt_filters(pairs, "filters") {
                    Ok(v) => v,
                    Err(e) => return Err(e),
                };
                let account_config = match RpcAccountInfoConfig::from_fields(pairs) {
                    Ok(v) => v,
                    Err(e) => return Err(e),
                };
                let with_context = match get_opt_bool(pairs, "withContext") {
                    Ok(v) => v,
                    Err(e) => return Err(e),
                };
                let sort_results = match get_opt_bool(pairs, "sortResults") {
                    Ok(v) => v,
                    Err(e) => return Err(e),
                };
                let limit = match get_opt_u64(pairs, "limit") {
                    Ok(v) => v,
                    Err(e) => return Err(e),
                };
                let pagination_key = match get_opt_string(pairs, "paginationKey") {
                    Ok(v) => v,
                    Err(e) => return Err(e),
                };
                let changed_since_slot = match get_opt_u64(pairs, "changedSinceSlot") {
                    Ok(v) => v,
                    Err(e) => return Err(e),
                };
                Ok(
                    RpcProgramAccountsV2Config {
                        filters,
                        account_config,
                        with_context,
                        sort_results,
                        limit,
                        pagination_key,
                        changed_since_slot,
                    },
                )
            },
            _ => Err(DecodeError::WrongType),
        }
    }
}

impl Default for RpcProgramAccountsV2Config {
    fn default() -> (r: Self)
        ensures
            r@ == (ProgramAccountsV2ConfigView {
                filters: None,
                account_config: AccountInfoConfigView {
                    encoding: None,
                    data_slice: None,
                    commitment: None,
                    min_context_slot: None,
                },
                with_context: None,
                sort_results: None,
                limit: None,
                pagination_key: None,
                changed_since_slot: None,
            }),
    {
        Self::new_default()
    }
}

impl Clone for RpcProgramAccountsV2Config {
    fn clone(&self) -> (r: Self)
        ensures
            r@ == self@,
    {
        RpcProgramAccountsV2Config {
            filters: clone_opt_filters(&self.filters),
            account_config: self.account_config,
            with_context: self.with_context,
            sort_results: self.sort_results,
            limit: self.limit,
            pagination_key: clone_opt_string(&self.pagination_key),
            changed_since_slot: self.changed_since_slot,
        }
    }
}

impl PartialEq for RpcProgramAccountsV2Config {
    fn eq(&self, other: &Self) -> (r: bool) {
        opt_filters_eq(&self.filters, &other.filters) && self.account_config
            == other.account_config && opt_bool_eq(&self.with_context, &other.with_context)
            && opt_bool_eq(&self.sort_results, &other.sort_results) && opt_u64_eq(
            &self.limit,
            &other.limit,
        ) && opt_string_eq(&self.pagination_key, &other.pagination_key) && opt_u64_eq(
            &self.changed_since_slot,
            &other.changed_since_slot,
        )
    }
}

impl Eq for RpcProgramAccountsV2Config {

}

impl vstd::std_specs::cmp::PartialEqSpecImpl for RpcProgramAccountsV2Config {
    open spec fn obeys_eq_spec() -> bool {
        true
    }

    open spec fn eq_spec(&self, other: &Self) -> bool {
        self@ == other@
    }
}

/// Equality of paged program-accounts configurations is structural over
/// every field, the pagination cursor included.
pub proof fn lemma_program_accounts_v2_config_eq_is_structural(
    a: ProgramAccountsV2ConfigView,
    b: ProgramAccountsV2ConfigView,
)
    ensures
        (a == b) <==> (a.filters == b.filters && a.account_config == b.account_config
            && a.with_context == b.with_context && a.sort_results == b.sort_results && a.limit
            == b.limit && a.pagination_key == b.pagination_key && a.changed_since_slot
            == b.changed_since_slot),
{
}

/// The wire form of a paged program-accounts configuration holds exactly
/// the present fields, the embedded account-info members flattened in
/// among them under their own names.
#[verifier::rlimit(60)]
pub proof fn lemma_program_accounts_v2_config_wire_members(v: ProgramAccountsV2ConfigView)
    ensures
        obj_get(v.wire_pairs(), "filters"@) == opt_filters_wire(v.filters),
        obj_get(v.wire_pairs(), "encoding"@) == opt_jmap(
            v.account_config.encoding,
            |e: UiAccountEncoding| e.wire(),
        ),
        obj_get(v.wire_pairs(), "dataSlice"@) == opt_jmap(
            v.account_config.data_slice,
            |d: DataSliceView| d.wire(),
        ),
        obj_get(v.wire_pairs(), "commitment"@) == opt_jmap(
            v.account_config.commitment,
            |c: CommitmentLevel| commitment_config_wire(c),
        ),
        obj_get(v.wire_pairs(), "minContextSlot"@) == opt_jmap(
            v.account_config.min_context_slot,
            |n: u64| JVal::UInt(n),
        ),
        obj_get(v.wire_pairs(), "withContext"@) == opt_jmap(
            v.with_context,
            |b: bool| JVal::Bool(b),
        ),
        obj_get(v.wire_pairs(), "sortResults"@) == opt_jmap(
            v.sort_results,
            |b: bool| JVal::Bool(b),
        ),
        obj_get(v.wire_pairs(), "limit"@) == opt_jmap(v.limit, |n: u64| JVal::UInt(n)),
        obj_get(v.wire_pairs(), "paginationKey"@) == opt_jmap(
            v.pagination_key,
            |s: Seq<char>| JVal::Str(s),
        ),
        obj_get(v.wire_pairs(), "changedSinceSlot"@) == opt_jmap(
            v.changed_since_slot,
            |n: u64| JVal::UInt(n),
        ),
{
    reveal_strlit("filters");
    reveal_strlit("encoding");
    reveal_strlit("dataSlice");
    reveal_strlit("commitment");
    reveal_strlit("minContextSlot");
    reveal_strlit("withContext");
    reveal_strlit("sortResults");
    reveal_strlit("limit");
    reveal_strlit("paginationKey");
    reveal_strlit("changedSinceSlot");
    assert("encoding"@.len() != "filters"@.len());
    assert("dataSlice"@.len() != "filters"@.len());
    assert("dataSlice"@.len() != "encoding"@.len());
    assert("commitment"@.len() != "filters"@.len());
    assert("commitment"@.len() != "encoding"@.len());
    assert("commitment"@.len() != "dataSlice"@.len());
    assert("minContextSlot"@.len() != "filters"@.len());
    assert("minContextSlot"@.len() != "encoding"@.len());
    assert("minContextSlot"@.len() != "dataSlice"@.len());
    assert("minContextSlot"@.len() != "commitment"@.len());
    assert("withContext"@.len() != "filters"@.len());
    assert("withContext"@.len() != "encoding"@.len());
    assert("withContext"@.len() != "dataSlice"@.len());
    assert("withContext"@.len() != "commitment"@.len());
    assert("withContext"@.len() != "minContextSlot"@.len());
    assert("sortResults"@.len() != "filters"@.len());
    assert("sortResults"@.len() != "encoding"@.len());
    assert("sortResults"@.len() != "dataSlice"@.len());
    assert("sortResults"@.len() != "commitment"@.len());
    assert("sortResults"@.len() != "minContextSlot"@.len());
    assert("sortResults"@[0] != "withContext"@[0]);
    assert("limit"@.len() != "filters"@.len());
    assert("limit"@.len() != "encoding"@.len());
    assert("limit"@.len() != "dataSlice"@.len());
    assert("limit"@.len() != "commitment"@.len());
    assert("limit"@.len() != "minContextSlot"@.len());
    assert("limit"@.len() != "withContext"@.len());
    assert("limit"@.len() != "sortResults"@.len());
    assert("paginationKey"@.len() != "filters"@.len());
    assert("paginationKey"@.len() != "encoding"@.len());
    assert("paginationKey"@.len() != "dataSlice"@.len());
    assert("paginationKey"@.len() != "commitment"@.len());
    assert("paginationKey"@.len() != "minContextSlot"@.len());
    assert("paginationKey"@.len() != "withContext"@.len());
    assert("paginationKey"@.len() != "sortResults"@.len());
    assert("paginationKey"@.len() != "limit"@.len());
    assert("changedSinceSlot"@.len() != "filters"@.len());
    assert("changedSinceSlot"@.len() != "encoding"@.len());
    assert("changedSinceSlot"@.len() != "dataSlice"@.len());
    assert("changedSinceSlot"@.len() != "commitment"@.len());
    assert("changedSinceSlot"@.len() != "minContextSlot"@.len());
    assert("changedSinceSlot"@.len() != "withContext"@.len());
    assert("changedSinceSlot"@.len() != "sortResults"@.len());
    assert("changedSinceSlot"@.len() != "limit"@.len());
    assert("changedSinceSlot"@.len() != "paginationKey"@.len());
    let a = v.account_config;
    let g1 = opt_pair("filters"@, opt_filters_wire(v.filters));
    let a1 = opt_pair("encoding"@, opt_jmap(a.encoding, |e: UiAccountEncoding| e.wire()));
    let a2 = opt_pair("dataSlice"@, opt_jmap(a.data_slice, |d: DataSliceView| d.wire()));
    let a3 = opt_pair(
        "commitment"@,
        opt_jmap(a.commitment, |c: CommitmentLevel| commitment_config_wire(c)),
    );
    let a4 = opt_pair("minContextSlot"@, opt_jmap(a.min_context_slot, |n: u64| JVal::UInt(n)));
    let g2 = opt_pair("withContext"@, opt_jmap(v.with_context, |b: bool| JVal::Bool(b)));
    let g3 = opt_pair("sortResults"@, opt_jmap(v.sort_results, |b: bool| JVal::Bool(b)));
    let g4 = opt_pair("limit"@, opt_jmap(v.limit, |n: u64| JVal::UInt(n)));
    let g5 = opt_pair("paginationKey"@, opt_jmap(v.pagination_key, |s: Seq<char>| JVal::Str(s)));
    let g6 = opt_pair("changedSinceSlot"@, opt_jmap(v.changed_since_slot, |n: u64| JVal::UInt(n)));
    lemma_obj_get_opt_pair("filters"@, opt_filters_wire(v.filters));
    lemma_obj_get_opt_pair("encoding"@, opt_jmap(a.encoding, |e: UiAccountEncoding| e.wire()));
    lemma_obj_get_opt_pair("dataSlice"@, opt_jmap(a.data_slice, |d: DataSliceView| d.wire()));
    lemma_obj_get_opt_pair(
        "commitment"@,
        opt_jmap(a.commitment, |c: CommitmentLevel| commitment_config_wire(c)),
    );
    lemma_obj_get_opt_pair(
        "minContextSlot"@,
        opt_jmap(a.min_context_slot, |n: u64| JVal::UInt(n)),
    );
    lemma_obj_get_opt_pair("withContext"@, opt_jmap(v.with_context, |b: bool| JVal::Bool(b)));
    lemma_obj_get_opt_pair("sortResults"@, opt_jmap(v.sort_results, |b: bool| JVal::Bool(b)));
    lemma_obj_get_opt_pair("limit"@, opt_jmap(v.limit, |n: u64| JVal::UInt(n)));
    lemma_obj_get_opt_pair(
        "paginationKey"@,
        opt_jmap(v.pagination_key, |s: Seq<char>| JVal::Str(s)),
    );
    lemma_obj_get_opt_pair(
        "changedSinceSlot"@,
        opt_jmap(v.changed_since_slot, |n: u64| JVal::UInt(n)),
    );
    lemma_obj_get_concat_all(a1, a2);
    lemma_obj_get_concat_all(a1 + a2, a3);
    lemma_obj_get_concat_all(a1 + a2 + a3, a4);
    lemma_obj_get_concat_all(g1, a.wire_pairs());
    lemma_obj_get_concat_all(g1 + a.wire_pairs(), g2);
    lemma_obj_get_concat_all(g1 + a.wire_pairs() + g2, g3);
    lemma_obj_get_concat_all(g1 + a.wire_pairs() + g2 + g3, g4);
    lemma_obj_get_concat_all(g1 + a.wire_pairs() + g2 + g3 + g4, g5);
    lemma_obj_get_concat_all(g1 + a.wire_pairs() + g2 + g3 + g4 + g5, g6);
}

/// Every paged program-accounts configuration parses back from its own
/// wire form, the opaque pagination cursor echoed through unchanged.
#[verifier::rlimit(60)]
pub proof fn lemma_program_accounts_v2_config_round_trip(v: ProgramAccountsV2ConfigView)
    ensures
        ProgramAccountsV2ConfigView::parse(v.wire()) == Ok::<
            ProgramAccountsV2ConfigView,
            DecodeError,
        >(v),
{
    lemma_program_accounts_v2_config_wire_members(v);
    match v.filters {
        Some(fs) => {
            assert forall|i: int| 0 <= i < fs.len() implies #[trigger] filter_of_jval(
                fs[i].wire(),
            ) == Ok::<FilterTypeView, DecodeError>(fs[i]) by {
                lemma_filter_type_round_trip(fs[i]);
            }
            lemma_parse_seq_round_trip(
                fs,
                |f: FilterTypeView| f.wire(),
                |jv: JVal| filter_of_jval(jv),
            );
        },
        None => {},
    }
    match v.account_config.encoding {
        Some(e) => crate::primitives::lemma_account_encoding_round_trip(e),
        None => {},
    }
    match v.account_config.data_slice {
        Some(d) => lemma_data_slice_round_trip(d),
        None => {},
    }
    match v.account_config.commitment {
        Some(c) => {
            lemma_obj_get_req_pair("commitment"@, c.wire());
            crate::primitives::lemma_commitment_round_trip(c);
        },
        None => {},
    }
}

impl RpcAccountInfoConfig {
    /// Encodes the configuration to its compact binary form.
    pub fn to_bytes(&self) -> (out: Vec<u8>)
        ensures
            out@ == crate::codec::enc_jval(self@.wire()),
    {
        crate::codec::encode(&self.to_json())
    }

    /// Decodes a configuration from its compact binary form; malformed bytes
    /// and bytes not matching the schema are decode errors.
    pub fn from_bytes(bytes: &Vec<u8>) -> (r: Result<Self, DecodeError>)
        ensures
            match crate::codec::decode_spec(bytes@) {
                Ok(j) => res_agrees(r, AccountInfoConfigView::parse(j)),
                Err(e) => r == Err::<Self, DecodeError>(e),
            },
    {
        match crate::codec::decode(bytes) {
            Ok(j) => Self::from_json(&j),
            Err(e) => Err(e),
        }
    }
}

impl RpcProgramAccountsConfig {
    /// Encodes the configuration to its compact binary form.
    pub fn to_bytes(&self) -> (out: Vec<u8>)
        ensures
            out@ == crate::codec::enc_jval(self@.wire()),
    {
        crate::codec::encode(&self.to_json())
    }

    /// Decodes a configuration from its compact binary form; malformed bytes
    /// and bytes not matching the schema are decode errors.
    pub fn from_bytes(bytes: &Vec<u8>) -> (r: Result<Self, DecodeError>)
        ensures
            match crate::codec::decode_spec(bytes@) {
                Ok(j) => res_agrees(r, ProgramAccountsConfigView::parse(j)),
                Err(e) => r == Err::<Self, DecodeError>(e),
            },
    {
        match crate::codec::decode(bytes) {
            Ok(j) => Self::from_json(&j),
            Err(e) => Err(e),
        }
    }
}

impl RpcProgramAccountsV2Config {
    /// Encodes the configuration to its compact binary form.
    pub fn to_bytes(&self) -> (out: Vec<u8>)
        ensures
            out@ == crate::codec::enc_jval(self@.wire()),
    {
        crate::codec::encode(&self.to_json())
    }

    /// Decodes a configuration from its compact binary form; malformed bytes
    /// and bytes not matching the schema are decode errors.
    pub fn from_bytes(bytes: &Vec<u8>) -> (r: Result<Self, DecodeError>)
        ensures
            match crate::codec::decode_spec(bytes@) {
                Ok(j) => res_agrees(r, ProgramAccountsV2ConfigView::parse(j)),
                Err(e) => r == Err::<Self, DecodeError>(e),
            },
    {
        match crate::codec::decode(bytes) {
            Ok(j) => Self::from_json(&j),
            Err(e) => Err(e),
        }
    }
}

/// The binary round trip of a account-info configuration: encoding its wire tree and
/// decoding the bytes yields the tree back, and parsing the tree yields
/// an equal value. The one premise is the machine limit that every count
/// in the tree fits the codec's fixed-width count field, which holds of
/// every value held in memory.
pub proof fn lemma_account_info_config_binary_round_trip(v: AccountInfoConfigView)
    requires
        crate::codec::jval_wf(v.wire()),
    ensures
        crate::codec::decode_spec(crate::codec::enc_jval(v.wire())) == Ok::<JVal, DecodeError>(
            v.wire(),
        ),
        AccountInfoConfigView::parse(v.wire()) == Ok::<AccountInfoConfigView, DecodeError>(v),
{
    crate::codec::lemma_codec_round_trip(v.wire());
    lemma_account_info_config_round_trip(v);
}

/// The binary round trip of a program-accounts configuration: encoding its wire tree and
/// decoding the bytes yields the tree back, and parsing the tree yields
/// an equal value. The one premise is the machine limit that every count
/// in the tree fits the codec's fixed-width count field, which holds of
/// every value held in memory.
pub proof fn lemma_program_accounts_config_binary_round_trip(v: ProgramAccountsConfigView)
    requires
        crate::codec::jval_wf(v.wire()),
    ensures
        crate::codec::decode_spec(crate::codec::enc_jval(v.wire())) == Ok::<JVal, DecodeError>(
            v.wire(),
        ),
        ProgramAccountsConfigView::parse(v.wire()) == Ok::<ProgramAccountsConfigView, DecodeError>(v),
{
    crate::codec::lemma_codec_round_trip(v.wire());
    lemma_program_accounts_config_round_trip(v);
}

/// The binary round trip of a paged program-accounts configuration: encoding its wire tree and
/// decoding the bytes yields the tree back, and parsing the tree yields
/// an equal value. The one premise is the machine limit that every count
/// in the tree fits the codec's fixed-width count field, which holds of
/// every value held in memory.
pub proof fn lemma_program_accounts_v2_config_binary_round_trip(v: ProgramAccountsV2ConfigView)
    requires
        crate::codec::jval_wf(v.wire()),
    ensures
        crate::codec::decode_spec(crate::codec::enc_jval(v.wire())) == Ok::<JVal, DecodeError>(
            v.wire(),
        ),
        ProgramAccountsV2ConfigView::parse(v.wire()) == Ok::<ProgramAccountsV2ConfigView, DecodeError>(v),
{
    crate::codec::lemma_codec_round_trip(v.wire());
    lemma_program_accounts_v2_config_round_trip(v);
}

impl RpcAccountInfoConfig {
    /// A deterministic human-readable rendering: the wire JSON text.
    /// It carries no contract beyond being determined by the field values.
    pub fn json_text(&self) -> (r: String)
        ensures
            r@ == crate::text::text_of(self@.wire()),
    {
        crate::text::render(&self.to_json())
    }
}

impl RpcProgramAccountsConfig {
    /// A deterministic human-readable rendering: the wire JSON text.
    /// It carries no contract beyond being determined by the field values.
    pub fn json_text(&self) -> (r: String)
        ensures
            r@ == crate::text::text_of(self@.wire()),
    {
        crate::text::render(&self.to_json())
    }
}

impl RpcProgramAccountsV2Config {
    /// A deterministic human-readable rendering: the wire JSON text.
    /// It carries no contract beyond being determined by the field values.
    pub fn json_text(&self) -> (r: String)
        ensures
            r@ == crate::text::text_of(self@.wire()),
    {
        crate::text::render(&self.to_json())
    }
}

} // verus!
