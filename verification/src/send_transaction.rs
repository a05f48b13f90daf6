//! Configuration model for sending a transaction: preflight options,
//! retry bounds, and the transaction encoding, which is forced to base64
//! by construction.

use vstd::prelude::*;
use crate::primitives::{CommitmentLevel, UiTransactionEncoding};
use crate::json::{
    DecodeError, Json, JVal, jpairs_of, obj_get, opt_jmap, opt_pair, req_pair, parse_opt_u64,
    parse_opt_usize, parse_opt_sub, parse_bool_or_false, push_opt_pair, push_pair, get_opt_u64,
    get_opt_usize, get_bool_or_false, json_obj_get, lemma_obj_get_opt_pair, lemma_obj_get_req_pair,
    lemma_obj_get_concat_all, opt_u64_eq, opt_usize_eq, res_agrees,
};

verus! {

/// Model of a send-transaction configuration.
pub ghost struct SendTransactionConfigView {
    pub skip_preflight: bool,
    pub preflight_commitment: Option<CommitmentLevel>,
    pub encoding: Option<UiTransactionEncoding>,
    pub max_retries: Option<usize>,
    pub min_context_slot: Option<u64>,
}

impl SendTransactionConfigView {
    /// The canonical default: preflight checks on, no commitment or retry
    /// bound, and the transaction encoding forced to base64.
    pub open spec fn default_view() -> SendTransactionConfigView {
        SendTransactionConfigView {
            skip_preflight: false,
            preflight_commitment: None,
            encoding: Some(UiTransactionEncoding::Base64),
            max_retries: None,
            min_context_slot: None,
        }
    }

    /// The wire members, in canonical order under their camelCase names;
    /// `skipPreflight` is always present, absent optional fields are
    /// omitted.
    pub open spec fn wire_pairs(self) -> Seq<(Seq<char>, JVal)> {
        req_pair("skipPreflight"@, JVal::Bool(self.skip_preflight)) + opt_pair(
            "preflightCommitment"@,
            opt_jmap(self.preflight_commitment, |c: CommitmentLevel| c.wire()),
        ) + opt_pair("encoding"@, opt_jmap(self.encoding, |e: UiTransactionEncoding| e.wire()))
            + opt_pair("maxRetries"@, opt_jmap(self.max_retries, |n: usize| JVal::UInt(n as u64)))
            + opt_pair("minContextSlot"@, opt_jmap(self.min_context_slot, |n: u64| JVal::UInt(n)))
    }

    pub open spec fn wire(self) -> JVal {
        JVal::Obj(self.wire_pairs())
    }

    pub open spec fn parse(v: JVal) -> Result<SendTransactionConfigView, DecodeError> {
        match v {
            JVal::Obj(ps) => {
                let skip_preflight = parse_bool_or_false(ps, "skipPreflight"@);
                let preflight_commitment = parse_opt_sub(
                    ps,
                    "preflightCommitment"@,
                    |jv: JVal| CommitmentLevel::parse(jv),
                );
                let encoding = parse_opt_sub(
                    ps,
                    "encoding"@,
                    |jv: JVal| UiTransactionEncoding::parse(jv),
                );
                let max_retries = parse_opt_usize(ps, "maxRetries"@);
                let min_context_slot = parse_opt_u64(ps, "minContextSlot"@);
                if skip_preflight is Err {
                    Err(skip_preflight->Err_0)
                } else if preflight_commitment is Err {
                    Err(preflight_commitment->Err_0)
                } else if encoding is Err {
                    Err(encoding->Err_0)
                } else if max_retries is Err {
                    Err(max_retries->Err_0)
                } else if min_context_slot is Err {
                    Err(min_context_slot->Err_0)
                } else {
                    Ok(
                        SendTransactionConfigView {
                            skip_preflight: skip_preflight->Ok_0,
                            preflight_commitment: preflight_commitment->Ok_0,
                            encoding: encoding->Ok_0,
                            max_retries: max_retries->Ok_0,
                            min_context_slot: min_context_slot->Ok_0,
                        },
                    )
                }
            },
            _ => Err(DecodeError::WrongType),
        }
    }
}

/// Configuration object for sending a transaction. The constructor does
/// not take an encoding: the transaction encoding is forced to base64.
#[derive(Debug, Clone, Copy)]
pub struct RpcSendTransactionConfig {
    skip_preflight: bool,
    preflight_commitment: Option<CommitmentLevel>,
    encoding: Option<UiTransactionEncoding>,
    max_retries: Option<usize>,
    min_context_slot: Option<u64>,
}

impl View for RpcSendTransactionConfig {
    type V = SendTransactionConfigView;

    closed spec fn view(&self) -> SendTransactionConfigView {
        SendTransactionConfigView {
            skip_preflight: self.skip_preflight,
            preflight_commitment: self.preflight_commitment,
            encoding: self.encoding,
            max_retries: self.max_retries,
            min_context_slot: self.min_context_slot,
        }
    }
}

impl RpcSendTransactionConfig {
    /// Builds the configuration; the transaction encoding is not a
    /// parameter and is always base64.
    pub fn new(
        skip_preflight: bool,
        preflight_commitment: Option<CommitmentLevel>,
        max_retries: Option<usize>,
        min_context_slot: Option<u64>,
    ) -> (r: Self)
        ensures
            r@ == (SendTransactionConfigView {
                skip_preflight,
                preflight_commitment,
                encoding: Some(UiTransactionEncoding::Base64),
                max_retries,
                min_context_slot,
            }),
    {
        RpcSendTransactionConfig {
            skip_preflight,
            preflight_commitment,
            encoding: Some(UiTransactionEncoding::Base64),
            max_retries,
            min_context_slot,
        }
    }

    /// The canonical default instance: preflight checks on and the
    /// encoding forced to base64, even though no field was supplied.
    pub fn new_default() -> (r: Self)
        ensures
            r@ == SendTransactionConfigView::default_view(),
    {
        Self::new(false, None, None, None)
    }

    pub fn skip_preflight(&self) -> (r: bool)
        ensures
            r == self@.skip_preflight,
    {
        self.skip_preflight
    }

    pub fn preflight_commitment(&self) -> (r: Option<CommitmentLevel>)
        ensures
            r == self@.preflight_commitment,
    {
        self.preflight_commitment
    }

    pub fn encoding(&self) -> (r: Option<UiTransactionEncoding>)
        ensures
            r == self@.encoding,
    {
        self.encoding
    }

    pub fn max_retries(&self) -> (r: Option<usize>)
        ensures
            r == self@.max_retries,
    {
        self.max_retries
    }

    pub fn min_context_slot(&self) -> (r: Option<u64>)
        ensures
            r == self@.min_context_slot,
    {
        self.min_context_slot
    }

    /// Renders the configuration to its wire tree; `skipPreflight` is
    /// always present, absent optional fields are omitted.
    pub fn to_json(&self) -> (j: Json)
        ensures
            j@ == self@.wire(),
    {
        let mut pairs: Vec<(String, Json)> = Vec::new();
        let ghost g1 = req_pair("skipPreflight"@, JVal::Bool(self@.skip_preflight));
        push_pair(&mut pairs, "skipPreflight", Json::Bool(self.skip_preflight));
        proof {
            assert(jpairs_of(pairs@) =~= g1);
        }
        push_opt_pair(
            &mut pairs,
            "preflightCommitment",
            match &self.preflight_commitment {
                Some(c) => Some(c.to_json()),
                None => None,
            },
        );
        push_opt_pair(
            &mut pairs,
            "encoding",
            match &self.encoding {
                Some(e) => Some(e.to_json()),
                None => None,
            },
        );
        push_opt_pair(
            &mut pairs,
            "maxRetries",
            match self.max_retries {
                Some(n) => Some(Json::UInt(n as u64)),
                None => None,
            },
        );
        push_opt_pair(
            &mut pairs,
            "minContextSlot",
            match self.min_context_slot {
                Some(n) => Some(Json::UInt(n)),
                None => None,
            },
        );
        proof {
            assert(jpairs_of(pairs@) == self@.wire_pairs());
        }
        Json::Obj(pairs)
    }

    /// Parses the configuration back from a wire tree; an absent
    /// `skipPreflight` reads as its documented default `false`.
    pub fn from_json(j: &Json) -> (r: Result<Self, DecodeError>)
        ensures
            res_agrees(r, SendTransactionConfigView::parse(j@)),
    {
        match j {
            Json::Obj(pairs) => {
                let skip_preflight = match get_bool_or_false(pairs, "skipPreflight") {
                    Ok(v) => v,
                    Err(e) => return Err(e),
                };
                let preflight_commitment = match json_obj_get(pairs, "preflightCommitment") {
                    None => None,
                    Some(sub) => match CommitmentLevel::from_json(sub) {
                        Ok(v) => Some(v),
                        Err(e) => return Err(e),
                    },
                };
                let encoding = match json_obj_get(pairs, "encoding") {
                    None => None,
                    Some(sub) => match UiTransactionEncoding::from_json(sub) {
                        Ok(v) => Some(v),
                        Err(e) => return Err(e),
                    },
                };
                let max_retries = match get_opt_usize(pairs, "maxRetries") {
                    Ok(v) => v,
                    Err(e) => return Err(e),
                };
                let min_context_slot = match get_opt_u64(pairs, "minContextSlot") {
                    Ok(v) => v,
                    Err(e) => return Err(e),
                };
                Ok(
                    RpcSendTransactionConfig {
                        skip_preflight,
                        preflight_commitment,
                        encoding,
                        max_retries,
                        min_context_slot,
                    },
                )
            },
            _ => Err(DecodeError::WrongType),
        }
    }
}

impl Default for RpcSendTransactionConfig {
    fn default() -> (r: Self)
        ensures
            r@ == SendTransactionConfigView::default_view(),
    {
        Self::new_default()
    }
}

/// Equality of optional commitment levels.
fn opt_commitment_level_eq(a: &Option<CommitmentLevel>, b: &Option<CommitmentLevel>) -> (r: bool)
    ensures
        r == (a == b),
{
    match (a, b) {
        (Some(x), Some(y)) => x == y,
        (None, None) => true,
        _ => false,
    }
}

/// Equality of optional transaction encodings.
fn opt_encoding_eq(a: &Option<UiTransactionEncoding>, b: &Option<UiTransactionEncoding>) -> (r:
    bool)
    ensures
        r == (a == b),
{
    match (a, b) {
        (Some(x), Some(y)) => x == y,
        (None, None) => true,
        _ => false,
    }
}

impl PartialEq for RpcSendTransactionConfig {
    fn eq(&self, other: &Self) -> (r: bool) {
        self.skip_preflight == other.skip_preflight && opt_commitment_level_eq(
            &self.preflight_commitment,
            &other.preflight_commitment,
        ) && opt_encoding_eq(&self.encoding, &other.encoding) && opt_usize_eq(
            &self.max_retries,
            &other.max_retries,
        ) && opt_u64_eq(&self.min_context_slot, &other.min_context_slot)
    }
}

impl Eq for RpcSendTransactionConfig {

}

impl vstd::std_specs::cmp::PartialEqSpecImpl for RpcSendTransactionConfig {
    open spec fn obeys_eq_spec() -> bool {
        true
    }

    open spec fn eq_spec(&self, other: &Self) -> bool {
        self@ == other@
    }
}

/// Equality of send-transaction configurations is structural over every
/// field.
pub proof fn lemma_send_transaction_config_eq_is_structural(
    a: SendTransactionConfigView,
    b: SendTransactionConfigView,
)
    ensures
        (a == b) <==> (a.skip_preflight == b.skip_preflight && a.preflight_commitment
            == b.preflight_commitment && a.encoding == b.encoding && a.max_retries == b.max_retries
            && a.min_context_slot == b.min_context_slot),
{
}

/// The wire form of a send-transaction configuration holds exactly the
/// present fields, each under its documented camelCase name;
/// `skipPreflight` is always present.
pub proof fn lemma_send_transaction_config_wire_members(v: SendTransactionConfigView)
    ensures
        obj_get(v.wire_pairs(), "skipPreflight"@) == Some(JVal::Bool(v.skip_preflight)),
        obj_get(v.wire_pairs(), "preflightCommitment"@) == opt_jmap(
            v.preflight_commitment,
            |c: CommitmentLevel| c.wire(),
        ),
        obj_get(v.wire_pairs(), "encoding"@) == opt_jmap(
            v.encoding,
            |e: UiTransactionEncoding| e.wire(),
        ),
        obj_get(v.wire_pairs(), "maxRetries"@) == opt_jmap(
            v.max_retries,
            |n: usize| JVal::UInt(n as u64),
        ),
        obj_get(v.wire_pairs(), "minContextSlot"@) == opt_jmap(
            v.min_context_slot,
            |n: u64| JVal::UInt(n),
        ),
{
    reveal_strlit("skipPreflight");
    reveal_strlit("preflightCommitment");
    reveal_strlit("encoding");
    reveal_strlit("maxRetries");
    reveal_strlit("minContextSlot");
    assert("preflightCommitment"@.len() != "skipPreflight"@.len());
    assert("encoding"@.len() != "skipPreflight"@.len());
    assert("encoding"@.len() != "preflightCommitment"@.len());
    assert("maxRetries"@.len() != "skipPreflight"@.len());
    assert("maxRetries"@.len() != "preflightCommitment"@.len());
    assert("maxRetries"@.len() != "encoding"@.len());
    assert("minContextSlot"@.len() != "skipPreflight"@.len());
    assert("minContextSlot"@.len() != "preflightCommitment"@.len());
    assert("minContextSlot"@.len() != "encoding"@.len());
    assert("minContextSlot"@.len() != "maxRetries"@.len());
    let g1 = req_pair("skipPreflight"@, JVal::Bool(v.skip_preflight));
    let g2 = opt_pair(
        "preflightCommitment"@,
        opt_jmap(v.preflight_commitment, |c: CommitmentLevel| c.wire()),
    );
    let g3 = opt_pair("encoding"@, opt_jmap(v.encoding, |e: UiTransactionEncoding| e.wire()));
    let g4 = opt_pair("maxRetries"@, opt_jmap(v.max_retries, |n: usize| JVal::UInt(n as u64)));
    let g5 = opt_pair("minContextSlot"@, opt_jmap(v.min_context_slot, |n: u64| JVal::UInt(n)));
    lemma_obj_get_req_pair("skipPreflight"@, JVal::Bool(v.skip_preflight));
    lemma_obj_get_opt_pair(
        "preflightCommitment"@,
        opt_jmap(v.preflight_commitment, |c: CommitmentLevel| c.wire()),
    );
    lemma_obj_get_opt_pair("encoding"@, opt_jmap(v.encoding, |e: UiTransactionEncoding| e.wire()));
    lemma_obj_get_opt_pair(
        "maxRetries"@,
        opt_jmap(v.max_retries, |n: usize| JVal::UInt(n as u64)),
    );
    lemma_obj_get_opt_pair(
        "minContextSlot"@,
        opt_jmap(v.min_context_slot, |n: u64| JVal::UInt(n)),
    );
    lemma_obj_get_concat_all(g1, g2);
    lemma_obj_get_concat_all(g1 + g2, g3);
    lemma_obj_get_concat_all(g1 + g2 + g3, g4);
    lemma_obj_get_concat_all(g1 + g2 + g3 + g4, g5);
}

/// Every send-transaction configuration parses back from its own wire
/// form, the forced base64 encoding included.
pub proof fn lemma_send_transaction_config_round_trip(v: SendTransactionConfigView)
    ensures
        SendTransactionConfigView::parse(v.wire()) == Ok::<SendTransactionConfigView, DecodeError>(
            v,
        ),
{
    lemma_send_transaction_config_wire_members(v);
    match v.preflight_commitment {
        Some(c) => crate::primitives::lemma_commitment_round_trip(c),
        None => {},
    }
    match v.encoding {
        Some(e) => crate::primitives::lemma_transaction_encoding_round_trip(e),
        None => {},
    }
}

impl RpcSendTransactionConfig {
    /// Encodes the configuration to its compact binary form.
    pub fn to_bytes(&self) -> (out: Vec<u8>)
        ensures
            out@ == crate::codec::enc_jval(self@.wire()),
    {
        crate::codec::encode(&self.to_json())
    }

    /// Decodes a configuration from its compact binary form; malformed bytes
    /// and bytes not matching the schema are decode errors.
    pub fn from_bytes(bytes: &Vec<u8>) -> (r: Result<Self, DecodeError>)
        ensures
            match crate::codec::decode_spec(bytes@) {
                Ok(j) => res_agrees(r, SendTransactionConfigView::parse(j)),
                Err(e) => r == Err::<Self, DecodeError>(e),
            },
    {
        match crate::codec::decode(bytes) {
            Ok(j) => Self::from_json(&j),
            Err(e) => Err(e),
        }
    }
}

/// The binary round trip of a send-transaction configuration: encoding its wire tree and
/// decoding the bytes yields the tree back, and parsing the tree yields
/// an equal value. The one premise is the machine limit that every count
/// in the tree fits the codec's fixed-width count field, which holds of
/// every value held in memory.
pub proof fn lemma_send_transaction_config_binary_round_trip(v: SendTransactionConfigView)
    requires
        crate::codec::jval_wf(v.wire()),
    ensures
        crate::codec::decode_spec(crate::codec::enc_jval(v.wire())) == Ok::<JVal, DecodeError>(
            v.wire(),
        ),
        SendTransactionConfigView::parse(v.wire()) == Ok::<SendTransactionConfigView, DecodeError>(v),
{
    crate::codec::lemma_codec_round_trip(v.wire());
    lemma_send_transaction_config_round_trip(v);
}

impl RpcSendTransactionConfig {
    /// A deterministic human-readable rendering: the wire JSON text.
    /// It carries no contract beyond being determined by the field values.
    pub fn json_text(&self) -> (r: String)
        ensures
            r@ == crate::text::text_of(self@.wire()),
    {
        crate::text::render(&self.to_json())
    }
}

} // verus!
