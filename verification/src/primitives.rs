//! Primitive domain value types: commitment levels, data encodings,
//! transaction detail levels and signatures. Each carries its documented
//! wire literal and a parser that rejects anything outside that set.

use vstd::prelude::*;
use crate::json::{DecodeError, Json, JVal, res_agrees, str_eq};

verus! {

/// Finality tier of a queried ledger state.
#[derive(Debug, Clone, Copy, PartialEq, Eq, Hash, Structural)]
pub enum CommitmentLevel {
    Processed,
    Confirmed,
    Finalized,
}

impl View for CommitmentLevel {
    type V = CommitmentLevel;

    open spec fn view(&self) -> CommitmentLevel {
        *self
    }
}

impl CommitmentLevel {
    /// The documented lowercase wire literal of this level.
    pub open spec fn wire_str(self) -> Seq<char> {
        match self {
            CommitmentLevel::Processed => "processed"@,
            CommitmentLevel::Confirmed => "confirmed"@,
            CommitmentLevel::Finalized => "finalized"@,
        }
    }

    pub open spec fn wire(self) -> JVal {
        JVal::Str(self.wire_str())
    }

    /// A literal outside the documented set is surfaced as a decode error,
    /// never coerced.
    pub open spec fn parse_str(s: Seq<char>) -> Result<CommitmentLevel, DecodeError> {
        if s == "processed"@ {
            Ok(CommitmentLevel::Processed)
        } else if s == "confirmed"@ {
            Ok(CommitmentLevel::Confirmed)
        } else if s == "finalized"@ {
            Ok(CommitmentLevel::Finalized)
        } else {
            Err(DecodeError::InvalidCommitment)
        }
    }

    pub open spec fn parse(v: JVal) -> Result<CommitmentLevel, DecodeError> {
        match v {
            JVal::Str(s) => Self::parse_str(s),
            _ => Err(DecodeError::WrongType),
        }
    }

    pub fn wire_name(&self) -> (r: &'static str)
        ensures
            r@ == self.wire_str(),
    {
        match self {
            CommitmentLevel::Processed => "processed",
            CommitmentLevel::Confirmed => "confirmed",
            CommitmentLevel::Finalized => "finalized",
        }
    }

    pub fn to_json(&self) -> (j: Json)
        ensures
            j@ == self.wire(),
    {
        Json::Str(self.wire_name().to_owned())
    }

    pub fn parse_wire(s: &str) -> (r: Result<CommitmentLevel, DecodeError>)
        ensures
            r == Self::parse_str(s@),
    {
        if str_eq(s, "processed") {
            Ok(CommitmentLevel::Processed)
        } else if str_eq(s, "confirmed") {
            Ok(CommitmentLevel::Confirmed)
        } else if str_eq(s, "finalized") {
            Ok(CommitmentLevel::Finalized)
        } else {
            Err(DecodeError::InvalidCommitment)
        }
    }

    pub fn from_json(j: &Json) -> (r: Result<CommitmentLevel, DecodeError>)
        ensures
            res_agrees(r, Self::parse(j@)),
    {
        match j {
            Json::Str(s) => Self::parse_wire(s.as_str()),
            _ => Err(DecodeError::WrongType),
        }
    }
}

/// Every commitment level parses back from its own wire literal.
pub proof fn lemma_commitment_round_trip(v: CommitmentLevel)
    ensures
        CommitmentLevel::parse(v.wire()) == Ok::<CommitmentLevel, DecodeError>(v),
{
    reveal_strlit("processed");
    reveal_strlit("confirmed");
    reveal_strlit("finalized");
    assert("confirmed"@[0] != "processed"@[0]);
    assert("finalized"@[0] != "processed"@[0]);
    assert("finalized"@[0] != "confirmed"@[0]);
}

/// Encoding of transaction data on the wire.
#[derive(Debug, Clone, Copy, PartialEq, Eq, Hash, Structural)]
pub enum UiTransactionEncoding {
    Binary,
    Base64,
    Base58,
    Json,
    JsonParsed,
}

impl View for UiTransactionEncoding {
    type V = UiTransactionEncoding;

    open spec fn view(&self) -> UiTransactionEncoding {
        *self
    }
}

impl UiTransactionEncoding {
    /// The documented camelCase wire literal of this encoding.
    pub open spec fn wire_str(self) -> Seq<char> {
        match self {
            UiTransactionEncoding::Binary => "binary"@,
            UiTransactionEncoding::Base64 => "base64"@,
            UiTransactionEncoding::Base58 => "base58"@,
            UiTransactionEncoding::Json => "json"@,
            UiTransactionEncoding::JsonParsed => "jsonParsed"@,
        }
    }

    pub open spec fn wire(self) -> JVal {
        JVal::Str(self.wire_str())
    }

    pub open spec fn parse_str(s: Seq<char>) -> Result<UiTransactionEncoding, DecodeError> {
        if s == "binary"@ {
            Ok(UiTransactionEncoding::Binary)
        } else if s == "base64"@ {
            Ok(UiTransactionEncoding::Base64)
        } else if s == "base58"@ {
            Ok(UiTransactionEncoding::Base58)
        } else if s == "json"@ {
            Ok(UiTransactionEncoding::Json)
        } else if s == "jsonParsed"@ {
            Ok(UiTransactionEncoding::JsonParsed)
        } else {
            Err(DecodeError::UnknownVariant)
        }
    }

    pub open spec fn parse(v: JVal) -> Result<UiTransactionEncoding, DecodeError> {
        match v {
            JVal::Str(s) => Self::parse_str(s),
            _ => Err(DecodeError::WrongType),
        }
    }

    pub fn wire_name(&self) -> (r: &'static str)
        ensures
            r@ == self.wire_str(),
    {
        match self {
            UiTransactionEncoding::Binary => "binary",
            UiTransactionEncoding::Base64 => "base64",
            UiTransactionEncoding::Base58 => "base58",
            UiTransactionEncoding::Json => "json",
            UiTransactionEncoding::JsonParsed => "jsonParsed",
        }
    }

    pub fn to_json(&self) -> (j: Json)
        ensures
            j@ == self.wire(),
    {
        Json::Str(self.wire_name().to_owned())
    }

    pub fn parse_wire(s: &str) -> (r: Result<UiTransactionEncoding, DecodeError>)
        ensures
            r == Self::parse_str(s@),
    {
        if str_eq(s, "binary") {
            Ok(UiTransactionEncoding::Binary)
        } else if str_eq(s, "base64") {
            Ok(UiTransactionEncoding::Base64)
        } else if str_eq(s, "base58") {
            Ok(UiTransactionEncoding::Base58)
        } else if str_eq(s, "json") {
            Ok(UiTransactionEncoding::Json)
        } else if str_eq(s, "jsonParsed") {
            Ok(UiTransactionEncoding::JsonParsed)
        } else {
            Err(DecodeError::UnknownVariant)
        }
    }

    pub fn from_json(j: &Json) -> (r: Result<UiTransactionEncoding, DecodeError>)
        ensures
            res_agrees(r, Self::parse(j@)),
    {
        match j {
            Json::Str(s) => Self::parse_wire(s.as_str()),
            _ => Err(DecodeError::WrongType),
        }
    }
}

/// Every transaction encoding parses back from its own wire literal.
pub proof fn lemma_transaction_encoding_round_trip(v: UiTransactionEncoding)
    ensures
        UiTransactionEncoding::parse(v.wire()) == Ok::<UiTransactionEncoding, DecodeError>(v),
{
    reveal_strlit("binary");
    reveal_strlit("base64");
    reveal_strlit("base58");
    reveal_strlit("json");
    reveal_strlit("jsonParsed");
    assert("base64"@[1] != "binary"@[1]);
    assert("base58"@[4] != "base64"@[4]);
    assert("json"@.len() != "binary"@.len());
    assert("jsonParsed"@.len() != "binary"@.len());
    assert("base58"@[1] != "binary"@[1]);
    assert("json"@.len() != "base64"@.len());
    assert("jsonParsed"@.len() != "base64"@.len());
    assert("json"@.len() != "base58"@.len());
    assert("jsonParsed"@.len() != "base58"@.len());
    assert("jsonParsed"@.len() != "json"@.len());
}

/// Encoding of returned account data on the wire.
#[derive(Debug, Clone, Copy, PartialEq, Eq, Hash, Structural)]
pub enum UiAccountEncoding {
    Binary,
    Base58,
    Base64,
    JsonParsed,
    Base64Zstd,
}

impl View for UiAccountEncoding {
    type V = UiAccountEncoding;

    open spec fn view(&self) -> UiAccountEncoding {
        *self
    }
}

impl UiAccountEncoding {
    /// The documented wire literal of this encoding.
    pub open spec fn wire_str(self) -> Seq<char> {
        match self {
            UiAccountEncoding::Binary => "binary"@,
            UiAccountEncoding::Base58 => "base58"@,
            UiAccountEncoding::Base64 => "base64"@,
            UiAccountEncoding::JsonParsed => "jsonParsed"@,
            UiAccountEncoding::Base64Zstd => "base64+zstd"@,
        }
    }

    pub open spec fn wire(self) -> JVal {
        JVal::Str(self.wire_str())
    }

    pub open spec fn parse_str(s: Seq<char>) -> Result<UiAccountEncoding, DecodeError> {
        if s == "binary"@ {
            Ok(UiAccountEncoding::Binary)
        } else if s == "base58"@ {
            Ok(UiAccountEncoding::Base58)
        } else if s == "base64"@ {
            Ok(UiAccountEncoding::Base64)
        } else if s == "jsonParsed"@ {
            Ok(UiAccountEncoding::JsonParsed)
        } else if s == "base64+zstd"@ {
            Ok(UiAccountEncoding::Base64Zstd)
        } else {
            Err(DecodeError::UnknownVariant)
        }
    }

    pub open spec fn parse(v: JVal) -> Result<UiAccountEncoding, DecodeError> {
        match v {
            JVal::Str(s) => Self::parse_str(s),
            _ => Err(DecodeError::WrongType),
        }
    }

    pub fn wire_name(&self) -> (r: &'static str)
        ensures
            r@ == self.wire_str(),
    {
        match self {
            UiAccountEncoding::Binary => "binary",
            UiAccountEncoding::Base58 => "base58",
            UiAccountEncoding::Base64 => "base64",
            UiAccountEncoding::JsonParsed => "jsonParsed",
            UiAccountEncoding::Base64Zstd => "base64+zstd",
        }
    }

    pub fn to_json(&self) -> (j: Json)
        ensures
            j@ == self.wire(),
    {
        Json::Str(self.wire_name().to_owned())
    }

    pub fn parse_wire(s: &str) -> (r: Result<UiAccountEncoding, DecodeError>)
        ensures
            r == Self::parse_str(s@),
    {
        if str_eq(s, "binary") {
            Ok(UiAccountEncoding::Binary)
        } else if str_eq(s, "base58") {
            Ok(UiAccountEncoding::Base58)
        } else if str_eq(s, "base64") {
            Ok(UiAccountEncoding::Base64)
        } else if str_eq(s, "jsonParsed") {
            Ok(UiAccountEncoding::JsonParsed)
        } else if str_eq(s, "base64+zstd") {
            Ok(UiAccountEncoding::Base64Zstd)
        } else {
            Err(DecodeError::UnknownVariant)
        }
    }

    pub fn from_json(j: &Json) -> (r: Result<UiAccountEncoding, DecodeError>)
        ensures
            res_agrees(r, Self::parse(j@)),
    {
        match j {
            Json::Str(s) => Self::parse_wire(s.as_str()),
            _ => Err(DecodeError::WrongType),
        }
    }
}

/// Every account encoding parses back from its own wire literal.
pub proof fn lemma_account_encoding_round_trip(v: UiAccountEncoding)
    ensures
        UiAccountEncoding::parse(v.wire()) == Ok::<UiAccountEncoding, DecodeError>(v),
{
    reveal_strlit("binary");
    reveal_strlit("base64");
    reveal_strlit("base58");
    reveal_strlit("jsonParsed");
    reveal_strlit("base64+zstd");
    assert("base58"@[1] != "binary"@[1]);
    assert("base64"@[1] != "binary"@[1]);
    assert("base64"@[4] != "base58"@[4]);
    assert("jsonParsed"@.len() != "binary"@.len());
    assert("jsonParsed"@.len() != "base58"@.len());
    assert("jsonParsed"@.len() != "base64"@.len());
    assert("base64+zstd"@.len() != "binary"@.len());
    assert("base64+zstd"@.len() != "base58"@.len());
    assert("base64+zstd"@.len() != "base64"@.len());
    assert("base64+zstd"@.len() != "jsonParsed"@.len());
}

/// Level of transaction detail requested from a history query.
#[derive(Debug, Clone, Copy, PartialEq, Eq, Hash, Structural)]
pub enum TransactionDetails {
    Full,
    Signatures,
    None_,
    Accounts,
}

impl View for TransactionDetails {
    type V = TransactionDetails;

    open spec fn view(&self) -> TransactionDetails {
        *self
    }
}

impl TransactionDetails {
    /// The documented lowercase wire literal of this detail level.
    pub open spec fn wire_str(self) -> Seq<char> {
        match self {
            TransactionDetails::Full => "full"@,
            TransactionDetails::Signatures => "signatures"@,
            TransactionDetails::None_ => "none"@,
            TransactionDetails::Accounts => "accounts"@,
        }
    }

    pub open spec fn wire(self) -> JVal {
        JVal::Str(self.wire_str())
    }

    pub open spec fn parse_str(s: Seq<char>) -> Result<TransactionDetails, DecodeError> {
        if s == "full"@ {
            Ok(TransactionDetails::Full)
        } else if s == "signatures"@ {
            Ok(TransactionDetails::Signatures)
        } else if s == "none"@ {
            Ok(TransactionDetails::None_)
        } else if s == "accounts"@ {
            Ok(TransactionDetails::Accounts)
        } else {
            Err(DecodeError::UnknownVariant)
        }
    }

    pub open spec fn parse(v: JVal) -> Result<TransactionDetails, DecodeError> {
        match v {
            JVal::Str(s) => Self::parse_str(s),
            _ => Err(DecodeError::WrongType),
        }
    }

    pub fn wire_name(&self) -> (r: &'static str)
        ensures
            r@ == self.wire_str(),
    {
        match self {
            TransactionDetails::Full => "full",
            TransactionDetails::Signatures => "signatures",
            TransactionDetails::None_ => "none",
            TransactionDetails::Accounts => "accounts",
        }
    }

    pub fn to_json(&self) -> (j: Json)
        ensures
            j@ == self.wire(),
    {
        Json::Str(self.wire_name().to_owned())
    }

    pub fn parse_wire(s: &str) -> (r: Result<TransactionDetails, DecodeError>)
        ensures
            r == Self::parse_str(s@),
    {
        if str_eq(s, "full") {
            Ok(TransactionDetails::Full)
        } else if str_eq(s, "signatures") {
            Ok(TransactionDetails::Signatures)
        } else if str_eq(s, "none") {
            Ok(TransactionDetails::None_)
        } else if str_eq(s, "accounts") {
            Ok(TransactionDetails::Accounts)
        } else {
            Err(DecodeError::UnknownVariant)
        }
    }

    pub fn from_json(j: &Json) -> (r: Result<TransactionDetails, DecodeError>)
        ensures
            res_agrees(r, Self::parse(j@)),
    {
        match j {
            Json::Str(s) => Self::parse_wire(s.as_str()),
            _ => Err(DecodeError::WrongType),
        }
    }
}

/// Every detail level parses back from its own wire literal.
pub proof fn lemma_transaction_details_round_trip(v: TransactionDetails)
    ensures
        TransactionDetails::parse(v.wire()) == Ok::<TransactionDetails, DecodeError>(v),
{
    reveal_strlit("full");
    reveal_strlit("signatures");
    reveal_strlit("none");
    reveal_strlit("accounts");
    assert("signatures"@.len() != "full"@.len());
    assert("none"@[0] != "full"@[0]);
    assert("none"@.len() != "signatures"@.len());
    assert("accounts"@.len() != "full"@.len());
    assert("accounts"@.len() != "signatures"@.len());
    assert("accounts"@.len() != "none"@.len());
}

/// A transaction signature, held in its canonical textual (base-58) form.
///
/// The signature is supplied by a collaborator that validates it; this
/// layer treats it as an opaque serializable scalar whose equality is
/// equality of the canonical text.
#[derive(Debug)]
pub struct Signature {
    text: String,
}

impl View for Signature {
    type V = Seq<char>;

    closed spec fn view(&self) -> Seq<char> {
        self.text@
    }
}

impl Signature {
    pub fn new(text: String) -> (s: Signature)
        ensures
            s@ == text@,
    {
        Signature { text }
    }

    /// The canonical textual form.
    pub fn text(&self) -> (r: &String)
        ensures
            r@ == self@,
    {
        &self.text
    }

    pub open spec fn wire_spec(v: Seq<char>) -> JVal {
        JVal::Str(v)
    }

    pub open spec fn parse(v: JVal) -> Result<Seq<char>, DecodeError> {
        match v {
            JVal::Str(s) => Ok(s),
            _ => Err(DecodeError::WrongType),
        }
    }

    pub fn to_json(&self) -> (j: Json)
        ensures
            j@ == Self::wire_spec(self@),
    {
        Json::Str(self.text.clone())
    }

    pub fn from_json(j: &Json) -> (r: Result<Signature, DecodeError>)
        ensures
            res_agrees(r, Self::parse(j@)),
    {
        match j {
            Json::Str(s) => Ok(Signature { text: s.clone() }),
            _ => Err(DecodeError::WrongType),
        }
    }
}

impl Clone for Signature {
    fn clone(&self) -> (r: Signature)
        ensures
            r@ == self@,
    {
        Signature { text: self.text.clone() }
    }
}

impl PartialEq for Signature {
    fn eq(&self, other: &Signature) -> (r: bool) {
        self.text == other.text
    }
}

impl Eq for Signature {

}

impl vstd::std_specs::cmp::PartialEqSpecImpl for Signature {
    open spec fn obeys_eq_spec() -> bool {
        true
    }

    open spec fn eq_spec(&self, other: &Signature) -> bool {
        self@ == other@
    }
}

/// Every signature parses back from its own wire form.
pub proof fn lemma_signature_round_trip(v: Seq<char>)
    ensures
        Signature::parse(Signature::wire_spec(v)) == Ok::<Seq<char>, DecodeError>(v),
{
}

} // verus!

