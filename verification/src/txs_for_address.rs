//! Configuration model for address-history queries: range filters over
//! slots, block times and signatures, the aggregate filter set, and the
//! query configuration object itself.

use vstd::prelude::*;
use crate::primitives::{CommitmentLevel, Signature, TransactionDetails, UiTransactionEncoding};
use crate::json::{
    DecodeError, Json, JVal, jpairs_of, obj_get, opt_jmap, opt_pair, opt_view, parse_opt_u64,
    push_pair, get_opt_u64, json_obj_get, lemma_obj_get_opt_pair, lemma_obj_get_concat_all,
    opt_u64_eq, opt_u8_eq, opt_string_eq, clone_opt_string, parse_opt_str, parse_opt_sub,
    parse_opt_u8, get_opt_u8, get_opt_string, push_opt_pair, res_agrees, str_eq,
};

verus! {

/// Sort order of returned address-history records.
#[derive(Debug, Clone, Copy, PartialEq, Eq, Hash, Structural)]
pub enum RpcTransactionsForAddressSortOrder {
    Asc,
    Desc,
}

impl View for RpcTransactionsForAddressSortOrder {
    type V = RpcTransactionsForAddressSortOrder;

    open spec fn view(&self) -> RpcTransactionsForAddressSortOrder {
        *self
    }
}

impl RpcTransactionsForAddressSortOrder {
    /// The documented lowercase wire literal of this order.
    pub open spec fn wire_str(self) -> Seq<char> {
        match self {
            RpcTransactionsForAddressSortOrder::Asc => "asc"@,
            RpcTransactionsForAddressSortOrder::Desc => "desc"@,
        }
    }

    pub open spec fn wire(self) -> JVal {
        JVal::Str(self.wire_str())
    }

    pub open spec fn parse_str(s: Seq<char>) -> Result<
        RpcTransactionsForAddressSortOrder,
        DecodeError,
    > {
        if s == "asc"@ {
            Ok(RpcTransactionsForAddressSortOrder::Asc)
        } else if s == "desc"@ {
            Ok(RpcTransactionsForAddressSortOrder::Desc)
        } else {
            Err(DecodeError::UnknownVariant)
        }
    }

    pub open spec fn parse(v: JVal) -> Result<RpcTransactionsForAddressSortOrder, DecodeError> {
        match v {
            JVal::Str(s) => Self::parse_str(s),
            _ => Err(DecodeError::WrongType),
        }
    }

    pub fn wire_name(&self) -> (r: &'static str)
        ensures
            r@ == self.wire_str(),
    {
        match self {
            RpcTransactionsForAddressSortOrder::Asc => "asc",
            RpcTransactionsForAddressSortOrder::Desc => "desc",
        }
    }

    pub fn to_json(&self) -> (j: Json)
        ensures
            j@ == self.wire(),
    {
        Json::Str(self.wire_name().to_owned())
    }

    pub fn parse_wire(s: &str) -> (r: Result<RpcTransactionsForAddressSortOrder, DecodeError>)
        ensures
            r == Self::parse_str(s@),
    {
        if str_eq(s, "asc") {
            Ok(RpcTransactionsForAddressSortOrder::Asc)
        } else if str_eq(s, "desc") {
            Ok(RpcTransactionsForAddressSortOrder::Desc)
        } else {
            Err(DecodeError::UnknownVariant)
        }
    }

    pub fn from_json(j: &Json) -> (r: Result<RpcTransactionsForAddressSortOrder, DecodeError>)
        ensures
            res_agrees(r, Self::parse(j@)),
    {
        match j {
            Json::Str(s) => Self::parse_wire(s.as_str()),
            _ => Err(DecodeError::WrongType),
        }
    }
}

/// Every sort order parses back from its own wire literal.
pub proof fn lemma_sort_order_round_trip(v: RpcTransactionsForAddressSortOrder)
    ensures
        RpcTransactionsForAddressSortOrder::parse(v.wire())
            == Ok::<RpcTransactionsForAddressSortOrder, DecodeError>(v),
{
    reveal_strlit("asc");
    reveal_strlit("desc");
    assert("desc"@.len() != "asc"@.len());
}

/// Transaction status filter for address-history queries.
#[derive(Debug, Clone, Copy, PartialEq, Eq, Hash, Structural)]
pub enum RpcTransactionsForAddressStatus {
    Succeeded,
    Failed,
    Any,
}

impl View for RpcTransactionsForAddressStatus {
    type V = RpcTransactionsForAddressStatus;

    open spec fn view(&self) -> RpcTransactionsForAddressStatus {
        *self
    }
}

impl RpcTransactionsForAddressStatus {
    /// The documented lowercase wire literal of this status filter.
    pub open spec fn wire_str(self) -> Seq<char> {
        match self {
            RpcTransactionsForAddressStatus::Succeeded => "succeeded"@,
            RpcTransactionsForAddressStatus::Failed => "failed"@,
            RpcTransactionsForAddressStatus::Any => "any"@,
        }
    }

    pub open spec fn wire(self) -> JVal {
        JVal::Str(self.wire_str())
    }

    pub open spec fn parse_str(s: Seq<char>) -> Result<
        RpcTransactionsForAddressStatus,
        DecodeError,
    > {
        if s == "succeeded"@ {
            Ok(RpcTransactionsForAddressStatus::Succeeded)
        } else if s == "failed"@ {
            Ok(RpcTransactionsForAddressStatus::Failed)
        } else if s == "any"@ {
            Ok(RpcTransactionsForAddressStatus::Any)
        } else {
            Err(DecodeError::UnknownVariant)
        }
    }

    pub open spec fn parse(v: JVal) -> Result<RpcTransactionsForAddressStatus, DecodeError> {
        match v {
            JVal::Str(s) => Self::parse_str(s),
            _ => Err(DecodeError::WrongType),
        }
    }

    pub fn wire_name(&self) -> (r: &'static str)
        ensures
            r@ == self.wire_str(),
    {
        match self {
            RpcTransactionsForAddressStatus::Succeeded => "succeeded",
            RpcTransactionsForAddressStatus::Failed => "failed",
            RpcTransactionsForAddressStatus::Any => "any",
        }
    }

    pub fn to_json(&self) -> (j: Json)
        ensures
            j@ == self.wire(),
    {
        Json::Str(self.wire_name().to_owned())
    }

    pub fn parse_wire(s: &str) -> (r: Result<RpcTransactionsForAddressStatus, DecodeError>)
        ensures
            r == Self::parse_str(s@),
    {
        if str_eq(s, "succeeded") {
            Ok(RpcTransactionsForAddressStatus::Succeeded)
        } else if str_eq(s, "failed") {
            Ok(RpcTransactionsForAddressStatus::Failed)
        } else if str_eq(s, "any") {
            Ok(RpcTransactionsForAddressStatus::Any)
        } else {
            Err(DecodeError::UnknownVariant)
        }
    }

    pub fn from_json(j: &Json) -> (r: Result<RpcTransactionsForAddressStatus, DecodeError>)
        ensures
            res_agrees(r, Self::parse(j@)),
    {
        match j {
            Json::Str(s) => Self::parse_wire(s.as_str()),
            _ => Err(DecodeError::WrongType),
        }
    }
}

/// Every status filter parses back from its own wire literal.
pub proof fn lemma_status_round_trip(v: RpcTransactionsForAddressStatus)
    ensures
        RpcTransactionsForAddressStatus::parse(v.wire())
            == Ok::<RpcTransactionsForAddressStatus, DecodeError>(v),
{
    reveal_strlit("succeeded");
    reveal_strlit("failed");
    reveal_strlit("any");
    assert("failed"@.len() != "succeeded"@.len());
    assert("any"@.len() != "succeeded"@.len());
    assert("any"@.len() != "failed"@.len());
}

/// Token-account filter for address-history queries.
#[derive(Debug, Clone, Copy, PartialEq, Eq, Hash, Structural)]
pub enum RpcTransactionsForAddressTokenAccounts {
    None_,
    BalanceChanged,
    All,
}

impl View for RpcTransactionsForAddressTokenAccounts {
    type V = RpcTransactionsForAddressTokenAccounts;

    open spec fn view(&self) -> RpcTransactionsForAddressTokenAccounts {
        *self
    }
}

impl RpcTransactionsForAddressTokenAccounts {
    /// The documented wire literal of this filter; the `None_` variant
    /// serializes as the literal string `none`.
    pub open spec fn wire_str(self) -> Seq<char> {
        match self {
            RpcTransactionsForAddressTokenAccounts::None_ => "none"@,
            RpcTransactionsForAddressTokenAccounts::BalanceChanged => "balanceChanged"@,
            RpcTransactionsForAddressTokenAccounts::All => "all"@,
        }
    }

    pub open spec fn wire(self) -> JVal {
        JVal::Str(self.wire_str())
    }

    pub open spec fn parse_str(s: Seq<char>) -> Result<
        RpcTransactionsForAddressTokenAccounts,
        DecodeError,
    > {
        if s == "none"@ {
            Ok(RpcTransactionsForAddressTokenAccounts::None_)
        } else if s == "balanceChanged"@ {
            Ok(RpcTransactionsForAddressTokenAccounts::BalanceChanged)
        } else if s == "all"@ {
            Ok(RpcTransactionsForAddressTokenAccounts::All)
        } else {
            Err(DecodeError::UnknownVariant)
        }
    }

    pub open spec fn parse(v: JVal) -> Result<RpcTransactionsForAddressTokenAccounts, DecodeError> {
        match v {
            JVal::Str(s) => Self::parse_str(s),
            _ => Err(DecodeError::WrongType),
        }
    }

    pub fn wire_name(&self) -> (r: &'static str)
        ensures
            r@ == self.wire_str(),
    {
        match self {
            RpcTransactionsForAddressTokenAccounts::None_ => "none",
            RpcTransactionsForAddressTokenAccounts::BalanceChanged => "balanceChanged",
            RpcTransactionsForAddressTokenAccounts::All => "all",
        }
    }

    pub fn to_json(&self) -> (j: Json)
        ensures
            j@ == self.wire(),
    {
        Json::Str(self.wire_name().to_owned())
    }

    pub fn parse_wire(s: &str) -> (r: Result<RpcTransactionsForAddressTokenAccounts, DecodeError>)
        ensures
            r == Self::parse_str(s@),
    {
        if str_eq(s, "none") {
            Ok(RpcTransactionsForAddressTokenAccounts::None_)
        } else if str_eq(s, "balanceChanged") {
            Ok(RpcTransactionsForAddressTokenAccounts::BalanceChanged)
        } else if str_eq(s, "all") {
            Ok(RpcTransactionsForAddressTokenAccounts::All)
        } else {
            Err(DecodeError::UnknownVariant)
        }
    }

    pub fn from_json(j: &Json) -> (r: Result<RpcTransactionsForAddressTokenAccounts, DecodeError>)
        ensures
            res_agrees(r, Self::parse(j@)),
    {
        match j {
            Json::Str(s) => Self::parse_wire(s.as_str()),
            _ => Err(DecodeError::WrongType),
        }
    }
}

/// Every token-account filter parses back from its own wire literal.
pub proof fn lemma_token_accounts_round_trip(v: RpcTransactionsForAddressTokenAccounts)
    ensures
        RpcTransactionsForAddressTokenAccounts::parse(v.wire())
            == Ok::<RpcTransactionsForAddressTokenAccounts, DecodeError>(v),
{
    reveal_strlit("none");
    reveal_strlit("balanceChanged");
    reveal_strlit("all");
    assert("balanceChanged"@.len() != "none"@.len());
    assert("all"@.len() != "none"@.len());
    assert("all"@.len() != "balanceChanged"@.len());
}

/// Model of a slot-range filter.
pub ghost struct SlotRangeView {
    pub gte: Option<u64>,
    pub gt: Option<u64>,
    pub lte: Option<u64>,
    pub lt: Option<u64>,
}

/// Inclusive/exclusive slot-range filter. Every bound is independently
/// optional; no combination is rejected, and an all-absent filter means
/// "no constraint".
#[derive(Debug, Clone, Copy)]
pub struct RpcTransactionsForAddressSlotRange {
    gte: Option<u64>,
    gt: Option<u64>,
    lte: Option<u64>,
    lt: Option<u64>,
}

impl View for RpcTransactionsForAddressSlotRange {
    type V = SlotRangeView;

    closed spec fn view(&self) -> SlotRangeView {
        SlotRangeView { gte: self.gte, gt: self.gt, lte: self.lte, lt: self.lt }
    }
}

impl SlotRangeView {
    /// The wire members, in canonical order; each absent bound is omitted.
    pub open spec fn wire_pairs(self) -> Seq<(Seq<char>, JVal)> {
        opt_pair("gte"@, opt_jmap(self.gte, |n: u64| JVal::UInt(n)))
            + opt_pair("gt"@, opt_jmap(self.gt, |n: u64| JVal::UInt(n)))
            + opt_pair("lte"@, opt_jmap(self.lte, |n: u64| JVal::UInt(n)))
            + opt_pair("lt"@, opt_jmap(self.lt, |n: u64| JVal::UInt(n)))
    }

    pub open spec fn wire(self) -> JVal {
        JVal::Obj(self.wire_pairs())
    }

    pub open spec fn parse(v: JVal) -> Result<SlotRangeView, DecodeError> {
        match v {
            JVal::Obj(ps) => {
                let gte = parse_opt_u64(ps, "gte"@);
                let gt = parse_opt_u64(ps, "gt"@);
                let lte = parse_opt_u64(ps, "lte"@);
                let lt = parse_opt_u64(ps, "lt"@);
                if gte is Err {
                    Err(gte->Err_0)
                } else if gt is Err {
                    Err(gt->Err_0)
                } else if lte is Err {
                    Err(lte->Err_0)
                } else if lt is Err {
                    Err(lt->Err_0)
                } else {
                    Ok(
                        SlotRangeView {
                            gte: gte->Ok_0,
                            gt: gt->Ok_0,
                            lte: lte->Ok_0,
                            lt: lt->Ok_0,
                        },
                    )
                }
            },
            _ => Err(DecodeError::WrongType),
        }
    }
}

impl RpcTransactionsForAddressSlotRange {
    pub fn new(gte: Option<u64>, gt: Option<u64>, lte: Option<u64>, lt: Option<u64>) -> (r: Self)
        ensures
            r@ == (SlotRangeView { gte, gt, lte, lt }),
    {
        RpcTransactionsForAddressSlotRange { gte, gt, lte, lt }
    }

    /// The canonical default instance: every bound absent.
    pub fn new_default() -> (r: Self)
        ensures
            r@ == (SlotRangeView { gte: None, gt: None, lte: None, lt: None }),
    {
        Self::new(None, None, None, None)
    }

    pub fn gte(&self) -> (r: Option<u64>)
        ensures
            r == self@.gte,
    {
        self.gte
    }

    pub fn gt(&self) -> (r: Option<u64>)
        ensures
            r == self@.gt,
    {
        self.gt
    }

    pub fn lte(&self) -> (r: Option<u64>)
        ensures
            r == self@.lte,
    {
        self.lte
    }

    pub fn lt(&self) -> (r: Option<u64>)
        ensures
            r == self@.lt,
    {
        self.lt
    }

    /// Renders the filter to its wire tree, omitting absent bounds.
    pub fn to_json(&self) -> (j: Json)
        ensures
            j@ == self@.wire(),
    {
        let mut pairs: Vec<(String, Json)> = Vec::new();
        let ghost g1 = opt_pair("gte"@, opt_jmap(self@.gte, |n: u64| JVal::UInt(n)));
        let ghost g2 = opt_pair("gt"@, opt_jmap(self@.gt, |n: u64| JVal::UInt(n)));
        let ghost g3 = opt_pair("lte"@, opt_jmap(self@.lte, |n: u64| JVal::UInt(n)));
        let ghost g4 = opt_pair("lt"@, opt_jmap(self@.lt, |n: u64| JVal::UInt(n)));
        if let Some(n) = self.gte {
            push_pair(&mut pairs, "gte", Json::UInt(n));
        }
        proof {
            assert(jpairs_of(pairs@) =~= g1);
        }
        if let Some(n) = self.gt {
            push_pair(&mut pairs, "gt", Json::UInt(n));
        }
        proof {
            assert(jpairs_of(pairs@) =~= g1 + g2);
        }
        if let Some(n) = self.lte {
            push_pair(&mut pairs, "lte", Json::UInt(n));
        }
        proof {
            assert(jpairs_of(pairs@) =~= g1 + g2 + g3);
        }
        if let Some(n) = self.lt {
            push_pair(&mut pairs, "lt", Json::UInt(n));
        }
        proof {
            assert(jpairs_of(pairs@) =~= g1 + g2 + g3 + g4);
        }
        Json::Obj(pairs)
    }

    /// Parses the filter back from a wire tree; a bound of the wrong
    /// structural kind is a decode error.
    pub fn from_json(j: &Json) -> (r: Result<Self, DecodeError>)
        ensures
            res_agrees(r, SlotRangeView::parse(j@)),
    {
        match j {
            Json::Obj(pairs) => {
                let gte = match get_opt_u64(pairs, "gte") {
                    Ok(v) => v,
                    Err(e) => return Err(e),
                };
                let gt = match get_opt_u64(pairs, "gt") {
                    Ok(v) => v,
                    Err(e) => return Err(e),
                };
                let lte = match get_opt_u64(pairs, "lte") {
                    Ok(v) => v,
                    Err(e) => return Err(e),
                };
                let lt = match get_opt_u64(pairs, "lt") {
                    Ok(v) => v,
                    Err(e) => return Err(e),
                };
                Ok(RpcTransactionsForAddressSlotRange { gte, gt, lte, lt })
            },
            _ => Err(DecodeError::WrongType),
        }
    }
}

impl Default for RpcTransactionsForAddressSlotRange {
    fn default() -> (r: Self)
        ensures
            r@ == (SlotRangeView { gte: None, gt: None, lte: None, lt: None }),
    {
        Self::new_default()
    }
}

impl PartialEq for RpcTransactionsForAddressSlotRange {
    fn eq(&self, other: &Self) -> (r: bool) {
        opt_u64_eq(&self.gte, &other.gte) && opt_u64_eq(&self.gt, &other.gt) && opt_u64_eq(
            &self.lte,
            &other.lte,
        ) && opt_u64_eq(&self.lt, &other.lt)
    }
}

impl Eq for RpcTransactionsForAddressSlotRange {

}

impl vstd::std_specs::cmp::PartialEqSpecImpl for RpcTransactionsForAddressSlotRange {
    open spec fn obeys_eq_spec() -> bool {
        true
    }

    open spec fn eq_spec(&self, other: &Self) -> bool {
        self@ == other@
    }
}

/// Equality of slot-range filters is structural over every bound,
/// absence included: identical field values compare equal, and changing
/// any one field breaks equality.
pub proof fn lemma_slot_range_eq_is_structural(a: SlotRangeView, b: SlotRangeView)
    ensures
        (a == b) <==> (a.gte == b.gte && a.gt == b.gt && a.lte == b.lte && a.lt == b.lt),
{
}

/// The wire form of a slot-range filter holds exactly the present bounds,
/// each under its documented name; a default-constructed filter therefore
/// serializes to the empty object.
pub proof fn lemma_slot_range_wire_members(v: SlotRangeView)
    ensures
        obj_get(v.wire_pairs(), "gte"@) == opt_jmap(v.gte, |n: u64| JVal::UInt(n)),
        obj_get(v.wire_pairs(), "gt"@) == opt_jmap(v.gt, |n: u64| JVal::UInt(n)),
        obj_get(v.wire_pairs(), "lte"@) == opt_jmap(v.lte, |n: u64| JVal::UInt(n)),
        obj_get(v.wire_pairs(), "lt"@) == opt_jmap(v.lt, |n: u64| JVal::UInt(n)),
        v.gte is None && v.gt is None && v.lte is None && v.lt is None ==> v.wire_pairs().len()
            == 0,
{
    reveal_strlit("gte");
    reveal_strlit("gt");
    reveal_strlit("lte");
    reveal_strlit("lt");
    assert("gte"@.len() != "gt"@.len());
    assert("gte"@[0] != "lte"@[0]);
    assert("gte"@.len() != "lt"@.len());
    assert("gt"@.len() != "lte"@.len());
    assert("gt"@[0] != "lt"@[0]);
    assert("lte"@.len() != "lt"@.len());
    let g1 = opt_pair("gte"@, opt_jmap(v.gte, |n: u64| JVal::UInt(n)));
    let g2 = opt_pair("gt"@, opt_jmap(v.gt, |n: u64| JVal::UInt(n)));
    let g3 = opt_pair("lte"@, opt_jmap(v.lte, |n: u64| JVal::UInt(n)));
    let g4 = opt_pair("lt"@, opt_jmap(v.lt, |n: u64| JVal::UInt(n)));
    lemma_obj_get_opt_pair("gte"@, opt_jmap(v.gte, |n: u64| JVal::UInt(n)));
    lemma_obj_get_opt_pair("gt"@, opt_jmap(v.gt, |n: u64| JVal::UInt(n)));
    lemma_obj_get_opt_pair("lte"@, opt_jmap(v.lte, |n: u64| JVal::UInt(n)));
    lemma_obj_get_opt_pair("lt"@, opt_jmap(v.lt, |n: u64| JVal::UInt(n)));
    lemma_obj_get_concat_all(g1, g2);
    lemma_obj_get_concat_all(g1 + g2, g3);
    lemma_obj_get_concat_all(g1 + g2 + g3, g4);
}

/// Every slot-range filter parses back from its own wire form.
pub proof fn lemma_slot_range_round_trip(v: SlotRangeView)
    ensures
        SlotRangeView::parse(v.wire()) == Ok::<SlotRangeView, DecodeError>(v),
{
    lemma_slot_range_wire_members(v);
}

/// Model of a block-time range filter.
pub ghost struct BlockTimeRangeView {
    pub gte: Option<u64>,
    pub gt: Option<u64>,
    pub lte: Option<u64>,
    pub lt: Option<u64>,
    pub eq: Option<u64>,
}

/// Inclusive/exclusive block-time range filter, with an additional exact
/// bound. Every bound is independently optional and no combination is
/// rejected.
#[derive(Debug, Clone, Copy)]
pub struct RpcTransactionsForAddressBlockTimeRange {
    gte: Option<u64>,
    gt: Option<u64>,
    lte: Option<u64>,
    lt: Option<u64>,
    eq: Option<u64>,
}

impl View for RpcTransactionsForAddressBlockTimeRange {
    type V = BlockTimeRangeView;

    closed spec fn view(&self) -> BlockTimeRangeView {
        BlockTimeRangeView {
            gte: self.gte,
            gt: self.gt,
            lte: self.lte,
            lt: self.lt,
            eq: self.eq,
        }
    }
}

impl BlockTimeRangeView {
    /// The wire members, in canonical order; each absent bound is omitted.
    pub open spec fn wire_pairs(self) -> Seq<(Seq<char>, JVal)> {
        opt_pair("gte"@, opt_jmap(self.gte, |n: u64| JVal::UInt(n)))
            + opt_pair("gt"@, opt_jmap(self.gt, |n: u64| JVal::UInt(n)))
            + opt_pair("lte"@, opt_jmap(self.lte, |n: u64| JVal::UInt(n)))
            + opt_pair("lt"@, opt_jmap(self.lt, |n: u64| JVal::UInt(n)))
            + opt_pair("eq"@, opt_jmap(self.eq, |n: u64| JVal::UInt(n)))
    }

    pub open spec fn wire(self) -> JVal {
        JVal::Obj(self.wire_pairs())
    }

    pub open spec fn parse(v: JVal) -> Result<BlockTimeRangeView, DecodeError> {
        match v {
            JVal::Obj(ps) => {
                let gte = parse_opt_u64(ps, "gte"@);
                let gt = parse_opt_u64(ps, "gt"@);
                let lte = parse_opt_u64(ps, "lte"@);
                let lt = parse_opt_u64(ps, "lt"@);
                let eq = parse_opt_u64(ps, "eq"@);
                if gte is Err {
                    Err(gte->Err_0)
                } else if gt is Err {
                    Err(gt->Err_0)
                } else if lte is Err {
                    Err(lte->Err_0)
                } else if lt is Err {
                    Err(lt->Err_0)
                } else if eq is Err {
                    Err(eq->Err_0)
                } else {
                    Ok(
                        BlockTimeRangeView {
                            gte: gte->Ok_0,
                            gt: gt->Ok_0,
                            lte: lte->Ok_0,
                            lt: lt->Ok_0,
                            eq: eq->Ok_0,
                        },
                    )
                }
            },
            _ => Err(DecodeError::WrongType),
        }
    }
}

impl RpcTransactionsForAddressBlockTimeRange {
    pub fn new(
        gte: Option<u64>,
        gt: Option<u64>,
        lte: Option<u64>,
        lt: Option<u64>,
        eq: Option<u64>,
    ) -> (r: Self)
        ensures
            r@ == (BlockTimeRangeView { gte, gt, lte, lt, eq }),
    {
        RpcTransactionsForAddressBlockTimeRange { gte, gt, lte, lt, eq }
    }

    /// The canonical default instance: every bound absent.
    pub fn new_default() -> (r: Self)
        ensures
            r@ == (BlockTimeRangeView { gte: None, gt: None, lte: None, lt: None, eq: None }),
    {
        Self::new(None, None, None, None, None)
    }

    pub fn gte(&self) -> (r: Option<u64>)
        ensures
            r == self@.gte,
    {
        self.gte
    }

    pub fn gt(&self) -> (r: Option<u64>)
        ensures
            r == self@.gt,
    {
        self.gt
    }

    pub fn lte(&self) -> (r: Option<u64>)
        ensures
            r == self@.lte,
    {
        self.lte
    }

    pub fn lt(&self) -> (r: Option<u64>)
        ensures
            r == self@.lt,
    {
        self.lt
    }

    pub fn eq(&self) -> (r: Option<u64>)
        ensures
            r == self@.eq,
    {
        self.eq
    }

    /// Renders the filter to its wire tree, omitting absent bounds.
    pub fn to_json(&self) -> (j: Json)
        ensures
            j@ == self@.wire(),
    {
        let mut pairs: Vec<(String, Json)> = Vec::new();
        let ghost g1 = opt_pair("gte"@, opt_jmap(self@.gte, |n: u64| JVal::UInt(n)));
        let ghost g2 = opt_pair("gt"@, opt_jmap(self@.gt, |n: u64| JVal::UInt(n)));
        let ghost g3 = opt_pair("lte"@, opt_jmap(self@.lte, |n: u64| JVal::UInt(n)));
        let ghost g4 = opt_pair("lt"@, opt_jmap(self@.lt, |n: u64| JVal::UInt(n)));
        let ghost g5 = opt_pair("eq"@, opt_jmap(self@.eq, |n: u64| JVal::UInt(n)));
        if let Some(n) = self.gte {
            push_pair(&mut pairs, "gte", Json::UInt(n));
        }
        proof {
            assert(jpairs_of(pairs@) =~= g1);
        }
        if let Some(n) = self.gt {
            push_pair(&mut pairs, "gt", Json::UInt(n));
        }
        proof {
            assert(jpairs_of(pairs@) =~= g1 + g2);
        }
        if let Some(n) = self.lte {
            push_pair(&mut pairs, "lte", Json::UInt(n));
        }
        proof {
            assert(jpairs_of(pairs@) =~= g1 + g2 + g3);
        }
        if let Some(n) = self.lt {
            push_pair(&mut pairs, "lt", Json::UInt(n));
        }
        proof {
            assert(jpairs_of(pairs@) =~= g1 + g2 + g3 + g4);
        }
        if let Some(n) = self.eq {
            push_pair(&mut pairs, "eq", Json::UInt(n));
        }
        proof {
            assert(jpairs_of(pairs@) =~= g1 + g2 + g3 + g4 + g5);
        }
        Json::Obj(pairs)
    }

    /// Parses the filter back from a wire tree; a bound of the wrong
    /// structural kind is a decode error.
    pub fn from_json(j: &Json) -> (r: Result<Self, DecodeError>)
        ensures
            res_agrees(r, BlockTimeRangeView::parse(j@)),
    {
        match j {
            Json::Obj(pairs) => {
                let gte = match get_opt_u64(pairs, "gte") {
                    Ok(v) => v,
                    Err(e) => return Err(e),
                };
                let gt = match get_opt_u64(pairs, "gt") {
                    Ok(v) => v,
                    Err(e) => return Err(e),
                };
                let lte = match get_opt_u64(pairs, "lte") {
                    Ok(v) => v,
                    Err(e) => return Err(e),
                };
                let lt = match get_opt_u64(pairs, "lt") {
                    Ok(v) => v,
                    Err(e) => return Err(e),
                };
                let eq = match get_opt_u64(pairs, "eq") {
                    Ok(v) => v,
                    Err(e) => return Err(e),
                };
                Ok(RpcTransactionsForAddressBlockTimeRange { gte, gt, lte, lt, eq })
            },
            _ => Err(DecodeError::WrongType),
        }
    }
}

impl Default for RpcTransactionsForAddressBlockTimeRange {
    fn default() -> (r: Self)
        ensures
            r@ == (BlockTimeRangeView { gte: None, gt: None, lte: None, lt: None, eq: None }),
    {
        Self::new_default()
    }
}

impl PartialEq for RpcTransactionsForAddressBlockTimeRange {
    fn eq(&self, other: &Self) -> (r: bool) {
        opt_u64_eq(&self.gte, &other.gte) && opt_u64_eq(&self.gt, &other.gt) && opt_u64_eq(
            &self.lte,
            &other.lte,
        ) && opt_u64_eq(&self.lt, &other.lt) && opt_u64_eq(&self.eq, &other.eq)
    }
}

impl Eq for RpcTransactionsForAddressBlockTimeRange {

}

impl vstd::std_specs::cmp::PartialEqSpecImpl for RpcTransactionsForAddressBlockTimeRange {
    open spec fn obeys_eq_spec() -> bool {
        true
    }

    open spec fn eq_spec(&self, other: &Self) -> bool {
        self@ == other@
    }
}

/// Equality of block-time range filters is structural over every bound.
pub proof fn lemma_block_time_range_eq_is_structural(a: BlockTimeRangeView, b: BlockTimeRangeView)
    ensures
        (a == b) <==> (a.gte == b.gte && a.gt == b.gt && a.lte == b.lte && a.lt == b.lt && a.eq
            == b.eq),
{
}

/// The wire form of a block-time range filter holds exactly the present
/// bounds, each under its documented name.
pub proof fn lemma_block_time_range_wire_members(v: BlockTimeRangeView)
    ensures
        obj_get(v.wire_pairs(), "gte"@) == opt_jmap(v.gte, |n: u64| JVal::UInt(n)),
        obj_get(v.wire_pairs(), "gt"@) == opt_jmap(v.gt, |n: u64| JVal::UInt(n)),
        obj_get(v.wire_pairs(), "lte"@) == opt_jmap(v.lte, |n: u64| JVal::UInt(n)),
        obj_get(v.wire_pairs(), "lt"@) == opt_jmap(v.lt, |n: u64| JVal::UInt(n)),
        obj_get(v.wire_pairs(), "eq"@) == opt_jmap(v.eq, |n: u64| JVal::UInt(n)),
        v.gte is None && v.gt is None && v.lte is None && v.lt is None && v.eq is None
            ==> v.wire_pairs().len() == 0,
{
    reveal_strlit("gte");
    reveal_strlit("gt");
    reveal_strlit("lte");
    reveal_strlit("lt");
    reveal_strlit("eq");
    assert("gte"@.len() != "gt"@.len());
    assert("gte"@[0] != "lte"@[0]);
    assert("gte"@.len() != "lt"@.len());
    assert("gte"@.len() != "eq"@.len());
    assert("gt"@.len() != "lte"@.len());
    assert("gt"@[0] != "lt"@[0]);
    assert("gt"@[0] != "eq"@[0]);
    assert("lte"@.len() != "lt"@.len());
    assert("lte"@.len() != "eq"@.len());
    assert("lt"@[0] != "eq"@[0]);
    let g1 = opt_pair("gte"@, opt_jmap(v.gte, |n: u64| JVal::UInt(n)));
    let g2 = opt_pair("gt"@, opt_jmap(v.gt, |n: u64| JVal::UInt(n)));
    let g3 = opt_pair("lte"@, opt_jmap(v.lte, |n: u64| JVal::UInt(n)));
    let g4 = opt_pair("lt"@, opt_jmap(v.lt, |n: u64| JVal::UInt(n)));
    let g5 = opt_pair("eq"@, opt_jmap(v.eq, |n: u64| JVal::UInt(n)));
    lemma_obj_get_opt_pair("gte"@, opt_jmap(v.gte, |n: u64| JVal::UInt(n)));
    lemma_obj_get_opt_pair("gt"@, opt_jmap(v.gt, |n: u64| JVal::UInt(n)));
    lemma_obj_get_opt_pair("lte"@, opt_jmap(v.lte, |n: u64| JVal::UInt(n)));
    lemma_obj_get_opt_pair("lt"@, opt_jmap(v.lt, |n: u64| JVal::UInt(n)));
    lemma_obj_get_opt_pair("eq"@, opt_jmap(v.eq, |n: u64| JVal::UInt(n)));
    lemma_obj_get_concat_all(g1, g2);
    lemma_obj_get_concat_all(g1 + g2, g3);
    lemma_obj_get_concat_all(g1 + g2 + g3, g4);
    lemma_obj_get_concat_all(g1 + g2 + g3 + g4, g5);
}

/// Every block-time range filter parses back from its own wire form.
pub proof fn lemma_block_time_range_round_trip(v: BlockTimeRangeView)
    ensures
        BlockTimeRangeView::parse(v.wire()) == Ok::<BlockTimeRangeView, DecodeError>(v),
{
    lemma_block_time_range_wire_members(v);
}

/// Model of a signature-range filter: each bound is the canonical text of
/// a signature.
pub ghost struct SignatureRangeView {
    pub gte: Option<Seq<char>>,
    pub gt: Option<Seq<char>>,
    pub lte: Option<Seq<char>>,
    pub lt: Option<Seq<char>>,
}

/// Inclusive/exclusive signature-range filter. The order over signatures
/// is interpreted by the query executor; this layer carries the bounds as
/// opaque scalars.
#[derive(Debug)]
pub struct RpcTransactionsForAddressSignatureRange {
    gte: Option<Signature>,
    gt: Option<Signature>,
    lte: Option<Signature>,
    lt: Option<Signature>,
}

impl View for RpcTransactionsForAddressSignatureRange {
    type V = SignatureRangeView;

    closed spec fn view(&self) -> SignatureRangeView {
        SignatureRangeView {
            gte: opt_view(self.gte),
            gt: opt_view(self.gt),
            lte: opt_view(self.lte),
            lt: opt_view(self.lt),
        }
    }
}

impl SignatureRangeView {
    /// The wire members, in canonical order; each absent bound is omitted.
    pub open spec fn wire_pairs(self) -> Seq<(Seq<char>, JVal)> {
        opt_pair("gte"@, opt_jmap(self.gte, |s: Seq<char>| JVal::Str(s)))
            + opt_pair("gt"@, opt_jmap(self.gt, |s: Seq<char>| JVal::Str(s)))
            + opt_pair("lte"@, opt_jmap(self.lte, |s: Seq<char>| JVal::Str(s)))
            + opt_pair("lt"@, opt_jmap(self.lt, |s: Seq<char>| JVal::Str(s)))
    }

    pub open spec fn wire(self) -> JVal {
        JVal::Obj(self.wire_pairs())
    }

    pub open spec fn parse(v: JVal) -> Result<SignatureRangeView, DecodeError> {
        match v {
            JVal::Obj(ps) => {
                let gte = parse_opt_str(ps, "gte"@);
                let gt = parse_opt_str(ps, "gt"@);
                let lte = parse_opt_str(ps, "lte"@);
                let lt = parse_opt_str(ps, "lt"@);
                if gte is Err {
                    Err(gte->Err_0)
                } else if gt is Err {
                    Err(gt->Err_0)
                } else if lte is Err {
                    Err(lte->Err_0)
                } else if lt is Err {
                    Err(lt->Err_0)
                } else {
                    Ok(
                        SignatureRangeView {
                            gte: gte->Ok_0,
                            gt: gt->Ok_0,
                            lte: lte->Ok_0,
                            lt: lt->Ok_0,
                        },
                    )
                }
            },
            _ => Err(DecodeError::WrongType),
        }
    }
}

impl RpcTransactionsForAddressSignatureRange {
    pub fn new(
        gte: Option<Signature>,
        gt: Option<Signature>,
        lte: Option<Signature>,
        lt: Option<Signature>,
    ) -> (r: Self)
        ensures
            r@ == (SignatureRangeView {
                gte: opt_view(gte),
                gt: opt_view(gt),
                lte: opt_view(lte),
                lt: opt_view(lt),
            }),
    {
        RpcTransactionsForAddressSignatureRange { gte, gt, lte, lt }
    }

    /// The canonical default instance: every bound absent.
    pub fn new_default() -> (r: Self)
        ensures
            r@ == (SignatureRangeView { gte: None, gt: None, lte: None, lt: None }),
    {
        Self::new(None, None, None, None)
    }

    pub fn gte(&self) -> (r: Option<Signature>)
        ensures
            opt_view(r) == self@.gte,
    {
        clone_opt_signature(&self.gte)
    }

    pub fn gt(&self) -> (r: Option<Signature>)
        ensures
            opt_view(r) == self@.gt,
    {
        clone_opt_signature(&self.gt)
    }

    pub fn lte(&self) -> (r: Option<Signature>)
        ensures
            opt_view(r) == self@.lte,
    {
        clone_opt_signature(&self.lte)
    }

    pub fn lt(&self) -> (r: Option<Signature>)
        ensures
            opt_view(r) == self@.lt,
    {
        clone_opt_signature(&self.lt)
    }

    /// Renders the filter to its wire tree, omitting absent bounds.
    pub fn to_json(&self) -> (j: Json)
        ensures
            j@ == self@.wire(),
    {
        let mut pairs: Vec<(String, Json)> = Vec::new();
        let ghost g1 = opt_pair("gte"@, opt_jmap(self@.gte, |s: Seq<char>| JVal::Str(s)));
        let ghost g2 = opt_pair("gt"@, opt_jmap(self@.gt, |s: Seq<char>| JVal::Str(s)));
        let ghost g3 = opt_pair("lte"@, opt_jmap(self@.lte, |s: Seq<char>| JVal::Str(s)));
        let ghost g4 = opt_pair("lt"@, opt_jmap(self@.lt, |s: Seq<char>| JVal::Str(s)));
        if let Some(sig) = &self.gte {
            push_pair(&mut pairs, "gte", sig.to_json());
        }
        proof {
            assert(jpairs_of(pairs@) =~= g1);
        }
        if let Some(sig) = &self.gt {
            push_pair(&mut pairs, "gt", sig.to_json());
        }
        proof {
            assert(jpairs_of(pairs@) =~= g1 + g2);
        }
        if let Some(sig) = &self.lte {
            push_pair(&mut pairs, "lte", sig.to_json());
        }
        proof {
            assert(jpairs_of(pairs@) =~= g1 + g2 + g3);
        }
        if let Some(sig) = &self.lt {
            push_pair(&mut pairs, "lt", sig.to_json());
        }
        proof {
            assert(jpairs_of(pairs@) =~= g1 + g2 + g3 + g4);
        }
        Json::Obj(pairs)
    }

    /// Parses the filter back from a wire tree; a bound of the wrong
    /// structural kind is a decode error.
    pub fn from_json(j: &Json) -> (r: Result<Self, DecodeError>)
        ensures
            res_agrees(r, SignatureRangeView::parse(j@)),
    {
        match j {
            Json::Obj(pairs) => {
                let gte = match get_opt_signature(pairs, "gte") {
                    Ok(v) => v,
                    Err(e) => return Err(e),
                };
                let gt = match get_opt_signature(pairs, "gt") {
                    Ok(v) => v,
                    Err(e) => return Err(e),
                };
                let lte = match get_opt_signature(pairs, "lte") {
                    Ok(v) => v,
                    Err(e) => return Err(e),
                };
                let lt = match get_opt_signature(pairs, "lt") {
                    Ok(v) => v,
                    Err(e) => return Err(e),
                };
                Ok(RpcTransactionsForAddressSignatureRange { gte, gt, lte, lt })
            },
            _ => Err(DecodeError::WrongType),
        }
    }
}

/// Clones an optional signature, keeping its canonical text.
fn clone_opt_signature(v: &Option<Signature>) -> (r: Option<Signature>)
    ensures
        opt_view(r) == opt_view(*v),
{
    match v {
        Some(s) => Some(s.clone()),
        None => None,
    }
}

/// Reads an optional signature member.
fn get_opt_signature(pairs: &Vec<(String, Json)>, key: &str) -> (r: Result<
    Option<Signature>,
    DecodeError,
>)
    ensures
        match r {
            Ok(v) => parse_opt_str(jpairs_of(pairs@), key@) == Ok::<Option<Seq<char>>, DecodeError>(
                opt_view(v),
            ),
            Err(e) => parse_opt_str(jpairs_of(pairs@), key@) == Err::<Option<Seq<char>>, DecodeError>(
                e,
            ),
        },
{
    match json_obj_get(pairs, key) {
        None => Ok(None),
        Some(j) => match Signature::from_json(j) {
            Ok(s) => Ok(Some(s)),
            Err(e) => Err(e),
        },
    }
}

impl Clone for RpcTransactionsForAddressSignatureRange {
    fn clone(&self) -> (r: Self)
        ensures
            r@ == self@,
    {
        RpcTransactionsForAddressSignatureRange {
            gte: clone_opt_signature(&self.gte),
            gt: clone_opt_signature(&self.gt),
            lte: clone_opt_signature(&self.lte),
            lt: clone_opt_signature(&self.lt),
        }
    }
}

impl PartialEq for RpcTransactionsForAddressSignatureRange {
    fn eq(&self, other: &Self) -> (r: bool) {
        opt_signature_eq(&self.gte, &other.gte) && opt_signature_eq(&self.gt, &other.gt)
            && opt_signature_eq(&self.lte, &other.lte) && opt_signature_eq(&self.lt, &other.lt)
    }
}

impl Eq for RpcTransactionsForAddressSignatureRange {

}

impl vstd::std_specs::cmp::PartialEqSpecImpl for RpcTransactionsForAddressSignatureRange {
    open spec fn obeys_eq_spec() -> bool {
        true
    }

    open spec fn eq_spec(&self, other: &Self) -> bool {
        self@ == other@
    }
}

/// Equality of optional signatures is equality of their canonical texts.
fn opt_signature_eq(a: &Option<Signature>, b: &Option<Signature>) -> (r: bool)
    ensures
        r == (opt_view(*a) == opt_view(*b)),
{
    match (a, b) {
        (Some(x), Some(y)) => x == y,
        (None, None) => true,
        _ => false,
    }
}

/// Equality of signature-range filters is structural over every bound.
pub proof fn lemma_signature_range_eq_is_structural(a: SignatureRangeView, b: SignatureRangeView)
    ensures
        (a == b) <==> (a.gte == b.gte && a.gt == b.gt && a.lte == b.lte && a.lt == b.lt),
{
}

/// The wire form of a signature-range filter holds exactly the present
/// bounds, each under its documented name.
pub proof fn lemma_signature_range_wire_members(v: SignatureRangeView)
    ensures
        obj_get(v.wire_pairs(), "gte"@) == opt_jmap(v.gte, |s: Seq<char>| JVal::Str(s)),
        obj_get(v.wire_pairs(), "gt"@) == opt_jmap(v.gt, |s: Seq<char>| JVal::Str(s)),
        obj_get(v.wire_pairs(), "lte"@) == opt_jmap(v.lte, |s: Seq<char>| JVal::Str(s)),
        obj_get(v.wire_pairs(), "lt"@) == opt_jmap(v.lt, |s: Seq<char>| JVal::Str(s)),
        v.gte is None && v.gt is None && v.lte is None && v.lt is None ==> v.wire_pairs().len()
            == 0,
{
    reveal_strlit("gte");
    reveal_strlit("gt");
    reveal_strlit("lte");
    reveal_strlit("lt");
    assert("gte"@.len() != "gt"@.len());
    assert("gte"@[0] != "lte"@[0]);
    assert("gte"@.len() != "lt"@.len());
    assert("gt"@.len() != "lte"@.len());
    assert("gt"@[0] != "lt"@[0]);
    assert("lte"@.len() != "lt"@.len());
    let g1 = opt_pair("gte"@, opt_jmap(v.gte, |s: Seq<char>| JVal::Str(s)));
    let g2 = opt_pair("gt"@, opt_jmap(v.gt, |s: Seq<char>| JVal::Str(s)));
    let g3 = opt_pair("lte"@, opt_jmap(v.lte, |s: Seq<char>| JVal::Str(s)));
    let g4 = opt_pair("lt"@, opt_jmap(v.lt, |s: Seq<char>| JVal::Str(s)));
    lemma_obj_get_opt_pair("gte"@, opt_jmap(v.gte, |s: Seq<char>| JVal::Str(s)));
    lemma_obj_get_opt_pair("gt"@, opt_jmap(v.gt, |s: Seq<char>| JVal::Str(s)));
    lemma_obj_get_opt_pair("lte"@, opt_jmap(v.lte, |s: Seq<char>| JVal::Str(s)));
    lemma_obj_get_opt_pair("lt"@, opt_jmap(v.lt, |s: Seq<char>| JVal::Str(s)));
    lemma_obj_get_concat_all(g1, g2);
    lemma_obj_get_concat_all(g1 + g2, g3);
    lemma_obj_get_concat_all(g1 + g2 + g3, g4);
}

/// Every signature-range filter parses back from its own wire form.
pub proof fn lemma_signature_range_round_trip(v: SignatureRangeView)
    ensures
        SignatureRangeView::parse(v.wire()) == Ok::<SignatureRangeView, DecodeError>(v),
{
    lemma_signature_range_wire_members(v);
}

/// Model of the aggregate filter set.
pub ghost struct FiltersView {
    pub slot: Option<SlotRangeView>,
    pub block_time: Option<BlockTimeRangeView>,
    pub signature: Option<SignatureRangeView>,
    pub status: Option<RpcTransactionsForAddressStatus>,
    pub token_accounts: Option<RpcTransactionsForAddressTokenAccounts>,
}

/// Aggregate filter set for address-history queries. The sub-filters are
/// independent; no cross-field invariant is enforced, and the all-absent
/// set is the valid default meaning "no constraint".
#[derive(Debug)]
pub struct RpcTransactionsForAddressFilters {
    slot: Option<RpcTransactionsForAddressSlotRange>,
    block_time: Option<RpcTransactionsForAddressBlockTimeRange>,
    signature: Option<RpcTransactionsForAddressSignatureRange>,
    status: Option<RpcTransactionsForAddressStatus>,
    token_accounts: Option<RpcTransactionsForAddressTokenAccounts>,
}

impl View for RpcTransactionsForAddressFilters {
    type V = FiltersView;

    closed spec fn view(&self) -> FiltersView {
        FiltersView {
            slot: opt_view(self.slot),
            block_time: opt_view(self.block_time),
            signature: opt_view(self.signature),
            status: self.status,
            token_accounts: self.token_accounts,
        }
    }
}

impl FiltersView {
    /// The wire members, in canonical order; each absent filter is omitted.
    pub open spec fn wire_pairs(self) -> Seq<(Seq<char>, JVal)> {
        opt_pair("slot"@, opt_jmap(self.slot, |r: SlotRangeView| r.wire()))
            + opt_pair("blockTime"@, opt_jmap(self.block_time, |r: BlockTimeRangeView| r.wire()))
            + opt_pair("signature"@, opt_jmap(self.signature, |r: SignatureRangeView| r.wire()))
            + opt_pair(
            "status"@,
            opt_jmap(self.status, |s: RpcTransactionsForAddressStatus| s.wire()),
        ) + opt_pair(
            "tokenAccounts"@,
            opt_jmap(self.token_accounts, |t: RpcTransactionsForAddressTokenAccounts| t.wire()),
        )
    }

    pub open spec fn wire(self) -> JVal {
        JVal::Obj(self.wire_pairs())
    }

    pub open spec fn parse(v: JVal) -> Result<FiltersView, DecodeError> {
        match v {
            JVal::Obj(ps) => {
                let slot = parse_opt_sub(ps, "slot"@, |jv: JVal| SlotRangeView::parse(jv));
                let block_time = parse_opt_sub(
                    ps,
                    "blockTime"@,
                    |jv: JVal| BlockTimeRangeView::parse(jv),
                );
                let signature = parse_opt_sub(
                    ps,
                    "signature"@,
                    |jv: JVal| SignatureRangeView::parse(jv),
                );
                let status = parse_opt_sub(
                    ps,
                    "status"@,
                    |jv: JVal| RpcTransactionsForAddressStatus::parse(jv),
                );
                let token_accounts = parse_opt_sub(
                    ps,
                    "tokenAccounts"@,
                    |jv: JVal| RpcTransactionsForAddressTokenAccounts::parse(jv),
                );
                if slot is Err {
                    Err(slot->Err_0)
                } else if block_time is Err {
                    Err(block_time->Err_0)
                } else if signature is Err {
                    Err(signature->Err_0)
                } else if status is Err {
                    Err(status->Err_0)
                } else if token_accounts is Err {
                    Err(token_accounts->Err_0)
                } else {
                    Ok(
                        FiltersView {
                            slot: slot->Ok_0,
                            block_time: block_time->Ok_0,
                            signature: signature->Ok_0,
                            status: status->Ok_0,
                            token_accounts: token_accounts->Ok_0,
                        },
                    )
                }
            },
            _ => Err(DecodeError::WrongType),
        }
    }
}

impl RpcTransactionsForAddressFilters {
    pub fn new(
        slot: Option<RpcTransactionsForAddressSlotRange>,
        block_time: Option<RpcTransactionsForAddressBlockTimeRange>,
        signature: Option<RpcTransactionsForAddressSignatureRange>,
        status: Option<RpcTransactionsForAddressStatus>,
        token_accounts: Option<RpcTransactionsForAddressTokenAccounts>,
    ) -> (r: Self)
        ensures
            r@ == (FiltersView {
                slot: opt_view(slot),
                block_time: opt_view(block_time),
                signature: opt_view(signature),
                status,
                token_accounts,
            }),
    {
        RpcTransactionsForAddressFilters { slot, block_time, signature, status, token_accounts }
    }

    /// The canonical default instance: every sub-filter absent.
    pub fn new_default() -> (r: Self)
        ensures
            r@ == (FiltersView {
                slot: None,
                block_time: None,
                signature: None,
                status: None,
                token_accounts: None,
            }),
    {
        Self::new(None, None, None, None, None)
    }

    pub fn slot(&self) -> (r: Option<RpcTransactionsForAddressSlotRange>)
        ensures
            opt_view(r) == self@.slot,
    {
        self.slot
    }

    pub fn block_time(&self) -> (r: Option<RpcTransactionsForAddressBlockTimeRange>)
        ensures
            opt_view(r) == self@.block_time,
    {
        self.block_time
    }

    pub fn signature(&self) -> (r: Option<RpcTransactionsForAddressSignatureRange>)
        ensures
            opt_view(r) == self@.signature,
    {
        match &self.signature {
            Some(s) => Some(s.clone()),
            None => None,
        }
    }

    pub fn status(&self) -> (r: Option<RpcTransactionsForAddressStatus>)
        ensures
            r == self@.status,
    {
        self.status
    }

    pub fn token_accounts(&self) -> (r: Option<RpcTransactionsForAddressTokenAccounts>)
        ensures
            r == self@.token_accounts,
    {
        self.token_accounts
    }

    /// Renders the filter set to its wire tree, omitting absent filters.
    pub fn to_json(&self) -> (j: Json)
        ensures
            j@ == self@.wire(),
    {
        let mut pairs: Vec<(String, Json)> = Vec::new();
        let ghost g1 = opt_pair("slot"@, opt_jmap(self@.slot, |r: SlotRangeView| r.wire()));
        let ghost g2 = opt_pair(
            "blockTime"@,
            opt_jmap(self@.block_time, |r: BlockTimeRangeView| r.wire()),
        );
        let ghost g3 = opt_pair(
            "signature"@,
            opt_jmap(self@.signature, |r: SignatureRangeView| r.wire()),
        );
        let ghost g4 = opt_pair(
            "status"@,
            opt_jmap(self@.status, |s: RpcTransactionsForAddressStatus| s.wire()),
        );
        let ghost g5 = opt_pair(
            "tokenAccounts"@,
            opt_jmap(self@.token_accounts, |t: RpcTransactionsForAddressTokenAccounts| t.wire()),
        );
        if let Some(r) = &self.slot {
            push_pair(&mut pairs, "slot", r.to_json());
        }
        proof {
            assert(jpairs_of(pairs@) =~= g1);
        }
        if let Some(r) = &self.block_time {
            push_pair(&mut pairs, "blockTime", r.to_json());
        }
        proof {
            assert(jpairs_of(pairs@) =~= g1 + g2);
        }
        if let Some(r) = &self.signature {
            push_pair(&mut pairs, "signature", r.to_json());
        }
        proof {
            assert(jpairs_of(pairs@) =~= g1 + g2 + g3);
        }
        if let Some(s) = &self.status {
            push_pair(&mut pairs, "status", s.to_json());
        }
        proof {
            assert(jpairs_of(pairs@) =~= g1 + g2 + g3 + g4);
        }
        if let Some(t) = &self.token_accounts {
            push_pair(&mut pairs, "tokenAccounts", t.to_json());
        }
        proof {
            assert(jpairs_of(pairs@) =~= g1 + g2 + g3 + g4 + g5);
        }
        Json::Obj(pairs)
    }

    /// Parses the filter set back from a wire tree; a sub-filter of the
    /// wrong structural kind is a decode error.
    pub fn from_json(j: &Json) -> (r: Result<Self, DecodeError>)
        ensures
            res_agrees(r, FiltersView::parse(j@)),
    {
        match j {
            Json::Obj(pairs) => {
                let slot = match json_obj_get(pairs, "slot") {
                    None => None,
                    Some(sub) => match RpcTransactionsForAddressSlotRange::from_json(sub) {
                        Ok(v) => Some(v),
                        Err(e) => return Err(e),
                    },
                };
                let block_time = match json_obj_get(pairs, "blockTime") {
                    None => None,
                    Some(sub) => match RpcTransactionsForAddressBlockTimeRange::from_json(sub) {
                        Ok(v) => Some(v),
                        Err(e) => return Err(e),
                    },
                };
                let signature = match json_obj_get(pairs, "signature") {
                    None => None,
                    Some(sub) => match RpcTransactionsForAddressSignatureRange::from_json(sub) {
                        Ok(v) => Some(v),
                        Err(e) => return Err(e),
                    },
                };
                let status = match json_obj_get(pairs, "status") {
                    None => None,
                    Some(sub) => match RpcTransactionsForAddressStatus::from_json(sub) {
                        Ok(v) => Some(v),
                        Err(e) => return Err(e),
                    },
                };
                let token_accounts = match json_obj_get(pairs, "tokenAccounts") {
                    None => None,
                    Some(sub) => match RpcTransactionsForAddressTokenAccounts::from_json(sub) {
                        Ok(v) => Some(v),
                        Err(e) => return Err(e),
                    },
                };
                Ok(
                    RpcTransactionsForAddressFilters {
                        slot,
                        block_time,
                        signature,
                        status,
                        token_accounts,
                    },
                )
            },
            _ => Err(DecodeError::WrongType),
        }
    }
}

impl Default for RpcTransactionsForAddressFilters {
    fn default() -> (r: Self)
        ensures
            r@ == (FiltersView {
                slot: None,
                block_time: None,
                signature: None,
                status: None,
                token_accounts: None,
            }),
    {
        Self::new_default()
    }
}

impl Clone for RpcTransactionsForAddressFilters {
    fn clone(&self) -> (r: Self)
        ensures
            r@ == self@,
    {
        RpcTransactionsForAddressFilters {
            slot: self.slot,
            block_time: self.block_time,
            signature: match &self.signature {
                Some(s) => Some(s.clone()),
                None => None,
            },
            status: self.status,
            token_accounts: self.token_accounts,
        }
    }
}

/// Equality of optional slot ranges.
fn opt_slot_range_eq(
    a: &Option<RpcTransactionsForAddressSlotRange>,
    b: &Option<RpcTransactionsForAddressSlotRange>,
) -> (r: bool)
    ensures
        r == (opt_view(*a) == opt_view(*b)),
{
    match (a, b) {
        (Some(x), Some(y)) => x == y,
        (None, None) => true,
        _ => false,
    }
}

/// Equality of optional block-time ranges.
fn opt_block_time_range_eq(
    a: &Option<RpcTransactionsForAddressBlockTimeRange>,
    b: &Option<RpcTransactionsForAddressBlockTimeRange>,
) -> (r: bool)
    ensures
        r == (opt_view(*a) == opt_view(*b)),
{
    match (a, b) {
        (Some(x), Some(y)) => x == y,
        (None, None) => true,
        _ => false,
    }
}

/// Equality of optional signature ranges.
fn opt_signature_range_eq(
    a: &Option<RpcTransactionsForAddressSignatureRange>,
    b: &Option<RpcTransactionsForAddressSignatureRange>,
) -> (r: bool)
    ensures
        r == (opt_view(*a) == opt_view(*b)),
{
    match (a, b) {
        (Some(x), Some(y)) => x == y,
        (None, None) => true,
        _ => false,
    }
}

/// Equality of optional status filters.
fn opt_status_eq(
    a: &Option<RpcTransactionsForAddressStatus>,
    b: &Option<RpcTransactionsForAddressStatus>,
) -> (r: bool)
    ensures
        r == (a == b),
{
    match (a, b) {
        (Some(x), Some(y)) => x == y,
        (None, None) => true,
        _ => false,
    }
}

/// Equality of optional token-account filters.
fn opt_token_accounts_eq(
    a: &Option<RpcTransactionsForAddressTokenAccounts>,
    b: &Option<RpcTransactionsForAddressTokenAccounts>,
) -> (r: bool)
    ensures
        r == (a == b),
{
    match (a, b) {
        (Some(x), Some(y)) => x == y,
        (None, None) => true,
        _ => false,
    }
}

impl PartialEq for RpcTransactionsForAddressFilters {
    fn eq(&self, other: &Self) -> (r: bool) {
        opt_slot_range_eq(&self.slot, &other.slot) && opt_block_time_range_eq(
            &self.block_time,
            &other.block_time,
        ) && opt_signature_range_eq(&self.signature, &other.signature) && opt_status_eq(
            &self.status,
            &other.status,
        ) && opt_token_accounts_eq(&self.token_accounts, &other.token_accounts)
    }
}

impl Eq for RpcTransactionsForAddressFilters {

}

impl vstd::std_specs::cmp::PartialEqSpecImpl for RpcTransactionsForAddressFilters {
    open spec fn obeys_eq_spec() -> bool {
        true
    }

    open spec fn eq_spec(&self, other: &Self) -> bool {
        self@ == other@
    }
}

/// Equality of filter sets is structural over every sub-filter.
pub proof fn lemma_filters_eq_is_structural(a: FiltersView, b: FiltersView)
    ensures
        (a == b) <==> (a.slot == b.slot && a.block_time == b.block_time && a.signature
            == b.signature && a.status == b.status && a.token_accounts == b.token_accounts),
{
}

/// The wire form of a filter set holds exactly the present sub-filters,
/// each under its documented camelCase name.
pub proof fn lemma_filters_wire_members(v: FiltersView)
    ensures
        obj_get(v.wire_pairs(), "slot"@) == opt_jmap(v.slot, |r: SlotRangeView| r.wire()),
        obj_get(v.wire_pairs(), "blockTime"@) == opt_jmap(
            v.block_time,
            |r: BlockTimeRangeView| r.wire(),
        ),
        obj_get(v.wire_pairs(), "signature"@) == opt_jmap(
            v.signature,
            |r: SignatureRangeView| r.wire(),
        ),
        obj_get(v.wire_pairs(), "status"@) == opt_jmap(
            v.status,
            |s: RpcTransactionsForAddressStatus| s.wire(),
        ),
        obj_get(v.wire_pairs(), "tokenAccounts"@) == opt_jmap(
            v.token_accounts,
            |t: RpcTransactionsForAddressTokenAccounts| t.wire(),
        ),
        v.slot is None && v.block_time is None && v.signature is None && v.status is None
            && v.token_accounts is None ==> v.wire_pairs().len() == 0,
{
    reveal_strlit("slot");
    reveal_strlit("blockTime");
    reveal_strlit("signature");
    reveal_strlit("status");
    reveal_strlit("tokenAccounts");
    assert("blockTime"@.len() != "slot"@.len());
    assert("signature"@.len() != "slot"@.len());
    assert("signature"@[0] != "blockTime"@[0]);
    assert("status"@.len() != "slot"@.len());
    assert("status"@.len() != "blockTime"@.len());
    assert("status"@.len() != "signature"@.len());
    assert("tokenAccounts"@.len() != "slot"@.len());
    assert("tokenAccounts"@.len() != "blockTime"@.len());
    assert("tokenAccounts"@.len() != "signature"@.len());
    assert("tokenAccounts"@.len() != "status"@.len());
    let g1 = opt_pair("slot"@, opt_jmap(v.slot, |r: SlotRangeView| r.wire()));
    let g2 = opt_pair("blockTime"@, opt_jmap(v.block_time, |r: BlockTimeRangeView| r.wire()));
    let g3 = opt_pair("signature"@, opt_jmap(v.signature, |r: SignatureRangeView| r.wire()));
    let g4 = opt_pair("status"@, opt_jmap(v.status, |s: RpcTransactionsForAddressStatus| s.wire()));
    let g5 = opt_pair(
        "tokenAccounts"@,
        opt_jmap(v.token_accounts, |t: RpcTransactionsForAddressTokenAccounts| t.wire()),
    );
    lemma_obj_get_opt_pair("slot"@, opt_jmap(v.slot, |r: SlotRangeView| r.wire()));
    lemma_obj_get_opt_pair("blockTime"@, opt_jmap(v.block_time, |r: BlockTimeRangeView| r.wire()));
    lemma_obj_get_opt_pair("signature"@, opt_jmap(v.signature, |r: SignatureRangeView| r.wire()));
    lemma_obj_get_opt_pair(
        "status"@,
        opt_jmap(v.status, |s: RpcTransactionsForAddressStatus| s.wire()),
    );
    lemma_obj_get_opt_pair(
        "tokenAccounts"@,
        opt_jmap(v.token_accounts, |t: RpcTransactionsForAddressTokenAccounts| t.wire()),
    );
    lemma_obj_get_concat_all(g1, g2);
    lemma_obj_get_concat_all(g1 + g2, g3);
    lemma_obj_get_concat_all(g1 + g2 + g3, g4);
    lemma_obj_get_concat_all(g1 + g2 + g3 + g4, g5);
}

/// Every filter set parses back from its own wire form.
pub proof fn lemma_filters_round_trip(v: FiltersView)
    ensures
        FiltersView::parse(v.wire()) == Ok::<FiltersView, DecodeError>(v),
{
    lemma_filters_wire_members(v);
    match v.slot {
        Some(r) => lemma_slot_range_round_trip(r),
        None => {},
    }
    match v.block_time {
        Some(r) => lemma_block_time_range_round_trip(r),
        None => {},
    }
    match v.signature {
        Some(r) => lemma_signature_range_round_trip(r),
        None => {},
    }
    match v.status {
        Some(s) => lemma_status_round_trip(s),
        None => {},
    }
    match v.token_accounts {
        Some(t) => lemma_token_accounts_round_trip(t),
        None => {},
    }
}

/// Model of the address-history query configuration.
pub ghost struct TransactionsForAddressConfigView {
    pub transaction_details: Option<TransactionDetails>,
    pub sort_order: Option<RpcTransactionsForAddressSortOrder>,
    pub commitment: Option<CommitmentLevel>,
    pub min_context_slot: Option<u64>,
    pub limit: Option<u64>,
    pub pagination_token: Option<Seq<char>>,
    pub encoding: Option<UiTransactionEncoding>,
    pub max_supported_transaction_version: Option<u8>,
    pub filters: Option<FiltersView>,
}

/// Configuration object for an address-history query. Every field is
/// optional; the pagination token is an opaque cursor echoed back from a
/// prior response, never interpreted by this layer.
#[derive(Debug)]
pub struct RpcTransactionsForAddressConfig {
    transaction_details: Option<TransactionDetails>,
    sort_order: Option<RpcTransactionsForAddressSortOrder>,
    commitment: Option<CommitmentLevel>,
    min_context_slot: Option<u64>,
    limit: Option<u64>,
    pagination_token: Option<String>,
    encoding: Option<UiTransactionEncoding>,
    max_supported_transaction_version: Option<u8>,
    filters: Option<RpcTransactionsForAddressFilters>,
}

impl View for RpcTransactionsForAddressConfig {
    type V = TransactionsForAddressConfigView;

    closed spec fn view(&self) -> TransactionsForAddressConfigView {
        TransactionsForAddressConfigView {
            transaction_details: self.transaction_details,
            sort_order: self.sort_order,
            commitment: self.commitment,
            min_context_slot: self.min_context_slot,
            limit: self.limit,
            pagination_token: opt_view(self.pagination_token),
            encoding: self.encoding,
            max_supported_transaction_version: self.max_supported_transaction_version,
            filters: opt_view(self.filters),
        }
    }
}

impl TransactionsForAddressConfigView {
    /// The wire members, in canonical order under their camelCase names;
    /// each absent field is omitted. The commitment level is rendered as
    /// its plain lowercase literal.
    pub open spec fn wire_pairs(self) -> Seq<(Seq<char>, JVal)> {
        opt_pair(
            "transactionDetails"@,
            opt_jmap(self.transaction_details, |d: TransactionDetails| d.wire()),
        ) + opt_pair(
            "sortOrder"@,
            opt_jmap(self.sort_order, |o: RpcTransactionsForAddressSortOrder| o.wire()),
        ) + opt_pair("commitment"@, opt_jmap(self.commitment, |c: CommitmentLevel| c.wire()))
            + opt_pair("minContextSlot"@, opt_jmap(self.min_context_slot, |n: u64| JVal::UInt(n)))
            + opt_pair("limit"@, opt_jmap(self.limit, |n: u64| JVal::UInt(n))) + opt_pair(
            "paginationToken"@,
            opt_jmap(self.pagination_token, |s: Seq<char>| JVal::Str(s)),
        ) + opt_pair("encoding"@, opt_jmap(self.encoding, |e: UiTransactionEncoding| e.wire()))
            + opt_pair(
            "maxSupportedTransactionVersion"@,
            opt_jmap(self.max_supported_transaction_version, |n: u8| JVal::UInt(n as u64)),
        ) + opt_pair("filters"@, opt_jmap(self.filters, |f: FiltersView| f.wire()))
    }

    pub open spec fn wire(self) -> JVal {
        JVal::Obj(self.wire_pairs())
    }

    pub open spec fn parse(v: JVal) -> Result<TransactionsForAddressConfigView, DecodeError> {
        match v {
            JVal::Obj(ps) => {
                let transaction_details = parse_opt_sub(
                    ps,
                    "transactionDetails"@,
                    |jv: JVal| TransactionDetails::parse(jv),
                );
                let sort_order = parse_opt_sub(
                    ps,
                    "sortOrder"@,
                    |jv: JVal| RpcTransactionsForAddressSortOrder::parse(jv),
                );
                let commitment = parse_opt_sub(
                    ps,
                    "commitment"@,
                    |jv: JVal| CommitmentLevel::parse(jv),
                );
                let min_context_slot = parse_opt_u64(ps, "minContextSlot"@);
                let limit = parse_opt_u64(ps, "limit"@);
                let pagination_token = parse_opt_str(ps, "paginationToken"@);
                let encoding = parse_opt_sub(
                    ps,
                    "encoding"@,
                    |jv: JVal| UiTransactionEncoding::parse(jv),
                );
                let max_version = parse_opt_u8(ps, "maxSupportedTransactionVersion"@);
                let filters = parse_opt_sub(ps, "filters"@, |jv: JVal| FiltersView::parse(jv));
                if transaction_details is Err {
                    Err(transaction_details->Err_0)
                } else if sort_order is Err {
                    Err(sort_order->Err_0)
                } else if commitment is Err {
                    Err(commitment->Err_0)
                } else if min_context_slot is Err {
                    Err(min_context_slot->Err_0)
                } else if limit is Err {
                    Err(limit->Err_0)
                } else if pagination_token is Err {
                    Err(pagination_token->Err_0)
                } else if encoding is Err {
                    Err(encoding->Err_0)
                } else if max_version is Err {
                    Err(max_version->Err_0)
                } else if filters is Err {
                    Err(filters->Err_0)
                } else {
                    Ok(
                        TransactionsForAddressConfigView {
                            transaction_details: transaction_details->Ok_0,
                            sort_order: sort_order->Ok_0,
                            commitment: commitment->Ok_0,
                            min_context_slot: min_context_slot->Ok_0,
                            limit: limit->Ok_0,
                            pagination_token: pagination_token->Ok_0,
                            encoding: encoding->Ok_0,
                            max_supported_transaction_version: max_version->Ok_0,
                            filters: filters->Ok_0,
                        },
                    )
                }
            },
            _ => Err(DecodeError::WrongType),
        }
    }
}

impl RpcTransactionsForAddressConfig {
    pub fn new(
        transaction_details: Option<TransactionDetails>,
        sort_order: Option<RpcTransactionsForAddressSortOrder>,
        commitment: Option<CommitmentLevel>,
        min_context_slot: Option<u64>,
        limit: Option<u64>,
        pagination_token: Option<String>,
        encoding: Option<UiTransactionEncoding>,
        max_supported_transaction_version: Option<u8>,
        filters: Option<RpcTransactionsForAddressFilters>,
    ) -> (r: Self)
        ensures
            r@ == (TransactionsForAddressConfigView {
                transaction_details,
                sort_order,
                commitment,
                min_context_slot,
                limit,
                pagination_token: opt_view(pagination_token),
                encoding,
                max_supported_transaction_version,
                filters: opt_view(filters),
            }),
    {
        RpcTransactionsForAddressConfig {
            transaction_details,
            sort_order,
            commitment,
            min_context_slot,
            limit,
            pagination_token,
            encoding,
            max_supported_transaction_version,
            filters,
        }
    }

    /// The canonical default instance: every field absent.
    pub fn new_default() -> (r: Self)
        ensures
            r@ == (TransactionsForAddressConfigView {
                transaction_details: None,
                sort_order: None,
                commitment: None,
                min_context_slot: None,
                limit: None,
                pagination_token: None,
                encoding: None,
                max_supported_transaction_version: None,
                filters: None,
            }),
    {
        Self::new(None, None, None, None, None, None, None, None, None)
    }

    pub fn transaction_details(&self) -> (r: Option<TransactionDetails>)
        ensures
            r == self@.transaction_details,
    {
        self.transaction_details
    }

    pub fn sort_order(&self) -> (r: Option<RpcTransactionsForAddressSortOrder>)
        ensures
            r == self@.sort_order,
    {
        self.sort_order
    }

    pub fn commitment(&self) -> (r: Option<CommitmentLevel>)
        ensures
            r == self@.commitment,
    {
        self.commitment
    }

    pub fn min_context_slot(&self) -> (r: Option<u64>)
        ensures
            r == self@.min_context_slot,
    {
        self.min_context_slot
    }

    pub fn limit(&self) -> (r: Option<u64>)
        ensures
            r == self@.limit,
    {
        self.limit
    }

    pub fn pagination_token(&self) -> (r: Option<String>)
        ensures
            opt_view(r) == self@.pagination_token,
    {
        clone_opt_string(&self.pagination_token)
    }

    pub fn encoding(&self) -> (r: Option<UiTransactionEncoding>)
        ensures
            r == self@.encoding,
    {
        self.encoding
    }

    pub fn max_supported_transaction_version(&self) -> (r: Option<u8>)
        ensures
            r == self@.max_supported_transaction_version,
    {
        self.max_supported_transaction_version
    }

    pub fn filters(&self) -> (r: Option<RpcTransactionsForAddressFilters>)
        ensures
            opt_view(r) == self@.filters,
    {
        match &self.filters {
            Some(f) => Some(f.clone()),
            None => None,
        }
    }

    /// Renders the configuration to its wire tree, omitting absent fields.
    #[verifier::rlimit(100)]
    pub fn to_json(&self) -> (j: Json)
        ensures
            j@ == self@.wire(),
    {
        let mut pairs: Vec<(String, Json)> = Vec::new();
        let ghost g1 = opt_pair(
            "transactionDetails"@,
            opt_jmap(self@.transaction_details, |d: TransactionDetails| d.wire()),
        );
        let ghost g2 = opt_pair(
            "sortOrder"@,
            opt_jmap(self@.sort_order, |o: RpcTransactionsForAddressSortOrder| o.wire()),
        );
        let ghost g3 = opt_pair(
            "commitment"@,
            opt_jmap(self@.commitment, |c: CommitmentLevel| c.wire()),
        );
        let ghost g4 = opt_pair(
            "minContextSlot"@,
            opt_jmap(self@.min_context_slot, |n: u64| JVal::UInt(n)),
        );
        let ghost g5 = opt_pair("limit"@, opt_jmap(self@.limit, |n: u64| JVal::UInt(n)));
        let ghost g6 = opt_pair(
            "paginationToken"@,
            opt_jmap(self@.pagination_token, |s: Seq<char>| JVal::Str(s)),
        );
        let ghost g7 = opt_pair(
            "encoding"@,
            opt_jmap(self@.encoding, |e: UiTransactionEncoding| e.wire()),
        );
        let ghost g8 = opt_pair(
            "maxSupportedTransactionVersion"@,
            opt_jmap(self@.max_supported_transaction_version, |n: u8| JVal::UInt(n as u64)),
        );
        let ghost g9 = opt_pair("filters"@, opt_jmap(self@.filters, |f: FiltersView| f.wire()));
        push_opt_pair(
            &mut pairs,
            "transactionDetails",
            match &self.transaction_details {
                Some(d) => Some(d.to_json()),
                None => None,
            },
        );
        push_opt_pair(
            &mut pairs,
            "sortOrder",
            match &self.sort_order {
                Some(o) => Some(o.to_json()),
                None => None,
            },
        );
        push_opt_pair(
            &mut pairs,
            "commitment",
            match &self.commitment {
                Some(c) => Some(c.to_json()),
                None => None,
            },
        );
        push_opt_pair(
            &mut pairs,
            "minContextSlot",
            match self.min_context_slot {
                Some(n) => Some(Json::UInt(n)),
                None => None,
            },
        );
        push_opt_pair(
            &mut pairs,
            "limit",
            match self.limit {
                Some(n) => Some(Json::UInt(n)),
                None => None,
            },
        );
        push_opt_pair(
            &mut pairs,
            "paginationToken",
            match &self.pagination_token {
                Some(s) => Some(Json::Str(s.clone())),
                None => None,
            },
        );
        push_opt_pair(
            &mut pairs,
            "encoding",
            match &self.encoding {
                Some(e) => Some(e.to_json()),
                None => None,
            },
        );
        push_opt_pair(
            &mut pairs,
            "maxSupportedTransactionVersion",
            match self.max_supported_transaction_version {
                Some(n) => Some(Json::UInt(n as u64)),
                None => None,
            },
        );
        push_opt_pair(
            &mut pairs,
            "filters",
            match &self.filters {
                Some(f) => Some(f.to_json()),
                None => None,
            },
        );
        proof {
            assert(Seq::<(Seq<char>, JVal)>::empty() + g1 =~= g1);
            assert(jpairs_of(pairs@) == self@.wire_pairs());
        }
        Json::Obj(pairs)
    }

    /// Parses the configuration back from a wire tree. A commitment
    /// literal outside the documented set is surfaced as a decode error,
    /// never coerced; any field of the wrong structural kind is a decode
    /// error as well.
    pub fn from_json(j: &Json) -> (r: Result<Self, DecodeError>)
        ensures
            res_agrees(r, TransactionsForAddressConfigView::parse(j@)),
    {
        match j {
            Json::Obj(pairs) => {
                let transaction_details = match json_obj_get(pairs, "transactionDetails") {
                    None => None,
                    Some(sub) => match TransactionDetails::from_json(sub) {
                        Ok(v) => Some(v),
                        Err(e) => return Err(e),
                    },
                };
                let sort_order = match json_obj_get(pairs, "sortOrder") {
                    None => None,
                    Some(sub) => match RpcTransactionsForAddressSortOrder::from_json(sub) {
                        Ok(v) => Some(v),
                        Err(e) => return Err(e),
                    },
                };
                let commitment = match json_obj_get(pairs, "commitment") {
                    None => None,
                    Some(sub) => match CommitmentLevel::from_json(sub) {
                        Ok(v) => Some(v),
                        Err(e) => return Err(e),
                    },
                };
                let min_context_slot = match get_opt_u64(pairs, "minContextSlot") {
                    Ok(v) => v,
                    Err(e) => return Err(e),
                };
                let limit = match get_opt_u64(pairs, "limit") {
                    Ok(v) => v,
                    Err(e) => return Err(e),
                };
                let pagination_token = match get_opt_string(pairs, "paginationToken") {
                    Ok(v) => v,
                    Err(e) => return Err(e),
                };
                let encoding = match json_obj_get(pairs, "encoding") {
                    None => None,
                    Some(sub) => match UiTransactionEncoding::from_json(sub) {
                        Ok(v) => Some(v),
                        Err(e) => return Err(e),
                    },
                };
                let max_supported_transaction_version = match get_opt_u8(
                    pairs,
                    "maxSupportedTransactionVersion",
                ) {
                    Ok(v) => v,
                    Err(e) => return Err(e),
                };
                let filters = match json_obj_get(pairs, "filters") {
                    None => None,
                    Some(sub) => match RpcTransactionsForAddressFilters::from_json(sub) {
                        Ok(v) => Some(v),
                        Err(e) => return Err(e),
                    },
                };
                Ok(
                    RpcTransactionsForAddressConfig {
                        transaction_details,
                        sort_order,
                        commitment,
                        min_context_slot,
                        limit,
                        pagination_token,
                        encoding,
                        max_supported_transaction_version,
                        filters,
                    },
                )
            },
            _ => Err(DecodeError::WrongType),
        }
    }
}

impl Default for RpcTransactionsForAddressConfig {
    fn default() -> (r: Self)
        ensures
            r@ == (TransactionsForAddressConfigView {
                transaction_details: None,
                sort_order: None,
                commitment: None,
                min_context_slot: None,
                limit: None,
                pagination_token: None,
                encoding: None,
                max_supported_transaction_version: None,
                filters: None,
            }),
    {
        Self::new_default()
    }
}

impl Clone for RpcTransactionsForAddressConfig {
    fn clone(&self) -> (r: Self)
        ensures
            r@ == self@,
    {
        RpcTransactionsForAddressConfig {
            transaction_details: self.transaction_details,
            sort_order: self.sort_order,
            commitment: self.commitment,
            min_context_slot: self.min_context_slot,
            limit: self.limit,
            pagination_token: clone_opt_string(&self.pagination_token),
            encoding: self.encoding,
            max_supported_transaction_version: self.max_supported_transaction_version,
            filters: match &self.filters {
                Some(f) => Some(f.clone()),
                None => None,
            },
        }
    }
}

/// Equality of optional detail levels.
fn opt_transaction_details_eq(
    a: &Option<TransactionDetails>,
    b: &Option<TransactionDetails>,
) -> (r: bool)
    ensures
        r == (a == b),
{
    match (a, b) {
        (Some(x), Some(y)) => x == y,
        (None, None) => true,
        _ => false,
    }
}

/// Equality of optional sort orders.
fn opt_sort_order_eq(
    a: &Option<RpcTransactionsForAddressSortOrder>,
    b: &Option<RpcTransactionsForAddressSortOrder>,
) -> (r: bool)
    ensures
        r == (a == b),
{
    match (a, b) {
        (Some(x), Some(y)) => x == y,
        (None, None) => true,
        _ => false,
    }
}

/// Equality of optional commitment levels.
fn opt_commitment_eq(a: &Option<CommitmentLevel>, b: &Option<CommitmentLevel>) -> (r: bool)
    ensures
        r == (a == b),
{
    match (a, b) {
        (Some(x), Some(y)) => x == y,
        (None, None) => true,
        _ => false,
    }
}

/// Equality of optional transaction encodings.
fn opt_transaction_encoding_eq(
    a: &Option<UiTransactionEncoding>,
    b: &Option<UiTransactionEncoding>,
) -> (r: bool)
    ensures
        r == (a == b),
{
    match (a, b) {
        (Some(x), Some(y)) => x == y,
        (None, None) => true,
        _ => false,
    }
}

/// Equality of optional filter sets.
fn opt_filters_eq(
    a: &Option<RpcTransactionsForAddressFilters>,
    b: &Option<RpcTransactionsForAddressFilters>,
) -> (r: bool)
    ensures
        r == (opt_view(*a) == opt_view(*b)),
{
    match (a, b) {
        (Some(x), Some(y)) => x == y,
        (None, None) => true,
        _ => false,
    }
}

impl PartialEq for RpcTransactionsForAddressConfig {
    fn eq(&self, other: &Self) -> (r: bool) {
        opt_transaction_details_eq(&self.transaction_details, &other.transaction_details)
            && opt_sort_order_eq(&self.sort_order, &other.sort_order) && opt_commitment_eq(
            &self.commitment,
            &other.commitment,
        ) && opt_u64_eq(&self.min_context_slot, &other.min_context_slot) && opt_u64_eq(
            &self.limit,
            &other.limit,
        ) && opt_string_eq(&self.pagination_token, &other.pagination_token)
            && opt_transaction_encoding_eq(&self.encoding, &other.encoding) && opt_u8_eq(
            &self.max_supported_transaction_version,
            &other.max_supported_transaction_version,
        ) && opt_filters_eq(&self.filters, &other.filters)
    }
}

impl Eq for RpcTransactionsForAddressConfig {

}

impl vstd::std_specs::cmp::PartialEqSpecImpl for RpcTransactionsForAddressConfig {
    open spec fn obeys_eq_spec() -> bool {
        true
    }

    open spec fn eq_spec(&self, other: &Self) -> bool {
        self@ == other@
    }
}

/// Equality of address-history configurations is structural over every
/// field.
pub proof fn lemma_txs_for_address_config_eq_is_structural(
    a: TransactionsForAddressConfigView,
    b: TransactionsForAddressConfigView,
)
    ensures
        (a == b) <==> (a.transaction_details == b.transaction_details && a.sort_order
            == b.sort_order && a.commitment == b.commitment && a.min_context_slot
            == b.min_context_slot && a.limit == b.limit && a.pagination_token == b.pagination_token
            && a.encoding == b.encoding && a.max_supported_transaction_version
            == b.max_supported_transaction_version && a.filters == b.filters),
{
}

/// The wire form of an address-history configuration holds exactly the
/// present fields, each under its documented camelCase name.
pub proof fn lemma_txs_for_address_config_wire_members(v: TransactionsForAddressConfigView)
    ensures
        obj_get(v.wire_pairs(), "transactionDetails"@) == opt_jmap(
            v.transaction_details,
            |d: TransactionDetails| d.wire(),
        ),
        obj_get(v.wire_pairs(), "sortOrder"@) == opt_jmap(
            v.sort_order,
            |o: RpcTransactionsForAddressSortOrder| o.wire(),
        ),
        obj_get(v.wire_pairs(), "commitment"@) == opt_jmap(
            v.commitment,
            |c: CommitmentLevel| c.wire(),
        ),
        obj_get(v.wire_pairs(), "minContextSlot"@) == opt_jmap(
            v.min_context_slot,
            |n: u64| JVal::UInt(n),
        ),
        obj_get(v.wire_pairs(), "limit"@) == opt_jmap(v.limit, |n: u64| JVal::UInt(n)),
        obj_get(v.wire_pairs(), "paginationToken"@) == opt_jmap(
            v.pagination_token,
            |s: Seq<char>| JVal::Str(s),
        ),
        obj_get(v.wire_pairs(), "encoding"@) == opt_jmap(
            v.encoding,
            |e: UiTransactionEncoding| e.wire(),
        ),
        obj_get(v.wire_pairs(), "maxSupportedTransactionVersion"@) == opt_jmap(
            v.max_supported_transaction_version,
            |n: u8| JVal::UInt(n as u64),
        ),
        obj_get(v.wire_pairs(), "filters"@) == opt_jmap(v.filters, |f: FiltersView| f.wire()),
{
    reveal_strlit("transactionDetails");
    reveal_strlit("sortOrder");
    reveal_strlit("commitment");
    reveal_strlit("minContextSlot");
    reveal_strlit("limit");
    reveal_strlit("paginationToken");
    reveal_strlit("encoding");
    reveal_strlit("maxSupportedTransactionVersion");
    reveal_strlit("filters");
    let g1 = opt_pair(
        "transactionDetails"@,
        opt_jmap(v.transaction_details, |d: TransactionDetails| d.wire()),
    );
    let g2 = opt_pair(
        "sortOrder"@,
        opt_jmap(v.sort_order, |o: RpcTransactionsForAddressSortOrder| o.wire()),
    );
    let g3 = opt_pair("commitment"@, opt_jmap(v.commitment, |c: CommitmentLevel| c.wire()));
    let g4 = opt_pair("minContextSlot"@, opt_jmap(v.min_context_slot, |n: u64| JVal::UInt(n)));
    let g5 = opt_pair("limit"@, opt_jmap(v.limit, |n: u64| JVal::UInt(n)));
    let g6 = opt_pair("paginationToken"@, opt_jmap(v.pagination_token, |s: Seq<char>| JVal::Str(s)));
    let g7 = opt_pair("encoding"@, opt_jmap(v.encoding, |e: UiTransactionEncoding| e.wire()));
    let g8 = opt_pair(
        "maxSupportedTransactionVersion"@,
        opt_jmap(v.max_supported_transaction_version, |n: u8| JVal::UInt(n as u64)),
    );
    let g9 = opt_pair("filters"@, opt_jmap(v.filters, |f: FiltersView| f.wire()));
    lemma_obj_get_opt_pair(
        "transactionDetails"@,
        opt_jmap(v.transaction_details, |d: TransactionDetails| d.wire()),
    );
    lemma_obj_get_opt_pair(
        "sortOrder"@,
        opt_jmap(v.sort_order, |o: RpcTransactionsForAddressSortOrder| o.wire()),
    );
    lemma_obj_get_opt_pair("commitment"@, opt_jmap(v.commitment, |c: CommitmentLevel| c.wire()));
    lemma_obj_get_opt_pair(
        "minContextSlot"@,
        opt_jmap(v.min_context_slot, |n: u64| JVal::UInt(n)),
    );
    lemma_obj_get_opt_pair("limit"@, opt_jmap(v.limit, |n: u64| JVal::UInt(n)));
    lemma_obj_get_opt_pair(
        "paginationToken"@,
        opt_jmap(v.pagination_token, |s: Seq<char>| JVal::Str(s)),
    );
    lemma_obj_get_opt_pair("encoding"@, opt_jmap(v.encoding, |e: UiTransactionEncoding| e.wire()));
    lemma_obj_get_opt_pair(
        "maxSupportedTransactionVersion"@,
        opt_jmap(v.max_supported_transaction_version, |n: u8| JVal::UInt(n as u64)),
    );
    lemma_obj_get_opt_pair("filters"@, opt_jmap(v.filters, |f: FiltersView| f.wire()));
    assert("sortOrder"@.len() != "transactionDetails"@.len());
    assert("commitment"@.len() != "transactionDetails"@.len());
    assert("commitment"@.len() != "sortOrder"@.len());
    assert("minContextSlot"@.len() != "transactionDetails"@.len());
    assert("minContextSlot"@.len() != "sortOrder"@.len());
    assert("minContextSlot"@.len() != "commitment"@.len());
    assert("limit"@.len() != "transactionDetails"@.len());
    assert("limit"@.len() != "sortOrder"@.len());
    assert("limit"@.len() != "commitment"@.len());
    assert("limit"@.len() != "minContextSlot"@.len());
    assert("paginationToken"@.len() != "transactionDetails"@.len());
    assert("paginationToken"@.len() != "sortOrder"@.len());
    assert("paginationToken"@.len() != "commitment"@.len());
    assert("paginationToken"@.len() != "minContextSlot"@.len());
    assert("paginationToken"@.len() != "limit"@.len());
    assert("encoding"@.len() != "transactionDetails"@.len());
    assert("encoding"@.len() != "sortOrder"@.len());
    assert("encoding"@.len() != "commitment"@.len());
    assert("encoding"@.len() != "minContextSlot"@.len());
    assert("encoding"@.len() != "limit"@.len());
    assert("encoding"@.len() != "paginationToken"@.len());
    assert("maxSupportedTransactionVersion"@.len() != "transactionDetails"@.len());
    assert("maxSupportedTransactionVersion"@.len() != "sortOrder"@.len());
    assert("maxSupportedTransactionVersion"@.len() != "commitment"@.len());
    assert("maxSupportedTransactionVersion"@.len() != "minContextSlot"@.len());
    assert("maxSupportedTransactionVersion"@.len() != "limit"@.len());
    assert("maxSupportedTransactionVersion"@.len() != "paginationToken"@.len());
    assert("maxSupportedTransactionVersion"@.len() != "encoding"@.len());
    assert("filters"@.len() != "transactionDetails"@.len());
    assert("filters"@.len() != "sortOrder"@.len());
    assert("filters"@.len() != "commitment"@.len());
    assert("filters"@.len() != "minContextSlot"@.len());
    assert("filters"@.len() != "limit"@.len());
    assert("filters"@.len() != "paginationToken"@.len());
    assert("filters"@.len() != "encoding"@.len());
    assert("filters"@.len() != "maxSupportedTransactionVersion"@.len());
    lemma_obj_get_concat_all(g1, g2);
    lemma_obj_get_concat_all(g1 + g2, g3);
    lemma_obj_get_concat_all(g1 + g2 + g3, g4);
    lemma_obj_get_concat_all(g1 + g2 + g3 + g4, g5);
    lemma_obj_get_concat_all(g1 + g2 + g3 + g4 + g5, g6);
    lemma_obj_get_concat_all(g1 + g2 + g3 + g4 + g5 + g6, g7);
    lemma_obj_get_concat_all(g1 + g2 + g3 + g4 + g5 + g6 + g7, g8);
    lemma_obj_get_concat_all(g1 + g2 + g3 + g4 + g5 + g6 + g7 + g8, g9);
}

/// Every address-history configuration parses back from its own wire form.
#[verifier::rlimit(60)]
pub proof fn lemma_txs_for_address_config_round_trip(v: TransactionsForAddressConfigView)
    ensures
        TransactionsForAddressConfigView::parse(v.wire())
            == Ok::<TransactionsForAddressConfigView, DecodeError>(v),
{
    lemma_txs_for_address_config_wire_members(v);
    match v.transaction_details {
        Some(d) => crate::primitives::lemma_transaction_details_round_trip(d),
        None => {},
    }
    match v.sort_order {
        Some(o) => lemma_sort_order_round_trip(o),
        None => {},
    }
    match v.commitment {
        Some(c) => crate::primitives::lemma_commitment_round_trip(c),
        None => {},
    }
    match v.encoding {
        Some(e) => crate::primitives::lemma_transaction_encoding_round_trip(e),
        None => {},
    }
    match v.filters {
        Some(f) => lemma_filters_round_trip(f),
        None => {},
    }
}

impl RpcTransactionsForAddressSlotRange {
    /// Encodes the slot-range filter to its compact binary form.
    pub fn to_bytes(&self) -> (out: Vec<u8>)
        ensures
            out@ == crate::codec::enc_jval(self@.wire()),
    {
        crate::codec::encode(&self.to_json())
    }

    /// Decodes a slot-range filter from its compact binary form; malformed bytes
    /// and bytes not matching the schema are decode errors.
    pub fn from_bytes(bytes: &Vec<u8>) -> (r: Result<Self, DecodeError>)
        ensures
            match crate::codec::decode_spec(bytes@) {
                Ok(j) => res_agrees(r, SlotRangeView::parse(j)),
                Err(e) => r == Err::<Self, DecodeError>(e),
            },
    {
        match crate::codec::decode(bytes) {
            Ok(j) => Self::from_json(&j),
            Err(e) => Err(e),
        }
    }
}

impl RpcTransactionsForAddressBlockTimeRange {
    /// Encodes the block-time range filter to its compact binary form.
    pub fn to_bytes(&self) -> (out: Vec<u8>)
        ensures
            out@ == crate::codec::enc_jval(self@.wire()),
    {
        crate::codec::encode(&self.to_json())
    }

    /// Decodes a block-time range filter from its compact binary form; malformed bytes
    /// and bytes not matching the schema are decode errors.
    pub fn from_bytes(bytes: &Vec<u8>) -> (r: Result<Self, DecodeError>)
        ensures
            match crate::codec::decode_spec(bytes@) {
                Ok(j) => res_agrees(r, BlockTimeRangeView::parse(j)),
                Err(e) => r == Err::<Self, DecodeError>(e),
            },
    {
        match crate::codec::decode(bytes) {
            Ok(j) => Self::from_json(&j),
            Err(e) => Err(e),
        }
    }
}

impl RpcTransactionsForAddressSignatureRange {
    /// Encodes the signature-range filter to its compact binary form.
    pub fn to_bytes(&self) -> (out: Vec<u8>)
        ensures
            out@ == crate::codec::enc_jval(self@.wire()),
    {
        crate::codec::encode(&self.to_json())
    }

    /// Decodes a signature-range filter from its compact binary form; malformed bytes
    /// and bytes not matching the schema are decode errors.
    pub fn from_bytes(bytes: &Vec<u8>) -> (r: Result<Self, DecodeError>)
        ensures
            match crate::codec::decode_spec(bytes@) {
                Ok(j) => res_agrees(r, SignatureRangeView::parse(j)),
                Err(e) => r == Err::<Self, DecodeError>(e),
            },
    {
        match crate::codec::decode(bytes) {
            Ok(j) => Self::from_json(&j),
            Err(e) => Err(e),
        }
    }
}

impl RpcTransactionsForAddressFilters {
    /// Encodes the filter set to its compact binary form.
    pub fn to_bytes(&self) -> (out: Vec<u8>)
        ensures
            out@ == crate::codec::enc_jval(self@.wire()),
    {
        crate::codec::encode(&self.to_json())
    }

    /// Decodes a filter set from its compact binary form; malformed bytes
    /// and bytes not matching the schema are decode errors.
    pub fn from_bytes(bytes: &Vec<u8>) -> (r: Result<Self, DecodeError>)
        ensures
            match crate::codec::decode_spec(bytes@) {
                Ok(j) => res_agrees(r, FiltersView::parse(j)),
                Err(e) => r == Err::<Self, DecodeError>(e),
            },
    {
        match crate::codec::decode(bytes) {
            Ok(j) => Self::from_json(&j),
            Err(e) => Err(e),
        }
    }
}

impl RpcTransactionsForAddressConfig {
    /// Encodes the configuration to its compact binary form.
    pub fn to_bytes(&self) -> (out: Vec<u8>)
        ensures
            out@ == crate::codec::enc_jval(self@.wire()),
    {
        crate::codec::encode(&self.to_json())
    }

    /// Decodes a configuration from its compact binary form; malformed bytes
    /// and bytes not matching the schema are decode errors.
    pub fn from_bytes(bytes: &Vec<u8>) -> (r: Result<Self, DecodeError>)
        ensures
            match crate::codec::decode_spec(bytes@) {
                Ok(j) => res_agrees(r, TransactionsForAddressConfigView::parse(j)),
                Err(e) => r == Err::<Self, DecodeError>(e),
            },
    {
        match crate::codec::decode(bytes) {
            Ok(j) => Self::from_json(&j),
            Err(e) => Err(e),
        }
    }
}

/// The binary round trip of a slot-range filter: encoding its wire tree and
/// decoding the bytes yields the tree back, and parsing the tree yields
/// an equal value. The one premise is the machine limit that every count
/// in the tree fits the codec's fixed-width count field, which holds of
/// every value held in memory.
pub proof fn lemma_slot_range_binary_round_trip(v: SlotRangeView)
    requires
        crate::codec::jval_wf(v.wire()),
    ensures
        crate::codec::decode_spec(crate::codec::enc_jval(v.wire())) == Ok::<JVal, DecodeError>(
            v.wire(),
        ),
        SlotRangeView::parse(v.wire()) == Ok::<SlotRangeView, DecodeError>(v),
{
    crate::codec::lemma_codec_round_trip(v.wire());
    lemma_slot_range_round_trip(v);
}

/// The binary round trip of a block-time range filter: encoding its wire tree and
/// decoding the bytes yields the tree back, and parsing the tree yields
/// an equal value. The one premise is the machine limit that every count
/// in the tree fits the codec's fixed-width count field, which holds of
/// every value held in memory.
pub proof fn lemma_block_time_range_binary_round_trip(v: BlockTimeRangeView)
    requires
        crate::codec::jval_wf(v.wire()),
    ensures
        crate::codec::decode_spec(crate::codec::enc_jval(v.wire())) == Ok::<JVal, DecodeError>(
            v.wire(),
        ),
        BlockTimeRangeView::parse(v.wire()) == Ok::<BlockTimeRangeView, DecodeError>(v),
{
    crate::codec::lemma_codec_round_trip(v.wire());
    lemma_block_time_range_round_trip(v);
}

/// The binary round trip of a signature-range filter: encoding its wire tree and
/// decoding the bytes yields the tree back, and parsing the tree yields
/// an equal value. The one premise is the machine limit that every count
/// in the tree fits the codec's fixed-width count field, which holds of
/// every value held in memory.
pub proof fn lemma_signature_range_binary_round_trip(v: SignatureRangeView)
    requires
        crate::codec::jval_wf(v.wire()),
    ensures
        crate::codec::decode_spec(crate::codec::enc_jval(v.wire())) == Ok::<JVal, DecodeError>(
            v.wire(),
        ),
        SignatureRangeView::parse(v.wire()) == Ok::<SignatureRangeView, DecodeError>(v),
{
    crate::codec::lemma_codec_round_trip(v.wire());
    lemma_signature_range_round_trip(v);
}

/// The binary round trip of a filter set: encoding its wire tree and
/// decoding the bytes yields the tree back, and parsing the tree yields
/// an equal value. The one premise is the machine limit that every count
/// in the tree fits the codec's fixed-width count field, which holds of
/// every value held in memory.
pub proof fn lemma_filters_binary_round_trip(v: FiltersView)
    requires
        crate::codec::jval_wf(v.wire()),
    ensures
        crate::codec::decode_spec(crate::codec::enc_jval(v.wire())) == Ok::<JVal, DecodeError>(
            v.wire(),
        ),
        FiltersView::parse(v.wire()) == Ok::<FiltersView, DecodeError>(v),
{
    crate::codec::lemma_codec_round_trip(v.wire());
    lemma_filters_round_trip(v);
}

/// The binary round trip of a address-history configuration: encoding its wire tree and
/// decoding the bytes yields the tree back, and parsing the tree yields
/// an equal value. The one premise is the machine limit that every count
/// in the tree fits the codec's fixed-width count field, which holds of
/// every value held in memory.
pub proof fn lemma_txs_for_address_config_binary_round_trip(v: TransactionsForAddressConfigView)
    requires
        crate::codec::jval_wf(v.wire()),
    ensures
        crate::codec::decode_spec(crate::codec::enc_jval(v.wire())) == Ok::<JVal, DecodeError>(
            v.wire(),
        ),
        TransactionsForAddressConfigView::parse(v.wire()) == Ok::<TransactionsForAddressConfigView, DecodeError>(v),
{
    crate::codec::lemma_codec_round_trip(v.wire());
    lemma_txs_for_address_config_round_trip(v);
}

impl RpcTransactionsForAddressSlotRange {
    /// A deterministic human-readable rendering: the wire JSON text.
    /// It carries no contract beyond being determined by the field values.
    pub fn json_text(&self) -> (r: String)
        ensures
            r@ == crate::text::text_of(self@.wire()),
    {
        crate::text::render(&self.to_json())
    }
}

impl RpcTransactionsForAddressBlockTimeRange {
    /// A deterministic human-readable rendering: the wire JSON text.
    /// It carries no contract beyond being determined by the field values.
    pub fn json_text(&self) -> (r: String)
        ensures
            r@ == crate::text::text_of(self@.wire()),
    {
        crate::text::render(&self.to_json())
    }
}

impl RpcTransactionsForAddressSignatureRange {
    /// A deterministic human-readable rendering: the wire JSON text.
    /// It carries no contract beyond being determined by the field values.
    pub fn json_text(&self) -> (r: String)
        ensures
            r@ == crate::text::text_of(self@.wire()),
    {
        crate::text::render(&self.to_json())
    }
}

impl RpcTransactionsForAddressFilters {
    /// A deterministic human-readable rendering: the wire JSON text.
    /// It carries no contract beyond being determined by the field values.
    pub fn json_text(&self) -> (r: String)
        ensures
            r@ == crate::text::text_of(self@.wire()),
    {
        crate::text::render(&self.to_json())
    }
}

impl RpcTransactionsForAddressConfig {
    /// A deterministic human-readable rendering: the wire JSON text.
    /// It carries no contract beyond being determined by the field values.
    pub fn json_text(&self) -> (r: String)
        ensures
            r@ == crate::text::text_of(self@.wire()),
    {
        crate::text::render(&self.to_json())
    }
}

} // verus!
