//! Configuration model for bundle simulation: per-transaction account
//! capture, the shape-discriminated simulation-bank selector, and the
//! bundle-simulation configuration object.

use vstd::prelude::*;
use crate::primitives::{CommitmentLevel, UiAccountEncoding, UiTransactionEncoding};
use crate::json::{
    DecodeError, Json, JVal, jpairs_of, jvals_of, jval_of, lemma_jpairs_of, lemma_jvals_of,
    lemma_jvals_push, obj_get, opt_jmap, opt_pair, opt_view, req_pair, parse_opt_sub, parse_seq,
    parse_bool_or_false, lemma_parse_seq_extend, lemma_parse_seq_round_trip, push_opt_pair,
    push_pair, get_bool_or_false, json_obj_get, lemma_obj_get_opt_pair, lemma_obj_get_req_pair,
    lemma_obj_get_concat_all, res_agrees, str_eq, str_of_jval, strs_view, strings_to_json,
    strings_from_json,
};

verus! {

/// Model of an account-capture configuration.
pub ghost struct AccountsConfigView {
    pub addresses: Seq<Seq<char>>,
    pub encoding: Option<UiAccountEncoding>,
}

/// Account-capture configuration used around one simulated transaction:
/// which account addresses to capture, and in which encoding. The address
/// list is required; the encoding is optional.
#[derive(Debug)]
pub struct RpcSimulateBundleAccountsConfig {
    addresses: Vec<String>,
    encoding: Option<UiAccountEncoding>,
}

impl View for RpcSimulateBundleAccountsConfig {
    type V = AccountsConfigView;

    closed spec fn view(&self) -> AccountsConfigView {
        AccountsConfigView { addresses: strs_view(self.addresses@), encoding: self.encoding }
    }
}

impl AccountsConfigView {
    /// The wire members: the address list always present, the encoding
    /// omitted when absent.
    pub open spec fn wire_pairs(self) -> Seq<(Seq<char>, JVal)> {
        req_pair("addresses"@, JVal::Arr(self.addresses.map_values(|s: Seq<char>| JVal::Str(s))))
            + opt_pair("encoding"@, opt_jmap(self.encoding, |e: UiAccountEncoding| e.wire()))
    }

    pub open spec fn wire(self) -> JVal {
        JVal::Obj(self.wire_pairs())
    }

    pub open spec fn parse(v: JVal) -> Result<AccountsConfigView, DecodeError> {
        match v {
            JVal::Obj(ps) => {
                let addresses = match obj_get(ps, "addresses"@) {
                    Some(JVal::Arr(items)) => parse_seq(items, |jv: JVal| str_of_jval(jv)),
                    Some(_) => Err(DecodeError::WrongType),
                    None => Err(DecodeError::WrongType),
                };
                let encoding = parse_opt_sub(ps, "encoding"@, |jv: JVal| UiAccountEncoding::parse(jv));
                if addresses is Err {
                    Err(addresses->Err_0)
                } else if encoding is Err {
                    Err(encoding->Err_0)
                } else {
                    Ok(AccountsConfigView { addresses: addresses->Ok_0, encoding: encoding->Ok_0 })
                }
            },
            _ => Err(DecodeError::WrongType),
        }
    }
}

impl RpcSimulateBundleAccountsConfig {
    pub fn new(addresses: Vec<String>, encoding: Option<UiAccountEncoding>) -> (r: Self)
        ensures
            r@ == (AccountsConfigView { addresses: strs_view(addresses@), encoding }),
    {
        RpcSimulateBundleAccountsConfig { addresses, encoding }
    }

    pub fn addresses(&self) -> (r: Vec<String>)
        ensures
            strs_view(r@) == self@.addresses,
    {
        clone_strings(&self.addresses)
    }

    pub fn encoding(&self) -> (r: Option<UiAccountEncoding>)
        ensures
            r == self@.encoding,
    {
        self.encoding
    }

    /// Renders the configuration to its wire tree.
    pub fn to_json(&self) -> (j: Json)
        ensures
            j@ == self@.wire(),
    {
        let mut pairs: Vec<(String, Json)> = Vec::new();
        let ghost g1 = req_pair(
            "addresses"@,
            JVal::Arr(self@.addresses.map_values(|s: Seq<char>| JVal::Str(s))),
        );
        push_pair(&mut pairs, "addresses", strings_to_json(&self.addresses));
        proof {
            assert(jpairs_of(pairs@) =~= g1);
        }
        push_opt_pair(
            &mut pairs,
            "encoding",
            match &self.encoding {
                Some(e) => Some(e.to_json()),
                None => None,
            },
        );
        proof {
            assert(jpairs_of(pairs@) == self@.wire_pairs());
        }
        Json::Obj(pairs)
    }

    /// Parses the configuration back from a wire tree; a missing address
    /// list is a decode error.
    pub fn from_json(j: &Json) -> (r: Result<Self, DecodeError>)
        ensures
            res_agrees(r, AccountsConfigView::parse(j@)),
    {
        match j {
            Json::Obj(pairs) => {
                let addresses = match json_obj_get(pairs, "addresses") {
                    Some(sub) => match sub {
                        Json::Arr(items) => match strings_from_json(items) {
                            Ok(v) => v,
                            Err(e) => return Err(e),
                        },
                        _ => return Err(DecodeError::WrongType),
                    },
                    None => return Err(DecodeError::WrongType),
                };
                let encoding = match json_obj_get(pairs, "encoding") {
                    None => None,
                    Some(sub) => match UiAccountEncoding::from_json(sub) {
                        Ok(v) => Some(v),
                        Err(e) => return Err(e),
                    },
                };
                Ok(RpcSimulateBundleAccountsConfig { addresses, encoding })
            },
            _ => Err(DecodeError::WrongType),
        }
    }
}

/// Clones a list of strings, keeping their characters.
fn clone_strings(v: &Vec<String>) -> (r: Vec<String>)
    ensures
        strs_view(r@) == strs_view(v@),
{
    let mut out: Vec<String> = Vec::new();
    proof {
        assert(strs_view(out@) =~= strs_view(v@.take(0)));
    }
    let mut i: usize = 0;
    while i < v.len()
        invariant
            i <= v@.len(),
            strs_view(out@) =~= strs_view(v@.take(i as int)),
        decreases v@.len() - i,
    {
        let ghost snap = out@;
        out.push(v[i].clone());
        proof {
            assert(out@ =~= snap.push(out@.last()));
            assert(strs_view(v@.take(i as int + 1)) =~= strs_view(snap).push(v@[i as int]@));
        }
        i += 1;
    }
    proof {
        assert(v@.take(v@.len() as int) =~= v@);
    }
    out
}

/// Equality of string lists, as equality of their characters.
fn strings_eq(a: &Vec<String>, b: &Vec<String>) -> (r: bool)
    ensures
        r == (strs_view(a@) == strs_view(b@)),
{
    if a.len() != b.len() {
        proof {
            assert(strs_view(a@).len() != strs_view(b@).len());
        }
        return false;
    }
    let mut i: usize = 0;
    while i < a.len()
        invariant
            a@.len() == b@.len(),
            i <= a@.len(),
            forall|k: int| 0 <= k < i ==> a@[k]@ == b@[k]@,
        decreases a@.len() - i,
    {
        if !(a[i] == b[i]) {
            proof {
                assert(strs_view(a@)[i as int] != strs_view(b@)[i as int]);
            }
            return false;
        }
        i += 1;
    }
    proof {
        assert(strs_view(a@) =~= strs_view(b@));
    }
    true
}

impl Clone for RpcSimulateBundleAccountsConfig {
    fn clone(&self) -> (r: Self)
        ensures
            r@ == self@,
    {
        RpcSimulateBundleAccountsConfig {
            addresses: clone_strings(&self.addresses),
            encoding: self.encoding,
        }
    }
}

/// Equality of optional account encodings.
fn opt_account_encoding_eq(a: &Option<UiAccountEncoding>, b: &Option<UiAccountEncoding>) -> (r:
    bool)
    ensures
        r == (a == b),
{
    match (a, b) {
        (Some(x), Some(y)) => x == y,
        (None, None) => true,
        _ => false,
    }
}

impl PartialEq for RpcSimulateBundleAccountsConfig {
    fn eq(&self, other: &Self) -> (r: bool) {
        strings_eq(&self.addresses, &other.addresses) && opt_account_encoding_eq(
            &self.encoding,
            &other.encoding,
        )
    }
}

impl Eq for RpcSimulateBundleAccountsConfig {

}

impl vstd::std_specs::cmp::PartialEqSpecImpl for RpcSimulateBundleAccountsConfig {
    open spec fn obeys_eq_spec() -> bool {
        true
    }

    open spec fn eq_spec(&self, other: &Self) -> bool {
        self@ == other@
    }
}

/// Equality of account-capture configurations is structural over both
/// fields.
pub proof fn lemma_accounts_config_eq_is_structural(a: AccountsConfigView, b: AccountsConfigView)
    ensures
        (a == b) <==> (a.addresses == b.addresses && a.encoding == b.encoding),
{
}

/// The wire form of an account-capture configuration holds the address
/// list and exactly the present optional fields.
pub proof fn lemma_accounts_config_wire_members(v: AccountsConfigView)
    ensures
        obj_get(v.wire_pairs(), "addresses"@) == Some(
            JVal::Arr(v.addresses.map_values(|s: Seq<char>| JVal::Str(s))),
        ),
        obj_get(v.wire_pairs(), "encoding"@) == opt_jmap(
            v.encoding,
            |e: UiAccountEncoding| e.wire(),
        ),
{
    reveal_strlit("addresses");
    reveal_strlit("encoding");
    assert("encoding"@.len() != "addresses"@.len());
    let g1 = req_pair(
        "addresses"@,
        JVal::Arr(v.addresses.map_values(|s: Seq<char>| JVal::Str(s))),
    );
    let g2 = opt_pair("encoding"@, opt_jmap(v.encoding, |e: UiAccountEncoding| e.wire()));
    lemma_obj_get_req_pair(
        "addresses"@,
        JVal::Arr(v.addresses.map_values(|s: Seq<char>| JVal::Str(s))),
    );
    lemma_obj_get_opt_pair("encoding"@, opt_jmap(v.encoding, |e: UiAccountEncoding| e.wire()));
    lemma_obj_get_concat_all(g1, g2);
}

/// Every account-capture configuration parses back from its own wire form.
pub proof fn lemma_accounts_config_round_trip(v: AccountsConfigView)
    ensures
        AccountsConfigView::parse(v.wire()) == Ok::<AccountsConfigView, DecodeError>(v),
{
    lemma_accounts_config_wire_members(v);
    lemma_parse_seq_round_trip(
        v.addresses,
        |s: Seq<char>| JVal::Str(s),
        |jv: JVal| str_of_jval(jv),
    );
    match v.encoding {
        Some(e) => crate::primitives::lemma_account_encoding_round_trip(e),
        None => {},
    }
}

/// The ledger state a bundle is simulated against: the current tip, an
/// explicit slot, or the state at a commitment level. Exactly one shape
/// is active, and the wire form is discriminated by shape alone.
#[derive(Debug, Clone, Copy, PartialEq, Eq, Structural)]
pub enum RpcSimulateBundleSimulationBank {
    /// The literal marker `tip`.
    Tip,
    /// The shape `{"slot": <number>}`.
    Slot(u64),
    /// The shape `{"commitment": {"commitment": <level>}}`.
    Commitment(CommitmentLevel),
}

impl View for RpcSimulateBundleSimulationBank {
    type V = RpcSimulateBundleSimulationBank;

    open spec fn view(&self) -> RpcSimulateBundleSimulationBank {
        *self
    }
}

impl RpcSimulateBundleSimulationBank {
    /// The canonical wire form of the held variant; no tag beyond the
    /// shape itself is added.
    pub open spec fn wire(self) -> JVal {
        match self {
            RpcSimulateBundleSimulationBank::Tip => JVal::Str("tip"@),
            RpcSimulateBundleSimulationBank::Slot(n) => JVal::Obj(
                req_pair("slot"@, JVal::UInt(n)),
            ),
            RpcSimulateBundleSimulationBank::Commitment(c) => JVal::Obj(
                req_pair("commitment"@, JVal::Obj(req_pair("commitment"@, c.wire()))),
            ),
        }
    }

    /// Structural matching of the three known shapes, tried in fixed
    /// precedence order: the tip marker, then the slot shape, then the
    /// nested commitment shape. Data matching none of them is a
    /// shape-mismatch error; a commitment shape holding a literal outside
    /// the documented set is a decode error.
    pub open spec fn parse(v: JVal) -> Result<RpcSimulateBundleSimulationBank, DecodeError> {
        match v {
            JVal::Str(s) => if s == "tip"@ {
                Ok(RpcSimulateBundleSimulationBank::Tip)
            } else {
                Err(DecodeError::UnknownShape)
            },
            JVal::Obj(ps) => if ps.len() == 1 && ps[0].0 == "slot"@ {
                match ps[0].1 {
                    JVal::UInt(n) => Ok(RpcSimulateBundleSimulationBank::Slot(n)),
                    _ => Err(DecodeError::UnknownShape),
                }
            } else if ps.len() == 1 && ps[0].0 == "commitment"@ {
                match ps[0].1 {
                    JVal::Obj(inner) => if inner.len() == 1 && inner[0].0 == "commitment"@ {
                        match inner[0].1 {
                            JVal::Str(cs) => match CommitmentLevel::parse_str(cs) {
                                Ok(c) => Ok(RpcSimulateBundleSimulationBank::Commitment(c)),
                                Err(e) => Err(e),
                            },
                            _ => Err(DecodeError::UnknownShape),
                        }
                    } else {
                        Err(DecodeError::UnknownShape)
                    },
                    _ => Err(DecodeError::UnknownShape),
                }
            } else {
                Err(DecodeError::UnknownShape)
            },
            _ => Err(DecodeError::UnknownShape),
        }
    }

    /// Renders the selector to its canonical wire shape.
    pub fn to_json(&self) -> (j: Json)
        ensures
            j@ == self.wire(),
    {
        match self {
            RpcSimulateBundleSimulationBank::Tip => Json::Str("tip".to_owned()),
            RpcSimulateBundleSimulationBank::Slot(n) => {
                let mut pairs: Vec<(String, Json)> = Vec::new();
                push_pair(&mut pairs, "slot", Json::UInt(*n));
                proof {
                    assert(jpairs_of(pairs@) =~= req_pair("slot"@, JVal::UInt(*n)));
                }
                Json::Obj(pairs)
            },
            RpcSimulateBundleSimulationBank::Commitment(c) => {
                let mut inner: Vec<(String, Json)> = Vec::new();
                push_pair(&mut inner, "commitment", c.to_json());
                proof {
                    assert(jpairs_of(inner@) =~= req_pair("commitment"@, c.wire()));
                }
                let mut pairs: Vec<(String, Json)> = Vec::new();
                push_pair(&mut pairs, "commitment", Json::Obj(inner));
                proof {
                    assert(jpairs_of(pairs@) =~= req_pair(
                        "commitment"@,
                        JVal::Obj(req_pair("commitment"@, c.wire())),
                    ));
                }
                Json::Obj(pairs)
            },
        }
    }

    /// Parses generic structured data by trying the three known shapes in
    /// fixed precedence order; data matching none of them fails with a
    /// shape-mismatch error, never a silent default.
    pub fn from_json(j: &Json) -> (r: Result<RpcSimulateBundleSimulationBank, DecodeError>)
        ensures
            res_agrees(r, Self::parse(j@)),
    {
        match j {
            Json::Str(s) => {
                if str_eq(s.as_str(), "tip") {
                    Ok(RpcSimulateBundleSimulationBank::Tip)
                } else {
                    Err(DecodeError::UnknownShape)
                }
            },
            Json::Obj(pairs) => {
                proof {
                    lemma_jpairs_of(pairs@);
                }
                if pairs.len() == 1 && str_eq(pairs[0].0.as_str(), "slot") {
                    match &pairs[0].1 {
                        Json::UInt(n) => Ok(RpcSimulateBundleSimulationBank::Slot(*n)),
                        _ => Err(DecodeError::UnknownShape),
                    }
                } else if pairs.len() == 1 && str_eq(pairs[0].0.as_str(), "commitment") {
                    match &pairs[0].1 {
                        Json::Obj(inner) => {
                            proof {
                                lemma_jpairs_of(inner@);
                            }
                            if inner.len() == 1 && str_eq(inner[0].0.as_str(), "commitment") {
                                match &inner[0].1 {
                                    Json::Str(cs) => match CommitmentLevel::parse_wire(
                                        cs.as_str(),
                                    ) {
                                        Ok(c) => Ok(
                                            RpcSimulateBundleSimulationBank::Commitment(c),
                                        ),
                                        Err(e) => Err(e),
                                    },
                                    _ => Err(DecodeError::UnknownShape),
                                }
                            } else {
                                Err(DecodeError::UnknownShape)
                            }
                        },
                        _ => Err(DecodeError::UnknownShape),
                    }
                } else {
                    Err(DecodeError::UnknownShape)
                }
            },
            _ => Err(DecodeError::UnknownShape),
        }
    }
}

/// Every simulation-bank selector parses back from its own wire shape:
/// the shapes are mutually exclusive and the representation is
/// discriminated by shape alone.
pub proof fn lemma_simulation_bank_round_trip(v: RpcSimulateBundleSimulationBank)
    ensures
        RpcSimulateBundleSimulationBank::parse(v.wire()) == Ok::<
            RpcSimulateBundleSimulationBank,
            DecodeError,
        >(v),
{
    reveal_strlit("slot");
    reveal_strlit("commitment");
    match v {
        RpcSimulateBundleSimulationBank::Tip => {},
        RpcSimulateBundleSimulationBank::Slot(n) => {
            assert(req_pair("slot"@, JVal::UInt(n)).len() == 1);
        },
        RpcSimulateBundleSimulationBank::Commitment(c) => {
            let inner = req_pair("commitment"@, c.wire());
            let outer = req_pair("commitment"@, JVal::Obj(inner));
            assert(outer.len() == 1 && inner.len() == 1);
            assert("commitment"@ != "slot"@) by {
                assert("commitment"@.len() != "slot"@.len());
            }
            crate::primitives::lemma_commitment_round_trip(c);
        },
    }
}

/// The wire form of one per-transaction capture entry: the configuration
/// object, or `null` for a transaction without capture.
pub open spec fn opt_accounts_wire(o: Option<AccountsConfigView>) -> JVal {
    match o {
        Some(a) => a.wire(),
        None => JVal::Null,
    }
}

/// Parses one per-transaction capture entry: `null` means no capture.
pub open spec fn opt_accounts_of_jval(v: JVal) -> Result<Option<AccountsConfigView>, DecodeError> {
    match v {
        JVal::Null => Ok(None),
        _ => match AccountsConfigView::parse(v) {
            Ok(a) => Ok(Some(a)),
            Err(e) => Err(e),
        },
    }
}

/// The views of a per-transaction capture list.
pub open spec fn accounts_views(s: Seq<Option<RpcSimulateBundleAccountsConfig>>) -> Seq<
    Option<AccountsConfigView>,
> {
    s.map_values(|o: Option<RpcSimulateBundleAccountsConfig>| opt_view(o))
}

/// Renders a per-transaction capture list to a wire array.
fn accounts_list_to_json(v: &Vec<Option<RpcSimulateBundleAccountsConfig>>) -> (r: Json)
    ensures
        r@ == JVal::Arr(
            accounts_views(v@).map_values(|o: Option<AccountsConfigView>| opt_accounts_wire(o)),
        ),
{
    let mut items: Vec<Json> = Vec::new();
    proof {
        assert(jvals_of(items@) =~= accounts_views(v@.take(0)).map_values(
            |o: Option<AccountsConfigView>| opt_accounts_wire(o),
        ));
    }
    let mut i: usize = 0;
    while i < v.len()
        invariant
            i <= v@.len(),
            jvals_of(items@) =~= accounts_views(v@.take(i as int)).map_values(
                |o: Option<AccountsConfigView>| opt_accounts_wire(o),
            ),
        decreases v@.len() - i,
    {
        let ghost snap = items@;
        let rendered = match &v[i] {
            Some(a) => a.to_json(),
            None => Json::Null,
        };
        items.push(rendered);
        proof {
            lemma_jvals_push(snap, items@.last());
            assert(items@ =~= snap.push(items@.last()));
            assert(accounts_views(v@.take(i as int + 1)).map_values(
                |o: Option<AccountsConfigView>| opt_accounts_wire(o),
            ) =~= jvals_of(snap).push(opt_accounts_wire(opt_view(v@[i as int]))));
        }
        i += 1;
    }
    proof {
        assert(v@.take(v@.len() as int) =~= v@);
    }
    Json::Arr(items)
}

/// Parses a per-transaction capture list from a wire array.
fn accounts_list_from_json(items: &Vec<Json>) -> (r: Result<
    Vec<Option<RpcSimulateBundleAccountsConfig>>,
    DecodeError,
>)
    ensures
        match r {
            Ok(v) => parse_seq(jvals_of(items@), |jv: JVal| opt_accounts_of_jval(jv)) == Ok::<
                Seq<Option<AccountsConfigView>>,
                DecodeError,
            >(accounts_views(v@)),
            Err(e) => parse_seq(jvals_of(items@), |jv: JVal| opt_accounts_of_jval(jv)) == Err::<
                Seq<Option<AccountsConfigView>>,
                DecodeError,
            >(e),
        },
{
    proof {
        lemma_jvals_of(items@);
    }
    let ghost all = jvals_of(items@);
    let ghost f = |jv: JVal| opt_accounts_of_jval(jv);
    let mut out: Vec<Option<RpcSimulateBundleAccountsConfig>> = Vec::new();
    proof {
        assert(all.take(0) =~= Seq::<JVal>::empty());
        assert(accounts_views(out@) =~= Seq::<Option<AccountsConfigView>>::empty());
    }
    let mut i: usize = 0;
    while i < items.len()
        invariant
            i <= items@.len(),
            all == jvals_of(items@),
            all.len() == items@.len(),
            forall|k: int| 0 <= k < items@.len() ==> all[k] == jval_of(items@[k]),
            f == (|jv: JVal| opt_accounts_of_jval(jv)),
            parse_seq(all.take(i as int), f) == Ok::<Seq<Option<AccountsConfigView>>, DecodeError>(
                accounts_views(out@),
            ),
        decreases items@.len() - i,
    {
        let ghost snap_out = out@;
        proof {
            assert(all.take(i as int + 1).drop_last() =~= all.take(i as int));
            assert(all.take(i as int + 1).last() == all[i as int]);
        }
        match &items[i] {
            Json::Null => {
                out.push(None);
            },
            sub => {
                match RpcSimulateBundleAccountsConfig::from_json(sub) {
                    Ok(a) => {
                        out.push(Some(a));
                    },
                    Err(e) => {
                        proof {
                            assert(parse_seq(all.take(i as int + 1), f) is Err);
                            lemma_parse_seq_extend(all, i as int + 1, f);
                        }
                        return Err(e);
                    },
                }
            },
        }
        proof {
            assert(out@ =~= snap_out.push(out@.last()));
            assert(accounts_views(out@) =~= accounts_views(snap_out).push(opt_view(out@.last())));
        }
        i += 1;
    }
    proof {
        assert(all.take(items@.len() as int) =~= all);
    }
    Ok(out)
}

/// Clones a per-transaction capture list.
fn clone_accounts_list(v: &Vec<Option<RpcSimulateBundleAccountsConfig>>) -> (r: Vec<
    Option<RpcSimulateBundleAccountsConfig>,
>)
    ensures
        accounts_views(r@) == accounts_views(v@),
{
    let mut out: Vec<Option<RpcSimulateBundleAccountsConfig>> = Vec::new();
    proof {
        assert(accounts_views(out@) =~= accounts_views(v@.take(0)));
    }
    let mut i: usize = 0;
    while i < v.len()
        invariant
            i <= v@.len(),
            accounts_views(out@) =~= accounts_views(v@.take(i as int)),
        decreases v@.len() - i,
    {
        let ghost snap = out@;
        let copy = match &v[i] {
            Some(a) => Some(a.clone()),
            None => None,
        };
        out.push(copy);
        proof {
            assert(out@ =~= snap.push(out@.last()));
            assert(accounts_views(v@.take(i as int + 1)) =~= accounts_views(snap).push(
                opt_view(v@[i as int]),
            ));
        }
        i += 1;
    }
    proof {
        assert(v@.take(v@.len() as int) =~= v@);
    }
    out
}

/// Equality of per-transaction capture lists.
fn accounts_list_eq(
    a: &Vec<Option<RpcSimulateBundleAccountsConfig>>,
    b: &Vec<Option<RpcSimulateBundleAccountsConfig>>,
) -> (r: bool)
    ensures
        r == (accounts_views(a@) == accounts_views(b@)),
{
    if a.len() != b.len() {
        proof {
            assert(accounts_views(a@).len() != accounts_views(b@).len());
        }
        return false;
    }
    let mut i: usize = 0;
    while i < a.len()
        invariant
            a@.len() == b@.len(),
            i <= a@.len(),
            forall|k: int| 0 <= k < i ==> opt_view(a@[k]) == opt_view(b@[k]),
        decreases a@.len() - i,
    {
        let same = match (&a[i], &b[i]) {
            (Some(x), Some(y)) => x == y,
            (None, None) => true,
            _ => false,
        };
        if !same {
            proof {
                assert(accounts_views(a@)[i as int] != accounts_views(b@)[i as int]);
            }
            return false;
        }
        i += 1;
    }
    proof {
        assert(accounts_views(a@) =~= accounts_views(b@));
    }
    true
}

/// Model of a bundle-simulation configuration.
pub ghost struct SimulateBundleConfigView {
    pub pre_execution_accounts_configs: Seq<Option<AccountsConfigView>>,
    pub post_execution_accounts_configs: Seq<Option<AccountsConfigView>>,
    pub transaction_encoding: Option<UiTransactionEncoding>,
    pub simulation_bank: Option<RpcSimulateBundleSimulationBank>,
    pub skip_sig_verify: bool,
    pub replace_recent_blockhash: bool,
}

/// Configuration object for simulating a bundle of transactions: account
/// capture around each transaction, the encoding of the supplied
/// transactions, and the simulation-bank selector parsed from generic
/// structured data at construction time.
#[derive(Debug)]
pub struct RpcSimulateBundleConfig {
    pre_execution_accounts_configs: Vec<Option<RpcSimulateBundleAccountsConfig>>,
    post_execution_accounts_configs: Vec<Option<RpcSimulateBundleAccountsConfig>>,
    transaction_encoding: Option<UiTransactionEncoding>,
    simulation_bank: Option<RpcSimulateBundleSimulationBank>,
    skip_sig_verify: bool,
    replace_recent_blockhash: bool,
}

impl View for RpcSimulateBundleConfig {
    type V = SimulateBundleConfigView;

    closed spec fn view(&self) -> SimulateBundleConfigView {
        SimulateBundleConfigView {
            pre_execution_accounts_configs: accounts_views(self.pre_execution_accounts_configs@),
            post_execution_accounts_configs: accounts_views(self.post_execution_accounts_configs@),
            transaction_encoding: self.transaction_encoding,
            simulation_bank: self.simulation_bank,
            skip_sig_verify: self.skip_sig_verify,
            replace_recent_blockhash: self.replace_recent_blockhash,
        }
    }
}

impl SimulateBundleConfigView {
    /// The wire members, in canonical order under their camelCase names.
    /// The two capture lists and both booleans are always present; the
    /// optional fields are omitted when absent.
    pub open spec fn wire_pairs(self) -> Seq<(Seq<char>, JVal)> {
        req_pair(
            "preExecutionAccountsConfigs"@,
            JVal::Arr(
                self.pre_execution_accounts_configs.map_values(
                    |o: Option<AccountsConfigView>| opt_accounts_wire(o),
                ),
            ),
        ) + req_pair(
            "postExecutionAccountsConfigs"@,
            JVal::Arr(
                self.post_execution_accounts_configs.map_values(
                    |o: Option<AccountsConfigView>| opt_accounts_wire(o),
                ),
            ),
        ) + opt_pair(
            "transactionEncoding"@,
            opt_jmap(self.transaction_encoding, |e: UiTransactionEncoding| e.wire()),
        ) + opt_pair(
            "simulationBank"@,
            opt_jmap(self.simulation_bank, |b: RpcSimulateBundleSimulationBank| b.wire()),
        ) + req_pair("skipSigVerify"@, JVal::Bool(self.skip_sig_verify)) + req_pair(
            "replaceRecentBlockhash"@,
            JVal::Bool(self.replace_recent_blockhash),
        )
    }

    pub open spec fn wire(self) -> JVal {
        JVal::Obj(self.wire_pairs())
    }

    pub open spec fn parse(v: JVal) -> Result<SimulateBundleConfigView, DecodeError> {
        match v {
            JVal::Obj(ps) => {
                let pre = match obj_get(ps, "preExecutionAccountsConfigs"@) {
                    Some(JVal::Arr(items)) => parse_seq(
                        items,
                        |jv: JVal| opt_accounts_of_jval(jv),
                    ),
                    Some(_) => Err(DecodeError::WrongType),
                    None => Err(DecodeError::WrongType),
                };
                let post = match obj_get(ps, "postExecutionAccountsConfigs"@) {
                    Some(JVal::Arr(items)) => parse_seq(
                        items,
                        |jv: JVal| opt_accounts_of_jval(jv),
                    ),
                    Some(_) => Err(DecodeError::WrongType),
                    None => Err(DecodeError::WrongType),
                };
                let transaction_encoding = parse_opt_sub(
                    ps,
                    "transactionEncoding"@,
                    |jv: JVal| UiTransactionEncoding::parse(jv),
                );
                let simulation_bank = parse_opt_sub(
                    ps,
                    "simulationBank"@,
                    |jv: JVal| RpcSimulateBundleSimulationBank::parse(jv),
                );
                let skip_sig_verify = parse_bool_or_false(ps, "skipSigVerify"@);
                let replace_recent_blockhash = parse_bool_or_false(ps, "replaceRecentBlockhash"@);
                if pre is Err {
                    Err(pre->Err_0)
                } else if post is Err {
                    Err(post->Err_0)
                } else if transaction_encoding is Err {
                    Err(transaction_encoding->Err_0)
                } else if simulation_bank is Err {
                    Err(simulation_bank->Err_0)
                } else if skip_sig_verify is Err {
                    Err(skip_sig_verify->Err_0)
                } else if replace_recent_blockhash is Err {
                    Err(replace_recent_blockhash->Err_0)
                } else {
                    Ok(
                        SimulateBundleConfigView {
                            pre_execution_accounts_configs: pre->Ok_0,
                            post_execution_accounts_configs: post->Ok_0,
                            transaction_encoding: transaction_encoding->Ok_0,
                            simulation_bank: simulation_bank->Ok_0,
                            skip_sig_verify: skip_sig_verify->Ok_0,
                            replace_recent_blockhash: replace_recent_blockhash->Ok_0,
                        },
                    )
                }
            },
            _ => Err(DecodeError::WrongType),
        }
    }
}

impl RpcSimulateBundleConfig {
    /// Builds the configuration. The simulation bank arrives as generic
    /// structured data and is parsed against the three known shapes; data
    /// matching none of them fails construction with a shape-mismatch
    /// error, never a silent default.
    pub fn new(
        pre_execution_accounts_configs: Vec<Option<RpcSimulateBundleAccountsConfig>>,
        post_execution_accounts_configs: Vec<Option<RpcSimulateBundleAccountsConfig>>,
        transaction_encoding: Option<UiTransactionEncoding>,
        simulation_bank: Option<&Json>,
        skip_sig_verify: bool,
        replace_recent_blockhash: bool,
    ) -> (r: Result<Self, DecodeError>)
        ensures
            match simulation_bank {
                None => r matches Ok(c) && c@ == (SimulateBundleConfigView {
                    pre_execution_accounts_configs: accounts_views(
                        pre_execution_accounts_configs@,
                    ),
                    post_execution_accounts_configs: accounts_views(
                        post_execution_accounts_configs@,
                    ),
                    transaction_encoding,
                    simulation_bank: None,
                    skip_sig_verify,
                    replace_recent_blockhash,
                }),
                Some(bank) => match RpcSimulateBundleSimulationBank::parse(bank@) {
                    Ok(b) => r matches Ok(c) && c@ == (SimulateBundleConfigView {
                        pre_execution_accounts_configs: accounts_views(
                            pre_execution_accounts_configs@,
                        ),
                        post_execution_accounts_configs: accounts_views(
                            post_execution_accounts_configs@,
                        ),
                        transaction_encoding,
                        simulation_bank: Some(b),
                        skip_sig_verify,
                        replace_recent_blockhash,
                    }),
                    Err(e) => r == Err::<Self, DecodeError>(e),
                },
            },
    {
        let parsed_bank = match simulation_bank {
            None => None,
            Some(bank) => match RpcSimulateBundleSimulationBank::from_json(bank) {
                Ok(b) => Some(b),
                Err(e) => return Err(e),
            },
        };
        Ok(
            RpcSimulateBundleConfig {
                pre_execution_accounts_configs,
                post_execution_accounts_configs,
                transaction_encoding,
                simulation_bank: parsed_bank,
                skip_sig_verify,
                replace_recent_blockhash,
            },
        )
    }

    pub fn pre_execution_accounts_configs(&self) -> (r: Vec<
        Option<RpcSimulateBundleAccountsConfig>,
    >)
        ensures
            accounts_views(r@) == self@.pre_execution_accounts_configs,
    {
        clone_accounts_list(&self.pre_execution_accounts_configs)
    }

    pub fn post_execution_accounts_configs(&self) -> (r: Vec<
        Option<RpcSimulateBundleAccountsConfig>,
    >)
        ensures
            accounts_views(r@) == self@.post_execution_accounts_configs,
    {
        clone_accounts_list(&self.post_execution_accounts_configs)
    }

    pub fn transaction_encoding(&self) -> (r: Option<UiTransactionEncoding>)
        ensures
            r == self@.transaction_encoding,
    {
        self.transaction_encoding
    }

    pub fn simulation_bank(&self) -> (r: Option<RpcSimulateBundleSimulationBank>)
        ensures
            r == self@.simulation_bank,
    {
        self.simulation_bank
    }

    /// The held simulation bank rendered back to generic structured data,
    /// in its canonical wire shape.
    pub fn simulation_bank_json(&self) -> (r: Option<Json>)
        ensures
            match r {
                Some(j) => self@.simulation_bank matches Some(b) && j@ == b.wire(),
                None => self@.simulation_bank is None,
            },
    {
        match &self.simulation_bank {
            Some(b) => Some(b.to_json()),
            None => None,
        }
    }

    pub fn skip_sig_verify(&self) -> (r: bool)
        ensures
            r == self@.skip_sig_verify,
    {
        self.skip_sig_verify
    }

    pub fn replace_recent_blockhash(&self) -> (r: bool)
        ensures
            r == self@.replace_recent_blockhash,
    {
        self.replace_recent_blockhash
    }

    /// Renders the configuration to its wire tree.
    pub fn to_json(&self) -> (j: Json)
        ensures
            j@ == self@.wire(),
    {
        let mut pairs: Vec<(String, Json)> = Vec::new();
        let ghost g1 = req_pair(
            "preExecutionAccountsConfigs"@,
            JVal::Arr(
                self@.pre_execution_accounts_configs.map_values(
                    |o: Option<AccountsConfigView>| opt_accounts_wire(o),
                ),
            ),
        );
        let ghost g2 = req_pair(
            "postExecutionAccountsConfigs"@,
            JVal::Arr(
                self@.post_execution_accounts_configs.map_values(
                    |o: Option<AccountsConfigView>| opt_accounts_wire(o),
                ),
            ),
        );
        push_pair(
            &mut pairs,
            "preExecutionAccountsConfigs",
            accounts_list_to_json(&self.pre_execution_accounts_configs),
        );
        proof {
            assert(jpairs_of(pairs@) =~= g1);
        }
        push_pair(
            &mut pairs,
            "postExecutionAccountsConfigs",
            accounts_list_to_json(&self.post_execution_accounts_configs),
        );
        proof {
            assert(jpairs_of(pairs@) =~= g1 + g2);
        }
        push_opt_pair(
            &mut pairs,
            "transactionEncoding",
            match &self.transaction_encoding {
                Some(e) => Some(e.to_json()),
                None => None,
            },
        );
        push_opt_pair(
            &mut pairs,
            "simulationBank",
            match &self.simulation_bank {
                Some(b) => Some(b.to_json()),
                None => None,
            },
        );
        push_pair(&mut pairs, "skipSigVerify", Json::Bool(self.skip_sig_verify));
        proof {
            let ghost g3 = opt_pair(
                "transactionEncoding"@,
                opt_jmap(self@.transaction_encoding, |e: UiTransactionEncoding| e.wire()),
            );
            let ghost g4 = opt_pair(
                "simulationBank"@,
                opt_jmap(self@.simulation_bank, |b: RpcSimulateBundleSimulationBank| b.wire()),
            );
            assert(jpairs_of(pairs@) =~= g1 + g2 + g3 + g4 + req_pair(
                "skipSigVerify"@,
                JVal::Bool(self@.skip_sig_verify),
            ));
        }
        push_pair(
            &mut pairs,
            "replaceRecentBlockhash",
            Json::Bool(self.replace_recent_blockhash),
        );
        proof {
            assert(jpairs_of(pairs@) =~= self@.wire_pairs());
        }
        Json::Obj(pairs)
    }

    /// Parses the configuration back from a wire tree; the two capture
    /// lists are required, each boolean defaults to `false` when absent.
    pub fn from_json(j: &Json) -> (r: Result<Self, DecodeError>)
        ensures
            res_agrees(r, SimulateBundleConfigView::parse(j@)),
    {
        match j {
            Json::Obj(pairs) => {
                let pre = match json_obj_get(pairs, "preExecutionAccountsConfigs") {
                    Some(sub) => match sub {
                        Json::Arr(items) => match accounts_list_from_json(items) {
                            Ok(v) => v,
                            Err(e) => return Err(e),
                        },
                        _ => return Err(DecodeError::WrongType),
                    },
                    None => return Err(DecodeError::WrongType),
                };
                let post = match json_obj_get(pairs, "postExecutionAccountsConfigs") {
                    Some(sub) => match sub {
                        Json::Arr(items) => match accounts_list_from_json(items) {
                            Ok(v) => v,
                            Err(e) => return Err(e),
                        },
                        _ => return Err(DecodeError::WrongType),
                    },
                    None => return Err(DecodeError::WrongType),
                };
                let transaction_encoding = match json_obj_get(pairs, "transactionEncoding") {
                    None => None,
                    Some(sub) => match UiTransactionEncoding::from_json(sub) {
                        Ok(v) => Some(v),
                        Err(e) => return Err(e),
                    },
                };
                let simulation_bank = match json_obj_get(pairs, "simulationBank") {
                    None => None,
                    Some(sub) => match RpcSimulateBundleSimulationBank::from_json(sub) {
                        Ok(v) => Some(v),
                        Err(e) => return Err(e),
                    },
                };
                let skip_sig_verify = match get_bool_or_false(pairs, "skipSigVerify") {
                    Ok(v) => v,
                    Err(e) => return Err(e),
                };
                let replace_recent_blockhash = match get_bool_or_false(
                    pairs,
                    "replaceRecentBlockhash",
                ) {
                    Ok(v) => v,
                    Err(e) => return Err(e),
                };
                Ok(
                    RpcSimulateBundleConfig {
                        pre_execution_accounts_configs: pre,
                        post_execution_accounts_configs: post,
                        transaction_encoding,
                        simulation_bank,
                        skip_sig_verify,
                        replace_recent_blockhash,
                    },
                )
            },
            _ => Err(DecodeError::WrongType),
        }
    }
}

impl Clone for RpcSimulateBundleConfig {
    fn clone(&self) -> (r: Self)
        ensures
            r@ == self@,
    {
        RpcSimulateBundleConfig {
            pre_execution_accounts_configs: clone_accounts_list(
                &self.pre_execution_accounts_configs,
            ),
            post_execution_accounts_configs: clone_accounts_list(
                &self.post_execution_accounts_configs,
            ),
            transaction_encoding: self.transaction_encoding,
            simulation_bank: self.simulation_bank,
            skip_sig_verify: self.skip_sig_verify,
            replace_recent_blockhash: self.replace_recent_blockhash,
        }
    }
}

/// Equality of optional transaction encodings.
fn opt_tx_encoding_eq(a: &Option<UiTransactionEncoding>, b: &Option<UiTransactionEncoding>) -> (r:
    bool)
    ensures
        r == (a == b),
{
    match (a, b) {
        (Some(x), Some(y)) => x == y,
        (None, None) => true,
        _ => false,
    }
}

/// Equality of optional simulation banks.
fn opt_bank_eq(
    a: &Option<RpcSimulateBundleSimulationBank>,
    b: &Option<RpcSimulateBundleSimulationBank>,
) -> (r: bool)
    ensures
        r == (a == b),
{
    match (a, b) {
        (Some(x), Some(y)) => x == y,
        (None, None) => true,
        _ => false,
    }
}

impl PartialEq for RpcSimulateBundleConfig {
    fn eq(&self, other: &Self) -> (r: bool) {
        accounts_list_eq(
            &self.pre_execution_accounts_configs,
            &other.pre_execution_accounts_configs,
        ) && accounts_list_eq(
            &self.post_execution_accounts_configs,
            &other.post_execution_accounts_configs,
        ) && opt_tx_encoding_eq(&self.transaction_encoding, &other.transaction_encoding)
            && opt_bank_eq(&self.simulation_bank, &other.simulation_bank) && self.skip_sig_verify
            == other.skip_sig_verify && self.replace_recent_blockhash
            == other.replace_recent_blockhash
    }
}

impl Eq for RpcSimulateBundleConfig {

}

impl vstd::std_specs::cmp::PartialEqSpecImpl for RpcSimulateBundleConfig {
    open spec fn obeys_eq_spec() -> bool {
        true
    }

    open spec fn eq_spec(&self, other: &Self) -> bool {
        self@ == other@
    }
}

/// Equality of bundle-simulation configurations is structural over every
/// field.
pub proof fn lemma_simulate_bundle_config_eq_is_structural(
    a: SimulateBundleConfigView,
    b: SimulateBundleConfigView,
)
    ensures
        (a == b) <==> (a.pre_execution_accounts_configs == b.pre_execution_accounts_configs
            && a.post_execution_accounts_configs == b.post_execution_accounts_configs
            && a.transaction_encoding == b.transaction_encoding && a.simulation_bank
            == b.simulation_bank && a.skip_sig_verify == b.skip_sig_verify
            && a.replace_recent_blockhash == b.replace_recent_blockhash),
{
}

/// The wire form of a bundle-simulation configuration holds the two
/// capture lists and both booleans always, and exactly the present
/// optional fields, each under its documented camelCase name.
pub proof fn lemma_simulate_bundle_config_wire_members(v: SimulateBundleConfigView)
    ensures
        obj_get(v.wire_pairs(), "preExecutionAccountsConfigs"@) == Some(
            JVal::Arr(
                v.pre_execution_accounts_configs.map_values(
                    |o: Option<AccountsConfigView>| opt_accounts_wire(o),
                ),
            ),
        ),
        obj_get(v.wire_pairs(), "postExecutionAccountsConfigs"@) == Some(
            JVal::Arr(
                v.post_execution_accounts_configs.map_values(
                    |o: Option<AccountsConfigView>| opt_accounts_wire(o),
                ),
            ),
        ),
        obj_get(v.wire_pairs(), "transactionEncoding"@) == opt_jmap(
            v.transaction_encoding,
            |e: UiTransactionEncoding| e.wire(),
        ),
        obj_get(v.wire_pairs(), "simulationBank"@) == opt_jmap(
            v.simulation_bank,
            |b: RpcSimulateBundleSimulationBank| b.wire(),
        ),
        obj_get(v.wire_pairs(), "skipSigVerify"@) == Some(JVal::Bool(v.skip_sig_verify)),
        obj_get(v.wire_pairs(), "replaceRecentBlockhash"@) == Some(
            JVal::Bool(v.replace_recent_blockhash),
        ),
{
    reveal_strlit("preExecutionAccountsConfigs");
    reveal_strlit("postExecutionAccountsConfigs");
    reveal_strlit("transactionEncoding");
    reveal_strlit("simulationBank");
    reveal_strlit("skipSigVerify");
    reveal_strlit("replaceRecentBlockhash");
    assert("postExecutionAccountsConfigs"@.len() != "preExecutionAccountsConfigs"@.len());
    assert("transactionEncoding"@.len() != "preExecutionAccountsConfigs"@.len());
    assert("transactionEncoding"@.len() != "postExecutionAccountsConfigs"@.len());
    assert("simulationBank"@.len() != "preExecutionAccountsConfigs"@.len());
    assert("simulationBank"@.len() != "postExecutionAccountsConfigs"@.len());
    assert("simulationBank"@.len() != "transactionEncoding"@.len());
    assert("skipSigVerify"@.len() != "preExecutionAccountsConfigs"@.len());
    assert("skipSigVerify"@.len() != "postExecutionAccountsConfigs"@.len());
    assert("skipSigVerify"@.len() != "transactionEncoding"@.len());
    assert("skipSigVerify"@.len() != "simulationBank"@.len());
    assert("replaceRecentBlockhash"@.len() != "preExecutionAccountsConfigs"@.len());
    assert("replaceRecentBlockhash"@.len() != "postExecutionAccountsConfigs"@.len());
    assert("replaceRecentBlockhash"@.len() != "transactionEncoding"@.len());
    assert("replaceRecentBlockhash"@.len() != "simulationBank"@.len());
    assert("replaceRecentBlockhash"@.len() != "skipSigVerify"@.len());
    let g1 = req_pair(
        "preExecutionAccountsConfigs"@,
        JVal::Arr(
            v.pre_execution_accounts_configs.map_values(
                |o: Option<AccountsConfigView>| opt_accounts_wire(o),
            ),
        ),
    );
    let g2 = req_pair(
        "postExecutionAccountsConfigs"@,
        JVal::Arr(
            v.post_execution_accounts_configs.map_values(
                |o: Option<AccountsConfigView>| opt_accounts_wire(o),
            ),
        ),
    );
    let g3 = opt_pair(
        "transactionEncoding"@,
        opt_jmap(v.transaction_encoding, |e: UiTransactionEncoding| e.wire()),
    );
    let g4 = opt_pair(
        "simulationBank"@,
        opt_jmap(v.simulation_bank, |b: RpcSimulateBundleSimulationBank| b.wire()),
    );
    let g5 = req_pair("skipSigVerify"@, JVal::Bool(v.skip_sig_verify));
    let g6 = req_pair("replaceRecentBlockhash"@, JVal::Bool(v.replace_recent_blockhash));
    lemma_obj_get_req_pair(
        "preExecutionAccountsConfigs"@,
        JVal::Arr(
            v.pre_execution_accounts_configs.map_values(
                |o: Option<AccountsConfigView>| opt_accounts_wire(o),
            ),
        ),
    );
    lemma_obj_get_req_pair(
        "postExecutionAccountsConfigs"@,
        JVal::Arr(
            v.post_execution_accounts_configs.map_values(
                |o: Option<AccountsConfigView>| opt_accounts_wire(o),
            ),
        ),
    );
    lemma_obj_get_opt_pair(
        "transactionEncoding"@,
        opt_jmap(v.transaction_encoding, |e: UiTransactionEncoding| e.wire()),
    );
    lemma_obj_get_opt_pair(
        "simulationBank"@,
        opt_jmap(v.simulation_bank, |b: RpcSimulateBundleSimulationBank| b.wire()),
    );
    lemma_obj_get_req_pair("skipSigVerify"@, JVal::Bool(v.skip_sig_verify));
    lemma_obj_get_req_pair("replaceRecentBlockhash"@, JVal::Bool(v.replace_recent_blockhash));
    lemma_obj_get_concat_all(g1, g2);
    lemma_obj_get_concat_all(g1 + g2, g3);
    lemma_obj_get_concat_all(g1 + g2 + g3, g4);
    lemma_obj_get_concat_all(g1 + g2 + g3 + g4, g5);
    lemma_obj_get_concat_all(g1 + g2 + g3 + g4 + g5, g6);
}

/// Every bundle-simulation configuration parses back from its own wire
/// form.
#[verifier::rlimit(60)]
pub proof fn lemma_simulate_bundle_config_round_trip(v: SimulateBundleConfigView)
    ensures
        SimulateBundleConfigView::parse(v.wire()) == Ok::<SimulateBundleConfigView, DecodeError>(v),
{
    lemma_simulate_bundle_config_wire_members(v);
    assert forall|i: int| 0 <= i < v.pre_execution_accounts_configs.len() implies #[trigger] opt_accounts_of_jval(
        opt_accounts_wire(v.pre_execution_accounts_configs[i]),
    ) == Ok::<Option<AccountsConfigView>, DecodeError>(v.pre_execution_accounts_configs[i]) by {
        match v.pre_execution_accounts_configs[i] {
            Some(a) => lemma_accounts_config_round_trip(a),
            None => {},
        }
    }
    lemma_parse_seq_round_trip(
        v.pre_execution_accounts_configs,
        |o: Option<AccountsConfigView>| opt_accounts_wire(o),
        |jv: JVal| opt_accounts_of_jval(jv),
    );
    assert forall|i: int| 0 <= i < v.post_execution_accounts_configs.len() implies #[trigger] opt_accounts_of_jval(
        opt_accounts_wire(v.post_execution_accounts_configs[i]),
    ) == Ok::<Option<AccountsConfigView>, DecodeError>(v.post_execution_accounts_configs[i]) by {
        match v.post_execution_accounts_configs[i] {
            Some(a) => lemma_accounts_config_round_trip(a),
            None => {},
        }
    }
    lemma_parse_seq_round_trip(
        v.post_execution_accounts_configs,
        |o: Option<AccountsConfigView>| opt_accounts_wire(o),
        |jv: JVal| opt_accounts_of_jval(jv),
    );
    match v.transaction_encoding {
        Some(e) => crate::primitives::lemma_transaction_encoding_round_trip(e),
        None => {},
    }
    match v.simulation_bank {
        Some(b) => lemma_simulation_bank_round_trip(b),
        None => {},
    }
}

impl RpcSimulateBundleAccountsConfig {
    /// Encodes the configuration to its compact binary form.
    pub fn to_bytes(&self) -> (out: Vec<u8>)
        ensures
            out@ == crate::codec::enc_jval(self@.wire()),
    {
        crate::codec::encode(&self.to_json())
    }

    /// Decodes a configuration from its compact binary form; malformed bytes
    /// and bytes not matching the schema are decode errors.
    pub fn from_bytes(bytes: &Vec<u8>) -> (r: Result<Self, DecodeError>)
        ensures
            match crate::codec::decode_spec(bytes@) {
                Ok(j) => res_agrees(r, AccountsConfigView::parse(j)),
                Err(e) => r == Err::<Self, DecodeError>(e),
            },
    {
        match crate::codec::decode(bytes) {
            Ok(j) => Self::from_json(&j),
            Err(e) => Err(e),
        }
    }
}

impl RpcSimulateBundleConfig {
    /// Encodes the configuration to its compact binary form.
    pub fn to_bytes(&self) -> (out: Vec<u8>)
        ensures
            out@ == crate::codec::enc_jval(self@.wire()),
    {
        crate::codec::encode(&self.to_json())
    }

    /// Decodes a configuration from its compact binary form; malformed bytes
    /// and bytes not matching the schema are decode errors.
    pub fn from_bytes(bytes: &Vec<u8>) -> (r: Result<Self, DecodeError>)
        ensures
            match crate::codec::decode_spec(bytes@) {
                Ok(j) => res_agrees(r, SimulateBundleConfigView::parse(j)),
                Err(e) => r == Err::<Self, DecodeError>(e),
            },
    {
        match crate::codec::decode(bytes) {
            Ok(j) => Self::from_json(&j),
            Err(e) => Err(e),
        }
    }
}

/// The binary round trip of a account-capture configuration: encoding its wire tree and
/// decoding the bytes yields the tree back, and parsing the tree yields
/// an equal value. The one premise is the machine limit that every count
/// in the tree fits the codec's fixed-width count field, which holds of
/// every value held in memory.
pub proof fn lemma_accounts_config_binary_round_trip(v: AccountsConfigView)
    requires
        crate::codec::jval_wf(v.wire()),
    ensures
        crate::codec::decode_spec(crate::codec::enc_jval(v.wire())) == Ok::<JVal, DecodeError>(
            v.wire(),
        ),
        AccountsConfigView::parse(v.wire()) == Ok::<AccountsConfigView, DecodeError>(v),
{
    crate::codec::lemma_codec_round_trip(v.wire());
    lemma_accounts_config_round_trip(v);
}

/// The binary round trip of a bundle-simulation configuration: encoding its wire tree and
/// decoding the bytes yields the tree back, and parsing the tree yields
/// an equal value. The one premise is the machine limit that every count
/// in the tree fits the codec's fixed-width count field, which holds of
/// every value held in memory.
pub proof fn lemma_simulate_bundle_config_binary_round_trip(v: SimulateBundleConfigView)
    requires
        crate::codec::jval_wf(v.wire()),
    ensures
        crate::codec::decode_spec(crate::codec::enc_jval(v.wire())) == Ok::<JVal, DecodeError>(
            v.wire(),
        ),
        SimulateBundleConfigView::parse(v.wire()) == Ok::<SimulateBundleConfigView, DecodeError>(v),
{
    crate::codec::lemma_codec_round_trip(v.wire());
    lemma_simulate_bundle_config_round_trip(v);
}

impl RpcSimulateBundleAccountsConfig {
    /// A deterministic human-readable rendering: the wire JSON text.
    /// It carries no contract beyond being determined by the field values.
    pub fn json_text(&self) -> (r: String)
        ensures
            r@ == crate::text::text_of(self@.wire()),
    {
        crate::text::render(&self.to_json())
    }
}

impl RpcSimulateBundleConfig {
    /// A deterministic human-readable rendering: the wire JSON text.
    /// It carries no contract beyond being determined by the field values.
    pub fn json_text(&self) -> (r: String)
        ensures
            r@ == crate::text::text_of(self@.wire()),
    {
        crate::text::render(&self.to_json())
    }
}

} // verus!
