//! The Transaction Splits API: splitting settlements across accounts.

use vstd::prelude::*;
use crate::datetime::{UtcDateTime, opt_date_pair};
use crate::json::{JsonObj, jstr, obj_ser};
use crate::paystack::transactions::Currency;
use crate::request::{
    HttpRequest, Method, body_request, get_request, make_get_request, make_request,
};
use crate::text::{dec_int, push_char};
use crate::urlenc::{QueryString, form_str, opt_i64_pair, opt_str_pair, pairs_text};

verus! {

/// A client for creating and managing transaction splits.
#[derive(Debug, Default)]
pub struct TransactionSplit {
    pub(crate) bearer_auth: String,
}

impl TransactionSplit {
    /// The bearer authorization text this resource sends.
    pub closed spec fn bearer(self) -> Seq<char> {
        self.bearer_auth@
    }

    /// Binds the resource client to the authorization header it sends.
    pub fn with_auth(bearer_auth: String) -> (r: TransactionSplit)
        ensures
            r.bearer() == bearer_auth@,
    {
        TransactionSplit { bearer_auth }
    }
}

/// Who bears the transaction charge of a split.
#[derive(Debug, Clone, Copy)]
pub enum BearerType {
    Subaccount,
    Account,
    Allproportional,
    All,
}

impl BearerType {
    /// The wire token of this value.
    pub open spec fn spec_code(self) -> Seq<char> {
        match self {
            BearerType::Subaccount => "Subaccount"@,
            BearerType::Account => "Account"@,
            BearerType::Allproportional => "Allproportional"@,
            BearerType::All => "All"@,
        }
    }

    /// Returns the wire token of this value.
    pub fn code(&self) -> (r: &'static str)
        ensures
            r@ == self.spec_code(),
    {
        match self {
            BearerType::Subaccount => "Subaccount",
            BearerType::Account => "Account",
            BearerType::Allproportional => "Allproportional",
            BearerType::All => "All",
        }
    }
}

/// How a split divides a settlement.
#[derive(Debug, Clone, Copy)]
pub enum TxType {
    Percentage,
    Flat,
}

impl TxType {
    /// The wire token of this value.
    pub open spec fn spec_code(self) -> Seq<char> {
        match self {
            TxType::Percentage => "Percentage"@,
            TxType::Flat => "Flat"@,
        }
    }

    /// Returns the wire token of this value.
    pub fn code(&self) -> (r: &'static str)
        ensures
            r@ == self.spec_code(),
    {
        match self {
            TxType::Percentage => "Percentage",
            TxType::Flat => "Flat",
        }
    }
}

/// One subaccount of a split: its code and its number of shares.
#[derive(Debug, Default)]
pub struct SubaccountsBody {
    /// The code of the subaccount.
    pub subaccount_code: String,
    /// The number of shares of the subaccount.
    pub share: i64,
}

impl SubaccountsBody {
    /// The members of the serialized JSON body, in declaration order.
    pub open spec fn json_fields(self) -> Seq<(Seq<char>, Seq<char>)> {
        seq![
            ("subaccount_code"@, jstr(self.subaccount_code@)),
            ("share"@, dec_int(self.share as int)),
        ]
    }

    /// Serializes the body to its JSON text.
    pub fn to_json(&self) -> (r: String)
        ensures
            r@ == obj_ser(self.json_fields()),
    {
        let mut o = JsonObj::new();
        o.field_str("subaccount_code", self.subaccount_code.as_str());
        o.field_int("share", self.share as i128);
        proof {
            assert(o@ =~~= self.json_fields());
        }
        o.finish()
    }
}

/// The comma-separated objects of a list of split subaccounts.
pub open spec fn subacct_items(s: Seq<SubaccountsBody>) -> Seq<char>
    decreases s.len(),
{
    if s.len() == 0 {
        Seq::empty()
    } else if s.len() == 1 {
        obj_ser(s[0].json_fields())
    } else {
        obj_ser(s[0].json_fields()) + seq![','] + subacct_items(s.drop_first())
    }
}

/// A serialized JSON array of split subaccounts.
pub open spec fn jarr_subaccounts(s: Seq<SubaccountsBody>) -> Seq<char> {
    seq!['['] + subacct_items(s) + seq![']']
}

fn push_subacct_items(out: &mut String, v: &Vec<SubaccountsBody>, i: usize)
    requires
        i <= v@.len(),
    ensures
        final(out)@ == old(out)@ + subacct_items(v@.skip(i as int)),
    decreases v@.len() - i,
{
    proof {
        assert(v@.skip(i as int).len() == v@.len() - i);
    }
    if i < v.len() {
        proof {
            assert(v@.skip(i as int)[0] == v@[i as int]);
            assert(v@.skip(i as int).drop_first() =~= v@.skip(i as int + 1));
        }
        let item = v[i].to_json();
        out.append(item.as_str());
        if i + 1 < v.len() {
            push_char(out, ',');
            push_subacct_items(out, v, i + 1);
            proof {
                assert(final(out)@ =~= old(out)@ + subacct_items(v@.skip(i as int)));
            }
        }
    }
}

fn render_subaccounts(items: &Vec<SubaccountsBody>) -> (r: String)
    ensures
        r@ == jarr_subaccounts(items@),
{
    let mut r = String::new();
    push_char(&mut r, '[');
    push_subacct_items(&mut r, items, 0);
    push_char(&mut r, ']');
    proof {
        assert(items@.skip(0) =~= items@);
        assert(r@ =~= jarr_subaccounts(items@));
    }
    r
}

/// The body of a request to create a split payment.
#[derive(Debug)]
pub struct CreateSplitPaymentBody {
    /// Name of the transaction split.
    pub name: String,
    /// How the split divides a settlement: by percentage or flat.
    pub tx_type: TxType,
    /// Any of NGN, GHS, ZAR or USD.
    pub currency: Currency,
    /// The subaccounts of the split, each with its code and shares.
    pub subaccount: Vec<SubaccountsBody>,
    /// Who bears the transaction charge.
    pub bearer_type: BearerType,
    /// Subaccount code of the charge bearer.
    pub bearer_subaccount: String,
}

impl CreateSplitPaymentBody {
    /// The members of the serialized JSON body, in declaration order.
    pub open spec fn json_fields(self) -> Seq<(Seq<char>, Seq<char>)> {
        seq![
            ("name"@, jstr(self.name@)),
            ("tx_type"@, jstr(self.tx_type.spec_code())),
            ("currency"@, jstr(self.currency.spec_code())),
            ("subaccount"@, jarr_subaccounts(self.subaccount@)),
            ("bearer_type"@, jstr(self.bearer_type.spec_code())),
            ("bearer_subaccount"@, jstr(self.bearer_subaccount@)),
        ]
    }

    /// Serializes the body to its JSON text.
    pub fn to_json(&self) -> (r: String)
        ensures
            r@ == obj_ser(self.json_fields()),
    {
        let mut o = JsonObj::new();
        o.field_str("name", self.name.as_str());
        o.field_str("tx_type", self.tx_type.code());
        o.field_str("currency", self.currency.code());
        let rendered_subaccount = render_subaccounts(&self.subaccount);
        o.field_pre("subaccount", rendered_subaccount.as_str());
        o.field_str("bearer_type", self.bearer_type.code());
        o.field_str("bearer_subaccount", self.bearer_subaccount.as_str());
        proof {
            assert(o@ =~~= self.json_fields());
        }
        o.finish()
    }
}

/// The query parameters of a request to list or search splits.
#[derive(Debug)]
pub struct ListOrSearchSplitsParams {
    /// The name of the split.
    pub name: String,
    /// Whether only active splits are listed.
    pub active: bool,
    /// Sort key; the creation date by default.
    pub sorted_by: Option<String>,
    /// Splits per page; the remote default is 50.
    pub per_page: Option<i64>,
    /// Page to view; the remote default is 1.
    pub page: Option<i64>,
    /// List splits from this timestamp on.
    pub from: Option<UtcDateTime>,
    /// List splits up to this timestamp.
    pub to: Option<UtcDateTime>,
}

impl ListOrSearchSplitsParams {
    /// Every timestamp present lies in its calendar range.
    pub open spec fn wf(self) -> bool {
        &&& match self.from {
            Option::Some(d) => d.wf(),
            Option::None => true,
        }
        &&& match self.to {
            Option::Some(d) => d.wf(),
            Option::None => true,
        }
    }

    /// The key/value pairs of the query string, in declaration
    /// order; absent parameters contribute nothing.
    pub open spec fn query_pairs(self) -> Seq<(Seq<char>, Seq<char>)> {
        seq![("name"@, form_str(self.name@))]
                + seq![("active"@, if self.active { "true"@ } else { "false"@ })]
                + opt_str_pair("sortedBy"@, self.sorted_by)
                + opt_i64_pair("perPage"@, self.per_page)
                + opt_i64_pair("page"@, self.page)
                + opt_date_pair("from"@, self.from)
                + opt_date_pair("to"@, self.to)
    }

    /// Encodes the parameters as a query string.
    #[verifier::rlimit(100)]
    pub fn to_query(&self) -> (r: String)
        requires
            self.wf(),
        ensures
            r@ == pairs_text(self.query_pairs()),
    {
        let mut q = QueryString::new();
        q.pair_str("name", self.name.as_str());
        q.pair_bool("active", self.active);
        match &self.sorted_by {
            Option::Some(s) => q.pair_str("sortedBy", s.as_str()),
            Option::None => (),
        }
        match &self.per_page {
            Option::Some(v) => q.pair_int("perPage", *v as i128),
            Option::None => (),
        }
        match &self.page {
            Option::Some(v) => q.pair_int("page", *v as i128),
            Option::None => (),
        }
        match &self.from {
            Option::Some(d) => {
                let t = d.to_rfc3339();
                q.pair_str("from", t.as_str());
            },
            Option::None => (),
        }
        match &self.to {
            Option::Some(d) => {
                let t = d.to_rfc3339();
                q.pair_str("to", t.as_str());
            },
            Option::None => (),
        }
        proof {
            assert(q@ =~~= self.query_pairs());
        }
        q.finish()
    }
}

/// The body of a request to update a split.
#[derive(Debug)]
pub struct UpdateSplitBody {
    /// Name of the transaction split.
    pub name: String,
    /// Whether the split is active.
    pub active: bool,
    /// Who bears the transaction charge.
    pub bearer_type: BearerType,
    /// Subaccount code, read only when the bearer is a subaccount.
    pub bearer_subaccount: String,
}

impl UpdateSplitBody {
    /// The members of the serialized JSON body, in declaration order.
    pub open spec fn json_fields(self) -> Seq<(Seq<char>, Seq<char>)> {
        seq![
            ("name"@, jstr(self.name@)),
            ("active"@, if self.active { "true"@ } else { "false"@ }),
            ("bearer_type"@, jstr(self.bearer_type.spec_code())),
            ("bearer_subaccount"@, jstr(self.bearer_subaccount@)),
        ]
    }

    /// Serializes the body to its JSON text.
    pub fn to_json(&self) -> (r: String)
        ensures
            r@ == obj_ser(self.json_fields()),
    {
        let mut o = JsonObj::new();
        o.field_str("name", self.name.as_str());
        o.field_bool("active", self.active);
        o.field_str("bearer_type", self.bearer_type.code());
        o.field_str("bearer_subaccount", self.bearer_subaccount.as_str());
        proof {
            assert(o@ =~~= self.json_fields());
        }
        o.finish()
    }
}

/// The body of a request that adds a subaccount to a split or updates its share.
#[derive(Debug, Default)]
pub struct AddOrUpdateSplitSubaccountBody {
    /// The subaccount code.
    pub subaccount: String,
    /// The transaction share of the subaccount.
    pub share: i64,
}

impl AddOrUpdateSplitSubaccountBody {
    /// The members of the serialized JSON body, in declaration order.
    pub open spec fn json_fields(self) -> Seq<(Seq<char>, Seq<char>)> {
        seq![
            ("subaccount"@, jstr(self.subaccount@)),
            ("share"@, dec_int(self.share as int)),
        ]
    }

    /// Serializes the body to its JSON text.
    pub fn to_json(&self) -> (r: String)
        ensures
            r@ == obj_ser(self.json_fields()),
    {
        let mut o = JsonObj::new();
        o.field_str("subaccount", self.subaccount.as_str());
        o.field_int("share", self.share as i128);
        proof {
            assert(o@ =~~= self.json_fields());
        }
        o.finish()
    }
}

/// The body of a request that removes a subaccount from a split.
#[derive(Debug, Default)]
pub struct RemoveSplitSubaccountBody {
    /// The subaccount code.
    pub subaccount: String,
}

impl RemoveSplitSubaccountBody {
    /// The members of the serialized JSON body, in declaration order.
    pub open spec fn json_fields(self) -> Seq<(Seq<char>, Seq<char>)> {
        seq![
            ("subaccount"@, jstr(self.subaccount@)),
        ]
    }

    /// Serializes the body to its JSON text.
    pub fn to_json(&self) -> (r: String)
        ensures
            r@ == obj_ser(self.json_fields()),
    {
        let mut o = JsonObj::new();
        o.field_str("subaccount", self.subaccount.as_str());
        proof {
            assert(o@ =~~= self.json_fields());
        }
        o.finish()
    }
}

impl TransactionSplit {
    /// Builds the request that creates a split payment.
    pub fn create_split(&self, body: CreateSplitPaymentBody) -> (r: HttpRequest)
        ensures
            r@ == body_request(
                Method::Post,
                self.bearer(),
                "https://api.paystack.co/split"@,
                obj_ser(body.json_fields()),
            ),
    {
        let serialized = body.to_json();
        make_request(
            self.bearer_auth.clone(),
            String::from_str("https://api.paystack.co/split"),
            Option::Some(serialized),
            Method::Post,
        )
    }

    /// Builds the request that lists or searches transaction splits.
    pub fn list_or_search_splits(&self, params: Option<ListOrSearchSplitsParams>) -> (r: HttpRequest)
        requires
            match params {
                Option::Some(p) => p.wf(),
                Option::None => true,
            },
        ensures
            r@ == get_request(
                self.bearer(),
                "https://api.paystack.co/split"@ + "?"@ + (match params {
                    Option::Some(p) => pairs_text(p.query_pairs()),
                    Option::None => Seq::empty(),
                }),
            ),
    {
        let url = String::from_str("https://api.paystack.co/split");
        let query_text = match &params {
            Option::Some(p) => Option::Some(p.to_query()),
            Option::None => Option::None,
        };
        let r = make_get_request(self.bearer_auth.clone(), url, query_text);
        proof {
            assert(r@.url =~= "https://api.paystack.co/split"@ + "?"@ + (match params {
                    Option::Some(p) => pairs_text(p.query_pairs()),
                    Option::None => Seq::empty(),
                }));
        }
        r
    }

    /// Builds the request that fetches one split.
    pub fn fetch_split(&self, id: &str) -> (r: HttpRequest)
        ensures
            r@ == get_request(
                self.bearer(),
                "https://api.paystack.co/split/"@ + id@ + "?"@,
            ),
    {
        let mut url = String::from_str("https://api.paystack.co/split/");
        url.append(id);
        let query_text = Option::None;
        let r = make_get_request(self.bearer_auth.clone(), url, query_text);
        proof {
            assert(r@.url =~= "https://api.paystack.co/split/"@ + id@ + "?"@);
        }
        r
    }

    /// Builds the request that updates a split.
    pub fn update_split(&self, id: &str, body: UpdateSplitBody) -> (r: HttpRequest)
        ensures
            r@ == body_request(
                Method::Put,
                self.bearer(),
                "https://api.paystack.co/split/"@ + id@,
                obj_ser(body.json_fields()),
            ),
    {
        let mut url = String::from_str("https://api.paystack.co/split/");
        url.append(id);
        let serialized = body.to_json();
        make_request(self.bearer_auth.clone(), url, Option::Some(serialized), Method::Put)
    }

    /// Builds the request that adds a subaccount to a split or updates its share.
    pub fn add_or_update_split_subaccount(&self, id: &str, body: AddOrUpdateSplitSubaccountBody) -> (r: HttpRequest)
        ensures
            r@ == body_request(
                Method::Post,
                self.bearer(),
                "https://api.paystack.co/split/"@ + id@ + "/subaccount/add"@,
                obj_ser(body.json_fields()),
            ),
    {
        let mut url = String::from_str("https://api.paystack.co/split/");
        url.append(id);
        url.append("/subaccount/add");
        let serialized = body.to_json();
        make_request(self.bearer_auth.clone(), url, Option::Some(serialized), Method::Post)
    }

    /// Builds the request that removes a subaccount from a split.
    pub fn remove_split_subaccount(&self, id: &str, body: RemoveSplitSubaccountBody) -> (r: HttpRequest)
        ensures
            r@ == body_request(
                Method::Post,
                self.bearer(),
                "https://api.paystack.co/split/"@ + id@ + "/subaccount/remove"@,
                obj_ser(body.json_fields()),
            ),
    {
        let mut url = String::from_str("https://api.paystack.co/split/");
        url.append(id);
        url.append("/subaccount/remove");
        let serialized = body.to_json();
        make_request(self.bearer_auth.clone(), url, Option::Some(serialized), Method::Post)
    }
}

} // verus!
