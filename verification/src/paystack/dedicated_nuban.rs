//! The Dedicated NUBAN API: unique payment accounts for customers.

use vstd::prelude::*;
use crate::json::{JsonObj, jopt_str, jstr, obj_ser};
use crate::paystack::transactions::Currency;
use crate::request::{
    HttpRequest, Method, body_request, get_request, make_get_request, make_request,
};
use crate::urlenc::{QueryString, opt_str_pair, pairs_text};

verus! {

/// A client for managing dedicated payment accounts.
#[derive(Debug, Default)]
pub struct DedicatedNuban {
    pub(crate) bearer_auth: String,
}

impl DedicatedNuban {
    /// The bearer authorization text this resource sends.
    pub closed spec fn bearer(self) -> Seq<char> {
        self.bearer_auth@
    }

    /// Binds the resource client to the authorization header it sends.
    pub fn with_auth(bearer_auth: String) -> (r: DedicatedNuban)
        ensures
            r.bearer() == bearer_auth@,
    {
        DedicatedNuban { bearer_auth }
    }
}

/// The body of a request to create a dedicated account.
#[derive(Debug, Default)]
pub struct CreateDedicatedAccountBody {
    /// Customer ID or code.
    pub customer: String,
    /// Slug of the preferred bank, as listed by the providers endpoint.
    pub preferred_bank: Option<String>,
    /// Subaccount code to split the transactions with.
    pub subaccount: Option<String>,
    /// Split code listing the accounts to split the transactions with.
    pub split_code: Option<String>,
}

impl CreateDedicatedAccountBody {
    /// The members of the serialized JSON body, in declaration order.
    pub open spec fn json_fields(self) -> Seq<(Seq<char>, Seq<char>)> {
        seq![
            ("customer"@, jstr(self.customer@)),
            ("preferred_bank"@, jopt_str(self.preferred_bank)),
            ("subaccount"@, jopt_str(self.subaccount)),
            ("split_code"@, jopt_str(self.split_code)),
        ]
    }

    /// Serializes the body to its JSON text.
    pub fn to_json(&self) -> (r: String)
        ensures
            r@ == obj_ser(self.json_fields()),
    {
        let mut o = JsonObj::new();
        o.field_str("customer", self.customer.as_str());
        o.field_opt_str("preferred_bank", &self.preferred_bank);
        o.field_opt_str("subaccount", &self.subaccount);
        o.field_opt_str("split_code", &self.split_code);
        proof {
            assert(o@ =~~= self.json_fields());
        }
        o.finish()
    }
}

/// The query parameters of a request to list dedicated accounts.
#[derive(Debug)]
pub struct ListDedicatedAccountsParams {
    /// Status of the dedicated accounts to list.
    pub active: bool,
    /// Currency of the dedicated amounts.
    pub currency: Currency,
    /// The bank's slug, in lower case without spaces.
    pub provider_slug: Option<String>,
    /// The bank's ID.
    pub bank_id: Option<String>,
    /// The customer's ID.
    pub customer: Option<String>,
}

impl ListDedicatedAccountsParams {
    /// The key/value pairs of the query string, in declaration
    /// order; absent parameters contribute nothing.
    pub open spec fn query_pairs(self) -> Seq<(Seq<char>, Seq<char>)> {
        seq![("active"@, if self.active { "true"@ } else { "false"@ })]
                + seq![("currency"@, self.currency.spec_code())]
                + opt_str_pair("provider_slug"@, self.provider_slug)
                + opt_str_pair("bank_id"@, self.bank_id)
                + opt_str_pair("customer"@, self.customer)
    }

    /// Encodes the parameters as a query string.
    #[verifier::rlimit(100)]
    pub fn to_query(&self) -> (r: String)
        ensures
            r@ == pairs_text(self.query_pairs()),
    {
        let mut q = QueryString::new();
        q.pair_bool("active", self.active);
        q.pair_pre("currency", self.currency.code());
        match &self.provider_slug {
            Option::Some(s) => q.pair_str("provider_slug", s.as_str()),
            Option::None => (),
        }
        match &self.bank_id {
            Option::Some(s) => q.pair_str("bank_id", s.as_str()),
            Option::None => (),
        }
        match &self.customer {
            Option::Some(s) => q.pair_str("customer", s.as_str()),
            Option::None => (),
        }
        proof {
            assert(q@ =~~= self.query_pairs());
        }
        q.finish()
    }
}

/// The body of a request to split the transactions of a dedicated account.
#[derive(Debug, Default)]
pub struct SplitDedicatedAccountTxBody {
    /// Customer ID or code.
    pub customer: String,
    /// Subaccount code to split the transactions with.
    pub subaccount: Option<String>,
    /// Split code listing the accounts to split the transactions with.
    pub split_code: Option<String>,
    /// Slug of the preferred bank, as listed by the providers endpoint.
    pub preferred_bank: Option<String>,
}

impl SplitDedicatedAccountTxBody {
    /// The members of the serialized JSON body, in declaration order.
    pub open spec fn json_fields(self) -> Seq<(Seq<char>, Seq<char>)> {
        seq![
            ("customer"@, jstr(self.customer@)),
            ("subaccount"@, jopt_str(self.subaccount)),
            ("split_code"@, jopt_str(self.split_code)),
            ("preferred_bank"@, jopt_str(self.preferred_bank)),
        ]
    }

    /// Serializes the body to its JSON text.
    pub fn to_json(&self) -> (r: String)
        ensures
            r@ == obj_ser(self.json_fields()),
    {
        let mut o = JsonObj::new();
        o.field_str("customer", self.customer.as_str());
        o.field_opt_str("subaccount", &self.subaccount);
        o.field_opt_str("split_code", &self.split_code);
        o.field_opt_str("preferred_bank", &self.preferred_bank);
        proof {
            assert(o@ =~~= self.json_fields());
        }
        o.finish()
    }
}

/// The body of a request to remove the split from a dedicated account.
#[derive(Debug, Default)]
pub struct RemoveSplitFromDedicatedAcctBody {
    /// The account number of the dedicated account.
    pub account_number: String,
}

impl RemoveSplitFromDedicatedAcctBody {
    /// The members of the serialized JSON body, in declaration order.
    pub open spec fn json_fields(self) -> Seq<(Seq<char>, Seq<char>)> {
        seq![
            ("account_number"@, jstr(self.account_number@)),
        ]
    }

    /// Serializes the body to its JSON text.
    pub fn to_json(&self) -> (r: String)
        ensures
            r@ == obj_ser(self.json_fields()),
    {
        let mut o = JsonObj::new();
        o.field_str("account_number", self.account_number.as_str());
        proof {
            assert(o@ =~~= self.json_fields());
        }
        o.finish()
    }
}

impl DedicatedNuban {
    /// Builds the request that creates a dedicated account.
    pub fn create_dedicated_account(&self, body: CreateDedicatedAccountBody) -> (r: HttpRequest)
        ensures
            r@ == body_request(
                Method::Post,
                self.bearer(),
                "https://api.paystack.co/dedicated_account"@,
                obj_ser(body.json_fields()),
            ),
    {
        let url = String::from_str("https://api.paystack.co/dedicated_account");
        let serialized = body.to_json();
        make_request(self.bearer_auth.clone(), url, Option::Some(serialized), Method::Post)
    }

    /// Builds the request that lists dedicated accounts.
    pub fn list_dedicated_accounts(&self, params: Option<ListDedicatedAccountsParams>) -> (r: HttpRequest)
        ensures
            r@ == get_request(
                self.bearer(),
                "https://api.paystack.co/dedicated_account"@ + "?"@ + (match params {
                    Option::Some(p) => pairs_text(p.query_pairs()),
                    Option::None => Seq::empty(),
                }),
            ),
    {
        let url = String::from_str("https://api.paystack.co/dedicated_account");
        let query_text = match &params {
            Option::Some(p) => Option::Some(p.to_query()),
            Option::None => Option::None,
        };
        let r = make_get_request(self.bearer_auth.clone(), url, query_text);
        proof {
            assert(r@.url =~= "https://api.paystack.co/dedicated_account"@ + "?"@ + (match params {
                    Option::Some(p) => pairs_text(p.query_pairs()),
                    Option::None => Seq::empty(),
                }));
        }
        r
    }

    /// Builds the request that fetches one dedicated account.
    pub fn fetch_dedicated_account(&self, id: &str) -> (r: HttpRequest)
        ensures
            r@ == get_request(
                self.bearer(),
                "https://api.paystack.co/dedicated_account/"@ + id@ + "?"@,
            ),
    {
        let mut url = String::from_str("https://api.paystack.co/dedicated_account/");
        url.append(id);
        let query_text = Option::None;
        let r = make_get_request(self.bearer_auth.clone(), url, query_text);
        proof {
            assert(r@.url =~= "https://api.paystack.co/dedicated_account/"@ + id@ + "?"@);
        }
        r
    }

    /// Builds the request that deactivates a dedicated account.
    pub fn deactivate_dedicated_account(&self, id: &str) -> (r: HttpRequest)
        ensures
            r@ == body_request(
                Method::Delete,
                self.bearer(),
                "https://api.paystack.co/dedicated_account/"@ + id@,
                "null"@,
            ),
    {
        let mut url = String::from_str("https://api.paystack.co/dedicated_account/");
        url.append(id);
        make_request(self.bearer_auth.clone(), url, Option::None, Method::Delete)
    }

    /// Builds the request that splits the transactions of a dedicated account.
    pub fn split_dedicated_account_transaction(&self, body: SplitDedicatedAccountTxBody) -> (r: HttpRequest)
        ensures
            r@ == body_request(
                Method::Post,
                self.bearer(),
                "https://api.paystack.co/dedicated_account"@,
                obj_ser(body.json_fields()),
            ),
    {
        let url = String::from_str("https://api.paystack.co/dedicated_account");
        let serialized = body.to_json();
        make_request(self.bearer_auth.clone(), url, Option::Some(serialized), Method::Post)
    }

    /// Builds the request that removes the split from a dedicated account.
    pub fn remove_split_from_dedicated_acct(&self, body: RemoveSplitFromDedicatedAcctBody) -> (r: HttpRequest)
        ensures
            r@ == body_request(
                Method::Delete,
                self.bearer(),
                "https://api.paystack.co/dedicated_account"@,
                obj_ser(body.json_fields()),
            ),
    {
        let url = String::from_str("https://api.paystack.co/dedicated_account");
        let serialized = body.to_json();
        make_request(self.bearer_auth.clone(), url, Option::Some(serialized), Method::Delete)
    }

    /// Builds the request that lists the banks offering dedicated accounts.
    pub fn fetch_bank_providers(&self) -> (r: HttpRequest)
        ensures
            r@ == get_request(
                self.bearer(),
                "https://api.paystack.co/dedicated_account/available_providers"@ + "?"@,
            ),
    {
        let url = String::from_str("https://api.paystack.co/dedicated_account/available_providers");
        let query_text = Option::None;
        let r = make_get_request(self.bearer_auth.clone(), url, query_text);
        proof {
            assert(r@.url =~= "https://api.paystack.co/dedicated_account/available_providers"@ + "?"@);
        }
        r
    }
}

} // verus!
