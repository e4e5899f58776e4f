//! The Subaccounts API: accounts that split payments with the integration.

use vstd::prelude::*;
use crate::datetime::{UtcDateTime, opt_date_pair};
use crate::decimal::{Decimal, dec_text, jopt_decimal};
use crate::json::{Json, JsonObj, jopt_json, jopt_str, jstr, obj_ser};
use crate::request::{
    HttpRequest, Method, body_request, get_request, make_get_request, make_request,
};
use crate::urlenc::{QueryString, opt_i64_pair, pairs_text};

verus! {

/// A client for creating and managing subaccounts.
#[derive(Debug, Default)]
pub struct Subaccount {
    pub(crate) bearer_auth: String,
}

impl Subaccount {
    /// The bearer authorization text this resource sends.
    pub closed spec fn bearer(self) -> Seq<char> {
        self.bearer_auth@
    }

    /// Binds the resource client to the authorization header it sends.
    pub fn with_auth(bearer_auth: String) -> (r: Subaccount)
        ensures
            r.bearer() == bearer_auth@,
    {
        Subaccount { bearer_auth }
    }
}

/// The body of a request to create a subaccount.
#[derive(Debug)]
pub struct CreateSubaccountBody {
    /// Name of the business behind the subaccount.
    pub business_name: String,
    /// Bank code, as listed by the bank-list endpoint.
    pub settlement_bank: String,
    /// Bank account number.
    pub account_number: String,
    /// The default percentage charged when receiving on behalf of this subaccount.
    pub percentage_charge: Decimal,
    /// A description for this subaccount.
    pub description: String,
    /// A contact email for the subaccount.
    pub primary_contact_email: Option<String>,
    /// A contact person for this subaccount.
    pub primary_contact_name: Option<String>,
    /// A phone number to call for this subaccount.
    pub primary_contact_phone: Option<String>,
    /// Free-form JSON stored with the subaccount.
    pub metadata: Option<Json>,
}

impl CreateSubaccountBody {
    /// Every timestamp or decimal present lies in its range.
    pub open spec fn wf(self) -> bool {
        self.percentage_charge.wf()
    }

    /// The members of the serialized JSON body, in declaration order.
    pub open spec fn json_fields(self) -> Seq<(Seq<char>, Seq<char>)> {
        seq![
            ("business_name"@, jstr(self.business_name@)),
            ("settlement_bank"@, jstr(self.settlement_bank@)),
            ("account_number"@, jstr(self.account_number@)),
            ("percentage_charge"@, dec_text(self.percentage_charge)),
            ("description"@, jstr(self.description@)),
            ("primary_contact_email"@, jopt_str(self.primary_contact_email)),
            ("primary_contact_name"@, jopt_str(self.primary_contact_name)),
            ("primary_contact_phone"@, jopt_str(self.primary_contact_phone)),
            ("metadata"@, jopt_json(self.metadata)),
        ]
    }

    /// Serializes the body to its JSON text.
    pub fn to_json(&self) -> (r: String)
        requires
            self.wf(),
        ensures
            r@ == obj_ser(self.json_fields()),
    {
        let mut o = JsonObj::new();
        o.field_str("business_name", self.business_name.as_str());
        o.field_str("settlement_bank", self.settlement_bank.as_str());
        o.field_str("account_number", self.account_number.as_str());
        let rendered_percentage_charge = self.percentage_charge.to_text();
        o.field_pre("percentage_charge", rendered_percentage_charge.as_str());
        o.field_str("description", self.description.as_str());
        o.field_opt_str("primary_contact_email", &self.primary_contact_email);
        o.field_opt_str("primary_contact_name", &self.primary_contact_name);
        o.field_opt_str("primary_contact_phone", &self.primary_contact_phone);
        o.field_opt_json("metadata", &self.metadata);
        proof {
            assert(o@ =~~= self.json_fields());
        }
        o.finish()
    }
}

/// The query parameters of a request to list subaccounts.
#[derive(Debug, Default)]
pub struct ListSubaccountParams {
    /// Records per page; the remote default is 50.
    pub per_page: Option<i64>,
    /// Page to retrieve; the remote default is 1.
    pub page: Option<i64>,
    /// List subaccounts from this timestamp on.
    pub from: Option<UtcDateTime>,
    /// List subaccounts up to this timestamp.
    pub to: Option<UtcDateTime>,
}

impl ListSubaccountParams {
    /// Every timestamp present lies in its calendar range.
    pub open spec fn wf(self) -> bool {
        &&& match self.from {
            Option::Some(d) => d.wf(),
            Option::None => true,
        }
        &&& match self.to {
            Option::Some(d) => d.wf(),
            Option::None => true,
        }
    }

    /// The key/value pairs of the query string, in declaration
    /// order; absent parameters contribute nothing.
    pub open spec fn query_pairs(self) -> Seq<(Seq<char>, Seq<char>)> {
        opt_i64_pair("perPage"@, self.per_page)
                + opt_i64_pair("page"@, self.page)
                + opt_date_pair("from"@, self.from)
                + opt_date_pair("to"@, self.to)
    }

    /// Encodes the parameters as a query string.
    #[verifier::rlimit(100)]
    pub fn to_query(&self) -> (r: String)
        requires
            self.wf(),
        ensures
            r@ == pairs_text(self.query_pairs()),
    {
        let mut q = QueryString::new();
        match &self.per_page {
            Option::Some(v) => q.pair_int("perPage", *v as i128),
            Option::None => (),
        }
        match &self.page {
            Option::Some(v) => q.pair_int("page", *v as i128),
            Option::None => (),
        }
        match &self.from {
            Option::Some(d) => {
                let t = d.to_rfc3339();
                q.pair_str("from", t.as_str());
            },
            Option::None => (),
        }
        match &self.to {
            Option::Some(d) => {
                let t = d.to_rfc3339();
                q.pair_str("to", t.as_str());
            },
            Option::None => (),
        }
        proof {
            assert(q@ =~~= self.query_pairs());
        }
        q.finish()
    }
}

/// The body of a request to update a subaccount.
#[derive(Debug)]
pub struct UpdateSubaccountBody {
    /// Name of the business behind the subaccount.
    pub business_name: String,
    /// Bank code, as listed by the bank-list endpoint.
    pub settlement_bank: String,
    /// Bank account number.
    pub account_number: Option<String>,
    /// The default percentage charged when receiving on behalf of this subaccount.
    pub percentage_charge: Option<Decimal>,
    /// A description for this subaccount.
    pub description: Option<String>,
    /// A contact email for the subaccount.
    pub primary_contact_email: Option<String>,
    /// A contact person for this subaccount.
    pub primary_contact_name: Option<String>,
    /// A phone number to call for this subaccount.
    pub primary_contact_phone: Option<String>,
    /// Free-form JSON stored with the subaccount.
    pub metadata: Option<Json>,
}

impl UpdateSubaccountBody {
    /// Every timestamp or decimal present lies in its range.
    pub open spec fn wf(self) -> bool {
        match self.percentage_charge {
            Option::Some(d) => d.wf(),
            Option::None => true,
        }
    }

    /// The members of the serialized JSON body, in declaration order.
    pub open spec fn json_fields(self) -> Seq<(Seq<char>, Seq<char>)> {
        seq![
            ("business_name"@, jstr(self.business_name@)),
            ("settlement_bank"@, jstr(self.settlement_bank@)),
            ("account_number"@, jopt_str(self.account_number)),
            ("percentage_charge"@, jopt_decimal(self.percentage_charge)),
            ("description"@, jopt_str(self.description)),
            ("primary_contact_email"@, jopt_str(self.primary_contact_email)),
            ("primary_contact_name"@, jopt_str(self.primary_contact_name)),
            ("primary_contact_phone"@, jopt_str(self.primary_contact_phone)),
            ("metadata"@, jopt_json(self.metadata)),
        ]
    }

    /// Serializes the body to its JSON text.
    pub fn to_json(&self) -> (r: String)
        requires
            self.wf(),
        ensures
            r@ == obj_ser(self.json_fields()),
    {
        let mut o = JsonObj::new();
        o.field_str("business_name", self.business_name.as_str());
        o.field_str("settlement_bank", self.settlement_bank.as_str());
        o.field_opt_str("account_number", &self.account_number);
        match &self.percentage_charge {
            Option::Some(d) => {
                let t = d.to_text();
                o.field_pre("percentage_charge", t.as_str());
            },
            Option::None => o.field_pre("percentage_charge", "null"),
        }
        o.field_opt_str("description", &self.description);
        o.field_opt_str("primary_contact_email", &self.primary_contact_email);
        o.field_opt_str("primary_contact_name", &self.primary_contact_name);
        o.field_opt_str("primary_contact_phone", &self.primary_contact_phone);
        o.field_opt_json("metadata", &self.metadata);
        proof {
            assert(o@ =~~= self.json_fields());
        }
        o.finish()
    }
}

impl Subaccount {
    /// Builds the request that creates a subaccount.
    pub fn create_subaccount(&self, body: CreateSubaccountBody) -> (r: HttpRequest)
        requires
            body.wf(),
        ensures
            r@ == body_request(
                Method::Post,
                self.bearer(),
                "https://api.paystack.co/subaccount"@,
                obj_ser(body.json_fields()),
            ),
    {
        let url = String::from_str("https://api.paystack.co/subaccount");
        let serialized = body.to_json();
        make_request(self.bearer_auth.clone(), url, Option::Some(serialized), Method::Post)
    }

    /// Builds the request that lists subaccounts.
    pub fn list_subaccounts(&self, params: Option<ListSubaccountParams>) -> (r: HttpRequest)
        requires
            match params {
                Option::Some(p) => p.wf(),
                Option::None => true,
            },
        ensures
            r@ == get_request(
                self.bearer(),
                "https://api.paystack.co/subaccount"@ + "?"@ + (match params {
                    Option::Some(p) => pairs_text(p.query_pairs()),
                    Option::None => Seq::empty(),
                }),
            ),
    {
        let url = String::from_str("https://api.paystack.co/subaccount");
        let query_text = match &params {
            Option::Some(p) => Option::Some(p.to_query()),
            Option::None => Option::None,
        };
        let r = make_get_request(self.bearer_auth.clone(), url, query_text);
        proof {
            assert(r@.url =~= "https://api.paystack.co/subaccount"@ + "?"@ + (match params {
                    Option::Some(p) => pairs_text(p.query_pairs()),
                    Option::None => Seq::empty(),
                }));
        }
        r
    }

    /// Builds the request that fetches one subaccount.
    pub fn fetch_subaccount(&self, id: &str) -> (r: HttpRequest)
        ensures
            r@ == get_request(
                self.bearer(),
                "https://api.paystack.co/subaccount/"@ + id@ + "?"@,
            ),
    {
        let mut url = String::from_str("https://api.paystack.co/subaccount/");
        url.append(id);
        let query_text = Option::None;
        let r = make_get_request(self.bearer_auth.clone(), url, query_text);
        proof {
            assert(r@.url =~= "https://api.paystack.co/subaccount/"@ + id@ + "?"@);
        }
        r
    }

    /// Builds the request that updates a subaccount.
    pub fn update_subaccount(&self, id: &str, body: UpdateSubaccountBody) -> (r: HttpRequest)
        requires
            body.wf(),
        ensures
            r@ == body_request(
                Method::Put,
                self.bearer(),
                "https://api.paystack.co/subaccount/"@ + id@,
                obj_ser(body.json_fields()),
            ),
    {
        let mut url = String::from_str("https://api.paystack.co/subaccount/");
        url.append(id);
        let serialized = body.to_json();
        make_request(self.bearer_auth.clone(), url, Option::Some(serialized), Method::Put)
    }
}

} // verus!
