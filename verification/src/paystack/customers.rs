//! The Customers API: creating and managing customers.

use vstd::prelude::*;
use crate::datetime::{UtcDateTime, opt_date_pair};
use crate::json::{Json, JsonObj, jopt_json, jopt_str, jstr, obj_ser};
use crate::request::{
    HttpRequest, Method, body_request, get_request, make_get_request, make_request,
};
use crate::urlenc::{QueryString, opt_i64_pair, pairs_text};

verus! {

/// A client for creating and managing customers.
#[derive(Debug, Default)]
pub struct Customer {
    pub(crate) bearer_auth: String,
}

impl Customer {
    /// The bearer authorization text this resource sends.
    pub closed spec fn bearer(self) -> Seq<char> {
        self.bearer_auth@
    }

    /// Binds the resource client to the authorization header it sends.
    pub fn with_auth(bearer_auth: String) -> (r: Customer)
        ensures
            r.bearer() == bearer_auth@,
    {
        Customer { bearer_auth }
    }
}

/// A risk standing that a customer can be moved to.
#[derive(Debug, Clone, Copy)]
pub enum RiskAction {
    Default,
    Allow,
    Deny,
}

impl RiskAction {
    /// The wire token of this value.
    pub open spec fn spec_code(self) -> Seq<char> {
        match self {
            RiskAction::Default => "Default"@,
            RiskAction::Allow => "Allow"@,
            RiskAction::Deny => "Deny"@,
        }
    }

    /// Returns the wire token of this value.
    pub fn code(&self) -> (r: &'static str)
        ensures
            r@ == self.spec_code(),
    {
        match self {
            RiskAction::Default => "Default",
            RiskAction::Allow => "Allow",
            RiskAction::Deny => "Deny",
        }
    }
}

/// The value text of an optional `RiskAction` field inside a JSON body.
pub open spec fn jopt_risk_action(o: Option<RiskAction>) -> Seq<char> {
    match o {
        Option::Some(x) => jstr(x.spec_code()),
        Option::None => "null"@,
    }
}

/// The body of a request to create a customer.
#[derive(Debug, Default)]
pub struct CreateCustomerBody {
    /// Customer's email address.
    pub email: String,
    /// Customer's first name.
    pub first_name: String,
    /// Customer's last name.
    pub last_name: String,
    /// Customer's phone number.
    pub phone: Option<String>,
    /// Key/value pairs stored with the customer.
    pub metadata: Option<Json>,
}

impl CreateCustomerBody {
    /// The members of the serialized JSON body, in declaration order.
    pub open spec fn json_fields(self) -> Seq<(Seq<char>, Seq<char>)> {
        seq![
            ("email"@, jstr(self.email@)),
            ("first_name"@, jstr(self.first_name@)),
            ("last_name"@, jstr(self.last_name@)),
            ("phone"@, jopt_str(self.phone)),
            ("metadata"@, jopt_json(self.metadata)),
        ]
    }

    /// Serializes the body to its JSON text.
    pub fn to_json(&self) -> (r: String)
        ensures
            r@ == obj_ser(self.json_fields()),
    {
        let mut o = JsonObj::new();
        o.field_str("email", self.email.as_str());
        o.field_str("first_name", self.first_name.as_str());
        o.field_str("last_name", self.last_name.as_str());
        o.field_opt_str("phone", &self.phone);
        o.field_opt_json("metadata", &self.metadata);
        proof {
            assert(o@ =~~= self.json_fields());
        }
        o.finish()
    }
}

/// The query parameters of a request to list customers.
#[derive(Debug, Default)]
pub struct ListCustomersParams {
    /// Records per page; the remote default is 50.
    pub per_page: Option<i64>,
    /// Page to retrieve; the remote default is 1.
    pub page: Option<i64>,
    /// List customers from this timestamp on.
    pub from: Option<UtcDateTime>,
    /// List customers up to this timestamp.
    pub to: Option<UtcDateTime>,
}

impl ListCustomersParams {
    /// Every timestamp present lies in its calendar range.
    pub open spec fn wf(self) -> bool {
        &&& match self.from {
            Option::Some(d) => d.wf(),
            Option::None => true,
        }
        &&& match self.to {
            Option::Some(d) => d.wf(),
            Option::None => true,
        }
    }

    /// The key/value pairs of the query string, in declaration
    /// order; absent parameters contribute nothing.
    pub open spec fn query_pairs(self) -> Seq<(Seq<char>, Seq<char>)> {
        opt_i64_pair("perPage"@, self.per_page)
                + opt_i64_pair("page"@, self.page)
                + opt_date_pair("from"@, self.from)
                + opt_date_pair("to"@, self.to)
    }

    /// Encodes the parameters as a query string.
    #[verifier::rlimit(100)]
    pub fn to_query(&self) -> (r: String)
        requires
            self.wf(),
        ensures
            r@ == pairs_text(self.query_pairs()),
    {
        let mut q = QueryString::new();
        match &self.per_page {
            Option::Some(v) => q.pair_int("perPage", *v as i128),
            Option::None => (),
        }
        match &self.page {
            Option::Some(v) => q.pair_int("page", *v as i128),
            Option::None => (),
        }
        match &self.from {
            Option::Some(d) => {
                let t = d.to_rfc3339();
                q.pair_str("from", t.as_str());
            },
            Option::None => (),
        }
        match &self.to {
            Option::Some(d) => {
                let t = d.to_rfc3339();
                q.pair_str("to", t.as_str());
            },
            Option::None => (),
        }
        proof {
            assert(q@ =~~= self.query_pairs());
        }
        q.finish()
    }
}

/// The body of a request to update a customer.
#[derive(Debug, Default)]
pub struct UpdateCustomerBody {
    /// Customer's first name.
    pub first_name: String,
    /// Customer's last name.
    pub last_name: String,
    /// Customer's phone number.
    pub phone: Option<String>,
    /// Key/value pairs stored with the customer.
    pub metadata: Option<Json>,
}

impl UpdateCustomerBody {
    /// The members of the serialized JSON body, in declaration order.
    pub open spec fn json_fields(self) -> Seq<(Seq<char>, Seq<char>)> {
        seq![
            ("first_name"@, jstr(self.first_name@)),
            ("last_name"@, jstr(self.last_name@)),
            ("phone"@, jopt_str(self.phone)),
            ("metadata"@, jopt_json(self.metadata)),
        ]
    }

    /// Serializes the body to its JSON text.
    pub fn to_json(&self) -> (r: String)
        ensures
            r@ == obj_ser(self.json_fields()),
    {
        let mut o = JsonObj::new();
        o.field_str("first_name", self.first_name.as_str());
        o.field_str("last_name", self.last_name.as_str());
        o.field_opt_str("phone", &self.phone);
        o.field_opt_json("metadata", &self.metadata);
        proof {
            assert(o@ =~~= self.json_fields());
        }
        o.finish()
    }
}

/// The body of a request to validate a customer's identity.
#[derive(Debug, Default)]
pub struct ValidateCustomerBody {
    /// Customer's first name.
    pub first_name: String,
    /// Customer's last name.
    pub last_name: String,
    /// The kind of identification; only `bvn` is valid.
    pub tx_type: String,
    /// Customer's identification number.
    pub value: String,
    /// Two-letter country code of the identification issuer.
    pub country: String,
}

impl ValidateCustomerBody {
    /// The members of the serialized JSON body, in declaration order.
    pub open spec fn json_fields(self) -> Seq<(Seq<char>, Seq<char>)> {
        seq![
            ("first_name"@, jstr(self.first_name@)),
            ("last_name"@, jstr(self.last_name@)),
            ("tx_type"@, jstr(self.tx_type@)),
            ("value"@, jstr(self.value@)),
            ("country"@, jstr(self.country@)),
        ]
    }

    /// Serializes the body to its JSON text.
    pub fn to_json(&self) -> (r: String)
        ensures
            r@ == obj_ser(self.json_fields()),
    {
        let mut o = JsonObj::new();
        o.field_str("first_name", self.first_name.as_str());
        o.field_str("last_name", self.last_name.as_str());
        o.field_str("tx_type", self.tx_type.as_str());
        o.field_str("value", self.value.as_str());
        o.field_str("country", self.country.as_str());
        proof {
            assert(o@ =~~= self.json_fields());
        }
        o.finish()
    }
}

/// The body of a request to change a customer's risk action.
#[derive(Debug, Default)]
pub struct WhitelistOrBlacklistCustomerBody {
    /// Customer's code or email address.
    pub customer: String,
    /// `Allow` whitelists, `Deny` blacklists; customers start at `Default`.
    pub risk_action: Option<RiskAction>,
}

impl WhitelistOrBlacklistCustomerBody {
    /// The members of the serialized JSON body, in declaration order.
    pub open spec fn json_fields(self) -> Seq<(Seq<char>, Seq<char>)> {
        seq![
            ("customer"@, jstr(self.customer@)),
            ("risk_action"@, jopt_risk_action(self.risk_action)),
        ]
    }

    /// Serializes the body to its JSON text.
    pub fn to_json(&self) -> (r: String)
        ensures
            r@ == obj_ser(self.json_fields()),
    {
        let mut o = JsonObj::new();
        o.field_str("customer", self.customer.as_str());
        match &self.risk_action {
            Option::Some(x) => o.field_str("risk_action", x.code()),
            Option::None => o.field_pre("risk_action", "null"),
        }
        proof {
            assert(o@ =~~= self.json_fields());
        }
        o.finish()
    }
}

/// The body of a request to forget a stored card.
#[derive(Debug, Default)]
pub struct DeactivateAuthorizationBody {
    /// Authorization code to deactivate.
    pub authorization_code: String,
}

impl DeactivateAuthorizationBody {
    /// The members of the serialized JSON body, in declaration order.
    pub open spec fn json_fields(self) -> Seq<(Seq<char>, Seq<char>)> {
        seq![
            ("authorization_code"@, jstr(self.authorization_code@)),
        ]
    }

    /// Serializes the body to its JSON text.
    pub fn to_json(&self) -> (r: String)
        ensures
            r@ == obj_ser(self.json_fields()),
    {
        let mut o = JsonObj::new();
        o.field_str("authorization_code", self.authorization_code.as_str());
        proof {
            assert(o@ =~~= self.json_fields());
        }
        o.finish()
    }
}

impl Customer {
    /// Builds the request that creates a customer.
    pub fn create_customer(&self, body: CreateCustomerBody) -> (r: HttpRequest)
        ensures
            r@ == body_request(
                Method::Post,
                self.bearer(),
                "https://api.paystack.co/customer"@,
                obj_ser(body.json_fields()),
            ),
    {
        let url = String::from_str("https://api.paystack.co/customer");
        let serialized = body.to_json();
        make_request(self.bearer_auth.clone(), url, Option::Some(serialized), Method::Post)
    }

    /// Builds the request that lists customers.
    pub fn list_customers(&self, queries: Option<ListCustomersParams>) -> (r: HttpRequest)
        requires
            match queries {
                Option::Some(p) => p.wf(),
                Option::None => true,
            },
        ensures
            r@ == get_request(
                self.bearer(),
                "https://api.paystack.co/customer"@ + "?"@ + (match queries {
                    Option::Some(p) => pairs_text(p.query_pairs()),
                    Option::None => Seq::empty(),
                }),
            ),
    {
        let url = String::from_str("https://api.paystack.co/customer");
        let query_text = match &queries {
            Option::Some(p) => Option::Some(p.to_query()),
            Option::None => Option::None,
        };
        let r = make_get_request(self.bearer_auth.clone(), url, query_text);
        proof {
            assert(r@.url =~= "https://api.paystack.co/customer"@ + "?"@ + (match queries {
                    Option::Some(p) => pairs_text(p.query_pairs()),
                    Option::None => Seq::empty(),
                }));
        }
        r
    }

    /// Builds the request that fetches one customer.
    pub fn fetch_customer(&self, email_or_code: &str) -> (r: HttpRequest)
        ensures
            r@ == get_request(
                self.bearer(),
                "https://api.paystack.co/customer/"@ + email_or_code@ + "?"@,
            ),
    {
        let mut url = String::from_str("https://api.paystack.co/customer/");
        url.append(email_or_code);
        let query_text = Option::None;
        let r = make_get_request(self.bearer_auth.clone(), url, query_text);
        proof {
            assert(r@.url =~= "https://api.paystack.co/customer/"@ + email_or_code@ + "?"@);
        }
        r
    }

    /// Builds the request that updates a customer.
    pub fn update_customer(&self, code: &str, body: UpdateCustomerBody) -> (r: HttpRequest)
        ensures
            r@ == body_request(
                Method::Put,
                self.bearer(),
                "https://api.paystack.co/customer/"@ + code@,
                obj_ser(body.json_fields()),
            ),
    {
        let mut url = String::from_str("https://api.paystack.co/customer/");
        url.append(code);
        let serialized = body.to_json();
        make_request(self.bearer_auth.clone(), url, Option::Some(serialized), Method::Put)
    }

    /// Builds the request that validates a customer's identity.
    pub fn validate_customer(&self, code: &str, body: ValidateCustomerBody) -> (r: HttpRequest)
        ensures
            r@ == body_request(
                Method::Post,
                self.bearer(),
                "https://api.paystack.co/customer/"@ + code@ + "/identification"@,
                obj_ser(body.json_fields()),
            ),
    {
        let mut url = String::from_str("https://api.paystack.co/customer/");
        url.append(code);
        url.append("/identification");
        let serialized = body.to_json();
        make_request(self.bearer_auth.clone(), url, Option::Some(serialized), Method::Post)
    }

    /// Builds the request that changes a customer's risk action.
    pub fn whitelist_or_blacklist_customer(&self, body: WhitelistOrBlacklistCustomerBody) -> (r: HttpRequest)
        ensures
            r@ == body_request(
                Method::Post,
                self.bearer(),
                "https://api.paystack.co/customer/set_risk_action"@,
                obj_ser(body.json_fields()),
            ),
    {
        let url = String::from_str("https://api.paystack.co/customer/set_risk_action");
        let serialized = body.to_json();
        make_request(self.bearer_auth.clone(), url, Option::Some(serialized), Method::Post)
    }

    /// Builds the request that deactivates a stored authorization.
    pub fn deactivate_authorization(&self, body: DeactivateAuthorizationBody) -> (r: HttpRequest)
        ensures
            r@ == body_request(
                Method::Post,
                self.bearer(),
                "https://api.paystack.co/customer/deactivate_authorization"@,
                obj_ser(body.json_fields()),
            ),
    {
        let url = String::from_str("https://api.paystack.co/customer/deactivate_authorization");
        let serialized = body.to_json();
        make_request(self.bearer_auth.clone(), url, Option::Some(serialized), Method::Post)
    }
}

} // verus!
