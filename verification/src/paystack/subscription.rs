//! The Subscriptions API: recurring payments against plans.

use vstd::prelude::*;
use crate::datetime::{UtcDateTime, jopt_date};
use crate::json::{JsonObj, jstr, obj_ser};
use crate::request::{
    HttpRequest, Method, body_request, get_request, make_get_request, make_request,
};
use crate::text::dec_int;
use crate::urlenc::{QueryString, opt_int_pair, pairs_text};

verus! {

/// A client for creating and managing subscriptions.
#[derive(Debug, Default)]
pub struct Subscription {
    pub(crate) bearer_auth: String,
}

impl Subscription {
    /// The bearer authorization text this resource sends.
    pub closed spec fn bearer(self) -> Seq<char> {
        self.bearer_auth@
    }

    /// Binds the resource client to the authorization header it sends.
    pub fn with_auth(bearer_auth: String) -> (r: Subscription)
        ensures
            r.bearer() == bearer_auth@,
    {
        Subscription { bearer_auth }
    }
}

/// The body of a request to create a subscription.
#[derive(Debug)]
pub struct CreateSubscriptionBody {
    /// Customer's email address or customer code.
    pub customer: String,
    /// Plan code.
    pub plan: String,
    /// The authorization to charge; the most recent one when empty.
    pub authorization: String,
    /// The date of the first debit.
    pub start_date: Option<UtcDateTime>,
}

impl CreateSubscriptionBody {
    /// Every timestamp or decimal present lies in its range.
    pub open spec fn wf(self) -> bool {
        match self.start_date {
            Option::Some(d) => d.wf(),
            Option::None => true,
        }
    }

    /// The members of the serialized JSON body, in declaration order.
    pub open spec fn json_fields(self) -> Seq<(Seq<char>, Seq<char>)> {
        seq![
            ("customer"@, jstr(self.customer@)),
            ("plan"@, jstr(self.plan@)),
            ("authorization"@, jstr(self.authorization@)),
            ("start_date"@, jopt_date(self.start_date)),
        ]
    }

    /// Serializes the body to its JSON text.
    pub fn to_json(&self) -> (r: String)
        requires
            self.wf(),
        ensures
            r@ == obj_ser(self.json_fields()),
    {
        let mut o = JsonObj::new();
        o.field_str("customer", self.customer.as_str());
        o.field_str("plan", self.plan.as_str());
        o.field_str("authorization", self.authorization.as_str());
        match &self.start_date {
            Option::Some(d) => {
                let t = d.to_rfc3339();
                o.field_str("start_date", t.as_str());
            },
            Option::None => o.field_pre("start_date", "null"),
        }
        proof {
            assert(o@ =~~= self.json_fields());
        }
        o.finish()
    }
}

/// The query parameters of a request to list subscriptions.
#[derive(Debug)]
pub struct ListSubscriptionParams {
    /// Records per page; the remote default is 50.
    pub per_page: i128,
    /// Page to retrieve; the remote default is 1.
    pub page: i128,
    /// Filter by customer ID.
    pub customer: Option<i128>,
    /// Filter by plan ID.
    pub plan: Option<i128>,
}

impl ListSubscriptionParams {
    /// The key/value pairs of the query string, in declaration
    /// order; absent parameters contribute nothing.
    pub open spec fn query_pairs(self) -> Seq<(Seq<char>, Seq<char>)> {
        seq![("perPage"@, dec_int(self.per_page as int))]
                + seq![("page"@, dec_int(self.page as int))]
                + opt_int_pair("customer"@, self.customer)
                + opt_int_pair("plan"@, self.plan)
    }

    /// Encodes the parameters as a query string.
    #[verifier::rlimit(100)]
    pub fn to_query(&self) -> (r: String)
        ensures
            r@ == pairs_text(self.query_pairs()),
    {
        let mut q = QueryString::new();
        q.pair_int("perPage", self.per_page);
        q.pair_int("page", self.page);
        match &self.customer {
            Option::Some(v) => q.pair_int("customer", *v),
            Option::None => (),
        }
        match &self.plan {
            Option::Some(v) => q.pair_int("plan", *v),
            Option::None => (),
        }
        proof {
            assert(q@ =~~= self.query_pairs());
        }
        q.finish()
    }
}

/// The body of a request to enable a subscription.
#[derive(Debug, Default)]
pub struct EnableSubscriptionBody {
    /// Subscription code.
    pub code: String,
    /// Email token of the subscription.
    pub token: String,
}

impl EnableSubscriptionBody {
    /// The members of the serialized JSON body, in declaration order.
    pub open spec fn json_fields(self) -> Seq<(Seq<char>, Seq<char>)> {
        seq![
            ("code"@, jstr(self.code@)),
            ("token"@, jstr(self.token@)),
        ]
    }

    /// Serializes the body to its JSON text.
    pub fn to_json(&self) -> (r: String)
        ensures
            r@ == obj_ser(self.json_fields()),
    {
        let mut o = JsonObj::new();
        o.field_str("code", self.code.as_str());
        o.field_str("token", self.token.as_str());
        proof {
            assert(o@ =~~= self.json_fields());
        }
        o.finish()
    }
}

/// The body of a request to disable a subscription.
#[derive(Debug, Default)]
pub struct DisableSubscriptionBody {
    /// Subscription code.
    pub code: String,
    /// Email token of the subscription.
    pub token: String,
}

impl DisableSubscriptionBody {
    /// The members of the serialized JSON body, in declaration order.
    pub open spec fn json_fields(self) -> Seq<(Seq<char>, Seq<char>)> {
        seq![
            ("code"@, jstr(self.code@)),
            ("token"@, jstr(self.token@)),
        ]
    }

    /// Serializes the body to its JSON text.
    pub fn to_json(&self) -> (r: String)
        ensures
            r@ == obj_ser(self.json_fields()),
    {
        let mut o = JsonObj::new();
        o.field_str("code", self.code.as_str());
        o.field_str("token", self.token.as_str());
        proof {
            assert(o@ =~~= self.json_fields());
        }
        o.finish()
    }
}

impl Subscription {
    /// Builds the request that creates a subscription.
    pub fn create_subscription(&self, body: CreateSubscriptionBody) -> (r: HttpRequest)
        requires
            body.wf(),
        ensures
            r@ == body_request(
                Method::Post,
                self.bearer(),
                "https://api.paystack.co/subscription"@,
                obj_ser(body.json_fields()),
            ),
    {
        let url = String::from_str("https://api.paystack.co/subscription");
        let serialized = body.to_json();
        make_request(self.bearer_auth.clone(), url, Option::Some(serialized), Method::Post)
    }

    /// Builds the request that lists subscriptions.
    pub fn list_subscription(&self, params: Option<ListSubscriptionParams>) -> (r: HttpRequest)
        ensures
            r@ == get_request(
                self.bearer(),
                "https://api.paystack.co/subscription"@ + "?"@ + (match params {
                    Option::Some(p) => pairs_text(p.query_pairs()),
                    Option::None => Seq::empty(),
                }),
            ),
    {
        let url = String::from_str("https://api.paystack.co/subscription");
        let query_text = match &params {
            Option::Some(p) => Option::Some(p.to_query()),
            Option::None => Option::None,
        };
        let r = make_get_request(self.bearer_auth.clone(), url, query_text);
        proof {
            assert(r@.url =~= "https://api.paystack.co/subscription"@ + "?"@ + (match params {
                    Option::Some(p) => pairs_text(p.query_pairs()),
                    Option::None => Seq::empty(),
                }));
        }
        r
    }

    /// Builds the request that fetches one subscription.
    pub fn fetch_subscription(&self, id_or_code: String) -> (r: HttpRequest)
        ensures
            r@ == get_request(
                self.bearer(),
                "https://api.paystack.co/subscription/"@ + id_or_code@ + "?"@,
            ),
    {
        let mut url = String::from_str("https://api.paystack.co/subscription/");
        url.append(id_or_code.as_str());
        let query_text = Option::None;
        let r = make_get_request(self.bearer_auth.clone(), url, query_text);
        proof {
            assert(r@.url =~= "https://api.paystack.co/subscription/"@ + id_or_code@ + "?"@);
        }
        r
    }

    /// Builds the request that enables a subscription.
    pub fn enable_subscription(&self, body: EnableSubscriptionBody) -> (r: HttpRequest)
        ensures
            r@ == body_request(
                Method::Post,
                self.bearer(),
                "https://api.paystack.co/subscription/enable"@,
                obj_ser(body.json_fields()),
            ),
    {
        let url = String::from_str("https://api.paystack.co/subscription/enable");
        let serialized = body.to_json();
        make_request(self.bearer_auth.clone(), url, Option::Some(serialized), Method::Post)
    }

    /// Builds the request that disables a subscription.
    pub fn disable_subscription(&self, body: DisableSubscriptionBody) -> (r: HttpRequest)
        ensures
            r@ == body_request(
                Method::Post,
                self.bearer(),
                "https://api.paystack.co/subscription/disable"@,
                obj_ser(body.json_fields()),
            ),
    {
        let url = String::from_str("https://api.paystack.co/subscription/disable");
        let serialized = body.to_json();
        make_request(self.bearer_auth.clone(), url, Option::Some(serialized), Method::Post)
    }
}

} // verus!
