//! The Plans API: installment payment options.

use vstd::prelude::*;
use crate::json::{JsonObj, jopt_bool, jopt_int, jopt_str, jstr, obj_ser};
use crate::paystack::transactions::{Currency, jopt_currency, opt_currency_pair};
use crate::request::{
    HttpRequest, Method, body_request, get_request, make_get_request, make_request,
};
use crate::text::dec_int;
use crate::urlenc::{QueryString, opt_int_pair, pairs_text};

verus! {

/// A client for creating and managing plans.
#[derive(Debug, Default)]
pub struct Plans {
    pub(crate) bearer_auth: String,
}

impl Plans {
    /// The bearer authorization text this resource sends.
    pub closed spec fn bearer(self) -> Seq<char> {
        self.bearer_auth@
    }

    /// Binds the resource client to the authorization header it sends.
    pub fn with_auth(bearer_auth: String) -> (r: Plans)
        ensures
            r.bearer() == bearer_auth@,
    {
        Plans { bearer_auth }
    }
}

/// How often a plan charges its subscribers.
#[derive(Debug, Clone, Copy)]
pub enum Interval {
    Daily,
    Weekly,
    Monthly,
    Biannual,
    Annually,
}

impl Interval {
    /// The wire token of this value.
    pub open spec fn spec_code(self) -> Seq<char> {
        match self {
            Interval::Daily => "daily"@,
            Interval::Weekly => "weekly"@,
            Interval::Monthly => "monthly"@,
            Interval::Biannual => "biannual"@,
            Interval::Annually => "annually"@,
        }
    }

    /// Returns the wire token of this value.
    pub fn code(&self) -> (r: &'static str)
        ensures
            r@ == self.spec_code(),
    {
        match self {
            Interval::Daily => "daily",
            Interval::Weekly => "weekly",
            Interval::Monthly => "monthly",
            Interval::Biannual => "biannual",
            Interval::Annually => "annually",
        }
    }
}

/// The body of a request to create a plan.
#[derive(Debug)]
pub struct CreatePlan {
    /// Name of the plan.
    pub name: String,
    /// Amount in the currency's subunit (kobo, pesewas or cents).
    pub amount: i128,
    /// How often the plan charges.
    pub interval: Interval,
    /// A description for this plan.
    pub description: Option<String>,
    /// Set to false to stop invoices going to customers.
    pub send_invoices: Option<bool>,
    /// Set to false to stop text messages going to customers.
    pub send_sms: Option<String>,
    /// Currency in which the amount is set.
    pub currency: Option<Currency>,
    /// Number of invoices raised during a subscription.
    pub invoice_limit: Option<i128>,
}

impl CreatePlan {
    /// The members of the serialized JSON body, in declaration order.
    pub open spec fn json_fields(self) -> Seq<(Seq<char>, Seq<char>)> {
        seq![
            ("name"@, jstr(self.name@)),
            ("amount"@, dec_int(self.amount as int)),
            ("interval"@, jstr(self.interval.spec_code())),
            ("description"@, jopt_str(self.description)),
            ("send_invoices"@, jopt_bool(self.send_invoices)),
            ("send_sms"@, jopt_str(self.send_sms)),
            ("currency"@, jopt_currency(self.currency)),
            ("invoice_limit"@, jopt_int(self.invoice_limit)),
        ]
    }

    /// Serializes the body to its JSON text.
    pub fn to_json(&self) -> (r: String)
        ensures
            r@ == obj_ser(self.json_fields()),
    {
        let mut o = JsonObj::new();
        o.field_str("name", self.name.as_str());
        o.field_int("amount", self.amount);
        o.field_str("interval", self.interval.code());
        o.field_opt_str("description", &self.description);
        o.field_opt_bool("send_invoices", &self.send_invoices);
        o.field_opt_str("send_sms", &self.send_sms);
        match &self.currency {
            Option::Some(x) => o.field_str("currency", x.code()),
            Option::None => o.field_pre("currency", "null"),
        }
        o.field_opt_int("invoice_limit", &self.invoice_limit);
        proof {
            assert(o@ =~~= self.json_fields());
        }
        o.finish()
    }
}

/// The query parameters of a request to list plans.
#[derive(Debug, Default)]
pub struct ListPlansParams {
    /// Records per page; the remote default is 50.
    pub per_page: Option<i128>,
    /// Page to retrieve; the remote default is 1.
    pub page: Option<i128>,
    /// Filter by plan interval.
    pub interval: Option<i128>,
    /// Filter by plan currency.
    pub amount: Option<Currency>,
}

impl ListPlansParams {
    /// The key/value pairs of the query string, in declaration
    /// order; absent parameters contribute nothing.
    pub open spec fn query_pairs(self) -> Seq<(Seq<char>, Seq<char>)> {
        opt_int_pair("perPage"@, self.per_page)
                + opt_int_pair("page"@, self.page)
                + opt_int_pair("interval"@, self.interval)
                + opt_currency_pair("amount"@, self.amount)
    }

    /// Encodes the parameters as a query string.
    #[verifier::rlimit(100)]
    pub fn to_query(&self) -> (r: String)
        ensures
            r@ == pairs_text(self.query_pairs()),
    {
        let mut q = QueryString::new();
        match &self.per_page {
            Option::Some(v) => q.pair_int("perPage", *v),
            Option::None => (),
        }
        match &self.page {
            Option::Some(v) => q.pair_int("page", *v),
            Option::None => (),
        }
        match &self.interval {
            Option::Some(v) => q.pair_int("interval", *v),
            Option::None => (),
        }
        match &self.amount {
            Option::Some(x) => q.pair_pre("amount", x.code()),
            Option::None => (),
        }
        proof {
            assert(q@ =~~= self.query_pairs());
        }
        q.finish()
    }
}

/// The body of a request to update a plan.
#[derive(Debug)]
pub struct UpdatePlanBody {
    /// Name of the plan.
    pub name: String,
    /// Amount in the currency's subunit (kobo, pesewas or cents).
    pub amount: i128,
    /// How often the plan charges.
    pub interval: Interval,
    /// A description for this plan.
    pub description: Option<String>,
    /// Set to false to stop invoices going to customers.
    pub send_invoices: Option<bool>,
    /// Set to false to stop text messages going to customers.
    pub send_sms: Option<String>,
    /// Currency in which the amount is set.
    pub currency: Option<Currency>,
    /// Number of invoices raised during a subscription.
    pub invoice_limit: Option<i128>,
}

impl UpdatePlanBody {
    /// The members of the serialized JSON body, in declaration order.
    pub open spec fn json_fields(self) -> Seq<(Seq<char>, Seq<char>)> {
        seq![
            ("name"@, jstr(self.name@)),
            ("amount"@, dec_int(self.amount as int)),
            ("interval"@, jstr(self.interval.spec_code())),
            ("description"@, jopt_str(self.description)),
            ("send_invoices"@, jopt_bool(self.send_invoices)),
            ("send_sms"@, jopt_str(self.send_sms)),
            ("currency"@, jopt_currency(self.currency)),
            ("invoice_limit"@, jopt_int(self.invoice_limit)),
        ]
    }

    /// Serializes the body to its JSON text.
    pub fn to_json(&self) -> (r: String)
        ensures
            r@ == obj_ser(self.json_fields()),
    {
        let mut o = JsonObj::new();
        o.field_str("name", self.name.as_str());
        o.field_int("amount", self.amount);
        o.field_str("interval", self.interval.code());
        o.field_opt_str("description", &self.description);
        o.field_opt_bool("send_invoices", &self.send_invoices);
        o.field_opt_str("send_sms", &self.send_sms);
        match &self.currency {
            Option::Some(x) => o.field_str("currency", x.code()),
            Option::None => o.field_pre("currency", "null"),
        }
        o.field_opt_int("invoice_limit", &self.invoice_limit);
        proof {
            assert(o@ =~~= self.json_fields());
        }
        o.finish()
    }
}

impl Plans {
    /// Builds the request that creates a plan.
    pub fn create_plan(&self, body: CreatePlan) -> (r: HttpRequest)
        ensures
            r@ == body_request(
                Method::Post,
                self.bearer(),
                "https://api.paystack.co/plan"@,
                obj_ser(body.json_fields()),
            ),
    {
        let url = String::from_str("https://api.paystack.co/plan");
        let serialized = body.to_json();
        make_request(self.bearer_auth.clone(), url, Option::Some(serialized), Method::Post)
    }

    /// Builds the request that lists plans.
    pub fn list_plans(&self, params: Option<ListPlansParams>) -> (r: HttpRequest)
        ensures
            r@ == get_request(
                self.bearer(),
                "https://api.paystack.co/plan"@ + "?"@ + (match params {
                    Option::Some(p) => pairs_text(p.query_pairs()),
                    Option::None => Seq::empty(),
                }),
            ),
    {
        let url = String::from_str("https://api.paystack.co/plan");
        let query_text = match &params {
            Option::Some(p) => Option::Some(p.to_query()),
            Option::None => Option::None,
        };
        let r = make_get_request(self.bearer_auth.clone(), url, query_text);
        proof {
            assert(r@.url =~= "https://api.paystack.co/plan"@ + "?"@ + (match params {
                    Option::Some(p) => pairs_text(p.query_pairs()),
                    Option::None => Seq::empty(),
                }));
        }
        r
    }

    /// Builds the request that fetches one plan.
    pub fn fetch_plan(&self, id_or_code: String) -> (r: HttpRequest)
        ensures
            r@ == get_request(
                self.bearer(),
                "https://api.paystack.co/plan/"@ + id_or_code@ + "?"@,
            ),
    {
        let mut url = String::from_str("https://api.paystack.co/plan/");
        url.append(id_or_code.as_str());
        let query_text = Option::None;
        let r = make_get_request(self.bearer_auth.clone(), url, query_text);
        proof {
            assert(r@.url =~= "https://api.paystack.co/plan/"@ + id_or_code@ + "?"@);
        }
        r
    }

    /// Builds the request that updates a plan.
    pub fn update_plan(&self, id_or_code: String, body: UpdatePlanBody) -> (r: HttpRequest)
        ensures
            r@ == body_request(
                Method::Put,
                self.bearer(),
                "https://api.paystack.co/plan/"@ + id_or_code@,
                obj_ser(body.json_fields()),
            ),
    {
        let mut url = String::from_str("https://api.paystack.co/plan/");
        url.append(id_or_code.as_str());
        let serialized = body.to_json();
        make_request(self.bearer_auth.clone(), url, Option::Some(serialized), Method::Put)
    }
}

} // verus!
