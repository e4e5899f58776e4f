//! The Refunds API: creating and listing refunds.

use vstd::prelude::*;
use crate::datetime::{UtcDateTime, rfc3339};
use crate::json::{JsonObj, jopt_str, jstr, obj_ser};
use crate::paystack::transactions::{Currency, jopt_currency};
use crate::request::{
    HttpRequest, Method, body_request, get_request, make_get_request, make_request,
};
use crate::text::dec_int;
use crate::urlenc::{QueryString, form_str, pairs_text};

verus! {

/// A client for creating and reading refunds.
#[derive(Debug, Default)]
pub struct Refund {
    pub(crate) bearer_auth: String,
}

impl Refund {
    /// The bearer authorization text this resource sends.
    pub closed spec fn bearer(self) -> Seq<char> {
        self.bearer_auth@
    }

    /// Binds the resource client to the authorization header it sends.
    pub fn with_auth(bearer_auth: String) -> (r: Refund)
        ensures
            r.bearer() == bearer_auth@,
    {
        Refund { bearer_auth }
    }
}

/// The body of a request to initiate a refund.
#[derive(Debug, Default)]
pub struct CreateRefundBody {
    /// Transaction reference or ID.
    pub transaction: String,
    /// Amount to refund, at most the original transaction amount; that amount by default.
    pub amount: Option<String>,
    /// Three-letter ISO currency.
    pub currency: Option<Currency>,
    /// Reason shown to the customer.
    pub customer_note: Option<String>,
    /// Reason kept for the merchant.
    pub merchant_note: Option<String>,
}

impl CreateRefundBody {
    /// The members of the serialized JSON body, in declaration order.
    pub open spec fn json_fields(self) -> Seq<(Seq<char>, Seq<char>)> {
        seq![
            ("transaction"@, jstr(self.transaction@)),
            ("amount"@, jopt_str(self.amount)),
            ("currency"@, jopt_currency(self.currency)),
            ("customer_note"@, jopt_str(self.customer_note)),
            ("merchant_note"@, jopt_str(self.merchant_note)),
        ]
    }

    /// Serializes the body to its JSON text.
    pub fn to_json(&self) -> (r: String)
        ensures
            r@ == obj_ser(self.json_fields()),
    {
        let mut o = JsonObj::new();
        o.field_str("transaction", self.transaction.as_str());
        o.field_opt_str("amount", &self.amount);
        match &self.currency {
            Option::Some(x) => o.field_str("currency", x.code()),
            Option::None => o.field_pre("currency", "null"),
        }
        o.field_opt_str("customer_note", &self.customer_note);
        o.field_opt_str("merchant_note", &self.merchant_note);
        proof {
            assert(o@ =~~= self.json_fields());
        }
        o.finish()
    }
}

/// The query parameters of a request to list refunds. The listing
/// endpoint reads the paging and time filters and requires all four;
/// the remaining filters are accepted and not sent.
#[derive(Debug, Default)]
pub struct ListRefundsParams {
    /// Records per page; the remote default is 50.
    pub per_page: Option<i64>,
    /// Page to retrieve; the remote default is 1.
    pub page: Option<i64>,
    /// List refunds from this timestamp on.
    pub from: Option<UtcDateTime>,
    /// List refunds up to this timestamp.
    pub to: Option<UtcDateTime>,
    /// Transaction reference or ID.
    pub reference: Option<String>,
    /// Three-letter ISO currency.
    pub currency: Option<Currency>,
}

impl ListRefundsParams {
    /// Every timestamp present lies in its calendar range.
    pub open spec fn wf(self) -> bool {
        &&& match self.from {
            Option::Some(d) => d.wf(),
            Option::None => true,
        }
        &&& match self.to {
            Option::Some(d) => d.wf(),
            Option::None => true,
        }
    }

    /// The key/value pairs of the query string: the paging and time
    /// filters, all four of which must be present.
    pub open spec fn query_pairs(self) -> Seq<(Seq<char>, Seq<char>)> {
        match (self.per_page, self.page, self.from, self.to) {
            (Option::Some(pp), Option::Some(pg), Option::Some(f), Option::Some(t)) => seq![
                ("perPage"@, dec_int(pp as int)),
                ("page"@, dec_int(pg as int)),
                ("from"@, form_str(rfc3339(f))),
                ("to"@, form_str(rfc3339(t))),
            ],
            _ => Seq::empty(),
        }
    }
}

impl Refund {
    /// Builds the request that initiates a refund.
    pub fn initiate_refund(&self, body: CreateRefundBody) -> (r: HttpRequest)
        ensures
            r@ == body_request(
                Method::Post,
                self.bearer(),
                "https://api.paystack.co/refund"@,
                obj_ser(body.json_fields()),
            ),
    {
        let url = String::from_str("https://api.paystack.co/refund");
        let serialized = body.to_json();
        make_request(self.bearer_auth.clone(), url, Option::Some(serialized), Method::Post)
    }

    /// Builds the request that lists refunds; the paging and time
    /// filters are all required.
    pub fn list_refunds(&self, params: ListRefundsParams) -> (r: HttpRequest)
        requires
            params.per_page is Some,
            params.page is Some,
            params.from is Some,
            params.to is Some,
            params.wf(),
        ensures
            r@ == get_request(
                self.bearer(),
                "https://api.paystack.co/refund"@ + "?"@ + pairs_text(params.query_pairs()),
            ),
    {
        let mut q = QueryString::new();
        match (&params.per_page, &params.page, &params.from, &params.to) {
            (Option::Some(pp), Option::Some(pg), Option::Some(f), Option::Some(t)) => {
                q.pair_int("perPage", *pp as i128);
                q.pair_int("page", *pg as i128);
                let from_text = f.to_rfc3339();
                q.pair_str("from", from_text.as_str());
                let to_text = t.to_rfc3339();
                q.pair_str("to", to_text.as_str());
            },
            _ => (),
        }
        proof {
            assert(q@ =~~= params.query_pairs());
        }
        make_get_request(
            self.bearer_auth.clone(),
            String::from_str("https://api.paystack.co/refund"),
            Option::Some(q.finish()),
        )
    }

    /// Builds the request that fetches one refund.
    pub fn fetch_refund(&self, reference: &str) -> (r: HttpRequest)
        ensures
            r@ == get_request(
                self.bearer(),
                "https://api.paystack.co/refund/"@ + reference@ + "?"@,
            ),
    {
        let mut url = String::from_str("https://api.paystack.co/refund/");
        url.append(reference);
        let query_text = Option::None;
        let r = make_get_request(self.bearer_auth.clone(), url, query_text);
        proof {
            assert(r@.url =~= "https://api.paystack.co/refund/"@ + reference@ + "?"@);
        }
        r
    }
}

} // verus!
