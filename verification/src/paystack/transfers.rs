//! The Transfers API: sending money out of the integration.

use vstd::prelude::*;
use crate::datetime::{UtcDateTime, opt_date_pair};
use crate::json::{Json, JsonObj, jarr, jopt_str, jstr, obj_ser, render_arr};
use crate::paystack::transactions::{Currency, jopt_currency};
use crate::request::{
    HttpRequest, Method, body_request, get_request, make_get_request, make_request,
};
use crate::text::dec_int;
use crate::urlenc::{QueryString, form_str, opt_int_pair, pairs_text};

verus! {

/// A client for initiating and reading transfers.
#[derive(Debug, Default)]
pub struct Transfers {
    pub(crate) bearer_auth: String,
}

impl Transfers {
    /// The bearer authorization text this resource sends.
    pub closed spec fn bearer(self) -> Seq<char> {
        self.bearer_auth@
    }

    /// Binds the resource client to the authorization header it sends.
    pub fn with_auth(bearer_auth: String) -> (r: Transfers)
        ensures
            r.bearer() == bearer_auth@,
    {
        Transfers { bearer_auth }
    }
}

/// The body of a request to initiate a transfer.
#[derive(Debug, Default)]
pub struct InitiateTransferBody {
    /// Where to transfer from; only `balance` for now.
    pub source: String,
    /// Amount in kobo (NGN) or pesewas (GHS).
    pub amount: i64,
    /// Code of the transfer recipient.
    pub recipient: String,
    /// The reason for the transfer.
    pub reason: Option<String>,
    /// The currency of the transfer; NGN by default.
    pub currency: Option<Currency>,
    /// Unique identifier for this transfer.
    pub reference: Option<String>,
}

impl InitiateTransferBody {
    /// The members of the serialized JSON body, in declaration order.
    pub open spec fn json_fields(self) -> Seq<(Seq<char>, Seq<char>)> {
        seq![
            ("source"@, jstr(self.source@)),
            ("amount"@, dec_int(self.amount as int)),
            ("recipient"@, jstr(self.recipient@)),
            ("reason"@, jopt_str(self.reason)),
            ("currency"@, jopt_currency(self.currency)),
            ("reference"@, jopt_str(self.reference)),
        ]
    }

    /// Serializes the body to its JSON text.
    pub fn to_json(&self) -> (r: String)
        ensures
            r@ == obj_ser(self.json_fields()),
    {
        let mut o = JsonObj::new();
        o.field_str("source", self.source.as_str());
        o.field_int("amount", self.amount as i128);
        o.field_str("recipient", self.recipient.as_str());
        o.field_opt_str("reason", &self.reason);
        match &self.currency {
            Option::Some(x) => o.field_str("currency", x.code()),
            Option::None => o.field_pre("currency", "null"),
        }
        o.field_opt_str("reference", &self.reference);
        proof {
            assert(o@ =~~= self.json_fields());
        }
        o.finish()
    }
}

/// The body of a request to initiate transfers in bulk.
#[derive(Debug, Default)]
pub struct InitiateBulkTransferBody {
    /// Where to transfer from; only `balance` for now.
    pub source: String,
    /// Transfer objects, each with `amount`, `recipient` and `reference`.
    pub transfers: Vec<Json>,
}

impl InitiateBulkTransferBody {
    /// The members of the serialized JSON body, in declaration order.
    pub open spec fn json_fields(self) -> Seq<(Seq<char>, Seq<char>)> {
        seq![
            ("source"@, jstr(self.source@)),
            ("transfers"@, jarr(self.transfers@)),
        ]
    }

    /// Serializes the body to its JSON text.
    pub fn to_json(&self) -> (r: String)
        ensures
            r@ == obj_ser(self.json_fields()),
    {
        let mut o = JsonObj::new();
        o.field_str("source", self.source.as_str());
        let rendered_transfers = render_arr(&self.transfers);
        o.field_pre("transfers", rendered_transfers.as_str());
        proof {
            assert(o@ =~~= self.json_fields());
        }
        o.finish()
    }
}

/// The body of a request to finalize a transfer.
#[derive(Debug, Default)]
pub struct FinalizeTransferBody {
    /// The transfer code to finalize.
    pub transfer_code: String,
    /// OTP sent to the business phone.
    pub otp: String,
}

impl FinalizeTransferBody {
    /// The members of the serialized JSON body, in declaration order.
    pub open spec fn json_fields(self) -> Seq<(Seq<char>, Seq<char>)> {
        seq![
            ("transfer_code"@, jstr(self.transfer_code@)),
            ("otp"@, jstr(self.otp@)),
        ]
    }

    /// Serializes the body to its JSON text.
    pub fn to_json(&self) -> (r: String)
        ensures
            r@ == obj_ser(self.json_fields()),
    {
        let mut o = JsonObj::new();
        o.field_str("transfer_code", self.transfer_code.as_str());
        o.field_str("otp", self.otp.as_str());
        proof {
            assert(o@ =~~= self.json_fields());
        }
        o.finish()
    }
}

/// The query parameters of a request to list transfers.
#[derive(Debug)]
pub struct ListTransfersParams {
    /// Records per page; the remote default is 50.
    pub per_page: Option<i128>,
    /// Page to retrieve; the remote default is 1.
    pub page: Option<i128>,
    /// Filter by customer ID.
    pub customer: String,
    /// List transfers from this timestamp on.
    pub from: Option<UtcDateTime>,
    /// List transfers up to this timestamp.
    pub to: Option<UtcDateTime>,
}

impl ListTransfersParams {
    /// Every timestamp present lies in its calendar range.
    pub open spec fn wf(self) -> bool {
        &&& match self.from {
            Option::Some(d) => d.wf(),
            Option::None => true,
        }
        &&& match self.to {
            Option::Some(d) => d.wf(),
            Option::None => true,
        }
    }

    /// The key/value pairs of the query string, in declaration
    /// order; absent parameters contribute nothing.
    pub open spec fn query_pairs(self) -> Seq<(Seq<char>, Seq<char>)> {
        opt_int_pair("perPage"@, self.per_page)
                + opt_int_pair("page"@, self.page)
                + seq![("customer"@, form_str(self.customer@))]
                + opt_date_pair("from"@, self.from)
                + opt_date_pair("to"@, self.to)
    }

    /// Encodes the parameters as a query string.
    #[verifier::rlimit(100)]
    pub fn to_query(&self) -> (r: String)
        requires
            self.wf(),
        ensures
            r@ == pairs_text(self.query_pairs()),
    {
        let mut q = QueryString::new();
        match &self.per_page {
            Option::Some(v) => q.pair_int("perPage", *v),
            Option::None => (),
        }
        match &self.page {
            Option::Some(v) => q.pair_int("page", *v),
            Option::None => (),
        }
        q.pair_str("customer", self.customer.as_str());
        match &self.from {
            Option::Some(d) => {
                let t = d.to_rfc3339();
                q.pair_str("from", t.as_str());
            },
            Option::None => (),
        }
        match &self.to {
            Option::Some(d) => {
                let t = d.to_rfc3339();
                q.pair_str("to", t.as_str());
            },
            Option::None => (),
        }
        proof {
            assert(q@ =~~= self.query_pairs());
        }
        q.finish()
    }
}

impl Transfers {
    /// Builds the request that initiates a transfer.
    pub fn initiate_transfers(&self, body: InitiateTransferBody) -> (r: HttpRequest)
        ensures
            r@ == body_request(
                Method::Post,
                self.bearer(),
                "https://api.paystack.co/transfer"@,
                obj_ser(body.json_fields()),
            ),
    {
        let url = String::from_str("https://api.paystack.co/transfer");
        let serialized = body.to_json();
        make_request(self.bearer_auth.clone(), url, Option::Some(serialized), Method::Post)
    }

    /// Builds the request that finalizes an initiated transfer.
    pub fn finalize_transfer(&self, body: FinalizeTransferBody) -> (r: HttpRequest)
        ensures
            r@ == body_request(
                Method::Post,
                self.bearer(),
                "https://api.paystack.co/transfer/finalize_transfer"@,
                obj_ser(body.json_fields()),
            ),
    {
        let url = String::from_str("https://api.paystack.co/transfer/finalize_transfer");
        let serialized = body.to_json();
        make_request(self.bearer_auth.clone(), url, Option::Some(serialized), Method::Post)
    }

    /// Builds the request that initiates transfers in bulk.
    pub fn initiate_bulk_transfer(&self, body: InitiateBulkTransferBody) -> (r: HttpRequest)
        ensures
            r@ == body_request(
                Method::Post,
                self.bearer(),
                "https://api.paystack.co/transfer/bulk"@,
                obj_ser(body.json_fields()),
            ),
    {
        let url = String::from_str("https://api.paystack.co/transfer/bulk");
        let serialized = body.to_json();
        make_request(self.bearer_auth.clone(), url, Option::Some(serialized), Method::Post)
    }

    /// Builds the request that lists transfers.
    pub fn list_transfers(&self, params: ListTransfersParams) -> (r: HttpRequest)
        requires
            params.wf(),
        ensures
            r@ == get_request(
                self.bearer(),
                "https://api.paystack.co/transfer"@ + "?"@ + pairs_text(params.query_pairs()),
            ),
    {
        let url = String::from_str("https://api.paystack.co/transfer");
        let query_text = Option::Some(params.to_query());
        let r = make_get_request(self.bearer_auth.clone(), url, query_text);
        proof {
            assert(r@.url =~= "https://api.paystack.co/transfer"@ + "?"@ + pairs_text(params.query_pairs()));
        }
        r
    }

    /// Builds the request that fetches one transfer.
    pub fn fetch_transfer(&self, id_or_code: &str) -> (r: HttpRequest)
        ensures
            r@ == get_request(
                self.bearer(),
                "https://api.paystack.co/transfer/"@ + id_or_code@ + "?"@,
            ),
    {
        let mut url = String::from_str("https://api.paystack.co/transfer/");
        url.append(id_or_code);
        let query_text = Option::None;
        let r = make_get_request(self.bearer_auth.clone(), url, query_text);
        proof {
            assert(r@.url =~= "https://api.paystack.co/transfer/"@ + id_or_code@ + "?"@);
        }
        r
    }

    /// Builds the request that verifies a transfer by its reference.
    pub fn verify_transfer(&self, reference: &str) -> (r: HttpRequest)
        ensures
            r@ == get_request(
                self.bearer(),
                "https://api.paystack.co/transfer/verify/"@ + reference@ + "?"@,
            ),
    {
        let mut url = String::from_str("https://api.paystack.co/transfer/verify/");
        url.append(reference);
        let query_text = Option::None;
        let r = make_get_request(self.bearer_auth.clone(), url, query_text);
        proof {
            assert(r@.url =~= "https://api.paystack.co/transfer/verify/"@ + reference@ + "?"@);
        }
        r
    }
}

} // verus!
