//! The Disputes API: transaction disputes filed against the integration.

use vstd::prelude::*;
use crate::datetime::{UtcDateTime, jopt_date, rfc3339};
use crate::json::{JsonObj, jopt_i64, jopt_str, jstr, obj_ser};
use crate::request::{
    HttpRequest, Method, body_request, get_request, make_get_request, make_request,
};
use crate::text::dec_int;
use crate::urlenc::{QueryString, form_str, opt_i64_pair, opt_int_pair, pairs_text};

verus! {

/// A client for managing transaction disputes.
#[derive(Debug, Default)]
pub struct Disputes {
    pub(crate) bearer_auth: String,
}

impl Disputes {
    /// The bearer authorization text this resource sends.
    pub closed spec fn bearer(self) -> Seq<char> {
        self.bearer_auth@
    }

    /// Binds the resource client to the authorization header it sends.
    pub fn with_auth(bearer_auth: String) -> (r: Disputes)
        ensures
            r.bearer() == bearer_auth@,
    {
        Disputes { bearer_auth }
    }
}

/// The standing of a dispute, in kebab-case on the wire.
#[derive(Debug, Clone, Copy)]
pub enum DisputeStatus {
    AwaitingMerchantFeedback,
    AwaitingBankFeedback,
    Pending,
    Resolved,
    Declined,
    MerchantAccepted,
}

impl DisputeStatus {
    /// The wire token of this value.
    pub open spec fn spec_code(self) -> Seq<char> {
        match self {
            DisputeStatus::AwaitingMerchantFeedback => "awaiting-merchant-feedback"@,
            DisputeStatus::AwaitingBankFeedback => "awaiting-bank-feedback"@,
            DisputeStatus::Pending => "pending"@,
            DisputeStatus::Resolved => "resolved"@,
            DisputeStatus::Declined => "declined"@,
            DisputeStatus::MerchantAccepted => "merchant-accepted"@,
        }
    }

    /// Returns the wire token of this value.
    pub fn code(&self) -> (r: &'static str)
        ensures
            r@ == self.spec_code(),
    {
        match self {
            DisputeStatus::AwaitingMerchantFeedback => "awaiting-merchant-feedback",
            DisputeStatus::AwaitingBankFeedback => "awaiting-bank-feedback",
            DisputeStatus::Pending => "pending",
            DisputeStatus::Resolved => "resolved",
            DisputeStatus::Declined => "declined",
            DisputeStatus::MerchantAccepted => "merchant-accepted",
        }
    }
}

/// The query parameters of a request to list disputes.
#[derive(Debug)]
pub struct ListDisputesParams {
    /// List disputes from this timestamp on.
    pub from: UtcDateTime,
    /// List disputes up to this timestamp.
    pub to: UtcDateTime,
    /// Records per page; the remote default is 50.
    pub per_page: Option<i64>,
    /// Page to retrieve; the remote default is 1.
    pub page: Option<i128>,
    /// Filter by transaction.
    pub transaction: String,
    /// Filter by dispute status.
    pub status: DisputeStatus,
}

impl ListDisputesParams {
    /// Every timestamp present lies in its calendar range.
    pub open spec fn wf(self) -> bool {
        &&& self.from.wf()
        &&& self.to.wf()
    }

    /// The key/value pairs of the query string, in declaration
    /// order; absent parameters contribute nothing.
    pub open spec fn query_pairs(self) -> Seq<(Seq<char>, Seq<char>)> {
        seq![("from"@, form_str(rfc3339(self.from)))]
                + seq![("to"@, form_str(rfc3339(self.to)))]
                + opt_i64_pair("perPage"@, self.per_page)
                + opt_int_pair("page"@, self.page)
                + seq![("transaction"@, form_str(self.transaction@))]
                + seq![("status"@, self.status.spec_code())]
    }

    /// Encodes the parameters as a query string.
    #[verifier::rlimit(100)]
    pub fn to_query(&self) -> (r: String)
        requires
            self.wf(),
        ensures
            r@ == pairs_text(self.query_pairs()),
    {
        let mut q = QueryString::new();
        let rendered_from = self.from.to_rfc3339();
        q.pair_str("from", rendered_from.as_str());
        let rendered_to = self.to.to_rfc3339();
        q.pair_str("to", rendered_to.as_str());
        match &self.per_page {
            Option::Some(v) => q.pair_int("perPage", *v as i128),
            Option::None => (),
        }
        match &self.page {
            Option::Some(v) => q.pair_int("page", *v),
            Option::None => (),
        }
        q.pair_str("transaction", self.transaction.as_str());
        q.pair_pre("status", self.status.code());
        proof {
            assert(q@ =~~= self.query_pairs());
        }
        q.finish()
    }
}

/// The body of a request to update a dispute.
#[derive(Debug, Default)]
pub struct UpdateDisputeBody {
    /// The amount to refund, in the currency's subunit.
    pub refund_amount: i64,
    /// Filename returned by the upload-URL endpoint.
    pub uploaded_filename: Option<String>,
}

impl UpdateDisputeBody {
    /// The members of the serialized JSON body, in declaration order.
    pub open spec fn json_fields(self) -> Seq<(Seq<char>, Seq<char>)> {
        seq![
            ("refund_amount"@, dec_int(self.refund_amount as int)),
            ("uploaded_filename"@, jopt_str(self.uploaded_filename)),
        ]
    }

    /// Serializes the body to its JSON text.
    pub fn to_json(&self) -> (r: String)
        ensures
            r@ == obj_ser(self.json_fields()),
    {
        let mut o = JsonObj::new();
        o.field_int("refund_amount", self.refund_amount as i128);
        o.field_opt_str("uploaded_filename", &self.uploaded_filename);
        proof {
            assert(o@ =~~= self.json_fields());
        }
        o.finish()
    }
}

/// The body of a request that attaches evidence to a dispute.
#[derive(Debug)]
pub struct AddEvidenceBody {
    /// Customer email.
    pub customer_email: String,
    /// Customer name.
    pub customer_name: String,
    /// Customer phone.
    pub customer_phone: String,
    /// Details of the service involved.
    pub service_details: String,
    /// Delivery address.
    pub delivery_address: Option<String>,
    /// Delivery date.
    pub delivery_date: Option<UtcDateTime>,
}

impl AddEvidenceBody {
    /// Every timestamp or decimal present lies in its range.
    pub open spec fn wf(self) -> bool {
        match self.delivery_date {
            Option::Some(d) => d.wf(),
            Option::None => true,
        }
    }

    /// The members of the serialized JSON body, in declaration order.
    pub open spec fn json_fields(self) -> Seq<(Seq<char>, Seq<char>)> {
        seq![
            ("customer_email"@, jstr(self.customer_email@)),
            ("customer_name"@, jstr(self.customer_name@)),
            ("customer_phone"@, jstr(self.customer_phone@)),
            ("service_details"@, jstr(self.service_details@)),
            ("delivery_address"@, jopt_str(self.delivery_address)),
            ("delivery_date"@, jopt_date(self.delivery_date)),
        ]
    }

    /// Serializes the body to its JSON text.
    pub fn to_json(&self) -> (r: String)
        requires
            self.wf(),
        ensures
            r@ == obj_ser(self.json_fields()),
    {
        let mut o = JsonObj::new();
        o.field_str("customer_email", self.customer_email.as_str());
        o.field_str("customer_name", self.customer_name.as_str());
        o.field_str("customer_phone", self.customer_phone.as_str());
        o.field_str("service_details", self.service_details.as_str());
        o.field_opt_str("delivery_address", &self.delivery_address);
        match &self.delivery_date {
            Option::Some(d) => {
                let t = d.to_rfc3339();
                o.field_str("delivery_date", t.as_str());
            },
            Option::None => o.field_pre("delivery_date", "null"),
        }
        proof {
            assert(o@ =~~= self.json_fields());
        }
        o.finish()
    }
}

/// The query parameters of a request for an evidence upload URL.
#[derive(Debug)]
pub struct GetUploadURLParams {
    /// The file name, extension included, to upload.
    pub upload_filename: String,
}

impl GetUploadURLParams {
    /// The key/value pairs of the query string, in declaration
    /// order; absent parameters contribute nothing.
    pub open spec fn query_pairs(self) -> Seq<(Seq<char>, Seq<char>)> {
        seq![("upload_filename"@, form_str(self.upload_filename@))]
    }

    /// Encodes the parameters as a query string.
    #[verifier::rlimit(100)]
    pub fn to_query(&self) -> (r: String)
        ensures
            r@ == pairs_text(self.query_pairs()),
    {
        let mut q = QueryString::new();
        q.pair_str("upload_filename", self.upload_filename.as_str());
        proof {
            assert(q@ =~~= self.query_pairs());
        }
        q.finish()
    }
}

/// The body of a request to resolve a dispute.
#[derive(Debug, Default)]
pub struct ResolveDisputeBody {
    /// Either `merchant-accepted` or `declined`.
    pub resolution: String,
    /// Reason for the resolution.
    pub message: String,
    /// The amount to refund, in the currency's subunit.
    pub refund_amount: i64,
    /// Filename returned by the upload-URL endpoint.
    pub uploaded_filename: String,
    /// Evidence ID for fraud claims.
    pub evidence: Option<i64>,
}

impl ResolveDisputeBody {
    /// The members of the serialized JSON body, in declaration order.
    pub open spec fn json_fields(self) -> Seq<(Seq<char>, Seq<char>)> {
        seq![
            ("resolution"@, jstr(self.resolution@)),
            ("message"@, jstr(self.message@)),
            ("refund_amount"@, dec_int(self.refund_amount as int)),
            ("uploaded_filename"@, jstr(self.uploaded_filename@)),
            ("evidence"@, jopt_i64(self.evidence)),
        ]
    }

    /// Serializes the body to its JSON text.
    pub fn to_json(&self) -> (r: String)
        ensures
            r@ == obj_ser(self.json_fields()),
    {
        let mut o = JsonObj::new();
        o.field_str("resolution", self.resolution.as_str());
        o.field_str("message", self.message.as_str());
        o.field_int("refund_amount", self.refund_amount as i128);
        o.field_str("uploaded_filename", self.uploaded_filename.as_str());
        o.field_opt_i64("evidence", &self.evidence);
        proof {
            assert(o@ =~~= self.json_fields());
        }
        o.finish()
    }
}

/// The query parameters of a request to export disputes.
#[derive(Debug)]
pub struct ExportDisputesBody {
    /// Export disputes from this timestamp on.
    pub from: UtcDateTime,
    /// Export disputes up to this timestamp.
    pub to: UtcDateTime,
    /// Records per page; the remote default is 50.
    pub per_page: Option<i64>,
    /// Page to retrieve; the remote default is 1.
    pub page: Option<i128>,
    /// Filter by transaction.
    pub transaction: String,
    /// Filter by dispute status.
    pub status: DisputeStatus,
}

impl ExportDisputesBody {
    /// Every timestamp present lies in its calendar range.
    pub open spec fn wf(self) -> bool {
        &&& self.from.wf()
        &&& self.to.wf()
    }

    /// The key/value pairs of the query string, in declaration
    /// order; absent parameters contribute nothing.
    pub open spec fn query_pairs(self) -> Seq<(Seq<char>, Seq<char>)> {
        seq![("from"@, form_str(rfc3339(self.from)))]
                + seq![("to"@, form_str(rfc3339(self.to)))]
                + opt_i64_pair("perPage"@, self.per_page)
                + opt_int_pair("page"@, self.page)
                + seq![("transaction"@, form_str(self.transaction@))]
                + seq![("status"@, self.status.spec_code())]
    }

    /// Encodes the parameters as a query string.
    #[verifier::rlimit(100)]
    pub fn to_query(&self) -> (r: String)
        requires
            self.wf(),
        ensures
            r@ == pairs_text(self.query_pairs()),
    {
        let mut q = QueryString::new();
        let rendered_from = self.from.to_rfc3339();
        q.pair_str("from", rendered_from.as_str());
        let rendered_to = self.to.to_rfc3339();
        q.pair_str("to", rendered_to.as_str());
        match &self.per_page {
            Option::Some(v) => q.pair_int("perPage", *v as i128),
            Option::None => (),
        }
        match &self.page {
            Option::Some(v) => q.pair_int("page", *v),
            Option::None => (),
        }
        q.pair_str("transaction", self.transaction.as_str());
        q.pair_pre("status", self.status.code());
        proof {
            assert(q@ =~~= self.query_pairs());
        }
        q.finish()
    }
}

impl Disputes {
    /// Builds the request that lists disputes.
    pub fn list_disputes(&self, params: ListDisputesParams) -> (r: HttpRequest)
        requires
            params.wf(),
        ensures
            r@ == get_request(
                self.bearer(),
                "https://api.paystack.co/dispute"@ + "?"@ + pairs_text(params.query_pairs()),
            ),
    {
        let url = String::from_str("https://api.paystack.co/dispute");
        let query_text = Option::Some(params.to_query());
        let r = make_get_request(self.bearer_auth.clone(), url, query_text);
        proof {
            assert(r@.url =~= "https://api.paystack.co/dispute"@ + "?"@ + pairs_text(params.query_pairs()));
        }
        r
    }

    /// Builds the request that fetches one dispute.
    pub fn fetch_dispute(&self, id: &str) -> (r: HttpRequest)
        ensures
            r@ == get_request(
                self.bearer(),
                "https://api.paystack.co/dispute/"@ + id@ + "?"@,
            ),
    {
        let mut url = String::from_str("https://api.paystack.co/dispute/");
        url.append(id);
        let query_text = Option::None;
        let r = make_get_request(self.bearer_auth.clone(), url, query_text);
        proof {
            assert(r@.url =~= "https://api.paystack.co/dispute/"@ + id@ + "?"@);
        }
        r
    }

    /// Builds the request for the disputes of one transaction.
    pub fn list_transaction_disputes(&self, id: &str) -> (r: HttpRequest)
        ensures
            r@ == get_request(
                self.bearer(),
                "https://api.paystack.co/dispute/transaction/"@ + id@ + "?"@,
            ),
    {
        let mut url = String::from_str("https://api.paystack.co/dispute/transaction/");
        url.append(id);
        let query_text = Option::None;
        let r = make_get_request(self.bearer_auth.clone(), url, query_text);
        proof {
            assert(r@.url =~= "https://api.paystack.co/dispute/transaction/"@ + id@ + "?"@);
        }
        r
    }

    /// Builds the request that updates a dispute.
    pub fn update_dispute(&self, id: &str, body: UpdateDisputeBody) -> (r: HttpRequest)
        ensures
            r@ == body_request(
                Method::Put,
                self.bearer(),
                "https://api.paystack.co/dispute/"@ + id@,
                obj_ser(body.json_fields()),
            ),
    {
        let mut url = String::from_str("https://api.paystack.co/dispute/");
        url.append(id);
        let serialized = body.to_json();
        make_request(self.bearer_auth.clone(), url, Option::Some(serialized), Method::Put)
    }

    /// Builds the request that attaches evidence to a dispute.
    pub fn add_evidence(&self, id: &str, body: AddEvidenceBody) -> (r: HttpRequest)
        requires
            body.wf(),
        ensures
            r@ == body_request(
                Method::Post,
                self.bearer(),
                "https://api.paystack.co/dispute/"@ + id@ + "/dispute"@,
                obj_ser(body.json_fields()),
            ),
    {
        let mut url = String::from_str("https://api.paystack.co/dispute/");
        url.append(id);
        url.append("/dispute");
        let serialized = body.to_json();
        make_request(self.bearer_auth.clone(), url, Option::Some(serialized), Method::Post)
    }

    /// Builds the request for an evidence upload URL.
    pub fn get_upload_url(&self, id: &str, params: GetUploadURLParams) -> (r: HttpRequest)
        ensures
            r@ == get_request(
                self.bearer(),
                "https://api.paystack.co/dispute/"@ + id@ + "/upload_url"@ + "?"@ + pairs_text(params.query_pairs()),
            ),
    {
        let mut url = String::from_str("https://api.paystack.co/dispute/");
        url.append(id);
        url.append("/upload_url");
        let query_text = Option::Some(params.to_query());
        let r = make_get_request(self.bearer_auth.clone(), url, query_text);
        proof {
            assert(r@.url =~= "https://api.paystack.co/dispute/"@ + id@ + "/upload_url"@ + "?"@ + pairs_text(params.query_pairs()));
        }
        r
    }

    /// Builds the request that resolves a dispute.
    pub fn resolve_dispute(&self, id: &str, body: ResolveDisputeBody) -> (r: HttpRequest)
        ensures
            r@ == body_request(
                Method::Put,
                self.bearer(),
                "https://api.paystack.co/dispute/"@ + id@ + "/resolve"@,
                obj_ser(body.json_fields()),
            ),
    {
        let mut url = String::from_str("https://api.paystack.co/dispute/");
        url.append(id);
        url.append("/resolve");
        let serialized = body.to_json();
        make_request(self.bearer_auth.clone(), url, Option::Some(serialized), Method::Put)
    }

    /// Builds the request that exports disputes.
    pub fn export_disputes(&self, params: ExportDisputesBody) -> (r: HttpRequest)
        requires
            params.wf(),
        ensures
            r@ == get_request(
                self.bearer(),
                "https://api.paystack.co/dispute/export"@ + "?"@ + pairs_text(params.query_pairs()),
            ),
    {
        let url = String::from_str("https://api.paystack.co/dispute/export");
        let query_text = Option::Some(params.to_query());
        let r = make_get_request(self.bearer_auth.clone(), url, query_text);
        proof {
            assert(r@.url =~= "https://api.paystack.co/dispute/export"@ + "?"@ + pairs_text(params.query_pairs()));
        }
        r
    }
}

} // verus!
