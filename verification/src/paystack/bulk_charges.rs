//! The Bulk Charges API: recurring payments charged in batches.

use vstd::prelude::*;
use crate::datetime::{UtcDateTime, opt_date_pair};
use crate::request::{HttpRequest, get_request, make_get_request};
use crate::urlenc::{QueryString, opt_int_pair, pairs_text};

verus! {

/// A client for reading and steering bulk charge batches.
#[derive(Debug, Default)]
pub struct BulkCharges {
    pub(crate) bearer_auth: String,
}

impl BulkCharges {
    /// The bearer authorization text this resource sends.
    pub closed spec fn bearer(self) -> Seq<char> {
        self.bearer_auth@
    }

    /// Binds the resource client to the authorization header it sends.
    pub fn with_auth(bearer_auth: String) -> (r: BulkCharges)
        ensures
            r.bearer() == bearer_auth@,
    {
        BulkCharges { bearer_auth }
    }
}

/// The standing of one charge in a batch, in lower case on the wire.
#[derive(Debug, Clone, Copy)]
pub enum BulkChargesStatus {
    FAILED,
    SUCCESS,
    PENDING,
}

impl BulkChargesStatus {
    /// The wire token of this value.
    pub open spec fn spec_code(self) -> Seq<char> {
        match self {
            BulkChargesStatus::FAILED => "failed"@,
            BulkChargesStatus::SUCCESS => "success"@,
            BulkChargesStatus::PENDING => "pending"@,
        }
    }

    /// Returns the wire token of this value.
    pub fn code(&self) -> (r: &'static str)
        ensures
            r@ == self.spec_code(),
    {
        match self {
            BulkChargesStatus::FAILED => "failed",
            BulkChargesStatus::SUCCESS => "success",
            BulkChargesStatus::PENDING => "pending",
        }
    }
}

/// The query parameters of a request to list bulk charge batches.
#[derive(Debug, Default)]
pub struct ListBulkChargesParams {
    /// Records per page; the remote default is 50.
    pub per_page: Option<i128>,
    /// Page to retrieve; the remote default is 1.
    pub page: Option<i128>,
    /// List batches from this timestamp on.
    pub from: Option<UtcDateTime>,
    /// List batches up to this timestamp.
    pub to: Option<UtcDateTime>,
}

impl ListBulkChargesParams {
    /// Every timestamp present lies in its calendar range.
    pub open spec fn wf(self) -> bool {
        &&& match self.from {
            Option::Some(d) => d.wf(),
            Option::None => true,
        }
        &&& match self.to {
            Option::Some(d) => d.wf(),
            Option::None => true,
        }
    }

    /// The key/value pairs of the query string, in declaration
    /// order; absent parameters contribute nothing.
    pub open spec fn query_pairs(self) -> Seq<(Seq<char>, Seq<char>)> {
        opt_int_pair("perPage"@, self.per_page)
                + opt_int_pair("page"@, self.page)
                + opt_date_pair("from"@, self.from)
                + opt_date_pair("to"@, self.to)
    }

    /// Encodes the parameters as a query string.
    #[verifier::rlimit(100)]
    pub fn to_query(&self) -> (r: String)
        requires
            self.wf(),
        ensures
            r@ == pairs_text(self.query_pairs()),
    {
        let mut q = QueryString::new();
        match &self.per_page {
            Option::Some(v) => q.pair_int("perPage", *v),
            Option::None => (),
        }
        match &self.page {
            Option::Some(v) => q.pair_int("page", *v),
            Option::None => (),
        }
        match &self.from {
            Option::Some(d) => {
                let t = d.to_rfc3339();
                q.pair_str("from", t.as_str());
            },
            Option::None => (),
        }
        match &self.to {
            Option::Some(d) => {
                let t = d.to_rfc3339();
                q.pair_str("to", t.as_str());
            },
            Option::None => (),
        }
        proof {
            assert(q@ =~~= self.query_pairs());
        }
        q.finish()
    }
}

/// The query parameters of a request for the charges of a batch.
#[derive(Debug)]
pub struct FetchChargesInABatchParams {
    /// Filter by charge status.
    pub status: BulkChargesStatus,
    /// Records per page; the remote default is 50.
    pub per_page: Option<i128>,
    /// Page to retrieve; the remote default is 1.
    pub page: Option<i128>,
    /// List charges from this timestamp on.
    pub from: Option<UtcDateTime>,
    /// List charges up to this timestamp.
    pub to: Option<UtcDateTime>,
}

impl FetchChargesInABatchParams {
    /// Every timestamp present lies in its calendar range.
    pub open spec fn wf(self) -> bool {
        &&& match self.from {
            Option::Some(d) => d.wf(),
            Option::None => true,
        }
        &&& match self.to {
            Option::Some(d) => d.wf(),
            Option::None => true,
        }
    }

    /// The key/value pairs of the query string, in declaration
    /// order; absent parameters contribute nothing.
    pub open spec fn query_pairs(self) -> Seq<(Seq<char>, Seq<char>)> {
        seq![("status"@, self.status.spec_code())]
                + opt_int_pair("perPage"@, self.per_page)
                + opt_int_pair("page"@, self.page)
                + opt_date_pair("from"@, self.from)
                + opt_date_pair("to"@, self.to)
    }

    /// Encodes the parameters as a query string.
    #[verifier::rlimit(100)]
    pub fn to_query(&self) -> (r: String)
        requires
            self.wf(),
        ensures
            r@ == pairs_text(self.query_pairs()),
    {
        let mut q = QueryString::new();
        q.pair_pre("status", self.status.code());
        match &self.per_page {
            Option::Some(v) => q.pair_int("perPage", *v),
            Option::None => (),
        }
        match &self.page {
            Option::Some(v) => q.pair_int("page", *v),
            Option::None => (),
        }
        match &self.from {
            Option::Some(d) => {
                let t = d.to_rfc3339();
                q.pair_str("from", t.as_str());
            },
            Option::None => (),
        }
        match &self.to {
            Option::Some(d) => {
                let t = d.to_rfc3339();
                q.pair_str("to", t.as_str());
            },
            Option::None => (),
        }
        proof {
            assert(q@ =~~= self.query_pairs());
        }
        q.finish()
    }
}

impl BulkCharges {
    /// Builds the request that lists bulk charge batches.
    pub fn list_bulk_charges(&self, params: Option<ListBulkChargesParams>) -> (r: HttpRequest)
        requires
            match params {
                Option::Some(p) => p.wf(),
                Option::None => true,
            },
        ensures
            r@ == get_request(
                self.bearer(),
                "https://api.paystack.co/bulkcharge"@ + "?"@ + (match params {
                    Option::Some(p) => pairs_text(p.query_pairs()),
                    Option::None => Seq::empty(),
                }),
            ),
    {
        let url = String::from_str("https://api.paystack.co/bulkcharge");
        let query_text = match &params {
            Option::Some(p) => Option::Some(p.to_query()),
            Option::None => Option::None,
        };
        let r = make_get_request(self.bearer_auth.clone(), url, query_text);
        proof {
            assert(r@.url =~= "https://api.paystack.co/bulkcharge"@ + "?"@ + (match params {
                    Option::Some(p) => pairs_text(p.query_pairs()),
                    Option::None => Seq::empty(),
                }));
        }
        r
    }

    /// Builds the request that fetches one batch.
    pub fn fetch_bulk_charge_batch(&self, id_or_code: &str) -> (r: HttpRequest)
        ensures
            r@ == get_request(
                self.bearer(),
                "https://api.paystack.co/bulkcharge/"@ + id_or_code@ + "?"@,
            ),
    {
        let mut url = String::from_str("https://api.paystack.co/bulkcharge/");
        url.append(id_or_code);
        let query_text = Option::None;
        let r = make_get_request(self.bearer_auth.clone(), url, query_text);
        proof {
            assert(r@.url =~= "https://api.paystack.co/bulkcharge/"@ + id_or_code@ + "?"@);
        }
        r
    }

    /// Builds the request for the charges of one batch.
    pub fn fetch_charges_in_a_batch(&self, id_or_code: &str, params: FetchChargesInABatchParams) -> (r: HttpRequest)
        requires
            params.wf(),
        ensures
            r@ == get_request(
                self.bearer(),
                "https://api.paystack.co/bulkcharge/"@ + id_or_code@ + "?"@ + pairs_text(params.query_pairs()),
            ),
    {
        let mut url = String::from_str("https://api.paystack.co/bulkcharge/");
        url.append(id_or_code);
        let query_text = Option::Some(params.to_query());
        let r = make_get_request(self.bearer_auth.clone(), url, query_text);
        proof {
            assert(r@.url =~= "https://api.paystack.co/bulkcharge/"@ + id_or_code@ + "?"@ + pairs_text(params.query_pairs()));
        }
        r
    }

    /// Builds the request that pauses a batch.
    pub fn pause_bulk_charge_batch(&self, batch_code: &str) -> (r: HttpRequest)
        ensures
            r@ == get_request(
                self.bearer(),
                "https://api.paystack.co/bulkcharge/pause/"@ + batch_code@ + "?"@,
            ),
    {
        let mut url = String::from_str("https://api.paystack.co/bulkcharge/pause/");
        url.append(batch_code);
        let query_text = Option::None;
        let r = make_get_request(self.bearer_auth.clone(), url, query_text);
        proof {
            assert(r@.url =~= "https://api.paystack.co/bulkcharge/pause/"@ + batch_code@ + "?"@);
        }
        r
    }

    /// Builds the request that resumes a batch.
    pub fn resume_bulk_charge_batch(&self, batch_code: &str) -> (r: HttpRequest)
        ensures
            r@ == get_request(
                self.bearer(),
                "https://api.paystack.co/bulkcharge/resume/"@ + batch_code@ + "?"@,
            ),
    {
        let mut url = String::from_str("https://api.paystack.co/bulkcharge/resume/");
        url.append(batch_code);
        let query_text = Option::None;
        let r = make_get_request(self.bearer_auth.clone(), url, query_text);
        proof {
            assert(r@.url =~= "https://api.paystack.co/bulkcharge/resume/"@ + batch_code@ + "?"@);
        }
        r
    }
}

} // verus!
