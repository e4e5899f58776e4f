//! The Settlements API: payouts made to the settlement accounts.

use vstd::prelude::*;
use crate::datetime::{UtcDateTime, opt_date_pair};
use crate::request::{HttpRequest, get_request, make_get_request};
use crate::urlenc::{QueryString, opt_int_pair, opt_str_pair, pairs_text};

verus! {

/// A client for reading settlements.
#[derive(Debug, Default)]
pub struct Settlements {
    pub(crate) bearer_auth: String,
}

impl Settlements {
    /// The bearer authorization text this resource sends.
    pub closed spec fn bearer(self) -> Seq<char> {
        self.bearer_auth@
    }

    /// Binds the resource client to the authorization header it sends.
    pub fn with_auth(bearer_auth: String) -> (r: Settlements)
        ensures
            r.bearer() == bearer_auth@,
    {
        Settlements { bearer_auth }
    }
}

/// The query parameters of a request to fetch settlements.
#[derive(Debug, Default)]
pub struct FetchSettlementsBody {
    /// Records per page; the remote default is 50.
    pub per_page: Option<i128>,
    /// Page to retrieve; the remote default is 1.
    pub page: Option<i128>,
    /// Subaccount ID whose settlements to fetch; absent for the main account.
    pub subacount: Option<String>,
    /// List settlements from this timestamp on.
    pub from: Option<UtcDateTime>,
    /// List settlements up to this timestamp.
    pub to: Option<UtcDateTime>,
}

impl FetchSettlementsBody {
    /// Every timestamp present lies in its calendar range.
    pub open spec fn wf(self) -> bool {
        &&& match self.from {
            Option::Some(d) => d.wf(),
            Option::None => true,
        }
        &&& match self.to {
            Option::Some(d) => d.wf(),
            Option::None => true,
        }
    }

    /// The key/value pairs of the query string, in declaration
    /// order; absent parameters contribute nothing.
    pub open spec fn query_pairs(self) -> Seq<(Seq<char>, Seq<char>)> {
        opt_int_pair("perPage"@, self.per_page)
                + opt_int_pair("page"@, self.page)
                + opt_str_pair("subacount"@, self.subacount)
                + opt_date_pair("from"@, self.from)
                + opt_date_pair("to"@, self.to)
    }

    /// Encodes the parameters as a query string.
    #[verifier::rlimit(100)]
    pub fn to_query(&self) -> (r: String)
        requires
            self.wf(),
        ensures
            r@ == pairs_text(self.query_pairs()),
    {
        let mut q = QueryString::new();
        match &self.per_page {
            Option::Some(v) => q.pair_int("perPage", *v),
            Option::None => (),
        }
        match &self.page {
            Option::Some(v) => q.pair_int("page", *v),
            Option::None => (),
        }
        match &self.subacount {
            Option::Some(s) => q.pair_str("subacount", s.as_str()),
            Option::None => (),
        }
        match &self.from {
            Option::Some(d) => {
                let t = d.to_rfc3339();
                q.pair_str("from", t.as_str());
            },
            Option::None => (),
        }
        match &self.to {
            Option::Some(d) => {
                let t = d.to_rfc3339();
                q.pair_str("to", t.as_str());
            },
            Option::None => (),
        }
        proof {
            assert(q@ =~~= self.query_pairs());
        }
        q.finish()
    }
}

/// The query parameters of a request for the transactions of a settlement.
#[derive(Debug, Default)]
pub struct FetchSettleTxBody {
    /// Records per page; the remote default is 50.
    pub per_page: Option<i128>,
    /// Page to retrieve; the remote default is 1.
    pub page: Option<i128>,
    /// Subaccount ID whose settlements to fetch; absent for the main account.
    pub subacount: Option<String>,
    /// List transactions from this timestamp on.
    pub from: Option<UtcDateTime>,
    /// List transactions up to this timestamp.
    pub to: Option<UtcDateTime>,
}

impl FetchSettleTxBody {
    /// Every timestamp present lies in its calendar range.
    pub open spec fn wf(self) -> bool {
        &&& match self.from {
            Option::Some(d) => d.wf(),
            Option::None => true,
        }
        &&& match self.to {
            Option::Some(d) => d.wf(),
            Option::None => true,
        }
    }

    /// The key/value pairs of the query string, in declaration
    /// order; absent parameters contribute nothing.
    pub open spec fn query_pairs(self) -> Seq<(Seq<char>, Seq<char>)> {
        opt_int_pair("perPage"@, self.per_page)
                + opt_int_pair("page"@, self.page)
                + opt_str_pair("subacount"@, self.subacount)
                + opt_date_pair("from"@, self.from)
                + opt_date_pair("to"@, self.to)
    }

    /// Encodes the parameters as a query string.
    #[verifier::rlimit(100)]
    pub fn to_query(&self) -> (r: String)
        requires
            self.wf(),
        ensures
            r@ == pairs_text(self.query_pairs()),
    {
        let mut q = QueryString::new();
        match &self.per_page {
            Option::Some(v) => q.pair_int("perPage", *v),
            Option::None => (),
        }
        match &self.page {
            Option::Some(v) => q.pair_int("page", *v),
            Option::None => (),
        }
        match &self.subacount {
            Option::Some(s) => q.pair_str("subacount", s.as_str()),
            Option::None => (),
        }
        match &self.from {
            Option::Some(d) => {
                let t = d.to_rfc3339();
                q.pair_str("from", t.as_str());
            },
            Option::None => (),
        }
        match &self.to {
            Option::Some(d) => {
                let t = d.to_rfc3339();
                q.pair_str("to", t.as_str());
            },
            Option::None => (),
        }
        proof {
            assert(q@ =~~= self.query_pairs());
        }
        q.finish()
    }
}

impl Settlements {
    /// Builds the request that fetches settlements.
    pub fn fetch_settlements(&self, params: Option<FetchSettlementsBody>) -> (r: HttpRequest)
        requires
            match params {
                Option::Some(p) => p.wf(),
                Option::None => true,
            },
        ensures
            r@ == get_request(
                self.bearer(),
                "https://api.paystack.co/settlement"@ + "?"@ + (match params {
                    Option::Some(p) => pairs_text(p.query_pairs()),
                    Option::None => Seq::empty(),
                }),
            ),
    {
        let url = String::from_str("https://api.paystack.co/settlement");
        let query_text = match &params {
            Option::Some(p) => Option::Some(p.to_query()),
            Option::None => Option::None,
        };
        let r = make_get_request(self.bearer_auth.clone(), url, query_text);
        proof {
            assert(r@.url =~= "https://api.paystack.co/settlement"@ + "?"@ + (match params {
                    Option::Some(p) => pairs_text(p.query_pairs()),
                    Option::None => Seq::empty(),
                }));
        }
        r
    }

    /// Builds the request for the transactions of one settlement.
    pub fn fetch_settlement_transactions(&self, id: &str, params: Option<FetchSettleTxBody>) -> (r: HttpRequest)
        requires
            match params {
                Option::Some(p) => p.wf(),
                Option::None => true,
            },
        ensures
            r@ == get_request(
                self.bearer(),
                "https://api.paystack.co/settlement/"@ + id@ + "/transactions"@ + "?"@ + (match params {
                    Option::Some(p) => pairs_text(p.query_pairs()),
                    Option::None => Seq::empty(),
                }),
            ),
    {
        let mut url = String::from_str("https://api.paystack.co/settlement/");
        url.append(id);
        url.append("/transactions");
        let query_text = match &params {
            Option::Some(p) => Option::Some(p.to_query()),
            Option::None => Option::None,
        };
        let r = make_get_request(self.bearer_auth.clone(), url, query_text);
        proof {
            assert(r@.url =~= "https://api.paystack.co/settlement/"@ + id@ + "/transactions"@ + "?"@ + (match params {
                    Option::Some(p) => pairs_text(p.query_pairs()),
                    Option::None => Seq::empty(),
                }));
        }
        r
    }
}

} // verus!
