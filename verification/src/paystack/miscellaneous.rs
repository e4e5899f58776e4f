//! Supporting lookups: banks, providers, countries and states.

use vstd::prelude::*;
use crate::paystack::transactions::{Currency, opt_currency_pair};
use crate::request::{HttpRequest, get_request, make_get_request};
use crate::text::dec_int;
use crate::urlenc::{QueryString, form_str, opt_str_pair, pairs_text};

verus! {

/// A client for the supporting lookup endpoints.
#[derive(Debug, Default)]
pub struct Miscellaneous {
    pub(crate) bearer_auth: String,
}

impl Miscellaneous {
    /// The bearer authorization text this resource sends.
    pub closed spec fn bearer(self) -> Seq<char> {
        self.bearer_auth@
    }

    /// Binds the resource client to the authorization header it sends.
    pub fn with_auth(bearer_auth: String) -> (r: Miscellaneous)
        ensures
            r.bearer() == bearer_auth@,
    {
        Miscellaneous { bearer_auth }
    }
}

/// The gateway type of a bank, in lower case on the wire.
#[derive(Debug, Clone, Copy)]
pub enum Gateway {
    Emandate,
    DigitalBankMandate,
}

impl Gateway {
    /// The wire token of this value.
    pub open spec fn spec_code(self) -> Seq<char> {
        match self {
            Gateway::Emandate => "emandate"@,
            Gateway::DigitalBankMandate => "digitalbankmandate"@,
        }
    }

    /// Returns the wire token of this value.
    pub fn code(&self) -> (r: &'static str)
        ensures
            r@ == self.spec_code(),
    {
        match self {
            Gateway::Emandate => "emandate",
            Gateway::DigitalBankMandate => "digitalbankmandate",
        }
    }
}

/// The query pair contributed by an optional `Gateway` parameter.
pub open spec fn opt_gateway_pair(k: Seq<char>, o: Option<Gateway>) -> Seq<
    (Seq<char>, Seq<char>),
> {
    match o {
        Option::Some(x) => seq![(k, x.spec_code())],
        Option::None => Seq::empty(),
    }
}

/// The query parameters of a request to list banks.
#[derive(Debug)]
pub struct ListBanksParams {
    /// The country whose supported banks to list, e.g. `nigeria`.
    pub country: String,
    /// Whether cursor pagination is used.
    pub use_cursor: bool,
    /// Records per page; the remote default is 50.
    pub per_page: i64,
    /// Cursor for the next page of the list.
    pub next: Option<String>,
    /// Cursor for the previous page of the list.
    pub previous: Option<String>,
    /// Filter by the gateway type of the bank.
    pub gateway: Option<Gateway>,
    /// Kind of financial channel, e.g. `mobile_money` or `ghipps`.
    pub ttype: String,
    /// Filter by currency.
    pub currency: Option<Currency>,
}

impl ListBanksParams {
    /// The key/value pairs of the query string, in declaration
    /// order; absent parameters contribute nothing.
    pub open spec fn query_pairs(self) -> Seq<(Seq<char>, Seq<char>)> {
        seq![("country"@, form_str(self.country@))]
                + seq![("use_cursor"@, if self.use_cursor { "true"@ } else { "false"@ })]
                + seq![("perPage"@, dec_int(self.per_page as int))]
                + opt_str_pair("next"@, self.next)
                + opt_str_pair("previous"@, self.previous)
                + opt_gateway_pair("gateway"@, self.gateway)
                + seq![("type"@, form_str(self.ttype@))]
                + opt_currency_pair("currency"@, self.currency)
    }

    /// Encodes the parameters as a query string.
    #[verifier::rlimit(100)]
    pub fn to_query(&self) -> (r: String)
        ensures
            r@ == pairs_text(self.query_pairs()),
    {
        let mut q = QueryString::new();
        q.pair_str("country", self.country.as_str());
        q.pair_bool("use_cursor", self.use_cursor);
        q.pair_int("perPage", self.per_page as i128);
        match &self.next {
            Option::Some(s) => q.pair_str("next", s.as_str()),
            Option::None => (),
        }
        match &self.previous {
            Option::Some(s) => q.pair_str("previous", s.as_str()),
            Option::None => (),
        }
        match &self.gateway {
            Option::Some(x) => q.pair_pre("gateway", x.code()),
            Option::None => (),
        }
        q.pair_str("type", self.ttype.as_str());
        match &self.currency {
            Option::Some(x) => q.pair_pre("currency", x.code()),
            Option::None => (),
        }
        proof {
            assert(q@ =~~= self.query_pairs());
        }
        q.finish()
    }
}

/// The query parameters of a request to list dedicated-account providers.
#[derive(Debug)]
pub struct ListProvidersParams {
    /// Filter for available providers.
    pub pay_with_bank_transfer: bool,
}

impl ListProvidersParams {
    /// The key/value pairs of the query string, in declaration
    /// order; absent parameters contribute nothing.
    pub open spec fn query_pairs(self) -> Seq<(Seq<char>, Seq<char>)> {
        seq![("pay_with_bank_transfer"@, if self.pay_with_bank_transfer { "true"@ } else { "false"@ })]
    }

    /// Encodes the parameters as a query string.
    #[verifier::rlimit(100)]
    pub fn to_query(&self) -> (r: String)
        ensures
            r@ == pairs_text(self.query_pairs()),
    {
        let mut q = QueryString::new();
        q.pair_bool("pay_with_bank_transfer", self.pay_with_bank_transfer);
        proof {
            assert(q@ =~~= self.query_pairs());
        }
        q.finish()
    }
}

/// The query parameters of a request to list the states of a country.
#[derive(Debug)]
pub struct ListStatesParams {
    /// The country code whose states to list.
    pub country: i64,
}

impl ListStatesParams {
    /// The key/value pairs of the query string, in declaration
    /// order; absent parameters contribute nothing.
    pub open spec fn query_pairs(self) -> Seq<(Seq<char>, Seq<char>)> {
        seq![("country"@, dec_int(self.country as int))]
    }

    /// Encodes the parameters as a query string.
    #[verifier::rlimit(100)]
    pub fn to_query(&self) -> (r: String)
        ensures
            r@ == pairs_text(self.query_pairs()),
    {
        let mut q = QueryString::new();
        q.pair_int("country", self.country as i128);
        proof {
            assert(q@ =~~= self.query_pairs());
        }
        q.finish()
    }
}

impl Miscellaneous {
    /// Builds the request that lists supported banks.
    pub fn list_banks(&self, params: ListBanksParams) -> (r: HttpRequest)
        ensures
            r@ == get_request(
                self.bearer(),
                "https://api.paystack.co/bank"@ + "?"@ + pairs_text(params.query_pairs()),
            ),
    {
        let url = String::from_str("https://api.paystack.co/bank");
        let query_text = Option::Some(params.to_query());
        let r = make_get_request(self.bearer_auth.clone(), url, query_text);
        proof {
            assert(r@.url =~= "https://api.paystack.co/bank"@ + "?"@ + pairs_text(params.query_pairs()));
        }
        r
    }

    /// Builds the request that lists dedicated-account providers.
    pub fn list_providers(&self, params: ListProvidersParams) -> (r: HttpRequest)
        ensures
            r@ == get_request(
                self.bearer(),
                "https://api.paystack.co/bank"@ + "?"@ + pairs_text(params.query_pairs()),
            ),
    {
        let url = String::from_str("https://api.paystack.co/bank");
        let query_text = Option::Some(params.to_query());
        let r = make_get_request(self.bearer_auth.clone(), url, query_text);
        proof {
            assert(r@.url =~= "https://api.paystack.co/bank"@ + "?"@ + pairs_text(params.query_pairs()));
        }
        r
    }

    /// Builds the request that lists the supported countries.
    pub fn list_or_search_countries(&self) -> (r: HttpRequest)
        ensures
            r@ == get_request(
                self.bearer(),
                "https://api.paystack.co/country"@ + "?"@,
            ),
    {
        let url = String::from_str("https://api.paystack.co/country");
        let query_text = Option::None;
        let r = make_get_request(self.bearer_auth.clone(), url, query_text);
        proof {
            assert(r@.url =~= "https://api.paystack.co/country"@ + "?"@);
        }
        r
    }

    /// Builds the request that lists the states of a country.
    pub fn list_states(&self, params: ListStatesParams) -> (r: HttpRequest)
        ensures
            r@ == get_request(
                self.bearer(),
                "https://api.paystack.co/address_verification/states"@ + "?"@ + pairs_text(params.query_pairs()),
            ),
    {
        let url = String::from_str("https://api.paystack.co/address_verification/states");
        let query_text = Option::Some(params.to_query());
        let r = make_get_request(self.bearer_auth.clone(), url, query_text);
        proof {
            assert(r@.url =~= "https://api.paystack.co/address_verification/states"@ + "?"@ + pairs_text(params.query_pairs()));
        }
        r
    }
}

} // verus!
