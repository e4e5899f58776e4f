//! The Verification API: KYC lookups.

use vstd::prelude::*;
use crate::json::{JsonObj, jopt_str, jstr, obj_ser};
use crate::request::{
    HttpRequest, Method, body_request, get_request, make_get_request, make_request,
};
use crate::text::dec_int;
use crate::urlenc::{QueryString, form_str, pairs_text};

verus! {

/// A client for the KYC verification endpoints.
#[derive(Debug, Default)]
pub struct Verification {
    pub(crate) bearer_auth: String,
}

impl Verification {
    /// The bearer authorization text this resource sends.
    pub closed spec fn bearer(self) -> Seq<char> {
        self.bearer_auth@
    }

    /// Binds the resource client to the authorization header it sends.
    pub fn with_auth(bearer_auth: String) -> (r: Verification)
        ensures
            r.bearer() == bearer_auth@,
    {
        Verification { bearer_auth }
    }
}

/// The body of a request that matches an account number to a BVN.
#[derive(Debug, Default)]
pub struct VerifyBVNBody {
    /// Bank account number.
    pub account_number: String,
    /// Bank code, as listed by the bank-list endpoint.
    pub bank_code: i64,
    /// Eleven-digit bank verification number.
    pub bvn: String,
    /// Customer's first name.
    pub first_name: Option<String>,
    /// Customer's middle name.
    pub middle_name: Option<String>,
    /// Customer's last name.
    pub last_name: Option<String>,
}

impl VerifyBVNBody {
    /// The members of the serialized JSON body, in declaration order.
    pub open spec fn json_fields(self) -> Seq<(Seq<char>, Seq<char>)> {
        seq![
            ("account_number"@, jstr(self.account_number@)),
            ("bank_code"@, dec_int(self.bank_code as int)),
            ("bvn"@, jstr(self.bvn@)),
            ("first_name"@, jopt_str(self.first_name)),
            ("middle_name"@, jopt_str(self.middle_name)),
            ("last_name"@, jopt_str(self.last_name)),
        ]
    }

    /// Serializes the body to its JSON text.
    pub fn to_json(&self) -> (r: String)
        ensures
            r@ == obj_ser(self.json_fields()),
    {
        let mut o = JsonObj::new();
        o.field_str("account_number", self.account_number.as_str());
        o.field_int("bank_code", self.bank_code as i128);
        o.field_str("bvn", self.bvn.as_str());
        o.field_opt_str("first_name", &self.first_name);
        o.field_opt_str("middle_name", &self.middle_name);
        o.field_opt_str("last_name", &self.last_name);
        proof {
            assert(o@ =~~= self.json_fields());
        }
        o.finish()
    }
}

/// The query parameters of a request to resolve an account number.
#[derive(Debug)]
pub struct ResolveAcctNoBody {
    /// Bank account number.
    pub account_number: String,
    /// Bank code, as listed by the bank-list endpoint.
    pub bank_code: i64,
}

impl ResolveAcctNoBody {
    /// The key/value pairs of the query string, in declaration
    /// order; absent parameters contribute nothing.
    pub open spec fn query_pairs(self) -> Seq<(Seq<char>, Seq<char>)> {
        seq![("account_number"@, form_str(self.account_number@))]
                + seq![("bank_code"@, dec_int(self.bank_code as int))]
    }

    /// Encodes the parameters as a query string.
    #[verifier::rlimit(100)]
    pub fn to_query(&self) -> (r: String)
        ensures
            r@ == pairs_text(self.query_pairs()),
    {
        let mut q = QueryString::new();
        q.pair_str("account_number", self.account_number.as_str());
        q.pair_int("bank_code", self.bank_code as i128);
        proof {
            assert(q@ =~~= self.query_pairs());
        }
        q.finish()
    }
}

impl Verification {
    /// Builds the request that checks whether an account number and BVN are linked.
    pub fn verify_bvn_match(&self, body: VerifyBVNBody) -> (r: HttpRequest)
        ensures
            r@ == body_request(
                Method::Post,
                self.bearer(),
                "https://api.paystack.co/bvn/match"@,
                obj_ser(body.json_fields()),
            ),
    {
        let url = String::from_str("https://api.paystack.co/bvn/match");
        let serialized = body.to_json();
        make_request(self.bearer_auth.clone(), url, Option::Some(serialized), Method::Post)
    }

    /// Builds the request that resolves an account number to its owner.
    pub fn resolve_account_number(&self, params: ResolveAcctNoBody) -> (r: HttpRequest)
        ensures
            r@ == get_request(
                self.bearer(),
                "https://api.paystack.co/bank/resolve"@ + "?"@ + pairs_text(params.query_pairs()),
            ),
    {
        let url = String::from_str("https://api.paystack.co/bank/resolve");
        let query_text = Option::Some(params.to_query());
        let r = make_get_request(self.bearer_auth.clone(), url, query_text);
        proof {
            assert(r@.url =~= "https://api.paystack.co/bank/resolve"@ + "?"@ + pairs_text(params.query_pairs()));
        }
        r
    }

    /// Builds the request for the details of a card BIN.
    pub fn resolve_card_bin(&self, bin: &str) -> (r: HttpRequest)
        ensures
            r@ == get_request(
                self.bearer(),
                "https://api.paystack.co/decision/bin/"@ + bin@ + "?"@,
            ),
    {
        let mut url = String::from_str("https://api.paystack.co/decision/bin/");
        url.append(bin);
        let query_text = Option::None;
        let r = make_get_request(self.bearer_auth.clone(), url, query_text);
        proof {
            assert(r@.url =~= "https://api.paystack.co/decision/bin/"@ + bin@ + "?"@);
        }
        r
    }
}

} // verus!
