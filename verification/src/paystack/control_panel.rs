//! The Control Panel API: integration-wide settings.

use vstd::prelude::*;
use crate::json::{JsonObj, obj_ser};
use crate::request::{
    HttpRequest, Method, body_request, get_request, make_get_request, make_request,
};
use crate::text::dec_int;

verus! {

/// A client for the integration's settings.
#[derive(Debug, Default)]
pub struct ControlPanel {
    pub(crate) bearer_auth: String,
}

/// The body of a request to update the payment session timeout.
#[derive(Debug, Default)]
pub struct UpdatePaymentSessionTimeoutBody {
    /// Time before a session is stopped, in seconds; 0 cancels timeouts.
    pub timeout: i64,
}

impl UpdatePaymentSessionTimeoutBody {
    /// The members of the serialized JSON body.
    pub open spec fn json_fields(self) -> Seq<(Seq<char>, Seq<char>)> {
        seq![("timeout"@, dec_int(self.timeout as int))]
    }

    /// Serializes the body to its JSON text.
    pub fn to_json(&self) -> (r: String)
        ensures
            r@ == obj_ser(self.json_fields()),
    {
        let mut o = JsonObj::new();
        o.field_int("timeout", self.timeout as i128);
        proof {
            assert(o@ =~~= self.json_fields());
        }
        o.finish()
    }
}

impl ControlPanel {
    /// The bearer authorization text this resource sends.
    pub closed spec fn bearer(self) -> Seq<char> {
        self.bearer_auth@
    }

    /// Binds the resource client to the authorization header it sends.
    pub fn with_auth(bearer_auth: String) -> (r: ControlPanel)
        ensures
            r.bearer() == bearer_auth@,
    {
        ControlPanel { bearer_auth }
    }

    /// Builds the request that fetches the payment session timeout.
    pub fn fetch_payment_session_timeout(&self) -> (r: HttpRequest)
        ensures
            r@ == get_request(
                self.bearer(),
                "https://api.paystack.co/integration/payment_session_timeout"@ + "?"@,
            ),
    {
        let r = make_get_request(
            self.bearer_auth.clone(),
            String::from_str("https://api.paystack.co/integration/payment_session_timeout"),
            Option::None,
        );
        proof {
            assert(r@.url =~= "https://api.paystack.co/integration/payment_session_timeout"@
                + "?"@);
        }
        r
    }

    /// Builds the request that updates the payment session timeout.
    pub fn update_payment_session_timeout(&self, body: UpdatePaymentSessionTimeoutBody) -> (r:
        HttpRequest)
        ensures
            r@ == body_request(
                Method::Put,
                self.bearer(),
                "https://api.paystack.co/integration/payment_session_timeout"@,
                obj_ser(body.json_fields()),
            ),
    {
        let serialized = body.to_json();
        make_request(
            self.bearer_auth.clone(),
            String::from_str("https://api.paystack.co/integration/payment_session_timeout"),
            Option::Some(serialized),
            Method::Put,
        )
    }
}

} // verus!
