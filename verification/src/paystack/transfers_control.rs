//! The Transfers Control API: balance and OTP settings for transfers.

use vstd::prelude::*;
use crate::json::{JsonObj, jstr, obj_ser};
use crate::request::{
    HttpRequest, Method, body_request, get_request, make_get_request, make_request,
};

verus! {

/// A client for the settings of outbound transfers.
#[derive(Debug, Default)]
pub struct TransfersControl {
    pub(crate) bearer_auth: String,
}

/// The body of a request to resend a transfer OTP.
#[derive(Debug, Default)]
pub struct ResendTransfersOTPBody {
    /// Transfer code.
    pub transfer_code: String,
    /// Either `resend_otp` or `transfer`.
    pub reason: String,
}

impl ResendTransfersOTPBody {
    /// The members of the serialized JSON body, in declaration order.
    pub open spec fn json_fields(self) -> Seq<(Seq<char>, Seq<char>)> {
        seq![("transfer_code"@, jstr(self.transfer_code@)), ("reason"@, jstr(self.reason@))]
    }

    /// Serializes the body to its JSON text.
    pub fn to_json(&self) -> (r: String)
        ensures
            r@ == obj_ser(self.json_fields()),
    {
        let mut o = JsonObj::new();
        o.field_str("transfer_code", self.transfer_code.as_str());
        o.field_str("reason", self.reason.as_str());
        proof {
            assert(o@ =~~= self.json_fields());
        }
        o.finish()
    }
}

/// The body of a request that finalizes disabling the transfer OTP.
#[derive(Debug, Default)]
pub struct FinalizeDisableTransferOTPBody {
    /// OTP sent to the business phone to verify disabling the OTP.
    pub otp: String,
}

impl FinalizeDisableTransferOTPBody {
    /// The members of the serialized JSON body.
    pub open spec fn json_fields(self) -> Seq<(Seq<char>, Seq<char>)> {
        seq![("otp"@, jstr(self.otp@))]
    }

    /// Serializes the body to its JSON text.
    pub fn to_json(&self) -> (r: String)
        ensures
            r@ == obj_ser(self.json_fields()),
    {
        let mut o = JsonObj::new();
        o.field_str("otp", self.otp.as_str());
        proof {
            assert(o@ =~~= self.json_fields());
        }
        o.finish()
    }
}

impl TransfersControl {
    /// The bearer authorization text this resource sends.
    pub closed spec fn bearer(self) -> Seq<char> {
        self.bearer_auth@
    }

    /// Binds the resource client to the authorization header it sends.
    pub fn with_auth(bearer_auth: String) -> (r: TransfersControl)
        ensures
            r.bearer() == bearer_auth@,
    {
        TransfersControl { bearer_auth }
    }

    /// Builds the request that fetches the available balance.
    pub fn check_balance(&self) -> (r: HttpRequest)
        ensures
            r@ == get_request(self.bearer(), "https://api.paystack.co/balance"@ + "?"@),
    {
        let r = make_get_request(
            self.bearer_auth.clone(),
            String::from_str("https://api.paystack.co/balance"),
            Option::None,
        );
        proof {
            assert(r@.url =~= "https://api.paystack.co/balance"@ + "?"@);
        }
        r
    }

    /// Builds the request that fetches the balance ledger.
    pub fn fetch_balance_ledger(&self) -> (r: HttpRequest)
        ensures
            r@ == get_request(self.bearer(), "https://api.paystack.co/balance"@ + "?"@),
    {
        let r = make_get_request(
            self.bearer_auth.clone(),
            String::from_str("https://api.paystack.co/balance"),
            Option::None,
        );
        proof {
            assert(r@.url =~= "https://api.paystack.co/balance"@ + "?"@);
        }
        r
    }

    /// Builds the request that resends a transfer OTP.
    pub fn resend_transfers_otp(&self, body: ResendTransfersOTPBody) -> (r: HttpRequest)
        ensures
            r@ == body_request(
                Method::Post,
                self.bearer(),
                "https://api.paystack.co/balance/resend_otp"@,
                obj_ser(body.json_fields()),
            ),
    {
        let serialized = body.to_json();
        make_request(
            self.bearer_auth.clone(),
            String::from_str("https://api.paystack.co/balance/resend_otp"),
            Option::Some(serialized),
            Method::Post,
        )
    }

    /// Builds the request that starts disabling the transfer OTP.
    pub fn disable_transfers_otp(&self) -> (r: HttpRequest)
        ensures
            r@ == body_request(
                Method::Post,
                self.bearer(),
                "https://api.paystack.co/balance/disable_otp"@,
                "null"@,
            ),
    {
        make_request(
            self.bearer_auth.clone(),
            String::from_str("https://api.paystack.co/balance/disable_otp"),
            Option::None,
            Method::Post,
        )
    }

    /// Builds the request that finalizes disabling the transfer OTP.
    pub fn finalize_disable_transfers_otp(&self, body: FinalizeDisableTransferOTPBody) -> (r:
        HttpRequest)
        ensures
            r@ == body_request(
                Method::Post,
                self.bearer(),
                "https://api.paystack.co/balance/disable_otp_finalize"@,
                obj_ser(body.json_fields()),
            ),
    {
        let serialized = body.to_json();
        make_request(
            self.bearer_auth.clone(),
            String::from_str("https://api.paystack.co/balance/disable_otp_finalize"),
            Option::Some(serialized),
            Method::Post,
        )
    }

    /// Builds the request that turns the transfer OTP back on.
    pub fn enable_transfers_otp(&self) -> (r: HttpRequest)
        ensures
            r@ == body_request(
                Method::Post,
                self.bearer(),
                "https://api.paystack.co/balance/enable_otp"@,
                "null"@,
            ),
    {
        make_request(
            self.bearer_auth.clone(),
            String::from_str("https://api.paystack.co/balance/enable_otp"),
            Option::None,
            Method::Post,
        )
    }
}

} // verus!
