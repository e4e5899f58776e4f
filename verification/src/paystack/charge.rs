//! The Charge API: driving a payment through its submission steps.

use vstd::prelude::*;
use crate::datetime::{UtcDateTime, rfc3339};
use crate::json::{Json, JsonObj, jopt_json, jopt_str, jstr, obj_ser};
use crate::request::{
    HttpRequest, Method, body_request, get_request, make_get_request, make_request,
};

verus! {

/// A client for creating charges and submitting their follow-ups.
#[derive(Debug, Default)]
pub struct Charge {
    pub(crate) bearer_auth: String,
}

impl Charge {
    /// The bearer authorization text this resource sends.
    pub closed spec fn bearer(self) -> Seq<char> {
        self.bearer_auth@
    }

    /// Binds the resource client to the authorization header it sends.
    pub fn with_auth(bearer_auth: String) -> (r: Charge)
        ensures
            r.bearer() == bearer_auth@,
    {
        Charge { bearer_auth }
    }
}

/// The body of a request to create a charge.
#[derive(Debug, Default)]
pub struct CreateChargeBody {
    /// Customer's email address.
    pub email: String,
    /// Amount in the currency's subunit, as text.
    pub amount: String,
    /// Bank account to charge; not sent with an authorization code.
    pub bank: Option<Json>,
    /// An authorization code to charge; not sent with a bank account.
    pub authorization_code: Option<String>,
    /// Four-digit PIN, sent with a non-reusable authorization code.
    pub pin: Option<String>,
    /// Free-form JSON attached to the charge.
    pub metadata: Option<Json>,
    /// Unique transaction reference.
    pub reference: Option<String>,
    /// USSD type to charge; not sent with other channels.
    pub ussd: Option<Json>,
    /// Mobile-money details; not sent with other channels.
    pub mobile_money: Option<Json>,
    /// Unique identifier of the device making the payment.
    pub device_id: Option<String>,
}

impl CreateChargeBody {
    /// The members of the serialized JSON body, in declaration order.
    pub open spec fn json_fields(self) -> Seq<(Seq<char>, Seq<char>)> {
        seq![
            ("email"@, jstr(self.email@)),
            ("amount"@, jstr(self.amount@)),
            ("bank"@, jopt_json(self.bank)),
            ("authorization_code"@, jopt_str(self.authorization_code)),
            ("pin"@, jopt_str(self.pin)),
            ("metadata"@, jopt_json(self.metadata)),
            ("reference"@, jopt_str(self.reference)),
            ("ussd"@, jopt_json(self.ussd)),
            ("mobile_money"@, jopt_json(self.mobile_money)),
            ("device_id"@, jopt_str(self.device_id)),
        ]
    }

    /// Serializes the body to its JSON text.
    pub fn to_json(&self) -> (r: String)
        ensures
            r@ == obj_ser(self.json_fields()),
    {
        let mut o = JsonObj::new();
        o.field_str("email", self.email.as_str());
        o.field_str("amount", self.amount.as_str());
        o.field_opt_json("bank", &self.bank);
        o.field_opt_str("authorization_code", &self.authorization_code);
        o.field_opt_str("pin", &self.pin);
        o.field_opt_json("metadata", &self.metadata);
        o.field_opt_str("reference", &self.reference);
        o.field_opt_json("ussd", &self.ussd);
        o.field_opt_json("mobile_money", &self.mobile_money);
        o.field_opt_str("device_id", &self.device_id);
        proof {
            assert(o@ =~~= self.json_fields());
        }
        o.finish()
    }
}

/// The body of a request that submits a PIN for a charge.
#[derive(Debug, Default)]
pub struct SubmitPinBody {
    /// PIN submitted by the user.
    pub pin: String,
    /// Reference of the transaction that asked for the PIN.
    pub reference: String,
}

impl SubmitPinBody {
    /// The members of the serialized JSON body, in declaration order.
    pub open spec fn json_fields(self) -> Seq<(Seq<char>, Seq<char>)> {
        seq![
            ("pin"@, jstr(self.pin@)),
            ("reference"@, jstr(self.reference@)),
        ]
    }

    /// Serializes the body to its JSON text.
    pub fn to_json(&self) -> (r: String)
        ensures
            r@ == obj_ser(self.json_fields()),
    {
        let mut o = JsonObj::new();
        o.field_str("pin", self.pin.as_str());
        o.field_str("reference", self.reference.as_str());
        proof {
            assert(o@ =~~= self.json_fields());
        }
        o.finish()
    }
}

/// The body of a request that submits an OTP for a charge.
#[derive(Debug, Default)]
pub struct SubmitOTPBody {
    /// OTP submitted by the user.
    pub otp: String,
    /// Reference of the ongoing transaction.
    pub reference: String,
}

impl SubmitOTPBody {
    /// The members of the serialized JSON body, in declaration order.
    pub open spec fn json_fields(self) -> Seq<(Seq<char>, Seq<char>)> {
        seq![
            ("otp"@, jstr(self.otp@)),
            ("reference"@, jstr(self.reference@)),
        ]
    }

    /// Serializes the body to its JSON text.
    pub fn to_json(&self) -> (r: String)
        ensures
            r@ == obj_ser(self.json_fields()),
    {
        let mut o = JsonObj::new();
        o.field_str("otp", self.otp.as_str());
        o.field_str("reference", self.reference.as_str());
        proof {
            assert(o@ =~~= self.json_fields());
        }
        o.finish()
    }
}

/// The body of a request that submits a phone number for a charge.
#[derive(Debug, Default)]
pub struct SubmitPhoneBody {
    /// Phone number submitted by the user.
    pub phone: String,
    /// Reference of the ongoing transaction.
    pub reference: String,
}

impl SubmitPhoneBody {
    /// The members of the serialized JSON body, in declaration order.
    pub open spec fn json_fields(self) -> Seq<(Seq<char>, Seq<char>)> {
        seq![
            ("phone"@, jstr(self.phone@)),
            ("reference"@, jstr(self.reference@)),
        ]
    }

    /// Serializes the body to its JSON text.
    pub fn to_json(&self) -> (r: String)
        ensures
            r@ == obj_ser(self.json_fields()),
    {
        let mut o = JsonObj::new();
        o.field_str("phone", self.phone.as_str());
        o.field_str("reference", self.reference.as_str());
        proof {
            assert(o@ =~~= self.json_fields());
        }
        o.finish()
    }
}

/// The body of a request that submits a birthday for a charge.
#[derive(Debug)]
pub struct SubmitBirthdayBody {
    /// Birthday submitted by the user.
    pub birthday: UtcDateTime,
    /// Reference of the ongoing transaction.
    pub reference: String,
}

impl SubmitBirthdayBody {
    /// Every timestamp or decimal present lies in its range.
    pub open spec fn wf(self) -> bool {
        self.birthday.wf()
    }

    /// The members of the serialized JSON body, in declaration order.
    pub open spec fn json_fields(self) -> Seq<(Seq<char>, Seq<char>)> {
        seq![
            ("birthday"@, jstr(rfc3339(self.birthday))),
            ("reference"@, jstr(self.reference@)),
        ]
    }

    /// Serializes the body to its JSON text.
    pub fn to_json(&self) -> (r: String)
        requires
            self.wf(),
        ensures
            r@ == obj_ser(self.json_fields()),
    {
        let mut o = JsonObj::new();
        let rendered_birthday = self.birthday.to_rfc3339();
        o.field_str("birthday", rendered_birthday.as_str());
        o.field_str("reference", self.reference.as_str());
        proof {
            assert(o@ =~~= self.json_fields());
        }
        o.finish()
    }
}

/// The body of a request that submits an address for a charge.
#[derive(Debug, Default)]
pub struct SubmitAddressBody {
    /// Address submitted by the user.
    pub address: String,
    /// Reference of the ongoing transaction.
    pub reference: String,
    /// City submitted by the user.
    pub city: String,
    /// State submitted by the user.
    pub state: String,
    /// Zip code submitted by the user.
    pub zipcode: String,
}

impl SubmitAddressBody {
    /// The members of the serialized JSON body, in declaration order.
    pub open spec fn json_fields(self) -> Seq<(Seq<char>, Seq<char>)> {
        seq![
            ("address"@, jstr(self.address@)),
            ("reference"@, jstr(self.reference@)),
            ("city"@, jstr(self.city@)),
            ("state"@, jstr(self.state@)),
            ("zipcode"@, jstr(self.zipcode@)),
        ]
    }

    /// Serializes the body to its JSON text.
    pub fn to_json(&self) -> (r: String)
        ensures
            r@ == obj_ser(self.json_fields()),
    {
        let mut o = JsonObj::new();
        o.field_str("address", self.address.as_str());
        o.field_str("reference", self.reference.as_str());
        o.field_str("city", self.city.as_str());
        o.field_str("state", self.state.as_str());
        o.field_str("zipcode", self.zipcode.as_str());
        proof {
            assert(o@ =~~= self.json_fields());
        }
        o.finish()
    }
}

impl Charge {
    /// Builds the request that creates a charge.
    pub fn create_charge(&self, body: CreateChargeBody) -> (r: HttpRequest)
        ensures
            r@ == body_request(
                Method::Post,
                self.bearer(),
                "https://api.paystack.co/charge"@,
                obj_ser(body.json_fields()),
            ),
    {
        let url = String::from_str("https://api.paystack.co/charge");
        let serialized = body.to_json();
        make_request(self.bearer_auth.clone(), url, Option::Some(serialized), Method::Post)
    }

    /// Builds the request that submits a PIN to continue a charge.
    pub fn submit_pin(&self, body: SubmitPinBody) -> (r: HttpRequest)
        ensures
            r@ == body_request(
                Method::Post,
                self.bearer(),
                "https://api.paystack.co/charge/submit_pin"@,
                obj_ser(body.json_fields()),
            ),
    {
        let url = String::from_str("https://api.paystack.co/charge/submit_pin");
        let serialized = body.to_json();
        make_request(self.bearer_auth.clone(), url, Option::Some(serialized), Method::Post)
    }

    /// Builds the request that submits an OTP to complete a charge.
    pub fn submit_otp(&self, body: SubmitOTPBody) -> (r: HttpRequest)
        ensures
            r@ == body_request(
                Method::Post,
                self.bearer(),
                "https://api.paystack.co/charge/submit_otp"@,
                obj_ser(body.json_fields()),
            ),
    {
        let url = String::from_str("https://api.paystack.co/charge/submit_otp");
        let serialized = body.to_json();
        make_request(self.bearer_auth.clone(), url, Option::Some(serialized), Method::Post)
    }

    /// Builds the request that submits a phone number when asked.
    pub fn submit_phone(&self, body: SubmitPhoneBody) -> (r: HttpRequest)
        ensures
            r@ == body_request(
                Method::Post,
                self.bearer(),
                "https://api.paystack.co/charge/submit_phone"@,
                obj_ser(body.json_fields()),
            ),
    {
        let url = String::from_str("https://api.paystack.co/charge/submit_phone");
        let serialized = body.to_json();
        make_request(self.bearer_auth.clone(), url, Option::Some(serialized), Method::Post)
    }

    /// Builds the request that submits a birthday when asked.
    pub fn submit_birthday(&self, body: SubmitBirthdayBody) -> (r: HttpRequest)
        requires
            body.wf(),
        ensures
            r@ == body_request(
                Method::Post,
                self.bearer(),
                "https://api.paystack.co/charge/submit_birthday"@,
                obj_ser(body.json_fields()),
            ),
    {
        let url = String::from_str("https://api.paystack.co/charge/submit_birthday");
        let serialized = body.to_json();
        make_request(self.bearer_auth.clone(), url, Option::Some(serialized), Method::Post)
    }

    /// Builds the request that submits an address to continue a charge.
    pub fn submit_address(&self, body: SubmitAddressBody) -> (r: HttpRequest)
        ensures
            r@ == body_request(
                Method::Post,
                self.bearer(),
                "https://api.paystack.co/charge/submit_address"@,
                obj_ser(body.json_fields()),
            ),
    {
        let url = String::from_str("https://api.paystack.co/charge/submit_address");
        let serialized = body.to_json();
        make_request(self.bearer_auth.clone(), url, Option::Some(serialized), Method::Post)
    }

    /// Builds the request that checks the status of a pending charge.
    pub fn check_pending_charge(&self, reference: &str) -> (r: HttpRequest)
        ensures
            r@ == get_request(
                self.bearer(),
                "https://api.paystack.co/charge/"@ + reference@ + "?"@,
            ),
    {
        let mut url = String::from_str("https://api.paystack.co/charge/");
        url.append(reference);
        let query_text = Option::None;
        let r = make_get_request(self.bearer_auth.clone(), url, query_text);
        proof {
            assert(r@.url =~= "https://api.paystack.co/charge/"@ + reference@ + "?"@);
        }
        r
    }
}

} // verus!
