//! The Transfer Recipients API: beneficiaries that receive money.

use vstd::prelude::*;
use crate::datetime::{UtcDateTime, opt_date_pair};
use crate::json::{Json, JsonObj, jarr, jopt_json, jopt_str, jstr, obj_ser, render_arr};
use crate::paystack::transactions::{Currency, jopt_currency};
use crate::request::{
    HttpRequest, Method, body_request, get_request, make_get_request, make_request,
};
use crate::urlenc::{QueryString, opt_int_pair, pairs_text};

verus! {

/// A client for creating and managing transfer recipients.
#[derive(Debug, Default)]
pub struct TransferRecipients {
    pub(crate) bearer_auth: String,
}

impl TransferRecipients {
    /// The bearer authorization text this resource sends.
    pub closed spec fn bearer(self) -> Seq<char> {
        self.bearer_auth@
    }

    /// Binds the resource client to the authorization header it sends.
    pub fn with_auth(bearer_auth: String) -> (r: TransferRecipients)
        ensures
            r.bearer() == bearer_auth@,
    {
        TransferRecipients { bearer_auth }
    }
}

/// The body of a request to create a transfer recipient.
#[derive(Debug, Default)]
pub struct CreateTransferRecipientBody {
    /// Recipient type; only `nuban` at this time.
    pub recipient_type: String,
    /// A name for the recipient.
    pub name: String,
    /// Required when the type is `nuban`.
    pub account_number: String,
    /// Bank code, as listed by the bank-list endpoint.
    pub bank_code: String,
    /// A description for this recipient.
    pub description: Option<String>,
    /// Currency of the receiving account.
    pub currency: Option<Currency>,
    /// An authorization code from a previous transaction.
    pub authorization_code: Option<String>,
    /// Free-form JSON stored with the recipient.
    pub metadata: Option<Json>,
}

impl CreateTransferRecipientBody {
    /// The members of the serialized JSON body, in declaration order.
    pub open spec fn json_fields(self) -> Seq<(Seq<char>, Seq<char>)> {
        seq![
            ("type"@, jstr(self.recipient_type@)),
            ("name"@, jstr(self.name@)),
            ("account_number"@, jstr(self.account_number@)),
            ("bank_code"@, jstr(self.bank_code@)),
            ("description"@, jopt_str(self.description)),
            ("currency"@, jopt_currency(self.currency)),
            ("authorization_code"@, jopt_str(self.authorization_code)),
            ("metadata"@, jopt_json(self.metadata)),
        ]
    }

    /// Serializes the body to its JSON text.
    pub fn to_json(&self) -> (r: String)
        ensures
            r@ == obj_ser(self.json_fields()),
    {
        let mut o = JsonObj::new();
        o.field_str("type", self.recipient_type.as_str());
        o.field_str("name", self.name.as_str());
        o.field_str("account_number", self.account_number.as_str());
        o.field_str("bank_code", self.bank_code.as_str());
        o.field_opt_str("description", &self.description);
        match &self.currency {
            Option::Some(x) => o.field_str("currency", x.code()),
            Option::None => o.field_pre("currency", "null"),
        }
        o.field_opt_str("authorization_code", &self.authorization_code);
        o.field_opt_json("metadata", &self.metadata);
        proof {
            assert(o@ =~~= self.json_fields());
        }
        o.finish()
    }
}

/// The body of a request to create transfer recipients in batches.
#[derive(Debug, Default)]
pub struct BulkCreateTransferRecipient {
    /// Recipient objects, each with `type`, `name` and `bank_code`.
    pub batch: Vec<Json>,
}

impl BulkCreateTransferRecipient {
    /// The members of the serialized JSON body, in declaration order.
    pub open spec fn json_fields(self) -> Seq<(Seq<char>, Seq<char>)> {
        seq![
            ("batch"@, jarr(self.batch@)),
        ]
    }

    /// Serializes the body to its JSON text.
    pub fn to_json(&self) -> (r: String)
        ensures
            r@ == obj_ser(self.json_fields()),
    {
        let mut o = JsonObj::new();
        let rendered_batch = render_arr(&self.batch);
        o.field_pre("batch", rendered_batch.as_str());
        proof {
            assert(o@ =~~= self.json_fields());
        }
        o.finish()
    }
}

/// The query parameters of a request to list transfer recipients.
#[derive(Debug, Default)]
pub struct ListTransferRecipientsParams {
    /// Records per page; the remote default is 50.
    pub per_page: Option<i128>,
    /// Page to retrieve; the remote default is 1.
    pub page: Option<i128>,
    /// List recipients from this timestamp on.
    pub from: Option<UtcDateTime>,
    /// List recipients up to this timestamp.
    pub to: Option<UtcDateTime>,
}

impl ListTransferRecipientsParams {
    /// Every timestamp present lies in its calendar range.
    pub open spec fn wf(self) -> bool {
        &&& match self.from {
            Option::Some(d) => d.wf(),
            Option::None => true,
        }
        &&& match self.to {
            Option::Some(d) => d.wf(),
            Option::None => true,
        }
    }

    /// The key/value pairs of the query string, in declaration
    /// order; absent parameters contribute nothing.
    pub open spec fn query_pairs(self) -> Seq<(Seq<char>, Seq<char>)> {
        opt_int_pair("perPage"@, self.per_page)
                + opt_int_pair("page"@, self.page)
                + opt_date_pair("from"@, self.from)
                + opt_date_pair("to"@, self.to)
    }

    /// Encodes the parameters as a query string.
    #[verifier::rlimit(100)]
    pub fn to_query(&self) -> (r: String)
        requires
            self.wf(),
        ensures
            r@ == pairs_text(self.query_pairs()),
    {
        let mut q = QueryString::new();
        match &self.per_page {
            Option::Some(v) => q.pair_int("perPage", *v),
            Option::None => (),
        }
        match &self.page {
            Option::Some(v) => q.pair_int("page", *v),
            Option::None => (),
        }
        match &self.from {
            Option::Some(d) => {
                let t = d.to_rfc3339();
                q.pair_str("from", t.as_str());
            },
            Option::None => (),
        }
        match &self.to {
            Option::Some(d) => {
                let t = d.to_rfc3339();
                q.pair_str("to", t.as_str());
            },
            Option::None => (),
        }
        proof {
            assert(q@ =~~= self.query_pairs());
        }
        q.finish()
    }
}

/// The body of a request to update a transfer recipient.
#[derive(Debug, Default)]
pub struct UpdateTransferRecipient {
    /// A name for the recipient.
    pub name: String,
    /// Email address of the recipient.
    pub email: String,
    /// A description for this recipient.
    pub description: String,
}

impl UpdateTransferRecipient {
    /// The members of the serialized JSON body, in declaration order.
    pub open spec fn json_fields(self) -> Seq<(Seq<char>, Seq<char>)> {
        seq![
            ("name"@, jstr(self.name@)),
            ("email"@, jstr(self.email@)),
            ("description"@, jstr(self.description@)),
        ]
    }

    /// Serializes the body to its JSON text.
    pub fn to_json(&self) -> (r: String)
        ensures
            r@ == obj_ser(self.json_fields()),
    {
        let mut o = JsonObj::new();
        o.field_str("name", self.name.as_str());
        o.field_str("email", self.email.as_str());
        o.field_str("description", self.description.as_str());
        proof {
            assert(o@ =~~= self.json_fields());
        }
        o.finish()
    }
}

impl TransferRecipients {
    /// Builds the request that creates a transfer recipient.
    pub fn create_transfer_recipient(&self, body: CreateTransferRecipientBody) -> (r: HttpRequest)
        ensures
            r@ == body_request(
                Method::Post,
                self.bearer(),
                "https://api.paystack.co/transferrecipient"@,
                obj_ser(body.json_fields()),
            ),
    {
        let url = String::from_str("https://api.paystack.co/transferrecipient");
        let serialized = body.to_json();
        make_request(self.bearer_auth.clone(), url, Option::Some(serialized), Method::Post)
    }

    /// Builds the request that creates transfer recipients in batches.
    pub fn bulk_create_transfer_recipient(&self, body: BulkCreateTransferRecipient) -> (r: HttpRequest)
        ensures
            r@ == body_request(
                Method::Post,
                self.bearer(),
                "https://api.paystack.co/transferrecipient/bulk"@,
                obj_ser(body.json_fields()),
            ),
    {
        let url = String::from_str("https://api.paystack.co/transferrecipient/bulk");
        let serialized = body.to_json();
        make_request(self.bearer_auth.clone(), url, Option::Some(serialized), Method::Post)
    }

    /// Builds the request that lists transfer recipients.
    pub fn list_transfer_recipients(&self, params: ListTransferRecipientsParams) -> (r: HttpRequest)
        requires
            params.wf(),
        ensures
            r@ == get_request(
                self.bearer(),
                "https://api.paystack.co/transferrecipient"@ + "?"@ + pairs_text(params.query_pairs()),
            ),
    {
        let url = String::from_str("https://api.paystack.co/transferrecipient");
        let query_text = Option::Some(params.to_query());
        let r = make_get_request(self.bearer_auth.clone(), url, query_text);
        proof {
            assert(r@.url =~= "https://api.paystack.co/transferrecipient"@ + "?"@ + pairs_text(params.query_pairs()));
        }
        r
    }

    /// Builds the request that fetches one transfer recipient.
    pub fn fetch_transfer_recipient(&self, id_or_code: &str) -> (r: HttpRequest)
        ensures
            r@ == get_request(
                self.bearer(),
                "https://api.paystack.co/transferrecipient/"@ + id_or_code@ + "?"@,
            ),
    {
        let mut url = String::from_str("https://api.paystack.co/transferrecipient/");
        url.append(id_or_code);
        let query_text = Option::None;
        let r = make_get_request(self.bearer_auth.clone(), url, query_text);
        proof {
            assert(r@.url =~= "https://api.paystack.co/transferrecipient/"@ + id_or_code@ + "?"@);
        }
        r
    }

    /// Builds the request that updates a transfer recipient.
    pub fn update_transfer_recipient(&self, body: UpdateTransferRecipient, id_or_code: &str) -> (r: HttpRequest)
        ensures
            r@ == body_request(
                Method::Put,
                self.bearer(),
                "https://api.paystack.co/transferrecipient/"@ + id_or_code@,
                obj_ser(body.json_fields()),
            ),
    {
        let mut url = String::from_str("https://api.paystack.co/transferrecipient/");
        url.append(id_or_code);
        let serialized = body.to_json();
        make_request(self.bearer_auth.clone(), url, Option::Some(serialized), Method::Put)
    }

    /// Builds the request that deactivates a transfer recipient.
    pub fn delete_transfer_recipient(&self, id_or_code: &str) -> (r: HttpRequest)
        ensures
            r@ == body_request(
                Method::Delete,
                self.bearer(),
                "https://api.paystack.co/transferrecipient/"@ + id_or_code@,
                "null"@,
            ),
    {
        let mut url = String::from_str("https://api.paystack.co/transferrecipient/");
        url.append(id_or_code);
        make_request(self.bearer_auth.clone(), url, Option::None, Method::Delete)
    }
}

} // verus!
