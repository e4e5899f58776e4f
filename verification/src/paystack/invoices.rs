//! The Invoices API: issuing and managing payment requests.

use vstd::prelude::*;
use crate::datetime::{UtcDateTime, jopt_date, opt_date_pair, rfc3339};
use crate::json::{
    Json, JsonObj, jopt_arr, jopt_bool, jopt_i64, jopt_str, jstr, obj_ser,
};
use crate::paystack::transactions::{Currency, Status, jopt_currency};
use crate::request::{
    HttpRequest, Method, body_request, get_request, make_get_request, make_request,
};
use crate::text::dec_int;
use crate::urlenc::{QueryString, form_str, opt_i64_pair, pairs_text};

verus! {

/// A client for issuing and managing invoices.
#[derive(Debug, Default)]
pub struct Invoices {
    pub(crate) bearer_auth: String,
}

impl Invoices {
    /// The bearer authorization text this resource sends.
    pub closed spec fn bearer(self) -> Seq<char> {
        self.bearer_auth@
    }

    /// Binds the resource client to the authorization header it sends.
    pub fn with_auth(bearer_auth: String) -> (r: Invoices)
        ensures
            r.bearer() == bearer_auth@,
    {
        Invoices { bearer_auth }
    }
}

/// The body of a request to create an invoice.
#[derive(Debug)]
pub struct CreateInvoiceBody {
    /// Customer ID or code.
    pub customer: String,
    /// Amount of the payment request; read only without line items and taxes.
    pub amount: i64,
    /// The due date of the request.
    pub due_date: UtcDateTime,
    /// A short description of the payment request.
    pub description: Option<String>,
    /// Line items, each with a name and an amount.
    pub line_items: Option<Vec<Json>>,
    /// Taxes to charge, each with a name and an amount.
    pub tax: Option<Vec<Json>>,
    /// The currency of the invoice; NGN by default.
    pub currency: Option<Currency>,
    /// Whether an email notification goes to the customer.
    pub send_notification: Option<bool>,
    /// Whether the request is saved as a draft.
    pub draft: Option<bool>,
    /// Set to create a draft invoice even without line items or taxes.
    pub has_invoice: Option<bool>,
    /// Overrides the auto-incrementing invoice number.
    pub invoice_number: Option<i64>,
}

impl CreateInvoiceBody {
    /// Every timestamp or decimal present lies in its range.
    pub open spec fn wf(self) -> bool {
        self.due_date.wf()
    }

    /// The members of the serialized JSON body, in declaration order.
    pub open spec fn json_fields(self) -> Seq<(Seq<char>, Seq<char>)> {
        seq![
            ("customer"@, jstr(self.customer@)),
            ("amount"@, dec_int(self.amount as int)),
            ("due_date"@, jstr(rfc3339(self.due_date))),
            ("description"@, jopt_str(self.description)),
            ("line_items"@, jopt_arr(self.line_items)),
            ("tax"@, jopt_arr(self.tax)),
            ("currency"@, jopt_currency(self.currency)),
            ("send_notification"@, jopt_bool(self.send_notification)),
            ("draft"@, jopt_bool(self.draft)),
            ("has_invoice"@, jopt_bool(self.has_invoice)),
            ("invoice_number"@, jopt_i64(self.invoice_number)),
        ]
    }

    /// Serializes the body to its JSON text.
    pub fn to_json(&self) -> (r: String)
        requires
            self.wf(),
        ensures
            r@ == obj_ser(self.json_fields()),
    {
        let mut o = JsonObj::new();
        o.field_str("customer", self.customer.as_str());
        o.field_int("amount", self.amount as i128);
        let rendered_due_date = self.due_date.to_rfc3339();
        o.field_str("due_date", rendered_due_date.as_str());
        o.field_opt_str("description", &self.description);
        o.field_opt_arr("line_items", &self.line_items);
        o.field_opt_arr("tax", &self.tax);
        match &self.currency {
            Option::Some(x) => o.field_str("currency", x.code()),
            Option::None => o.field_pre("currency", "null"),
        }
        o.field_opt_bool("send_notification", &self.send_notification);
        o.field_opt_bool("draft", &self.draft);
        o.field_opt_bool("has_invoice", &self.has_invoice);
        o.field_opt_i64("invoice_number", &self.invoice_number);
        proof {
            assert(o@ =~~= self.json_fields());
        }
        o.finish()
    }
}

/// The query parameters of a request to list invoices.
#[derive(Debug)]
pub struct ListInvoicesParams {
    /// Records per page; the remote default is 50.
    pub per_page: Option<i64>,
    /// Page to retrieve; the remote default is 1.
    pub page: Option<i64>,
    /// Filter by customer ID.
    pub customer: String,
    /// Filter by invoice status.
    pub status: Status,
    /// Filter by currency.
    pub currency: Currency,
    /// Whether archived invoices are shown.
    pub include_archive: String,
    /// List invoices from this timestamp on.
    pub from: Option<UtcDateTime>,
    /// List invoices up to this timestamp.
    pub to: Option<UtcDateTime>,
}

impl ListInvoicesParams {
    /// Every timestamp present lies in its calendar range.
    pub open spec fn wf(self) -> bool {
        &&& match self.from {
            Option::Some(d) => d.wf(),
            Option::None => true,
        }
        &&& match self.to {
            Option::Some(d) => d.wf(),
            Option::None => true,
        }
    }

    /// The key/value pairs of the query string, in declaration
    /// order; absent parameters contribute nothing.
    pub open spec fn query_pairs(self) -> Seq<(Seq<char>, Seq<char>)> {
        opt_i64_pair("per_page"@, self.per_page)
                + opt_i64_pair("page"@, self.page)
                + seq![("customer"@, form_str(self.customer@))]
                + seq![("status"@, self.status.spec_code())]
                + seq![("currency"@, self.currency.spec_code())]
                + seq![("include_archive"@, form_str(self.include_archive@))]
                + opt_date_pair("from"@, self.from)
                + opt_date_pair("to"@, self.to)
    }

    /// Encodes the parameters as a query string.
    #[verifier::rlimit(100)]
    pub fn to_query(&self) -> (r: String)
        requires
            self.wf(),
        ensures
            r@ == pairs_text(self.query_pairs()),
    {
        let mut q = QueryString::new();
        match &self.per_page {
            Option::Some(v) => q.pair_int("per_page", *v as i128),
            Option::None => (),
        }
        match &self.page {
            Option::Some(v) => q.pair_int("page", *v as i128),
            Option::None => (),
        }
        q.pair_str("customer", self.customer.as_str());
        q.pair_pre("status", self.status.code());
        q.pair_pre("currency", self.currency.code());
        q.pair_str("include_archive", self.include_archive.as_str());
        match &self.from {
            Option::Some(d) => {
                let t = d.to_rfc3339();
                q.pair_str("from", t.as_str());
            },
            Option::None => (),
        }
        match &self.to {
            Option::Some(d) => {
                let t = d.to_rfc3339();
                q.pair_str("to", t.as_str());
            },
            Option::None => (),
        }
        proof {
            assert(q@ =~~= self.query_pairs());
        }
        q.finish()
    }
}

/// The body of a request to update an invoice.
#[derive(Debug)]
pub struct UpdateInvoiceBody {
    /// Customer ID or code.
    pub customer: String,
    /// Amount of the payment request; read only without line items and taxes.
    pub amount: i64,
    /// The due date of the request.
    pub due_date: Option<UtcDateTime>,
    /// A short description of the payment request.
    pub description: Option<String>,
    /// Line items, each with a name and an amount.
    pub line_items: Option<Vec<Json>>,
    /// Taxes to charge, each with a name and an amount.
    pub tax: Option<Vec<Json>>,
    /// The currency of the invoice; NGN by default.
    pub currency: Option<Currency>,
    /// Whether an email notification goes to the customer.
    pub send_notification: Option<bool>,
    /// Whether the request is saved as a draft.
    pub draft: Option<bool>,
    /// Overrides the auto-incrementing invoice number.
    pub invoice_number: Option<i64>,
}

impl UpdateInvoiceBody {
    /// Every timestamp or decimal present lies in its range.
    pub open spec fn wf(self) -> bool {
        match self.due_date {
            Option::Some(d) => d.wf(),
            Option::None => true,
        }
    }

    /// The members of the serialized JSON body, in declaration order.
    pub open spec fn json_fields(self) -> Seq<(Seq<char>, Seq<char>)> {
        seq![
            ("customer"@, jstr(self.customer@)),
            ("amount"@, dec_int(self.amount as int)),
            ("due_date"@, jopt_date(self.due_date)),
            ("description"@, jopt_str(self.description)),
            ("line_items"@, jopt_arr(self.line_items)),
            ("tax"@, jopt_arr(self.tax)),
            ("currency"@, jopt_currency(self.currency)),
            ("send_notification"@, jopt_bool(self.send_notification)),
            ("draft"@, jopt_bool(self.draft)),
            ("invoice_number"@, jopt_i64(self.invoice_number)),
        ]
    }

    /// Serializes the body to its JSON text.
    pub fn to_json(&self) -> (r: String)
        requires
            self.wf(),
        ensures
            r@ == obj_ser(self.json_fields()),
    {
        let mut o = JsonObj::new();
        o.field_str("customer", self.customer.as_str());
        o.field_int("amount", self.amount as i128);
        match &self.due_date {
            Option::Some(d) => {
                let t = d.to_rfc3339();
                o.field_str("due_date", t.as_str());
            },
            Option::None => o.field_pre("due_date", "null"),
        }
        o.field_opt_str("description", &self.description);
        o.field_opt_arr("line_items", &self.line_items);
        o.field_opt_arr("tax", &self.tax);
        match &self.currency {
            Option::Some(x) => o.field_str("currency", x.code()),
            Option::None => o.field_pre("currency", "null"),
        }
        o.field_opt_bool("send_notification", &self.send_notification);
        o.field_opt_bool("draft", &self.draft);
        o.field_opt_i64("invoice_number", &self.invoice_number);
        proof {
            assert(o@ =~~= self.json_fields());
        }
        o.finish()
    }
}

impl Invoices {
    /// Builds the request that creates an invoice.
    pub fn create_invoice(&self, body: CreateInvoiceBody) -> (r: HttpRequest)
        requires
            body.wf(),
        ensures
            r@ == body_request(
                Method::Post,
                self.bearer(),
                "https://api.paystack.co/paymentrequest"@,
                obj_ser(body.json_fields()),
            ),
    {
        let url = String::from_str("https://api.paystack.co/paymentrequest");
        let serialized = body.to_json();
        make_request(self.bearer_auth.clone(), url, Option::Some(serialized), Method::Post)
    }

    /// Builds the request that lists invoices.
    pub fn list_invoices(&self, params: Option<ListInvoicesParams>) -> (r: HttpRequest)
        requires
            match params {
                Option::Some(p) => p.wf(),
                Option::None => true,
            },
        ensures
            r@ == get_request(
                self.bearer(),
                "https://api.paystack.co/paymentrequest"@ + "?"@ + (match params {
                    Option::Some(p) => pairs_text(p.query_pairs()),
                    Option::None => Seq::empty(),
                }),
            ),
    {
        let url = String::from_str("https://api.paystack.co/paymentrequest");
        let query_text = match &params {
            Option::Some(p) => Option::Some(p.to_query()),
            Option::None => Option::None,
        };
        let r = make_get_request(self.bearer_auth.clone(), url, query_text);
        proof {
            assert(r@.url =~= "https://api.paystack.co/paymentrequest"@ + "?"@ + (match params {
                    Option::Some(p) => pairs_text(p.query_pairs()),
                    Option::None => Seq::empty(),
                }));
        }
        r
    }

    /// Builds the request that fetches one invoice.
    pub fn view_invoice(&self, id_or_code: &str) -> (r: HttpRequest)
        ensures
            r@ == get_request(
                self.bearer(),
                "https://api.paystack.co/paymentrequest/"@ + id_or_code@ + "?"@,
            ),
    {
        let mut url = String::from_str("https://api.paystack.co/paymentrequest/");
        url.append(id_or_code);
        let query_text = Option::None;
        let r = make_get_request(self.bearer_auth.clone(), url, query_text);
        proof {
            assert(r@.url =~= "https://api.paystack.co/paymentrequest/"@ + id_or_code@ + "?"@);
        }
        r
    }

    /// Builds the request that verifies one invoice.
    pub fn verify_invoice(&self, id_or_code: &str) -> (r: HttpRequest)
        ensures
            r@ == get_request(
                self.bearer(),
                "https://api.paystack.co/paymentrequest/verify/"@ + id_or_code@ + "?"@,
            ),
    {
        let mut url = String::from_str("https://api.paystack.co/paymentrequest/verify/");
        url.append(id_or_code);
        let query_text = Option::None;
        let r = make_get_request(self.bearer_auth.clone(), url, query_text);
        proof {
            assert(r@.url =~= "https://api.paystack.co/paymentrequest/verify/"@ + id_or_code@ + "?"@);
        }
        r
    }

    /// Builds the request that notifies the customer of an invoice.
    pub fn send_notification(&self, id_or_code: &str) -> (r: HttpRequest)
        ensures
            r@ == body_request(
                Method::Post,
                self.bearer(),
                "https://api.paystack.co/paymentrequest/notify/"@ + id_or_code@,
                "null"@,
            ),
    {
        let mut url = String::from_str("https://api.paystack.co/paymentrequest/notify/");
        url.append(id_or_code);
        make_request(self.bearer_auth.clone(), url, Option::None, Method::Post)
    }

    /// Builds the request for the invoice metrics of the dashboard.
    pub fn invoice_total(&self) -> (r: HttpRequest)
        ensures
            r@ == body_request(
                Method::Post,
                self.bearer(),
                "https://api.paystack.co/paymentrequest/totals"@,
                "null"@,
            ),
    {
        let url = String::from_str("https://api.paystack.co/paymentrequest/totals");
        make_request(self.bearer_auth.clone(), url, Option::None, Method::Post)
    }

    /// Builds the request that finalizes a draft invoice.
    pub fn finalize_invoice(&self, id_or_code: &str) -> (r: HttpRequest)
        ensures
            r@ == body_request(
                Method::Post,
                self.bearer(),
                "https://api.paystack.co/paymentrequest/finalize/"@ + id_or_code@,
                "null"@,
            ),
    {
        let mut url = String::from_str("https://api.paystack.co/paymentrequest/finalize/");
        url.append(id_or_code);
        make_request(self.bearer_auth.clone(), url, Option::None, Method::Post)
    }

    /// Builds the request that updates an invoice.
    pub fn update_invoice(&self, id_or_code: &str, body: UpdateInvoiceBody) -> (r: HttpRequest)
        requires
            body.wf(),
        ensures
            r@ == body_request(
                Method::Put,
                self.bearer(),
                "https://api.paystack.co/paymentrequest/"@ + id_or_code@,
                obj_ser(body.json_fields()),
            ),
    {
        let mut url = String::from_str("https://api.paystack.co/paymentrequest/");
        url.append(id_or_code);
        let serialized = body.to_json();
        make_request(self.bearer_auth.clone(), url, Option::Some(serialized), Method::Put)
    }

    /// Builds the request that archives an invoice.
    pub fn archive_invoice(&self, id_or_code: &str) -> (r: HttpRequest)
        ensures
            r@ == body_request(
                Method::Post,
                self.bearer(),
                "https://api.paystack.co/paymentrequest/"@ + id_or_code@,
                "null"@,
            ),
    {
        let mut url = String::from_str("https://api.paystack.co/paymentrequest/");
        url.append(id_or_code);
        make_request(self.bearer_auth.clone(), url, Option::None, Method::Post)
    }
}

} // verus!
