//! The Transactions API: creating and managing payments.

use vstd::prelude::*;
use crate::datetime::{UtcDateTime, opt_date_pair};
use crate::json::{
    Json, JsonObj, jopt_arr_str, jopt_int, jopt_i64, jopt_json, jopt_str, jstr, obj_ser,
    push_jstr, render_arr_str,
};
use crate::request::{
    HttpRequest, Method, body_request, get_request, make_get_request, make_request,
};
use crate::text::{dec_int, push_char, push_i128};
use crate::urlenc::{QueryString, opt_bool_pair, opt_i64_pair, opt_int_pair, opt_str_pair,
    pairs_text};

verus! {

/// A client for creating and managing payments.
#[derive(Debug, Default)]
pub struct Transaction {
    pub(crate) bearer_auth: String,
}

impl Transaction {
    /// The bearer authorization text this resource sends.
    pub closed spec fn bearer(self) -> Seq<char> {
        self.bearer_auth@
    }

    /// Binds the resource client to the authorization header it sends.
    pub fn with_auth(bearer_auth: String) -> (r: Transaction)
        ensures
            r.bearer() == bearer_auth@,
    {
        Transaction { bearer_auth }
    }
}

/// A settlement currency of the remote API.
#[derive(Debug, Clone, Copy)]
pub enum Currency {
    NGN,
    GHS,
    USD,
    ZAR,
}

impl Currency {
    /// The wire token of the currency.
    pub open spec fn spec_code(self) -> Seq<char> {
        match self {
            Currency::NGN => "NGN"@,
            Currency::GHS => "GHS"@,
            Currency::USD => "USD"@,
            Currency::ZAR => "ZAR"@,
        }
    }

    /// Returns the wire token of the currency.
    pub fn code(&self) -> (r: &'static str)
        ensures
            r@ == self.spec_code(),
    {
        match self {
            Currency::NGN => "NGN",
            Currency::GHS => "GHS",
            Currency::USD => "USD",
            Currency::ZAR => "ZAR",
        }
    }
}

impl Default for Currency {
    /// The integration's default currency.
    fn default() -> (r: Self)
        ensures
            r == Currency::NGN,
    {
        Currency::NGN
    }
}

/// The value text of an optional currency field inside a JSON body.
pub open spec fn jopt_currency(o: Option<Currency>) -> Seq<char> {
    match o {
        Option::Some(c) => jstr(c.spec_code()),
        Option::None => "null"@,
    }
}

/// The query pair contributed by an optional currency parameter.
pub open spec fn opt_currency_pair(k: Seq<char>, o: Option<Currency>) -> Seq<
    (Seq<char>, Seq<char>),
> {
    match o {
        Option::Some(c) => seq![(k, c.spec_code())],
        Option::None => Seq::empty(),
    }
}

/// A transaction status filter.
#[derive(Debug, Clone, Copy)]
pub enum Status {
    FAILED,
    SUCCESS,
    ABANDONED,
}

impl Status {
    /// The wire token of the status, in lower case.
    pub open spec fn spec_code(self) -> Seq<char> {
        match self {
            Status::FAILED => "failed"@,
            Status::SUCCESS => "success"@,
            Status::ABANDONED => "abandoned"@,
        }
    }

    /// Returns the wire token of the status.
    pub fn code(&self) -> (r: &'static str)
        ensures
            r@ == self.spec_code(),
    {
        match self {
            Status::FAILED => "failed",
            Status::SUCCESS => "success",
            Status::ABANDONED => "abandoned",
        }
    }
}

/// The query pair contributed by an optional status parameter.
pub open spec fn opt_status_pair(k: Seq<char>, o: Option<Status>) -> Seq<(Seq<char>, Seq<char>)> {
    match o {
        Option::Some(s) => seq![(k, s.spec_code())],
        Option::None => Seq::empty(),
    }
}

/// Who bears the remote gateway's charges.
#[derive(Debug, Clone, Copy)]
pub enum ChargesBearer {
    Account,
    Subaccount,
}

impl ChargesBearer {
    /// The wire token of the bearer, in lower case.
    pub open spec fn spec_code(self) -> Seq<char> {
        match self {
            ChargesBearer::Account => "account"@,
            ChargesBearer::Subaccount => "subaccount"@,
        }
    }

    /// Returns the wire token of the bearer.
    pub fn code(&self) -> (r: &'static str)
        ensures
            r@ == self.spec_code(),
    {
        match self {
            ChargesBearer::Account => "account",
            ChargesBearer::Subaccount => "subaccount",
        }
    }
}

impl Default for ChargesBearer {
    /// Charges fall on the main account unless said otherwise.
    fn default() -> (r: Self)
        ensures
            r == ChargesBearer::Account,
    {
        ChargesBearer::Account
    }
}

/// The value text of an optional charges-bearer field inside a JSON body.
pub open spec fn jopt_bearer(o: Option<ChargesBearer>) -> Seq<char> {
    match o {
        Option::Some(b) => jstr(b.spec_code()),
        Option::None => "null"@,
    }
}

/// A payment channel offered to the paying customer.
#[derive(Debug, Clone, Copy)]
pub enum Channels {
    Card,
    Bank,
    Ussd,
    Qr,
    MobileMoney,
    BankTransfer,
}

impl Channels {
    /// The wire token of the channel, in snake case.
    pub open spec fn spec_code(self) -> Seq<char> {
        match self {
            Channels::Card => "card"@,
            Channels::Bank => "bank"@,
            Channels::Ussd => "ussd"@,
            Channels::Qr => "qr"@,
            Channels::MobileMoney => "mobile_money"@,
            Channels::BankTransfer => "bank_transfer"@,
        }
    }

    /// Returns the wire token of the channel.
    pub fn code(&self) -> (r: &'static str)
        ensures
            r@ == self.spec_code(),
    {
        match self {
            Channels::Card => "card",
            Channels::Bank => "bank",
            Channels::Ussd => "ussd",
            Channels::Qr => "qr",
            Channels::MobileMoney => "mobile_money",
            Channels::BankTransfer => "bank_transfer",
        }
    }
}

/// The comma-separated channel tokens of a channel list.
pub open spec fn channel_items(s: Seq<Channels>) -> Seq<char>
    decreases s.len(),
{
    if s.len() == 0 {
        Seq::empty()
    } else if s.len() == 1 {
        jstr(s[0].spec_code())
    } else {
        jstr(s[0].spec_code()) + seq![','] + channel_items(s.drop_first())
    }
}

/// A serialized JSON array of channel tokens.
pub open spec fn jarr_channels(s: Seq<Channels>) -> Seq<char> {
    seq!['['] + channel_items(s) + seq![']']
}

/// The value text of an optional channel-list field inside a JSON body.
pub open spec fn jopt_channels(o: Option<Vec<Channels>>) -> Seq<char> {
    match o {
        Option::Some(v) => jarr_channels(v@),
        Option::None => "null"@,
    }
}

fn push_channel_items(out: &mut String, v: &Vec<Channels>, i: usize)
    requires
        i <= v@.len(),
    ensures
        final(out)@ == old(out)@ + channel_items(v@.skip(i as int)),
    decreases v@.len() - i,
{
    proof {
        assert(v@.skip(i as int).len() == v@.len() - i);
    }
    if i < v.len() {
        proof {
            assert(v@.skip(i as int)[0] == v@[i as int]);
            assert(v@.skip(i as int).drop_first() =~= v@.skip(i as int + 1));
        }
        let mut lit = String::new();
        push_jstr(&mut lit, v[i].code());
        out.append(lit.as_str());
        if i + 1 < v.len() {
            push_char(out, ',');
            push_channel_items(out, v, i + 1);
            proof {
                assert(final(out)@ =~= old(out)@ + channel_items(v@.skip(i as int)));
            }
        }
    }
}

fn render_channels(items: &Vec<Channels>) -> (r: String)
    ensures
        r@ == jarr_channels(items@),
{
    let mut r = String::new();
    push_char(&mut r, '[');
    push_channel_items(&mut r, items, 0);
    push_char(&mut r, ']');
    proof {
        assert(items@.skip(0) =~= items@);
        assert(r@ =~= jarr_channels(items@));
    }
    r
}

/// The body of a request to initialize a transaction.
#[derive(Debug, Default)]
pub struct InitializeTransactionBody {
    /// Customer's email address.
    pub email: String,
    /// Amount in the currency's subunit (kobo, pesewas or cents).
    pub amount: i128,
    /// The transaction currency; the integration's default when absent.
    pub currency: Option<Currency>,
    /// Unique transaction reference.
    pub reference: Option<String>,
    /// Overrides the dashboard's callback URL for this transaction.
    pub callback_url: Option<String>,
    /// Plan code when the transaction creates a subscription.
    pub plan: Option<String>,
    /// Number of times to charge during a subscription.
    pub invoice_limit: Option<i64>,
    /// Stringified JSON object of custom data.
    pub metadata: Option<String>,
    /// The payment channels offered to the customer.
    pub channels: Option<Vec<Channels>>,
    /// The split code of the transaction split.
    pub split_code: Option<String>,
    /// The code of the subaccount that owns the payment.
    pub subaccount: Option<String>,
    /// A flat fee, in subunits, charged to the subaccount.
    pub transaction_charge: Option<i128>,
    /// Who bears the gateway's charges.
    pub bearer: Option<ChargesBearer>,
}

impl InitializeTransactionBody {
    /// The members of the serialized JSON body, in declaration order.
    pub open spec fn json_fields(self) -> Seq<(Seq<char>, Seq<char>)> {
        seq![
            ("email"@, jstr(self.email@)),
            ("amount"@, dec_int(self.amount as int)),
            ("currency"@, jopt_currency(self.currency)),
            ("reference"@, jopt_str(self.reference)),
            ("callback_url"@, jopt_str(self.callback_url)),
            ("plan"@, jopt_str(self.plan)),
            ("invoice_limit"@, jopt_i64(self.invoice_limit)),
            ("metadata"@, jopt_str(self.metadata)),
            ("channels"@, jopt_channels(self.channels)),
            ("split_code"@, jopt_str(self.split_code)),
            ("subaccount"@, jopt_str(self.subaccount)),
            ("transaction_charge"@, jopt_int(self.transaction_charge)),
            ("bearer"@, jopt_bearer(self.bearer)),
        ]
    }

    /// Serializes the body to its JSON text.
    pub fn to_json(&self) -> (r: String)
        ensures
            r@ == obj_ser(self.json_fields()),
    {
        let mut o = JsonObj::new();
        o.field_str("email", self.email.as_str());
        o.field_int("amount", self.amount);
        match &self.currency {
            Option::Some(c) => o.field_str("currency", c.code()),
            Option::None => o.field_pre("currency", "null"),
        }
        o.field_opt_str("reference", &self.reference);
        o.field_opt_str("callback_url", &self.callback_url);
        o.field_opt_str("plan", &self.plan);
        o.field_opt_i64("invoice_limit", &self.invoice_limit);
        o.field_opt_str("metadata", &self.metadata);
        match &self.channels {
            Option::Some(v) => {
                let rendered = render_channels(v);
                o.field_pre("channels", rendered.as_str());
            },
            Option::None => o.field_pre("channels", "null"),
        }
        o.field_opt_str("split_code", &self.split_code);
        o.field_opt_str("subaccount", &self.subaccount);
        o.field_opt_int("transaction_charge", &self.transaction_charge);
        match &self.bearer {
            Option::Some(b) => o.field_str("bearer", b.code()),
            Option::None => o.field_pre("bearer", "null"),
        }
        proof {
            assert(o@ =~~= self.json_fields());
        }
        o.finish()
    }
}

/// The query parameters of a request to list transactions.
#[derive(Debug, Default)]
pub struct ListTransactionsParams {
    /// Records per page; the remote default is 50.
    pub per_page: Option<i64>,
    /// Page to retrieve; the remote default is 1.
    pub page: Option<i64>,
    /// Filter by customer ID.
    pub customer: Option<i64>,
    /// Filter by transaction status.
    pub status: Option<Status>,
    /// List transactions from this timestamp on.
    pub from: Option<UtcDateTime>,
    /// List transactions up to this timestamp.
    pub to: Option<UtcDateTime>,
    /// Filter by amount, in the currency's subunit.
    pub amount: Option<i128>,
}

impl ListTransactionsParams {
    /// Every timestamp present lies in its calendar range.
    pub open spec fn wf(self) -> bool {
        &&& match self.from {
            Option::Some(d) => d.wf(),
            Option::None => true,
        }
        &&& match self.to {
            Option::Some(d) => d.wf(),
            Option::None => true,
        }
    }

    /// The key/value pairs of the query string, in declaration order;
    /// absent parameters contribute nothing. The remote API reads the
    /// paging keys in camel case.
    pub open spec fn query_pairs(self) -> Seq<(Seq<char>, Seq<char>)> {
        opt_i64_pair("perPage"@, self.per_page) + opt_i64_pair("page"@, self.page) + opt_i64_pair(
            "customer"@,
            self.customer,
        ) + opt_status_pair("status"@, self.status) + opt_date_pair("from"@, self.from)
            + opt_date_pair("to"@, self.to) + opt_int_pair("amount"@, self.amount)
    }

    /// Encodes the parameters as a query string.
    #[verifier::rlimit(100)]
    pub fn to_query(&self) -> (r: String)
        requires
            self.wf(),
        ensures
            r@ == pairs_text(self.query_pairs()),
    {
        let mut q = QueryString::new();
        match &self.per_page {
            Option::Some(v) => q.pair_int("perPage", *v as i128),
            Option::None => (),
        }
        match &self.page {
            Option::Some(v) => q.pair_int("page", *v as i128),
            Option::None => (),
        }
        match &self.customer {
            Option::Some(v) => q.pair_int("customer", *v as i128),
            Option::None => (),
        }
        match &self.status {
            Option::Some(s) => q.pair_pre("status", s.code()),
            Option::None => (),
        }
        match &self.from {
            Option::Some(d) => {
                let t = d.to_rfc3339();
                q.pair_str("from", t.as_str());
            },
            Option::None => (),
        }
        match &self.to {
            Option::Some(d) => {
                let t = d.to_rfc3339();
                q.pair_str("to", t.as_str());
            },
            Option::None => (),
        }
        match &self.amount {
            Option::Some(v) => q.pair_int("amount", *v),
            Option::None => (),
        }
        proof {
            assert(q@ =~~= self.query_pairs());
        }
        q.finish()
    }
}

/// The body of a request to charge a reusable authorization.
#[derive(Debug, Default)]
pub struct ChargeAuthorizationBody {
    /// Amount in the currency's subunit, as text.
    pub amount: String,
    /// Customer's email address.
    pub email: String,
    /// Valid authorization code to charge.
    pub authorization_code: String,
    /// Unique transaction reference.
    pub reference: Option<String>,
    /// Currency in which the amount should be charged.
    pub currency: Option<Currency>,
    /// Free-form JSON attached to the transaction.
    pub metadata: Option<Json>,
    /// Channel names shown to the paying user.
    pub channels: Option<Vec<String>>,
    /// The code of the subaccount that owns the payment.
    pub subaccount: Option<String>,
    /// A flat fee, in subunits, charged to the subaccount.
    pub transaction_charge: Option<i128>,
    /// Who bears the gateway's charges.
    pub bearer: Option<ChargesBearer>,
    /// Queues the charge when set, for scheduled bulk charging.
    pub queue: Option<bool>,
}

impl ChargeAuthorizationBody {
    /// The members of the serialized JSON body, in declaration order.
    pub open spec fn json_fields(self) -> Seq<(Seq<char>, Seq<char>)> {
        seq![
            ("amount"@, jstr(self.amount@)),
            ("email"@, jstr(self.email@)),
            ("authorization_code"@, jstr(self.authorization_code@)),
            ("reference"@, jopt_str(self.reference)),
            ("currency"@, jopt_currency(self.currency)),
            ("metadata"@, jopt_json(self.metadata)),
            ("channels"@, jopt_arr_str(self.channels)),
            ("subaccount"@, jopt_str(self.subaccount)),
            ("transaction_charge"@, jopt_int(self.transaction_charge)),
            ("bearer"@, jopt_bearer(self.bearer)),
            ("queue"@, crate::json::jopt_bool(self.queue)),
        ]
    }

    /// Serializes the body to its JSON text.
    pub fn to_json(&self) -> (r: String)
        ensures
            r@ == obj_ser(self.json_fields()),
    {
        let mut o = JsonObj::new();
        o.field_str("amount", self.amount.as_str());
        o.field_str("email", self.email.as_str());
        o.field_str("authorization_code", self.authorization_code.as_str());
        o.field_opt_str("reference", &self.reference);
        match &self.currency {
            Option::Some(c) => o.field_str("currency", c.code()),
            Option::None => o.field_pre("currency", "null"),
        }
        o.field_opt_json("metadata", &self.metadata);
        match &self.channels {
            Option::Some(v) => {
                let rendered = render_arr_str(v);
                o.field_pre("channels", rendered.as_str());
            },
            Option::None => o.field_pre("channels", "null"),
        }
        o.field_opt_str("subaccount", &self.subaccount);
        o.field_opt_int("transaction_charge", &self.transaction_charge);
        match &self.bearer {
            Option::Some(b) => o.field_str("bearer", b.code()),
            Option::None => o.field_pre("bearer", "null"),
        }
        o.field_opt_bool("queue", &self.queue);
        proof {
            assert(o@ =~~= self.json_fields());
        }
        o.finish()
    }
}

/// The query parameters of a request for transaction totals.
#[derive(Debug, Default)]
pub struct TransactionsTotal {
    /// Records per page; the remote default is 50.
    pub per_page: Option<i64>,
    /// Page to retrieve; the remote default is 1.
    pub page: Option<i64>,
    /// Filter by customer ID.
    pub customer: Option<i64>,
    /// Filter by transaction status.
    pub status: Option<Status>,
    /// Count transactions from this timestamp on.
    pub from: Option<UtcDateTime>,
    /// Count transactions up to this timestamp.
    pub to: Option<UtcDateTime>,
}

impl TransactionsTotal {
    /// Every timestamp present lies in its calendar range.
    pub open spec fn wf(self) -> bool {
        &&& match self.from {
            Option::Some(d) => d.wf(),
            Option::None => true,
        }
        &&& match self.to {
            Option::Some(d) => d.wf(),
            Option::None => true,
        }
    }

    /// The key/value pairs of the query string, in declaration order.
    pub open spec fn query_pairs(self) -> Seq<(Seq<char>, Seq<char>)> {
        opt_i64_pair("perPage"@, self.per_page) + opt_i64_pair("page"@, self.page) + opt_i64_pair(
            "customer"@,
            self.customer,
        ) + opt_status_pair("status"@, self.status) + opt_date_pair("from"@, self.from)
            + opt_date_pair("to"@, self.to)
    }

    /// Encodes the parameters as a query string.
    #[verifier::rlimit(100)]
    pub fn to_query(&self) -> (r: String)
        requires
            self.wf(),
        ensures
            r@ == pairs_text(self.query_pairs()),
    {
        let mut q = QueryString::new();
        match &self.per_page {
            Option::Some(v) => q.pair_int("perPage", *v as i128),
            Option::None => (),
        }
        match &self.page {
            Option::Some(v) => q.pair_int("page", *v as i128),
            Option::None => (),
        }
        match &self.customer {
            Option::Some(v) => q.pair_int("customer", *v as i128),
            Option::None => (),
        }
        match &self.status {
            Option::Some(s) => q.pair_pre("status", s.code()),
            Option::None => (),
        }
        match &self.from {
            Option::Some(d) => {
                let t = d.to_rfc3339();
                q.pair_str("from", t.as_str());
            },
            Option::None => (),
        }
        match &self.to {
            Option::Some(d) => {
                let t = d.to_rfc3339();
                q.pair_str("to", t.as_str());
            },
            Option::None => (),
        }
        proof {
            assert(q@ =~~= self.query_pairs());
        }
        q.finish()
    }
}

/// The body of a request to check an authorization's funds.
#[derive(Debug, Default)]
pub struct CheckAuthorizationBody {
    /// Amount in the currency's subunit, as text.
    pub amount: String,
    /// Customer's email address.
    pub email: String,
    /// Valid authorization code to check.
    pub authorization_code: String,
    /// Currency in which the amount would be charged.
    pub currency: Option<Currency>,
}

impl CheckAuthorizationBody {
    /// The members of the serialized JSON body, in declaration order.
    pub open spec fn json_fields(self) -> Seq<(Seq<char>, Seq<char>)> {
        seq![
            ("amount"@, jstr(self.amount@)),
            ("email"@, jstr(self.email@)),
            ("authorization_code"@, jstr(self.authorization_code@)),
            ("currency"@, jopt_currency(self.currency)),
        ]
    }

    /// Serializes the body to its JSON text.
    pub fn to_json(&self) -> (r: String)
        ensures
            r@ == obj_ser(self.json_fields()),
    {
        let mut o = JsonObj::new();
        o.field_str("amount", self.amount.as_str());
        o.field_str("email", self.email.as_str());
        o.field_str("authorization_code", self.authorization_code.as_str());
        match &self.currency {
            Option::Some(c) => o.field_str("currency", c.code()),
            Option::None => o.field_pre("currency", "null"),
        }
        proof {
            assert(o@ =~~= self.json_fields());
        }
        o.finish()
    }
}

/// The body of a request to debit part of a payment.
#[derive(Debug, Default)]
pub struct PartialDebitBody {
    /// Amount in the currency's subunit, as text.
    pub amount: String,
    /// Customer's email address attached to the authorization code.
    pub email: String,
    /// Authorization code to debit.
    pub authorization_code: String,
    /// The currency to debit in.
    pub currency: Currency,
    /// Unique transaction reference.
    pub reference: Option<String>,
    /// Minimum amount to charge, as text.
    pub at_least: Option<String>,
}

impl PartialDebitBody {
    /// The members of the serialized JSON body, in declaration order.
    pub open spec fn json_fields(self) -> Seq<(Seq<char>, Seq<char>)> {
        seq![
            ("amount"@, jstr(self.amount@)),
            ("email"@, jstr(self.email@)),
            ("authorization_code"@, jstr(self.authorization_code@)),
            ("currency"@, jstr(self.currency.spec_code())),
            ("reference"@, jopt_str(self.reference)),
            ("at_least"@, jopt_str(self.at_least)),
        ]
    }

    /// Serializes the body to its JSON text.
    pub fn to_json(&self) -> (r: String)
        ensures
            r@ == obj_ser(self.json_fields()),
    {
        let mut o = JsonObj::new();
        o.field_str("amount", self.amount.as_str());
        o.field_str("email", self.email.as_str());
        o.field_str("authorization_code", self.authorization_code.as_str());
        o.field_str("currency", self.currency.code());
        o.field_opt_str("reference", &self.reference);
        o.field_opt_str("at_least", &self.at_least);
        proof {
            assert(o@ =~~= self.json_fields());
        }
        o.finish()
    }
}

/// The query parameters of a request to export transactions.
#[derive(Debug, Default)]
pub struct ExportTransactionsBody {
    /// Records per page; the remote default is 50.
    pub per_page: Option<i64>,
    /// Page to retrieve; the remote default is 1.
    pub page: Option<i64>,
    /// Export transactions from this timestamp on.
    pub from: Option<UtcDateTime>,
    /// Export transactions up to this timestamp.
    pub to: Option<UtcDateTime>,
    /// Filter by customer ID.
    pub customer: Option<i64>,
    /// Filter by transaction status.
    pub status: Option<Status>,
    /// The transaction currency to export.
    pub currency: Option<Currency>,
    /// Filter by amount, as text.
    pub amount: Option<String>,
    /// Export only settled (or only pending) transactions.
    pub settled: Option<bool>,
    /// Export only this settlement's transactions.
    pub settlement: Option<i64>,
    /// Export only this payment page's transactions.
    pub payment_page: Option<i64>,
}

impl ExportTransactionsBody {
    /// Every timestamp present lies in its calendar range.
    pub open spec fn wf(self) -> bool {
        &&& match self.from {
            Option::Some(d) => d.wf(),
            Option::None => true,
        }
        &&& match self.to {
            Option::Some(d) => d.wf(),
            Option::None => true,
        }
    }

    /// The key/value pairs of the query string, in declaration order;
    /// absent parameters contribute nothing, and only the paging key is
    /// read in camel case.
    pub open spec fn query_pairs(self) -> Seq<(Seq<char>, Seq<char>)> {
        self.query_pairs_head() + self.query_pairs_tail()
    }

    /// The first half of the query pairs: paging and time filters.
    pub open spec fn query_pairs_head(self) -> Seq<(Seq<char>, Seq<char>)> {
        opt_i64_pair("perPage"@, self.per_page) + opt_i64_pair("page"@, self.page) + opt_date_pair(
            "from"@,
            self.from,
        ) + opt_date_pair("to"@, self.to) + opt_i64_pair("customer"@, self.customer)
            + opt_status_pair("status"@, self.status)
    }

    /// The second half of the query pairs: value and settlement filters.
    pub open spec fn query_pairs_tail(self) -> Seq<(Seq<char>, Seq<char>)> {
        opt_currency_pair("currency"@, self.currency) + opt_str_pair("amount"@, self.amount)
            + opt_bool_pair("settled"@, self.settled) + opt_i64_pair(
            "settlement"@,
            self.settlement,
        ) + opt_i64_pair("payment_page"@, self.payment_page)
    }

    #[verifier::rlimit(100)]
    fn append_head(&self, q: &mut QueryString)
        requires
            old(q).wf(),
            self.wf(),
        ensures
            final(q).wf(),
            final(q)@ == old(q)@ + self.query_pairs_head(),
    {
        match &self.per_page {
            Option::Some(v) => q.pair_int("perPage", *v as i128),
            Option::None => (),
        }
        match &self.page {
            Option::Some(v) => q.pair_int("page", *v as i128),
            Option::None => (),
        }
        match &self.from {
            Option::Some(d) => {
                let t = d.to_rfc3339();
                q.pair_str("from", t.as_str());
            },
            Option::None => (),
        }
        match &self.to {
            Option::Some(d) => {
                let t = d.to_rfc3339();
                q.pair_str("to", t.as_str());
            },
            Option::None => (),
        }
        match &self.customer {
            Option::Some(v) => q.pair_int("customer", *v as i128),
            Option::None => (),
        }
        match &self.status {
            Option::Some(s) => q.pair_pre("status", s.code()),
            Option::None => (),
        }
        proof {
            assert(final(q)@ =~~= old(q)@ + self.query_pairs_head());
        }
    }

    #[verifier::rlimit(100)]
    fn append_tail(&self, q: &mut QueryString)
        requires
            old(q).wf(),
        ensures
            final(q).wf(),
            final(q)@ == old(q)@ + self.query_pairs_tail(),
    {
        match &self.currency {
            Option::Some(c) => q.pair_pre("currency", c.code()),
            Option::None => (),
        }
        match &self.amount {
            Option::Some(s) => q.pair_str("amount", s.as_str()),
            Option::None => (),
        }
        match &self.settled {
            Option::Some(b) => q.pair_bool("settled", *b),
            Option::None => (),
        }
        match &self.settlement {
            Option::Some(v) => q.pair_int("settlement", *v as i128),
            Option::None => (),
        }
        match &self.payment_page {
            Option::Some(v) => q.pair_int("payment_page", *v as i128),
            Option::None => (),
        }
        proof {
            assert(final(q)@ =~~= old(q)@ + self.query_pairs_tail());
        }
    }

    /// Encodes the parameters as a query string.
    pub fn to_query(&self) -> (r: String)
        requires
            self.wf(),
        ensures
            r@ == pairs_text(self.query_pairs()),
    {
        let mut q = QueryString::new();
        self.append_head(&mut q);
        self.append_tail(&mut q);
        proof {
            assert(Seq::<(Seq<char>, Seq<char>)>::empty() + self.query_pairs_head()
                =~= self.query_pairs_head());
        }
        q.finish()
    }
}

impl Transaction {
    /// Builds the request that initializes a transaction.
    pub fn initialize_transaction(&self, body: InitializeTransactionBody) -> (r: HttpRequest)
        ensures
            r@ == body_request(
                Method::Post,
                self.bearer(),
                "https://api.paystack.co/transaction/initialize"@,
                obj_ser(body.json_fields()),
            ),
    {
        let serialized = body.to_json();
        make_request(
            self.bearer_auth.clone(),
            String::from_str("https://api.paystack.co/transaction/initialize"),
            Option::Some(serialized),
            Method::Post,
        )
    }

    /// Builds the request that verifies a transaction by its reference.
    pub fn verify_transaction(&self, reference: String) -> (r: HttpRequest)
        ensures
            r@ == get_request(
                self.bearer(),
                "https://api.paystack.co/transaction/verify/"@ + reference@ + "?"@,
            ),
    {
        let mut full_url = String::from_str("https://api.paystack.co/transaction/verify/");
        full_url.append(reference.as_str());
        let r = make_get_request(self.bearer_auth.clone(), full_url, Option::None);
        proof {
            assert(r@.url =~= "https://api.paystack.co/transaction/verify/"@ + reference@
                + "?"@);
        }
        r
    }

    /// Builds the request that lists transactions.
    pub fn list_transactions(&self, body: ListTransactionsParams) -> (r: HttpRequest)
        requires
            body.wf(),
        ensures
            r@ == get_request(
                self.bearer(),
                "https://api.paystack.co/transaction"@ + "?"@ + pairs_text(body.query_pairs()),
            ),
    {
        let queries = body.to_query();
        make_get_request(
            self.bearer_auth.clone(),
            String::from_str("https://api.paystack.co/transaction"),
            Option::Some(queries),
        )
    }

    /// Builds the request that fetches one transaction by ID.
    pub fn fetch_transaction(&self, transaction_id: i64) -> (r: HttpRequest)
        ensures
            r@ == get_request(
                self.bearer(),
                "https://api.paystack.co/transaction/"@ + dec_int(transaction_id as int) + "?"@,
            ),
    {
        let mut url = String::from_str("https://api.paystack.co/transaction/");
        push_i128(&mut url, transaction_id as i128);
        let r = make_get_request(self.bearer_auth.clone(), url, Option::None);
        proof {
            assert(r@.url =~= "https://api.paystack.co/transaction/"@ + dec_int(
                transaction_id as int,
            ) + "?"@);
        }
        r
    }

    /// Builds the request that charges a reusable authorization.
    pub fn charge_authorization(&self, params: ChargeAuthorizationBody) -> (r: HttpRequest)
        ensures
            r@ == body_request(
                Method::Post,
                self.bearer(),
                "https://api.paystack.co/transaction/charge_authorization"@,
                obj_ser(params.json_fields()),
            ),
    {
        let serialized = params.to_json();
        make_request(
            self.bearer_auth.clone(),
            String::from_str("https://api.paystack.co/transaction/charge_authorization"),
            Option::Some(serialized),
            Method::Post,
        )
    }

    /// Builds the request that checks an authorization for funds.
    pub fn check_authorization(&self, param: CheckAuthorizationBody) -> (r: HttpRequest)
        ensures
            r@ == body_request(
                Method::Post,
                self.bearer(),
                "https://api.paystack.co/transaction/charge_authorization"@,
                obj_ser(param.json_fields()),
            ),
    {
        let serialized = param.to_json();
        make_request(
            self.bearer_auth.clone(),
            String::from_str("https://api.paystack.co/transaction/charge_authorization"),
            Option::Some(serialized),
            Method::Post,
        )
    }

    /// Builds the request that views a transaction's timeline.
    pub fn view_transaction_timeline(&self, id: String) -> (r: HttpRequest)
        ensures
            r@ == get_request(
                self.bearer(),
                "https://api.paystack.co/transaction/timeline/"@ + id@ + "?"@,
            ),
    {
        let mut full_url = String::from_str("https://api.paystack.co/transaction/timeline/");
        full_url.append(id.as_str());
        let r = make_get_request(self.bearer_auth.clone(), full_url, Option::None);
        proof {
            assert(r@.url =~= "https://api.paystack.co/transaction/timeline/"@ + id@ + "?"@);
        }
        r
    }

    /// Builds the request for the total amount received.
    pub fn transactions_total(&self, params: Option<TransactionsTotal>) -> (r: HttpRequest)
        requires
            match params {
                Option::Some(p) => p.wf(),
                Option::None => true,
            },
        ensures
            r@ == get_request(
                self.bearer(),
                "https://api.paystack.co/transaction/totals"@ + "?"@ + match params {
                    Option::Some(p) => pairs_text(p.query_pairs()),
                    Option::None => Seq::empty(),
                },
            ),
    {
        let queries = match &params {
            Option::Some(p) => Option::Some(p.to_query()),
            Option::None => Option::None,
        };
        make_get_request(
            self.bearer_auth.clone(),
            String::from_str("https://api.paystack.co/transaction/totals"),
            queries,
        )
    }

    /// Builds the request that exports transactions.
    pub fn export_transactions(&self, params: Option<ExportTransactionsBody>) -> (r: HttpRequest)
        requires
            match params {
                Option::Some(p) => p.wf(),
                Option::None => true,
            },
        ensures
            r@ == get_request(
                self.bearer(),
                "https://api.paystack.co/transaction/export"@ + "?"@ + match params {
                    Option::Some(p) => pairs_text(p.query_pairs()),
                    Option::None => Seq::empty(),
                },
            ),
    {
        let queries = match &params {
            Option::Some(p) => Option::Some(p.to_query()),
            Option::None => Option::None,
        };
        make_get_request(
            self.bearer_auth.clone(),
            String::from_str("https://api.paystack.co/transaction/export"),
            queries,
        )
    }

    /// Builds the request that debits part of a payment.
    pub fn partial_debit(&self, body: PartialDebitBody) -> (r: HttpRequest)
        ensures
            r@ == body_request(
                Method::Post,
                self.bearer(),
                "https://api.paystack.co/transaction/partial_debit"@,
                obj_ser(body.json_fields()),
            ),
    {
        let serialized = body.to_json();
        make_request(
            self.bearer_auth.clone(),
            String::from_str("https://api.paystack.co/transaction/partial_debit"),
            Option::Some(serialized),
            Method::Post,
        )
    }
}

} // verus!
