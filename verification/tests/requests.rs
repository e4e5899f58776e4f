//! The built requests: method, URL, authorization, headers and body of
//! a sample of endpoints across the resource families, plus the
//! status-code classification.

use paystack_rs::datetime::UtcDateTime;
use paystack_rs::decimal::Decimal;
use paystack_rs::json::Json;
use paystack_rs::paystack::control_panel::UpdatePaymentSessionTimeoutBody;
use paystack_rs::paystack::customers::{Customer, RiskAction, WhitelistOrBlacklistCustomerBody};
use paystack_rs::paystack::bulk_charges::{BulkChargesStatus, FetchChargesInABatchParams};
use paystack_rs::paystack::charge::SubmitBirthdayBody;
use paystack_rs::paystack::invoices::CreateInvoiceBody;
use paystack_rs::paystack::payment_pages::AddProductsBody;
use paystack_rs::paystack::plans::{CreatePlan, Interval};
use paystack_rs::paystack::refund::ListRefundsParams;
use paystack_rs::paystack::subaccounts::CreateSubaccountBody;
use paystack_rs::paystack::transactions::{
    ChargeAuthorizationBody, Channels, Currency, InitializeTransactionBody,
    ListTransactionsParams, PartialDebitBody, Status,
};
use paystack_rs::paystack::transactions_split::{
    BearerType, CreateSplitPaymentBody, SubaccountsBody, TxType,
};
use paystack_rs::paystack::Paystack;
use paystack_rs::request::{classify_body_status, classify_get_status, Method};

fn client() -> Paystack {
    Paystack::new("sk_test_key".to_string())
}

#[test]
fn initialize_transaction_builds_a_json_post() {
    let body = InitializeTransactionBody {
        email: "randomemail@gmail.com".to_string(),
        amount: 10000,
        ..Default::default()
    };
    let r = client().transaction.initialize_transaction(body);
    assert_eq!(r.method, Method::Post);
    assert_eq!(r.url, "https://api.paystack.co/transaction/initialize");
    assert_eq!(r.bearer_auth, "Bearer sk_test_key");
    assert!(r.content_type_json);
    assert_eq!(
        r.body.unwrap(),
        "{\"email\":\"randomemail@gmail.com\",\"amount\":10000,\"currency\":null,\
         \"reference\":null,\"callback_url\":null,\"plan\":null,\"invoice_limit\":null,\
         \"metadata\":null,\"channels\":null,\"split_code\":null,\"subaccount\":null,\
         \"transaction_charge\":null,\"bearer\":null}"
    );
}

#[test]
fn initialize_transaction_renders_channels_and_currency() {
    let body = InitializeTransactionBody {
        email: "a@b.co".to_string(),
        amount: 1,
        currency: Some(Currency::GHS),
        channels: Some(vec![Channels::Card, Channels::BankTransfer]),
        ..Default::default()
    };
    let r = client().transaction.initialize_transaction(body);
    let body_text = r.body.unwrap();
    assert!(body_text.contains("\"currency\":\"GHS\""));
    assert!(body_text.contains("\"channels\":[\"card\",\"bank_transfer\"]"));
}

#[test]
fn verify_transaction_puts_the_reference_in_the_path() {
    let r = client().transaction.verify_transaction("DG4uishudoq90LD".to_string());
    assert_eq!(r.method, Method::Get);
    assert_eq!(r.url, "https://api.paystack.co/transaction/verify/DG4uishudoq90LD?");
    assert!(!r.content_type_json);
    assert!(r.body.is_none());
}

#[test]
fn list_transactions_encodes_present_filters_only() {
    let params = ListTransactionsParams {
        per_page: Some(50),
        status: Some(Status::ABANDONED),
        from: Some(UtcDateTime { year: 2016, month: 9, day: 24, hour: 0, minute: 0, second: 5 }),
        ..Default::default()
    };
    let r = client().transaction.list_transactions(params);
    assert_eq!(
        r.url,
        "https://api.paystack.co/transaction?perPage=50&status=abandoned&from=2016-09-24T00%3A00%3A05Z"
    );
}

#[test]
fn fetch_transaction_puts_the_id_in_the_path() {
    let r = client().transaction.fetch_transaction(123412);
    assert_eq!(r.url, "https://api.paystack.co/transaction/123412?");
}

#[test]
fn transactions_total_without_params_sends_a_bare_query() {
    let r = client().transaction.transactions_total(None);
    assert_eq!(r.url, "https://api.paystack.co/transaction/totals?");
}

#[test]
fn partial_debit_always_names_its_currency() {
    let body = PartialDebitBody {
        amount: "5000".to_string(),
        email: "randomemail@gmail.com".to_string(),
        authorization_code: "2aeserqwdEAW".to_string(),
        ..Default::default()
    };
    let r = client().transaction.partial_debit(body);
    assert_eq!(r.url, "https://api.paystack.co/transaction/partial_debit");
    assert!(r.body.unwrap().contains("\"currency\":\"NGN\""));
}

#[test]
fn charge_authorization_carries_free_form_metadata() {
    let body = ChargeAuthorizationBody {
        amount: "5000".to_string(),
        email: "a@b.co".to_string(),
        authorization_code: "AUTH_x".to_string(),
        metadata: Some(Json::Obj(vec![("cart_id".to_string(), Json::Int(8393))])),
        channels: Some(vec!["card".to_string(), "bank".to_string()]),
        queue: Some(true),
        ..Default::default()
    };
    let r = client().transaction.charge_authorization(body);
    let body_text = r.body.unwrap();
    assert!(body_text.contains("\"metadata\":{\"cart_id\":8393}"));
    assert!(body_text.contains("\"channels\":[\"card\",\"bank\"]"));
    assert!(body_text.contains("\"queue\":true"));
    let parsed: serde_json::Value = serde_json::from_str(&body_text).unwrap();
    assert_eq!(parsed["metadata"]["cart_id"], serde_json::Value::from(8393));
}

#[test]
fn every_resource_shares_the_bearer_header() {
    let p = client();
    assert_eq!(p.refund.fetch_refund("r1").bearer_auth, "Bearer sk_test_key");
    assert_eq!(p.miscellaneous.list_or_search_countries().bearer_auth, "Bearer sk_test_key");
    assert_eq!(p.control_panel.fetch_payment_session_timeout().bearer_auth, "Bearer sk_test_key");
}

#[test]
fn whitelist_customer_uses_bare_variant_tokens() {
    let body = WhitelistOrBlacklistCustomerBody {
        customer: "CUS_1".to_string(),
        risk_action: Some(RiskAction::Deny),
    };
    let customers = Customer::with_auth("Bearer sk_test_key".to_string());
    let r = customers.whitelist_or_blacklist_customer(body);
    assert_eq!(r.url, "https://api.paystack.co/customer/set_risk_action");
    assert_eq!(r.body.unwrap(), "{\"customer\":\"CUS_1\",\"risk_action\":\"Deny\"}");
}

#[test]
fn create_subaccount_renders_its_percentage() {
    let body = CreateSubaccountBody {
        business_name: "Ada Stores".to_string(),
        settlement_bank: "044".to_string(),
        account_number: "0123456789".to_string(),
        percentage_charge: Decimal { mantissa: 182, scale: 1 },
        description: "retail".to_string(),
        primary_contact_email: None,
        primary_contact_name: None,
        primary_contact_phone: None,
        metadata: None,
    };
    let r = client().subaccounts.create_subaccount(body);
    assert!(r.body.unwrap().contains("\"percentage_charge\":18.2"));
}

#[test]
fn create_split_nests_its_subaccounts() {
    let body = CreateSplitPaymentBody {
        name: "Halves".to_string(),
        tx_type: TxType::Percentage,
        currency: Currency::NGN,
        subaccount: vec![
            SubaccountsBody { subaccount_code: "ACCT_a".to_string(), share: 60 },
            SubaccountsBody { subaccount_code: "ACCT_b".to_string(), share: 40 },
        ],
        bearer_type: BearerType::All,
        bearer_subaccount: "ACCT_a".to_string(),
    };
    let r = client().transaction_split.create_split(body);
    let body_text = r.body.unwrap();
    assert!(body_text.contains(
        "\"subaccount\":[{\"subaccount_code\":\"ACCT_a\",\"share\":60},\
         {\"subaccount_code\":\"ACCT_b\",\"share\":40}]"
    ));
    assert!(body_text.contains("\"bearer_type\":\"All\""));
}

#[test]
fn update_timeout_is_a_put_with_one_member() {
    let r = client().control_panel.update_payment_session_timeout(
        UpdatePaymentSessionTimeoutBody { timeout: 60 },
    );
    assert_eq!(r.method, Method::Put);
    assert_eq!(r.body.unwrap(), "{\"timeout\":60}");
}

#[test]
fn bodyless_posts_send_the_null_document() {
    let r = client().transfers_control.disable_transfers_otp();
    assert_eq!(r.method, Method::Post);
    assert_eq!(r.url, "https://api.paystack.co/balance/disable_otp");
    assert_eq!(r.body.unwrap(), "null");
}

#[test]
fn add_products_mixes_id_path_and_integer_array() {
    let r = client().payment_pages.add_products(12, AddProductsBody { product: vec![1, 2, 3] });
    assert_eq!(r.url, "https://api.paystack.co/page/12/product");
    assert_eq!(r.body.unwrap(), "{\"product\":[1,2,3]}");
}

#[test]
fn list_refunds_requires_and_encodes_all_four_filters() {
    let params = ListRefundsParams {
        per_page: Some(50),
        page: Some(1),
        from: Some(UtcDateTime { year: 2016, month: 9, day: 21, hour: 0, minute: 0, second: 0 }),
        to: Some(UtcDateTime { year: 2016, month: 9, day: 24, hour: 0, minute: 0, second: 5 }),
        reference: None,
        currency: None,
    };
    let r = client().refund.list_refunds(params);
    assert_eq!(
        r.url,
        "https://api.paystack.co/refund?perPage=50&page=1&from=2016-09-21T00%3A00%3A00Z&to=2016-09-24T00%3A00%3A05Z"
    );
}

#[test]
fn delete_uses_the_delete_method() {
    let r = client().transfer_recipients.delete_transfer_recipient("RCP_1");
    assert_eq!(r.method, Method::Delete);
    assert_eq!(r.url, "https://api.paystack.co/transferrecipient/RCP_1");
}

#[test]
fn get_statuses_classify_as_documented() {
    assert!(classify_get_status(200).is_ok());
    assert!(classify_get_status(404).is_ok());
    assert_eq!(classify_get_status(400).unwrap_err(), "Bad request. Please check the body");
    assert_eq!(
        classify_get_status(500).unwrap_err(),
        "An error occured on the paystack server: please try again"
    );
}

#[test]
fn body_statuses_classify_as_documented() {
    assert!(classify_body_status(200).is_ok());
    assert!(classify_body_status(500).is_ok());
    assert_eq!(
        classify_body_status(401).unwrap_err(),
        "Unauthorized request. please check header values"
    );
    assert_eq!(
        classify_body_status(400).unwrap_err(),
        "Bad request. Please check whatever you're passing in the request. Seems broken"
    );
}

#[test]
fn submit_birthday_renders_the_date_as_a_json_string() {
    let body = SubmitBirthdayBody {
        birthday: UtcDateTime { year: 1994, month: 7, day: 1, hour: 0, minute: 0, second: 0 },
        reference: "5bwib5v6anhe9xa".to_string(),
    };
    let r = client().charge.submit_birthday(body);
    assert_eq!(
        r.body.unwrap(),
        "{\"birthday\":\"1994-07-01T00:00:00Z\",\"reference\":\"5bwib5v6anhe9xa\"}"
    );
}

#[test]
fn create_invoice_renders_dates_and_line_items() {
    let body = CreateInvoiceBody {
        customer: "CUS_1".to_string(),
        amount: 42000,
        due_date: UtcDateTime { year: 2020, month: 12, day: 31, hour: 12, minute: 0, second: 0 },
        description: None,
        line_items: Some(vec![Json::Obj(vec![
            ("name".to_string(), Json::Str("item 1".to_string())),
            ("amount".to_string(), Json::Int(2000)),
        ])]),
        tax: None,
        currency: None,
        send_notification: Some(true),
        draft: None,
        has_invoice: None,
        invoice_number: None,
    };
    let r = client().invoices.create_invoice(body);
    assert_eq!(r.url, "https://api.paystack.co/paymentrequest");
    let body_text = r.body.unwrap();
    assert!(body_text.contains("\"due_date\":\"2020-12-31T12:00:00Z\""));
    assert!(body_text.contains("\"line_items\":[{\"name\":\"item 1\",\"amount\":2000}]"));
    assert!(body_text.contains("\"send_notification\":true"));
}

#[test]
fn create_plan_uses_lower_case_interval_tokens() {
    let body = CreatePlan {
        name: "Monthly retainer".to_string(),
        amount: 500000,
        interval: Interval::Monthly,
        description: None,
        send_invoices: None,
        send_sms: None,
        currency: Some(Currency::NGN),
        invoice_limit: None,
    };
    let r = client().plans.create_plan(body);
    let body_text = r.body.unwrap();
    assert!(body_text.contains("\"interval\":\"monthly\""));
    assert!(body_text.contains("\"currency\":\"NGN\""));
}

#[test]
fn batch_charges_filter_leads_with_its_status() {
    let params = FetchChargesInABatchParams {
        status: BulkChargesStatus::PENDING,
        per_page: Some(2),
        page: None,
        from: None,
        to: None,
    };
    let r = client().bulk_charges.fetch_charges_in_a_batch("BCH_1", params);
    assert_eq!(r.url, "https://api.paystack.co/bulkcharge/BCH_1?status=pending&perPage=2");
}
