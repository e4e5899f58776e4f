//! The top-level client: one value per resource family of the remote
//! API, each bound to the same bearer authorization header.

pub mod bulk_charges;
pub mod charge;
pub mod control_panel;
pub mod customers;
pub mod dedicated_nuban;
pub mod disputes;
pub mod invoices;
pub mod miscellaneous;
pub mod payment_pages;
pub mod plans;
pub mod products;
pub mod refund;
pub mod settlements;
pub mod subaccounts;
pub mod subscription;
pub mod transactions;
pub mod transactions_split;
pub mod transfer_recipients;
pub mod transfers;
pub mod transfers_control;
pub mod verification;

use vstd::prelude::*;
use crate::paystack::bulk_charges::BulkCharges;
use crate::paystack::charge::Charge;
use crate::paystack::control_panel::ControlPanel;
use crate::paystack::dedicated_nuban::DedicatedNuban;
use crate::paystack::disputes::Disputes;
use crate::paystack::invoices::Invoices;
use crate::paystack::miscellaneous::Miscellaneous;
use crate::paystack::payment_pages::PaymentPages;
use crate::paystack::plans::Plans;
use crate::paystack::products::Products;
use crate::paystack::refund::Refund;
use crate::paystack::settlements::Settlements;
use crate::paystack::subaccounts::Subaccount;
use crate::paystack::subscription::Subscription;
use crate::paystack::transactions::Transaction;
use crate::paystack::transactions_split::TransactionSplit;
use crate::paystack::transfer_recipients::TransferRecipients;
use crate::paystack::transfers::Transfers;
use crate::paystack::transfers_control::TransfersControl;
use crate::paystack::verification::Verification;

verus! {

/// One client value per resource family, all sharing one API key.
pub struct Paystack {
    pub transaction: Transaction,
    pub transaction_split: TransactionSplit,
    pub refund: Refund,
    pub subaccounts: Subaccount,
    pub dedicated_nuban: DedicatedNuban,
    pub plans: Plans,
    pub subscription: Subscription,
    pub products: Products,
    pub payment_pages: PaymentPages,
    pub invoices: Invoices,
    pub settlements: Settlements,
    pub transfer_recipients: TransferRecipients,
    pub transfers: Transfers,
    pub transfers_control: TransfersControl,
    pub bulk_charges: BulkCharges,
    pub control_panel: ControlPanel,
    pub charge: Charge,
    pub disputes: Disputes,
    pub verification: Verification,
    pub miscellaneous: Miscellaneous,
}

/// The `Authorization` header value derived from an API key.
pub open spec fn bearer_of(key: Seq<char>) -> Seq<char> {
    "Bearer "@ + key
}

impl Paystack {
    /// Builds every resource client from one secret API key; each one
    /// sends `Bearer <key>` as its authorization header.
    pub fn new(key: String) -> (r: Paystack)
        ensures
            r.transaction.bearer() == bearer_of(key@),
            r.transaction_split.bearer() == bearer_of(key@),
            r.refund.bearer() == bearer_of(key@),
            r.subaccounts.bearer() == bearer_of(key@),
            r.dedicated_nuban.bearer() == bearer_of(key@),
            r.plans.bearer() == bearer_of(key@),
            r.subscription.bearer() == bearer_of(key@),
            r.products.bearer() == bearer_of(key@),
            r.payment_pages.bearer() == bearer_of(key@),
            r.invoices.bearer() == bearer_of(key@),
            r.settlements.bearer() == bearer_of(key@),
            r.transfer_recipients.bearer() == bearer_of(key@),
            r.transfers.bearer() == bearer_of(key@),
            r.transfers_control.bearer() == bearer_of(key@),
            r.bulk_charges.bearer() == bearer_of(key@),
            r.control_panel.bearer() == bearer_of(key@),
            r.charge.bearer() == bearer_of(key@),
            r.disputes.bearer() == bearer_of(key@),
            r.verification.bearer() == bearer_of(key@),
            r.miscellaneous.bearer() == bearer_of(key@),
    {
        let mut formatted_bearer = String::from_str("Bearer ");
        formatted_bearer.append(key.as_str());
        Paystack {
            transaction: Transaction::with_auth(formatted_bearer.clone()),
            transaction_split: TransactionSplit::with_auth(formatted_bearer.clone()),
            refund: Refund::with_auth(formatted_bearer.clone()),
            subaccounts: Subaccount::with_auth(formatted_bearer.clone()),
            dedicated_nuban: DedicatedNuban::with_auth(formatted_bearer.clone()),
            plans: Plans::with_auth(formatted_bearer.clone()),
            subscription: Subscription::with_auth(formatted_bearer.clone()),
            products: Products::with_auth(formatted_bearer.clone()),
            payment_pages: PaymentPages::with_auth(formatted_bearer.clone()),
            invoices: Invoices::with_auth(formatted_bearer.clone()),
            settlements: Settlements::with_auth(formatted_bearer.clone()),
            transfer_recipients: TransferRecipients::with_auth(formatted_bearer.clone()),
            transfers: Transfers::with_auth(formatted_bearer.clone()),
            transfers_control: TransfersControl::with_auth(formatted_bearer.clone()),
            bulk_charges: BulkCharges::with_auth(formatted_bearer.clone()),
            control_panel: ControlPanel::with_auth(formatted_bearer.clone()),
            charge: Charge::with_auth(formatted_bearer.clone()),
            disputes: Disputes::with_auth(formatted_bearer.clone()),
            verification: Verification::with_auth(formatted_bearer.clone()),
            miscellaneous: Miscellaneous::with_auth(formatted_bearer),
        }
    }
}

} // verus!
