//! Money has moved on a user's wallet.

use vstd::prelude::*;
use crate::messages::ArgumentView;
use crate::messages::MessageTemplate;
use crate::messages::TemplateArgument;
use crate::messages::TemplateView;
use crate::notification_event::DeepLink;
use crate::notification_event::NotificationEvent;
use crate::primitives::GaloyUserId;
use crate::primitives::UserNotificationCategory;

verus! {

#[derive(Copy, Clone, PartialEq, Eq, Debug, Structural)]
pub enum TransactionType {
    IntraLedgerReceipt,
    IntraLedgerPayment,
    OnchainReceipt,
    OnchainReceiptPending,
    OnchainPayment,
    LightningReceipt,
    LightningPayment,
}

#[derive(Copy, Clone, PartialEq, Eq, Debug, Structural)]
pub enum Currency {
    Btc,
    Usd,
}

#[derive(Debug)]
pub struct TransactionInfo {
    pub user_id: GaloyUserId,
    pub transaction_type: TransactionType,
    /// The settled amount in the currency's minor unit.
    pub settlement_amount: u64,
    pub currency: Currency,
}

impl Clone for TransactionInfo {
    fn clone(&self) -> (copy: TransactionInfo)
        ensures
            copy == *self,
    {
        TransactionInfo {
            user_id: self.user_id.clone(),
            transaction_type: self.transaction_type,
            settlement_amount: self.settlement_amount,
            currency: self.currency,
        }
    }
}

/// The catalog key of the name of a currency's minor unit.
pub open spec fn currency_key(currency: Currency) -> Seq<char> {
    match currency {
        Currency::Btc => "currency.btc"@,
        Currency::Usd => "currency.usd"@,
    }
}

/// The template of each type of transaction, before its arguments.
pub open spec fn transaction_keys(transaction_type: TransactionType) -> TemplateView {
    match transaction_type {
        TransactionType::IntraLedgerReceipt => TemplateView::plain(
            "transaction.intra_ledger_receipt.title"@,
            "transaction.intra_ledger_receipt.body"@,
        ),
        TransactionType::IntraLedgerPayment => TemplateView::plain(
            "transaction.intra_ledger_payment.title"@,
            "transaction.intra_ledger_payment.body"@,
        ),
        TransactionType::OnchainReceipt => TemplateView::plain(
            "transaction.onchain_receipt.title"@,
            "transaction.onchain_receipt.body"@,
        ),
        TransactionType::OnchainReceiptPending => TemplateView::plain(
            "transaction.onchain_receipt_pending.title"@,
            "transaction.onchain_receipt_pending.body"@,
        ),
        TransactionType::OnchainPayment => TemplateView::plain(
            "transaction.onchain_payment.title"@,
            "transaction.onchain_payment.body"@,
        ),
        TransactionType::LightningReceipt => TemplateView::plain(
            "transaction.lightning_receipt.title"@,
            "transaction.lightning_receipt.body"@,
        ),
        TransactionType::LightningPayment => TemplateView::plain(
            "transaction.lightning_payment.title"@,
            "transaction.lightning_payment.body"@,
        ),
    }
}

impl TransactionType {
    fn keys(&self) -> (template: MessageTemplate)
        ensures
            template@ == transaction_keys(*self),
    {
        match self {
            TransactionType::IntraLedgerReceipt => MessageTemplate::new(
                "transaction.intra_ledger_receipt.title",
                "transaction.intra_ledger_receipt.body",
            ),
            TransactionType::IntraLedgerPayment => MessageTemplate::new(
                "transaction.intra_ledger_payment.title",
                "transaction.intra_ledger_payment.body",
            ),
            TransactionType::OnchainReceipt => MessageTemplate::new(
                "transaction.onchain_receipt.title",
                "transaction.onchain_receipt.body",
            ),
            TransactionType::OnchainReceiptPending => MessageTemplate::new(
                "transaction.onchain_receipt_pending.title",
                "transaction.onchain_receipt_pending.body",
            ),
            TransactionType::OnchainPayment => MessageTemplate::new(
                "transaction.onchain_payment.title",
                "transaction.onchain_payment.body",
            ),
            TransactionType::LightningReceipt => MessageTemplate::new(
                "transaction.lightning_receipt.title",
                "transaction.lightning_receipt.body",
            ),
            TransactionType::LightningPayment => MessageTemplate::new(
                "transaction.lightning_payment.title",
                "transaction.lightning_payment.body",
            ),
        }
    }
}

impl TransactionInfo {
    pub fn user_id(&self) -> (user_id: &GaloyUserId)
        ensures
            *user_id == self.user_id,
    {
        &self.user_id
    }
}

impl NotificationEvent for TransactionInfo {
    open spec fn spec_category(&self) -> UserNotificationCategory {
        UserNotificationCategory::Transaction
    }

    open spec fn spec_deep_link(&self) -> Option<DeepLink> {
        None
    }

    open spec fn sends_email(&self) -> bool {
        false
    }

    open spec fn sends_in_app_msg(&self) -> bool {
        false
    }

    open spec fn spec_template(&self) -> TemplateView {
        transaction_keys(self.transaction_type).with(
            "amount"@,
            ArgumentView::Number(self.settlement_amount as nat),
        ).with("currency"@, ArgumentView::Translated(currency_key(self.currency)))
    }

    fn category(&self) -> UserNotificationCategory {
        UserNotificationCategory::Transaction
    }

    fn deep_link(&self) -> Option<DeepLink> {
        None
    }

    fn should_send_email(&self) -> bool {
        false
    }

    fn should_send_in_app_msg(&self) -> bool {
        false
    }

    fn template(&self) -> MessageTemplate {
        let currency = match self.currency {
            Currency::Btc => "currency.btc",
            Currency::Usd => "currency.usd",
        };
        self.transaction_type.keys().with(
            "amount",
            TemplateArgument::Number(self.settlement_amount),
        ).with("currency", TemplateArgument::Translated(currency))
    }
}

} // verus!
