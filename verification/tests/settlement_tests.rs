use lemon_tree_core::ecommerce::{Customer, LineItem, OrderAdjustments, PricingError};
use lemon_tree_core::money::Money;
use lemon_tree_core::notifier::EventNotifier;
use lemon_tree_core::payment_processing::authorize_net::{Address, CreditCard};
use lemon_tree_core::payment_processing::manager::{
    ChargeCreditCardRequest, ChargeCreditCardResponse, GatewayError, PaymentProcessor,
};
use lemon_tree_core::payment_processing::sandbox::SandboxProcessor;
use lemon_tree_core::settlement::{settle, PersistenceError, SettlementError, SettlementOutcome};
use lemon_tree_core::store::{MemoryStore, OrderStatus};

/// A backend that declines every card, for exercising the decline path.
struct DecliningProcessor;

impl PaymentProcessor for DecliningProcessor {
    fn charge_card(
        &self,
        _request: &ChargeCreditCardRequest,
    ) -> Result<ChargeCreditCardResponse, GatewayError> {
        Err(GatewayError::Declined("the gateway declined the card".to_string()))
    }
}

/// A backend whose transport always fails, for exercising the retry path.
struct UnreachableProcessor;

impl PaymentProcessor for UnreachableProcessor {
    fn charge_card(
        &self,
        _request: &ChargeCreditCardRequest,
    ) -> Result<ChargeCreditCardResponse, GatewayError> {
        Err(GatewayError::Transport("connection timed out".to_string()))
    }
}

fn sample_address() -> Address {
    Address {
        first_name: "Ada".to_string(),
        last_name: "Lovelace".to_string(),
        company: "".to_string(),
        address: "1 Analytical Row".to_string(),
        city: "London".to_string(),
        state: "LDN".to_string(),
        zip: "12345".to_string(),
        country: "US".to_string(),
    }
}

fn sample_customer() -> Customer {
    Customer {
        first_name: "Ada".to_string(),
        last_name: "Lovelace".to_string(),
        email: "ada@example.com".to_string(),
        phone_number: "5551234".to_string(),
        ip_address: "".to_string(),
        billing_address: sample_address(),
        shipping_address: sample_address(),
        credit_card: CreditCard {
            card_number: "4111111111111111".to_string(),
            expiration_date: "12/30".to_string(),
            card_code: "123".to_string(),
        },
    }
}

fn scenario_items() -> Vec<LineItem> {
    vec![
        LineItem {
            product_ref: "prod-a".to_string(),
            quantity: 3,
            unit_price: Money::from_cents(1000),
        },
        LineItem {
            product_ref: "prod-b".to_string(),
            quantity: 1,
            unit_price: Money::from_cents(500),
        },
    ]
}

fn scenario_adjustments() -> OrderAdjustments {
    OrderAdjustments { tax_rate: 715, shipping_fee: Money::from_cents(500) }
}

#[test]
fn sandbox_settlement_succeeds_end_to_end() {
    // Scenario: 2 line items (qty 3 @ 10.00, qty 1 @ 5.00), tax rate 0.0715,
    // shipping 5.00, sandbox gateway.
    let mut store = MemoryStore::new();
    let mut notifier = EventNotifier::new();
    let outcome = settle(
        &mut store,
        &mut notifier,
        &SandboxProcessor,
        &sample_customer(),
        &scenario_items(),
        &scenario_adjustments(),
        1700000000,
    );

    match outcome {
        SettlementOutcome::Settled { order_id, invoice, transaction } => {
            assert_eq!(order_id, 1);
            assert_eq!(invoice.subtotal.units(), 350_000);
            assert_eq!(invoice.taxes.units(), 25_000);
            assert_eq!(invoice.shipping.units(), 50_000);
            assert_eq!(
                invoice.total.units(),
                invoice.subtotal.units() + invoice.taxes.units() + invoice.shipping.units()
            );
            assert_eq!(transaction.transaction_id, "1234");
        },
        other => panic!("expected a settled outcome, got {:?}", other),
    }

    // The order row reflects the settlement.
    assert_eq!(store.order_count(), 1);
    let order = store.get_order(0);
    assert_eq!(order.status, OrderStatus::Paid);
    assert_eq!(order.status.as_str(), "paid");
    assert_eq!(order.transaction_id, Some("1234".to_string()));
    assert_eq!(order.card_type, Some("visa".to_string()));
    assert_eq!(order.card_last4, Some("1111".to_string()));
    assert_eq!(store.address_count(), 2);
    assert_eq!(store.item_count(), 2);

    // Exactly one progress event was published, before the charge.
    assert_eq!(notifier.len(), 1);
    assert_eq!(notifier.drain_one(), Some("Processing order".to_string()));
}

#[test]
fn declined_charge_leaves_order_without_transaction() {
    let mut store = MemoryStore::new();
    let mut notifier = EventNotifier::new();
    let outcome = settle(
        &mut store,
        &mut notifier,
        &DecliningProcessor,
        &sample_customer(),
        &scenario_items(),
        &scenario_adjustments(),
        1,
    );

    match outcome {
        SettlementOutcome::Declined { order_id, invoice, message } => {
            assert_eq!(order_id, 1);
            assert_eq!(invoice.total.units(), 425_000);
            assert_eq!(message, "the gateway declined the card");
        },
        other => panic!("expected a declined outcome, got {:?}", other),
    }

    // The order stays persisted, not paid, with no transaction id.
    assert_eq!(store.order_count(), 1);
    let order = store.get_order(0);
    assert_ne!(order.status, OrderStatus::Paid);
    assert_eq!(order.status, OrderStatus::Declined);
    assert_eq!(order.transaction_id, None);
    assert_eq!(order.card_type, None);
}

#[test]
fn transport_failure_is_retry_eligible_and_recorded() {
    let mut store = MemoryStore::new();
    let mut notifier = EventNotifier::new();
    let outcome = settle(
        &mut store,
        &mut notifier,
        &UnreachableProcessor,
        &sample_customer(),
        &scenario_items(),
        &scenario_adjustments(),
        1,
    );

    match outcome {
        SettlementOutcome::Failed { order_id, invoice, error, retry_eligible } => {
            assert_eq!(order_id, Some(1));
            assert!(invoice.is_some());
            assert!(retry_eligible);
            assert!(matches!(error, SettlementError::Gateway(GatewayError::Transport(_))));
        },
        other => panic!("expected a failed outcome, got {:?}", other),
    }

    assert_eq!(store.order_count(), 1);
    let order = store.get_order(0);
    assert_eq!(order.status, OrderStatus::Failed);
    assert_eq!(order.transaction_id, None);
}

#[test]
fn negative_tax_rate_is_rejected_before_any_persistence() {
    let mut store = MemoryStore::new();
    let mut notifier = EventNotifier::new();
    let adjustments = OrderAdjustments {
        tax_rate: -100,  // -0.01
        shipping_fee: Money::from_cents(500),
    };
    let outcome = settle(
        &mut store,
        &mut notifier,
        &SandboxProcessor,
        &sample_customer(),
        &scenario_items(),
        &adjustments,
        1,
    );

    match outcome {
        SettlementOutcome::Failed { order_id, invoice, error, retry_eligible } => {
            assert_eq!(order_id, None);
            assert!(invoice.is_none());
            assert!(!retry_eligible);
            assert!(matches!(
                error,
                SettlementError::Pricing(PricingError::InvalidAdjustment)
            ));
        },
        other => panic!("expected a failed outcome, got {:?}", other),
    }

    // No row of any kind was created, and nothing was published.
    assert_eq!(store.order_count(), 0);
    assert_eq!(store.address_count(), 0);
    assert_eq!(store.item_count(), 0);
    assert_eq!(notifier.len(), 0);
}

#[test]
fn overflowing_amounts_are_rejected_before_any_persistence() {
    let mut store = MemoryStore::new();
    let mut notifier = EventNotifier::new();
    let items = vec![
        LineItem {
            product_ref: "prod-a".to_string(),
            quantity: 1,
            unit_price: Money::from_units(1_000_000_000_000_000),
        },
        LineItem {
            product_ref: "prod-b".to_string(),
            quantity: 1,
            unit_price: Money::from_units(1_000_000_000_000_000),
        },
    ];
    let outcome = settle(
        &mut store,
        &mut notifier,
        &SandboxProcessor,
        &sample_customer(),
        &items,
        &scenario_adjustments(),
        1,
    );
    match outcome {
        SettlementOutcome::Failed { order_id, error, retry_eligible, .. } => {
            assert_eq!(order_id, None);
            assert!(!retry_eligible);
            assert!(matches!(error, SettlementError::Pricing(PricingError::AmountOverflow)));
        },
        other => panic!("expected a failed outcome, got {:?}", other),
    }
    assert_eq!(store.order_count(), 0);
    assert_eq!(store.address_count(), 0);
    assert_eq!(notifier.len(), 0);
}

#[test]
fn retry_eligibility_follows_the_error_taxonomy() {
    assert!(!SettlementError::Pricing(PricingError::InvalidAdjustment).is_retry_eligible());
    assert!(
        !SettlementError::Gateway(GatewayError::Declined("no".to_string())).is_retry_eligible()
    );
    assert!(
        SettlementError::Gateway(GatewayError::Transport("down".to_string())).is_retry_eligible()
    );
    assert!(
        SettlementError::Gateway(GatewayError::MalformedResponse("bad".to_string()))
            .is_retry_eligible()
    );
    assert!(
        SettlementError::Persistence(PersistenceError::OrderWrite("db down".to_string()))
            .is_retry_eligible()
    );
}
