use lemon_tree_core::ecommerce::{Customer, Invoice, LineItem, OrderAdjustments};
use lemon_tree_core::money::Money;
use lemon_tree_core::payment_processing::authorize_net::{Address, CreditCard};
use lemon_tree_core::store::{persist_aggregate, MemoryStore, OrderStatus};

fn sample_address() -> Address {
    Address {
        first_name: "Ada".to_string(),
        last_name: "Lovelace".to_string(),
        company: "".to_string(),
        address: "1 Analytical Row".to_string(),
        city: "London".to_string(),
        state: "LDN".to_string(),
        zip: "12345".to_string(),
        country: "US".to_string(),
    }
}

fn sample_customer() -> Customer {
    Customer {
        first_name: "Ada".to_string(),
        last_name: "Lovelace".to_string(),
        email: "ada@example.com".to_string(),
        phone_number: "5551234".to_string(),
        ip_address: "".to_string(),
        billing_address: sample_address(),
        shipping_address: sample_address(),
        credit_card: CreditCard {
            card_number: "4111111111111111".to_string(),
            expiration_date: "12/30".to_string(),
            card_code: "123".to_string(),
        },
    }
}

fn sample_invoice() -> Invoice {
    let items = sample_items();
    Invoice::compute(
        9,
        &items,
        &OrderAdjustments { tax_rate: 715, shipping_fee: Money::from_cents(500) },
    )
    .unwrap()
}

fn sample_items() -> Vec<LineItem> {
    vec![
        LineItem {
            product_ref: "prod-a".to_string(),
            quantity: 3,
            unit_price: Money::from_cents(1000),
        },
        LineItem {
            product_ref: "prod-b".to_string(),
            quantity: 1,
            unit_price: Money::from_cents(500),
        },
    ]
}

#[test]
fn persist_writes_addresses_then_order_then_items() {
    let mut store = MemoryStore::new();
    let customer = sample_customer();
    let invoice = sample_invoice();
    let items = sample_items();
    let order_id = persist_aggregate(&mut store, &customer, &invoice, &items, 1700000000);

    assert_eq!(order_id, 1);
    assert_eq!(store.address_count(), 2);
    assert_eq!(store.order_count(), 1);
    assert_eq!(store.item_count(), 2);

    let billing = store.get_address(0);
    assert_eq!(billing.first_name, "Ada");
    assert_eq!(billing.street, "1 Analytical Row");
    assert_eq!(billing.postal_code, "12345");

    let order = store.get_order(0);
    assert_eq!(order.status, OrderStatus::Created);
    assert_eq!(order.email, "ada@example.com");
    assert_eq!(order.billing_address_id, 1);
    assert_eq!(order.shipping_address_id, 2);
    assert_eq!(order.transaction_id, None);
    assert_eq!(order.card_type, None);
    assert_eq!(order.card_last4, None);
    // Amounts come verbatim from the invoice, never recomputed here.
    assert_eq!(order.tax_amount.units(), invoice.taxes.units());
    assert_eq!(order.shipping_amount.units(), invoice.shipping.units());
    assert_eq!(order.total_amount.units(), invoice.total.units());
    assert_eq!(order.created_at, 1700000000);
}

#[test]
fn item_rows_reference_the_new_order() {
    let mut store = MemoryStore::new();
    let customer = sample_customer();
    let invoice = sample_invoice();
    let items = sample_items();
    let order_id = persist_aggregate(&mut store, &customer, &invoice, &items, 1);

    for i in 0..store.item_count() {
        let row = store.get_item(i);
        assert_eq!(row.order_id, order_id);
        assert!(row.order_id as usize <= store.order_count());
    }
    assert_eq!(store.get_item(0).product_ref, "prod-a");
    assert_eq!(store.get_item(0).qty, 3);
    assert_eq!(store.get_item(0).price.units(), 100_000);
    assert_eq!(store.get_item(1).product_ref, "prod-b");
    assert_eq!(store.get_item(1).qty, 1);
}

#[test]
fn settlement_update_moves_only_the_named_order() {
    let mut store = MemoryStore::new();
    let customer = sample_customer();
    let invoice = sample_invoice();
    let items = sample_items();
    let first = persist_aggregate(&mut store, &customer, &invoice, &items, 1);
    let second = persist_aggregate(&mut store, &customer, &invoice, &items, 2);

    store.update_order_settlement(
        second,
        OrderStatus::Paid,
        Some("tx-9".to_string()),
        Some("visa".to_string()),
        Some("1111".to_string()),
    );

    let untouched = store.get_order((first - 1) as usize);
    assert_eq!(untouched.status, OrderStatus::Created);
    assert_eq!(untouched.transaction_id, None);

    let settled = store.get_order((second - 1) as usize);
    assert_eq!(settled.status, OrderStatus::Paid);
    assert_eq!(settled.transaction_id, Some("tx-9".to_string()));
    assert_eq!(settled.card_type, Some("visa".to_string()));
    assert_eq!(settled.card_last4, Some("1111".to_string()));
    // Untouched columns keep their values.
    assert_eq!(settled.email, "ada@example.com");
    assert_eq!(settled.created_at, 2);
}

#[test]
fn status_column_values_match_the_schema() {
    assert_eq!(OrderStatus::Created.as_str(), "created");
    assert_eq!(OrderStatus::Paid.as_str(), "paid");
    assert_eq!(OrderStatus::Declined.as_str(), "declined");
    assert_eq!(OrderStatus::Failed.as_str(), "failed");
}
