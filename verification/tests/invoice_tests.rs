use lemon_tree_core::ecommerce::{Invoice, LineItem, OrderAdjustments, PricingError};
use lemon_tree_core::money::Money;

fn line(product: &str, qty: u32, price_cents: i64) -> LineItem {
    LineItem {
        product_ref: product.to_string(),
        quantity: qty,
        unit_price: Money::from_cents(price_cents),
    }
}

fn adjustments(tax_rate: i64, shipping_cents: i64) -> OrderAdjustments {
    OrderAdjustments {
        tax_rate,
        shipping_fee: Money::from_units(shipping_cents * 100),
    }
}

#[test]
fn zero_items_yield_zero_subtotal() {
    let items: Vec<LineItem> = vec![];
    let inv = Invoice::compute(7, &items, &adjustments(715, 500)).unwrap();
    assert_eq!(inv.id, 7);
    assert_eq!(inv.subtotal.units(), 0);
    assert_eq!(inv.taxes.units(), 0);
    assert_eq!(inv.shipping.units(), 50_000);
    assert_eq!(inv.total.units(), 50_000);
}

#[test]
fn subtotal_is_sum_of_quantity_times_unit_price() {
    // qty 3 @ 10.00 and qty 1 @ 5.00: subtotal 35.00.
    let items = vec![line("a", 3, 1000), line("b", 1, 500)];
    let inv = Invoice::compute(1, &items, &adjustments(0, 0)).unwrap();
    assert_eq!(inv.subtotal.units(), 350_000);
    assert_eq!(inv.taxes.units(), 0);
    assert_eq!(inv.total.units(), 350_000);
}

#[test]
fn scenario_values_compose_exactly() {
    // The submission scenario: 2 line items (qty 3 @ 10.00, qty 1 @ 5.00),
    // tax rate 0.0715, shipping 5.00.
    let items = vec![line("a", 3, 1000), line("b", 1, 500)];
    let inv = Invoice::compute(42, &items, &adjustments(715, 500)).unwrap();
    assert_eq!(inv.subtotal.units(), 350_000);  // 35.00
    // 2.5025 rounded per policy to the cent: 2.50.
    assert_eq!(inv.taxes.units(), 25_000);
    assert_eq!(inv.shipping.units(), 50_000);  // 5.00
    // total == subtotal + taxes + shipping, exactly.
    assert_eq!(
        inv.total.units(),
        inv.subtotal.units() + inv.taxes.units() + inv.shipping.units()
    );
    assert_eq!(inv.total.units(), 425_000);  // 42.50
}

#[test]
fn negative_tax_rate_is_rejected_whatever_the_items() {
    let empty: Vec<LineItem> = vec![];
    let some = vec![line("a", 1, 100)];
    assert!(matches!(
        Invoice::compute(1, &empty, &adjustments(-1, 0)),
        Err(PricingError::InvalidAdjustment)
    ));
    assert!(matches!(
        Invoice::compute(1, &some, &adjustments(-1, 0)),
        Err(PricingError::InvalidAdjustment)
    ));
}

#[test]
fn negative_shipping_fee_is_rejected_whatever_the_items() {
    let empty: Vec<LineItem> = vec![];
    let some = vec![line("a", 2, 250)];
    assert!(matches!(
        Invoice::compute(1, &empty, &adjustments(0, -1)),
        Err(PricingError::InvalidAdjustment)
    ));
    assert!(matches!(
        Invoice::compute(1, &some, &adjustments(0, -1)),
        Err(PricingError::InvalidAdjustment)
    ));
}

#[test]
fn subtotal_beyond_the_money_range_is_an_overflow() {
    // Two items at the largest accepted unit price exceed the range.
    let big = Money::from_units(1_000_000_000_000_000);
    let items = vec![
        LineItem { product_ref: "a".to_string(), quantity: 1, unit_price: big },
        LineItem { product_ref: "b".to_string(), quantity: 1, unit_price: big },
    ];
    assert!(matches!(
        Invoice::compute(1, &items, &adjustments(0, 0)),
        Err(PricingError::AmountOverflow)
    ));
}

#[test]
fn create_draws_an_id_and_prices_like_compute() {
    let items = vec![line("a", 3, 1000), line("b", 1, 500)];
    let inv = Invoice::create(&items, &adjustments(715, 500)).unwrap();
    assert_eq!(inv.subtotal.units(), 350_000);
    assert_eq!(inv.taxes.units(), 25_000);
    assert_eq!(inv.total.units(), 425_000);
}

#[test]
fn fee_lines_carry_wire_amounts() {
    let items = vec![line("a", 3, 1000), line("b", 1, 500)];
    let inv = Invoice::compute(1, &items, &adjustments(715, 500)).unwrap();
    let taxes = inv.get_taxes();
    assert_eq!(taxes.name, "Taxes");
    assert_eq!(taxes.description, "");
    assert_eq!(taxes.amount, "2.50");
    let shipping = inv.get_shipping();
    assert_eq!(shipping.name, "Shipping");
    assert_eq!(shipping.description, "Flat rate shipping fee");
    assert_eq!(shipping.amount, "5.00");
    let duty = inv.get_duty();
    assert_eq!(duty.name, "");
    assert_eq!(duty.amount, "0");
}
