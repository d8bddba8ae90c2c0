use lemon_tree_core::money::{tax_units_checked, u64_to_string, Money};

#[test]
fn u64_to_string_renders_decimal_digits() {
    assert_eq!(u64_to_string(0), "0");
    assert_eq!(u64_to_string(7), "7");
    assert_eq!(u64_to_string(1234), "1234");
    assert_eq!(u64_to_string(1000000), "1000000");
}

#[test]
fn amount_string_renders_two_fraction_digits() {
    // 35.00 currency units = 350000 internal units.
    assert_eq!(Money::from_units(350_000).to_amount_string(), "35.00");
    assert_eq!(Money::from_units(0).to_amount_string(), "0.00");
    assert_eq!(Money::from_units(50_000).to_amount_string(), "5.00");
    // 2.5025 rounds half-to-even to 2.50 on the wire.
    assert_eq!(Money::from_units(25_025).to_amount_string(), "2.50");
}

#[test]
fn amount_string_rounds_half_to_even() {
    // 0.025 is a tie: the even cent is 0.02.
    assert_eq!(Money::from_units(250).to_amount_string(), "0.02");
    // 0.035 is a tie: the even cent is 0.04.
    assert_eq!(Money::from_units(350).to_amount_string(), "0.04");
    // 0.0251 is above the tie: 0.03.
    assert_eq!(Money::from_units(251).to_amount_string(), "0.03");
}

#[test]
fn money_constructors_agree() {
    assert_eq!(Money::from_cents(1000).units(), 100_000);
    assert_eq!(Money::zero().units(), 0);
    assert!(Money::from_units(-1).is_negative());
    assert!(!Money::from_units(0).is_negative());
}

#[test]
fn tax_is_exact_product_rounded_to_cent() {
    // 35.00 at 7.15%: 2.5025, banker's-rounded to 2.50.
    assert_eq!(tax_units_checked(350_000, 715), Some(25_000));
    // 10.00 at 0%: no tax.
    assert_eq!(tax_units_checked(100_000, 0), Some(0));
}

#[test]
fn tax_tie_rounds_to_even_cent_deterministically() {
    // A subtotal of 0.005 at a 100% rate is exactly half a cent: the even
    // neighbour is 0.00, and repeated runs agree.
    for _ in 0..10 {
        assert_eq!(tax_units_checked(50, 10_000), Some(0));
    }
    // 0.015 at 100% is the other parity: the even neighbour is 0.02.
    for _ in 0..10 {
        assert_eq!(tax_units_checked(150, 10_000), Some(200));
    }
}

#[test]
fn tax_overflow_is_reported() {
    // The largest subtotal at the largest rate overflows the money range.
    assert_eq!(tax_units_checked(1_000_000_000_000_000, 1_000_000), None);
}
