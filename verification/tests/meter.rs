use pallet_contracts_xcm::error::Error;
use pallet_contracts_xcm::meter::GasMeter;
use pallet_contracts_xcm::weight::Weight;

#[test]
fn weight_is_ordered_by_both_dimensions() {
    let small = Weight::from_parts(1, 2);
    let large = Weight::from_parts(3, 2);
    let skew = Weight::from_parts(0, 9);
    assert!(small.all_lte(large));
    assert!(!large.all_lte(small));
    assert!(!skew.all_lte(large));
    assert!(!large.all_lte(skew));
    assert!(Weight::zero().all_lte(skew));
}

#[test]
fn weight_arithmetic() {
    let a = Weight::from_parts(10, 20);
    let b = Weight::from_parts(3, 20);
    assert_eq!(a.checked_sub(b), Some(Weight::from_parts(7, 0)));
    assert_eq!(b.checked_sub(a), None);
    assert_eq!(Weight::from_parts(3, 30).checked_sub(a), None);
    assert_eq!(
        Weight::from_parts(u64::MAX, 1).saturating_add(Weight::from_parts(1, 1)),
        Weight::from_parts(u64::MAX, 2)
    );
    assert_eq!(a.min(Weight::from_parts(11, 2)), Weight::from_parts(10, 2));
    assert_eq!(a.ref_time(), 10);
    assert_eq!(a.proof_size(), 20);
}

#[test]
fn new_meter_is_full() {
    let meter = GasMeter::new(Weight::from_parts(100, 50));
    assert_eq!(meter.gas_limit(), Weight::from_parts(100, 50));
    assert_eq!(meter.gas_left(), Weight::from_parts(100, 50));
}

#[test]
fn charge_takes_the_amount() {
    let mut meter = GasMeter::new(Weight::from_parts(100, 50));
    let charged = meter.charge_weight(Weight::from_parts(30, 20)).unwrap();
    assert_eq!(charged.amount(), Weight::from_parts(30, 20));
    assert_eq!(meter.gas_left(), Weight::from_parts(70, 30));
    assert_eq!(meter.gas_limit(), Weight::from_parts(100, 50));
}

#[test]
fn charge_of_the_whole_budget_succeeds() {
    let mut meter = GasMeter::new(Weight::from_parts(100, 50));
    assert!(meter.charge_weight(Weight::from_parts(100, 50)).is_ok());
    assert_eq!(meter.gas_left(), Weight::zero());
}

#[test]
fn uncovered_charge_fails_and_charges_nothing() {
    let mut meter = GasMeter::new(Weight::from_parts(100, 50));
    let over_time = meter.charge_weight(Weight::from_parts(101, 1)).unwrap_err();
    assert_eq!(over_time, Error::OutOfGas);
    let over_size = meter.charge_weight(Weight::from_parts(1, 51)).unwrap_err();
    assert_eq!(over_size, Error::OutOfGas);
    assert_eq!(meter.gas_left(), Weight::from_parts(100, 50));
}

#[test]
fn adjust_refunds_the_unused_part() {
    let mut meter = GasMeter::new(Weight::from_parts(100, 50));
    let charged = meter.charge_weight(Weight::from_parts(30, 20)).unwrap();
    meter.adjust_weight(charged, Weight::from_parts(10, 5));
    assert_eq!(meter.gas_left(), Weight::from_parts(90, 45));
}

#[test]
fn adjust_to_the_full_charge_refunds_nothing() {
    let mut meter = GasMeter::new(Weight::from_parts(100, 50));
    let charged = meter.charge_weight(Weight::from_parts(30, 20)).unwrap();
    meter.adjust_weight(charged, Weight::from_parts(30, 20));
    assert_eq!(meter.gas_left(), Weight::from_parts(70, 30));
}

#[test]
fn adjust_to_nothing_refunds_everything() {
    let mut meter = GasMeter::new(Weight::from_parts(100, 50));
    let charged = meter.charge_weight(Weight::from_parts(30, 20)).unwrap();
    meter.adjust_weight(charged, Weight::zero());
    assert_eq!(meter.gas_left(), Weight::from_parts(100, 50));
}
