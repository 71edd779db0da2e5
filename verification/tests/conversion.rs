use cch24::conversion::UnitConverter;
use cch24::milk::handle_milk;
use cch24::milk::MilkOutcome;
use cch24::milk::MilkPayload;
use cch24::gate::GateConfig;
use cch24::gate::TokenBucketGate;

fn empty_request() -> UnitConverter {
    UnitConverter {
        gallons: None,
        liters: None,
        pints: None,
        litres: None,
    }
}

#[test]
fn validation_rejects_zero_fields() {
    assert!(!empty_request().is_valid());
}

#[test]
fn validation_rejects_two_fields() {
    let mut request = empty_request();
    request.liters = Some(1_000_000);
    request.gallons = Some(1_000_000);
    assert!(!request.is_valid());
}

#[test]
fn validation_accepts_each_single_field() {
    for unit in 0..4u32 {
        let mut request = empty_request();
        match unit {
            0 => request.gallons = Some(2_500_000),
            1 => request.liters = Some(2_500_000),
            2 => request.pints = Some(2_500_000),
            _ => request.litres = Some(2_500_000),
        }
        assert!(request.is_valid(), "exactly one field must be accepted");
    }
}

#[test]
fn convert_liters_to_gallons_exact() {
    let mut request = empty_request();
    request.liters = Some(1_000_000); // 1 liter
    let converted = request.convert().unwrap();
    assert_eq!(converted.gallons, Some(264_172)); // 0.264172 gallons
    assert_eq!(converted.liters, None);
    assert_eq!(converted.pints, None);
    assert_eq!(converted.litres, None);
}

#[test]
fn convert_gallons_to_liters_exact() {
    let mut request = empty_request();
    request.gallons = Some(1_000_000); // 1 gallon
    let converted = request.convert().unwrap();
    assert_eq!(converted.liters, Some(3_785_412)); // 3.785412 liters
    assert_eq!(converted.gallons, None);
}

#[test]
fn convert_litres_to_pints_exact() {
    let mut request = empty_request();
    request.litres = Some(1_000_000); // 1 litre
    let converted = request.convert().unwrap();
    assert_eq!(converted.pints, Some(1_759_754)); // 1.759754 pints
    assert_eq!(converted.litres, None);
}

#[test]
fn convert_pints_to_litres_exact() {
    let mut request = empty_request();
    request.pints = Some(1_000_000); // 1 pint
    let converted = request.convert().unwrap();
    assert_eq!(converted.litres, Some(568_260)); // 0.56826 litres
    assert_eq!(converted.pints, None);
}

#[test]
fn convert_with_no_fields_errs() {
    let err = empty_request().convert().unwrap_err();
    assert_eq!(err, "all variables are None");
}

#[test]
fn convert_prefers_liters_when_several_present() {
    let mut request = empty_request();
    request.liters = Some(1_000_000);
    request.pints = Some(1_000_000);
    let converted = request.convert().unwrap();
    assert_eq!(converted.gallons, Some(264_172));
}

#[test]
fn round_trip_liter_gallon_liter() {
    // 1 liter -> gallons -> liters comes back within rounding error.
    let mut request = empty_request();
    request.liters = Some(1_000_000);
    let gallons = request.convert().unwrap();

    let back = gallons.convert().unwrap();
    let liters = back.liters.unwrap();
    assert!(liters <= 1_000_000);
    assert!(1_000_000 - liters <= 5, "round trip lost {} micro-liters", 1_000_000 - liters);
    assert_eq!(liters, 999_999);
}

#[test]
fn round_trip_litre_pint_litre() {
    let mut request = empty_request();
    request.litres = Some(1_000_000);
    let pints = request.convert().unwrap();

    let back = pints.convert().unwrap();
    let litres = back.litres.unwrap();
    assert!(litres <= 1_000_000);
    assert!(1_000_000 - litres <= 5, "round trip lost {} micro-litres", 1_000_000 - litres);
    assert_eq!(litres, 999_997);
}

#[test]
fn milk_requests_run_the_gate_and_payload() {
    let mut gate = TokenBucketGate::new(GateConfig {
        initial: 3,
        capacity: 5,
        refill_amount: 1,
        refill_interval_ms: 1000,
    });

    // plain withdrawal
    assert_eq!(handle_milk(&mut gate, MilkPayload::NoJson), MilkOutcome::Withdrawn);

    // a malformed body is admitted but rejected, and still costs a token
    assert_eq!(handle_milk(&mut gate, MilkPayload::Malformed), MilkOutcome::BadPayload);

    // a valid conversion request
    let mut request = empty_request();
    request.liters = Some(2_000_000);
    match handle_milk(&mut gate, MilkPayload::Parsed(request)) {
        MilkOutcome::Converted(result) => assert_eq!(result.gallons, Some(528_344)),
        other => panic!("expected a conversion, got {:?}", other),
    }

    // the bucket is empty now: rate-limited before the payload matters
    let mut again = empty_request();
    again.liters = Some(1_000_000);
    assert_eq!(
        handle_milk(&mut gate, MilkPayload::Parsed(again)),
        MilkOutcome::RateLimited
    );
}

#[test]
fn milk_rejects_invalid_request_after_admission() {
    let mut gate = TokenBucketGate::new(GateConfig::milk_default());
    let mut request = empty_request();
    request.liters = Some(1_000_000);
    request.gallons = Some(1_000_000);
    assert_eq!(
        handle_milk(&mut gate, MilkPayload::Parsed(request)),
        MilkOutcome::BadPayload
    );
    assert_eq!(gate.tokens(), 4);
}
