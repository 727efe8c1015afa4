use abs_party::models::{position_is_valid, rate_is_valid};

#[test]
fn position_validity_follows_the_number() {
    for ok in [0.0f64, -0.0, 1e-310, 1.5, 1e300, f64::MAX] {
        assert!(position_is_valid(ok.to_bits()), "{ok}");
    }
    for bad in [-1e-310f64, -1.0, f64::MIN, f64::INFINITY, f64::NEG_INFINITY, f64::NAN, -f64::NAN] {
        assert!(!position_is_valid(bad.to_bits()), "{bad}");
    }
}

#[test]
fn rate_validity_follows_the_number() {
    for ok in [0.25f64, 0.5, 1.0, 1.25, 3.999, 4.0] {
        assert!(rate_is_valid(ok.to_bits()), "{ok}");
    }
    for bad in [0.2499f64, 4.0001, 0.0, -0.0, -1.0, f64::INFINITY, f64::NAN, -f64::NAN] {
        assert!(!rate_is_valid(bad.to_bits()), "{bad}");
    }
}
