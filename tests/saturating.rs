#[test]
fn sums_small_values_exactly() {
    assert_eq!(adder::add(3, 5), 8);
    assert_eq!(adder::add(-7, 2), -5);
    assert_eq!(adder::add(-2147483648, 2147483647), -1);
}

#[test]
fn clamps_at_the_top() {
    assert_eq!(adder::add(2147483647, 1), 2147483647);
    assert_eq!(adder::add(2147483647, 2147483647), 2147483647);
    assert_eq!(adder::add(2147483000, 1000), 2147483647);
}

#[test]
fn clamps_at_the_bottom() {
    assert_eq!(adder::add(-2147483648, -1), -2147483648);
    assert_eq!(adder::add(-2147483648, -2147483648), -2147483648);
    assert_eq!(adder::add(-2147483000, -1000), -2147483648);
}

#[test]
fn reaches_the_bounds_exactly() {
    assert_eq!(adder::add(2147483646, 1), 2147483647);
    assert_eq!(adder::add(-2147483647, -1), -2147483648);
}

#[test]
fn order_of_operands_does_not_matter() {
    let pairs = [(3, 5), (2147483647, 1), (-2147483648, -1), (-12, 40), (0, -9)];
    for (a, b) in pairs {
        assert_eq!(adder::add(a, b), adder::add(b, a));
    }
}

#[test]
fn zero_is_the_identity() {
    for a in [0, 1, -1, 2147483647, -2147483648, 123456] {
        assert_eq!(adder::add(a, 0), a);
    }
}

#[test]
fn matches_std_saturation_on_samples() {
    let values = [-2147483648, -2147483647, -1000000, -1, 0, 1, 999999, 2147483646, 2147483647];
    for a in values {
        for b in values {
            assert_eq!(adder::add(a, b), a.saturating_add(b));
        }
    }
}
