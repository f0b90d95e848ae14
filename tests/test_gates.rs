use adder::{Bit, FullAdder, HalfAdder};

const CASES: [(Bit, Bit, Bit, Bit); 4] = [
    (Bit::Zero, Bit::Zero, Bit::Zero, Bit::Zero),
    (Bit::Zero, Bit::One, Bit::Zero, Bit::One),
    (Bit::One, Bit::Zero, Bit::Zero, Bit::One),
    (Bit::One, Bit::One, Bit::One, Bit::Zero),
];

#[test]
fn half_add() {
    for (a, b, expected_carry_out, expected_sum) in CASES {
        let mut half_adder = HalfAdder::default();
        half_adder.add(a, b);
        assert_eq!(half_adder.carry_out, expected_carry_out);
        assert_eq!(half_adder.sum, expected_sum);
    }
}

#[test]
fn full_add() {
    for (a, b, expected_carry_out, expected_sum) in CASES {
        let mut full_adder = FullAdder::default();
        full_adder.add(a, b);
        assert_eq!(full_adder.carry_out, expected_carry_out);
        assert_eq!(full_adder.sum, expected_sum);
    }
}

#[test]
fn full_add_with_carry_in() {
    let cases = [
        (Bit::Zero, Bit::Zero, Bit::Zero, Bit::One),
        (Bit::Zero, Bit::One, Bit::One, Bit::Zero),
        (Bit::One, Bit::Zero, Bit::One, Bit::Zero),
        (Bit::One, Bit::One, Bit::One, Bit::One),
    ];
    for (a, b, expected_carry_out, expected_sum) in cases {
        let mut full_adder = FullAdder::new();
        full_adder.carry_in = Bit::One;
        full_adder.add(a, b);
        assert_eq!(full_adder.carry_out, expected_carry_out);
        assert_eq!(full_adder.sum, expected_sum);
        assert_eq!(full_adder.carry_in, Bit::One);
    }
}

#[test]
fn gate_truth_tables() {
    assert_eq!(Bit::Zero & Bit::Zero, Bit::Zero);
    assert_eq!(Bit::Zero & Bit::One, Bit::Zero);
    assert_eq!(Bit::One & Bit::Zero, Bit::Zero);
    assert_eq!(Bit::One & Bit::One, Bit::One);
    assert_eq!(Bit::Zero | Bit::Zero, Bit::Zero);
    assert_eq!(Bit::Zero | Bit::One, Bit::One);
    assert_eq!(Bit::One | Bit::Zero, Bit::One);
    assert_eq!(Bit::One | Bit::One, Bit::One);
    assert_eq!(Bit::Zero ^ Bit::Zero, Bit::Zero);
    assert_eq!(Bit::Zero ^ Bit::One, Bit::One);
    assert_eq!(Bit::One ^ Bit::Zero, Bit::One);
    assert_eq!(Bit::One ^ Bit::One, Bit::Zero);
}

#[test]
fn bit_values() {
    assert_eq!(Bit::low_bit_of(6), Bit::Zero);
    assert_eq!(Bit::low_bit_of(7), Bit::One);
    assert_eq!(Bit::low_bit_of(255), Bit::One);
    assert_eq!(Bit::One.value(), 1);
    assert_eq!(Bit::Zero.value(), 0);
}
