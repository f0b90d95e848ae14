use adder::CarrySelectAdder;

#[test]
fn carry_select_add_largest_bytes() {
    let adder = CarrySelectAdder::default();
    assert_eq!(adder.add(255, 255), Ok(510));
}

#[test]
fn carry_select_add_small() {
    assert_eq!(CarrySelectAdder::new().add(4, 4), Ok(8));
    assert_eq!(CarrySelectAdder::new().add(0, 0), Ok(0));
}

#[test]
fn carry_select_discarded_branch_overflow_is_ignored() {
    // The upper bytes are 0xFF and 0x00: the branch that assumes carry 1
    // overflows, but the lower byte does not carry, so it is discarded.
    assert_eq!(CarrySelectAdder::new().add(0xFF00, 0x00FF), Ok(0xFFFF));
}

#[test]
fn carry_select_selected_branch_overflow() {
    assert_eq!(CarrySelectAdder::new().add(0xFFFF, 1), Err("Overflow."));
    assert_eq!(CarrySelectAdder::new().add(0x8000, 0x8000), Err("Overflow."));
    assert_eq!(CarrySelectAdder::new().add(0xFFFF, 0xFFFF), Err("Overflow."));
}

#[test]
fn carry_select_carry_across_bytes() {
    assert_eq!(CarrySelectAdder::new().add(0x12FF, 0x3401), Ok(0x4700));
    assert_eq!(CarrySelectAdder::new().add(0xFFFE, 1), Ok(0xFFFF));
}

#[test]
fn carry_select_sampled_pairs() {
    let mut a: u32 = 0;
    while a <= 0xFFFF {
        let mut b: u32 = 0;
        while b <= 0xFFFF {
            let result = CarrySelectAdder::new().add(a as u16, b as u16);
            if a + b < 0x10000 {
                assert_eq!(result, Ok((a + b) as u16));
            } else {
                assert_eq!(result, Err("Overflow."));
            }
            b += 251;
        }
        a += 257;
    }
}

#[test]
fn carry_select_select_rule() {
    assert_eq!(CarrySelectAdder::select(false, Ok(3), Ok(4), 7), Ok(0x0307));
    assert_eq!(CarrySelectAdder::select(true, Ok(3), Ok(4), 7), Ok(0x0407));
    assert_eq!(CarrySelectAdder::select(false, Ok(3), Err("Overflow."), 7), Ok(0x0307));
    assert_eq!(CarrySelectAdder::select(true, Ok(3), Err("Overflow."), 7), Err("Overflow."));
}

#[test]
fn carry_select_bisect() {
    let adder = CarrySelectAdder::new();
    assert_eq!(adder.bisect(0xABCD), (0xAB, 0xCD));
    assert_eq!(adder.bisect(0x00FF), (0x00, 0xFF));
}
