use color_print::wide::times_over;

#[test]
fn a_product_is_divided_without_being_formed() {
    assert_eq!(times_over(0, 5, 7), (0, 0));
    assert_eq!(times_over(1, 5, 7), (0, 5));
    assert_eq!(times_over(3, 5, 7), (2, 1));
    assert_eq!(times_over(7, 7, 7), (7, 0));
    assert_eq!(times_over(1000, 0, 9), (0, 0));
    // 10^12 * (2^126 - 1) needs 167 bits
    let d: u128 = 1 << 126;
    assert_eq!(
        times_over(1_000_000_000_000, d - 1, d),
        (999_999_999_999, d - 1_000_000_000_000)
    );
    assert_eq!(times_over(u64::MAX, d, d), (u64::MAX as u128, 0));
    // 60 * 10^12 / 7, to the trillionth
    assert_eq!(
        times_over(60_000_000_000_000, 1, 7),
        (8_571_428_571_428, 4)
    );
}
