use illuvi_analytics::price_utils::price_text;

#[test]
fn price_text_places_the_point_inside_the_quantity() {
    assert_eq!(price_text("1000000000000000000", 18), "1.000000000000000000");
    assert_eq!(price_text("12345", 2), "123.45");
    assert_eq!(price_text("123", 0), "123.");
}

#[test]
fn price_text_leads_with_zero_when_nothing_precedes_the_point() {
    assert_eq!(price_text("5", 1), "0.5");
    assert_eq!(price_text("123", 3), "0.123");
}

#[test]
fn price_text_pads_one_missing_digit() {
    assert_eq!(price_text("5", 2), "0.05");
    assert_eq!(price_text("25", 3), "0.025");
}

#[test]
fn price_text_reads_as_the_expected_float() {
    let price: f32 = price_text("1500000000000000000", 18).parse().unwrap();
    assert_eq!(price, 1.5);
    let price: f32 = price_text("5", 2).parse().unwrap();
    assert_eq!(price, 0.05);
}
