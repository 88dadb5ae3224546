use color_print::{Component, Exeptions, NumType, GRAIN, STEPS};

fn n(x: f64) -> NumType {
    NumType::from_trillionths((x * 1e12).round() as i64)
}

fn c(x: f64) -> Component {
    Component::from_trillionths((x * 1e12).round() as i64)
}

#[test]
fn numbers_in_decimal() {
    assert_eq!(n(0.).to_string(), "0");
    assert_eq!(n(10.2).to_string(), "10.2");
    assert_eq!(n(-1.).to_string(), "-1");
    assert_eq!(n(400.).to_string(), "400");
    assert_eq!(n(2.0).to_string(), "2");
    assert_eq!(n(0.05).to_string(), "0.05");
    assert_eq!(n(-0.5).to_string(), "-0.5");
    assert_eq!(n(255.000000001).to_string(), "255.000000001");
    assert_eq!(NumType::from_trillionths(1).to_string(), "0.000000000001");
    assert_eq!(
        NumType::from_trillionths(-1_234_567_890_120).to_string(),
        "-1.23456789012"
    );
    assert_eq!(
        NumType::from_steps(1).to_string(),
        "0.000000000000000000000000000000000004"
    );
    assert_eq!(
        NumType::from_steps(-STEPS - 25).to_string(),
        "-1.0000000000000000000000000000000001"
    );
    assert_eq!(NumType::from_steps(STEPS).to_string(), "1");
    assert_eq!(
        NumType::from_steps(i128::MAX).to_string(),
        "680.564733841876926926749214863536422908"
    );
    assert_eq!(
        NumType::from_steps(i128::MIN).to_string(),
        "-680.564733841876926926749214863536422912"
    );
}

#[test]
fn components_in_decimal() {
    assert_eq!(c(0.).to_string(), "0");
    assert_eq!(c(0.2).to_string(), "0.2");
    assert_eq!(c(-1.).to_string(), "-1");
    assert_eq!(c(360.).to_string(), "360");
    assert_eq!(Component::from_trillionths(1).to_string(), "0.000000000001");
    assert_eq!(
        Component::from_trillionths(-120_030_000_000_000).to_string(),
        "-120.03"
    );
    assert_eq!(
        Component::from_trillionths(i64::MAX).to_string(),
        "9223372.036854775807"
    );
    assert_eq!(
        Component::from_trillionths(i64::MIN).to_string(),
        "-9223372.036854775808"
    );
}

#[test]
fn numbers_from_whole_numbers_and_back() {
    assert_eq!(NumType::from_int(255), n(255.));
    assert_eq!(NumType::from_int(0).steps(), 0);
    assert_eq!(NumType::from_int(7).steps(), 7 * STEPS);
    assert_eq!(NumType::from_trillionths(3).steps(), 3 * GRAIN);
    assert_eq!(n(10.9).trunc(), 10);
    assert_eq!(n(-10.9).trunc(), -10);
    assert_eq!(n(0.999999999).trunc(), 0);
    assert_eq!(n(255.).trunc(), 255);
    assert_eq!(c(0.25).widen(), n(0.25));
    assert_eq!(c(0.25).trillionths(), 250_000_000_000);
}

#[test]
fn numbers_reach_from_minus_680_to_680() {
    assert_eq!(NumType::from_trillionths(680_000_000_000_000), n(680.));
    assert_eq!(NumType::from_trillionths(681_000_000_000_000), n(680.));
    assert_eq!(NumType::from_trillionths(i64::MAX), n(680.));
    assert_eq!(NumType::from_trillionths(-681_000_000_000_000), n(-680.));
    assert_eq!(c(1000.).widen(), n(680.));
}

#[test]
fn messages_of_values_out_of_range() {
    assert_eq!(
        Exeptions::HueOutOfRange(c(400.)).to_string(),
        "Expectd a value inbetween 0 and 360 but got 400"
    );
    assert_eq!(
        Exeptions::SaturationOutOfRange(c(1.5)).to_string(),
        "Expectd a value inbetween 0 and 1 but got 1.5"
    );
    assert_eq!(
        Exeptions::LightnessOutOfRange(c(-0.25)).to_string(),
        "Expectd a value inbetween 0 and 1 but got -0.25"
    );
    assert_eq!(
        Exeptions::ValueOutOfRange(c(3.)).to_string(),
        "Expectd a value inbetween 0 and 1 but got 3"
    );
    assert_eq!(
        Exeptions::CyanOutOfRange(c(3.)).to_string(),
        "Expectd a value inbetween 0 and 1 but got 3"
    );
    assert_eq!(
        Exeptions::MagentaOutOfRange(c(4.)).to_string(),
        "Expectd a value inbetween 0 and 1 but got 4"
    );
    assert_eq!(
        Exeptions::YellowOutOfRange(c(5.)).to_string(),
        "Expectd a value inbetween 0 and 1 but got 5"
    );
    assert_eq!(
        Exeptions::BlackOutOfRange(c(6.)).to_string(),
        "Expectd a value inbetween 0 and 1 but got 6"
    );
    assert_eq!(
        Exeptions::RedOutOfRange(n(-1.)).to_string(),
        "Expectd a value inbetween 0 and 255 but got -1"
    );
    assert_eq!(
        Exeptions::GreenOutOfRange(n(255.5)).to_string(),
        "Expectd a value inbetween 0 and 255 but got 255.5"
    );
    assert_eq!(
        Exeptions::BlueOutOfRange(n(600.)).to_string(),
        "Expectd a value inbetween 0 and 255 but got 600"
    );
    assert_eq!(
        Exeptions::AlphaOutOfRange(c(2.)).to_string(),
        "Expectd a value inbetween 0 and 1 but got 2"
    );
}

#[test]
fn messages_of_hex_faults() {
    assert_eq!(
        Exeptions::IncorrectLength(4).to_string(),
        "Expctd a length between 6 and 7 (inclusive), but got length 4"
    );
    assert_eq!(
        Exeptions::IncorrectLength(0).to_string(),
        "Expctd a length between 6 and 7 (inclusive), but got length 0"
    );
    assert_eq!(
        Exeptions::IncorrectLength(1234).to_string(),
        "Expctd a length between 6 and 7 (inclusive), but got length 1234"
    );
    assert_eq!(
        Exeptions::InvalidHex("12345g".to_string()).to_string(),
        "Expectd hexadecimal digits worth 24 bits but got 12345g"
    );
}
