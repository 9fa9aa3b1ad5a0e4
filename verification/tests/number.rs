use cargo_service_message::json::{decode, Json, Parsed};
use cargo_service_message::number::{exceeds, FIVE_BITS, INFINITY_BITS, SIGN_BIT};

#[test]
fn five_is_five() {
    assert_eq!(FIVE_BITS, 5f64.to_bits());
    assert_eq!(INFINITY_BITS, f64::INFINITY.to_bits());
    assert_eq!(SIGN_BIT, (-0f64).to_bits());
}

#[test]
fn doubles_are_ordered_as_the_machine_orders_them() {
    let values = [
        0.0,
        -0.0,
        1.0,
        -1.0,
        5.0,
        4.999999999999999,
        5.000000000000001,
        -5.0,
        0.23798263500000005,
        20.2379826350000005,
        f64::MIN_POSITIVE,
        -f64::MIN_POSITIVE,
        5e-324,
        -5e-324,
        f64::MAX,
        f64::MIN,
        f64::INFINITY,
        f64::NEG_INFINITY,
        f64::NAN,
        -f64::NAN,
        1e300,
        -1e-300,
    ];
    for a in values {
        for b in values {
            assert_eq!(exceeds(a.to_bits(), b.to_bits()), a > b, "{} > {}", a, b);
        }
    }
}

fn number(text: &str) -> cargo_service_message::number::JsonNumber {
    let line = format!("{{\"n\": {}}}", text);
    match decode(&line).into_iter().next() {
        Some(Parsed::Event(mut object)) => match object.entries.pop() {
            Some((_, Json::Number(n))) => n,
            _ => panic!("a number was expected"),
        },
        _ => panic!("an object was expected"),
    }
}

#[test]
fn numbers_are_read_in_every_form() {
    let n = number("326");
    assert_eq!(n.unsigned(), Some(326));
    assert_eq!(n.signed(), Some(326));
    assert_eq!(n.count(), 326);
    assert_eq!(n.bits().map(f64::from_bits), Some(326.0));
    assert_eq!(n.fixed(2), Some("326.00".to_string()));
    assert_eq!(n.fixed(6), Some("326.000000".to_string()));

    let n = number("-3");
    assert_eq!(n.unsigned(), None);
    assert_eq!(n.signed(), Some(-3));
    assert_eq!(n.count(), u64::MAX - 2);
    assert_eq!(n.bits().map(f64::from_bits), Some(-3.0));
    assert_eq!(n.fixed(6), Some("-3.000000".to_string()));

    let n = number("18446744073709551615");
    assert_eq!(n.unsigned(), Some(u64::MAX));
    assert_eq!(n.signed(), None);
    assert_eq!(n.count(), 0);

    let n = number("0.005");
    assert_eq!(n.unsigned(), None);
    assert_eq!(n.signed(), None);
    assert_eq!(n.count(), 0);
    assert_eq!(n.bits().map(f64::from_bits), Some(0.005));
    assert_eq!(n.fixed(2), Some(format!("{:.2}", 0.005f64)));
    assert_eq!(n.fixed(6), Some("0.005000".to_string()));
}

#[test]
fn doubles_are_written_with_as_many_decimals_as_asked() {
    let n = number("20.2379826350000005");
    assert_eq!(n.fixed(0), Some("20".to_string()));
    assert_eq!(n.fixed(2), Some("20.24".to_string()));
    assert_eq!(n.fixed(6), Some("20.237983".to_string()));
    assert_eq!(n.fixed(255).map(|text| text.len()), Some(258));
    let n = number("1e300");
    assert_eq!(n.fixed(1).map(|text| text.len()), Some(303));
    let n = number("-0.0");
    assert_eq!(n.bits(), Some((-0f64).to_bits()));
    assert_eq!(n.fixed(2), Some("-0.00".to_string()));
}
