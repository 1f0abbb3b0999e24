use plexi_core::decimal::{format_u64, parse_u64};
use plexi_core::{Epoch, PlexiError, FIRST_EPOCH};

#[test]
fn epoch_first() {
    assert!(Epoch::from(1).is_first());
    assert!(!Epoch::from(0).is_first());
    assert!(!Epoch::from(2).is_first());
    assert_eq!(FIRST_EPOCH, 1);
    assert!(Epoch::from(FIRST_EPOCH).is_first());
}

#[test]
fn epoch_conversions() {
    let e = Epoch::from(42);
    assert_eq!(u64::from(e), 42);
    assert_eq!(u64::from(&e), 42);
    assert_eq!(e.number(), 42);
    assert_eq!(Epoch::new(7).number(), 7);
}

#[test]
fn epoch_comparisons() {
    let a = Epoch::from(3);
    let b = Epoch::from(5);
    assert!(a < b);
    assert!(b > a);
    assert!(a <= a);
    assert!(a == Epoch::from(3));
    assert!(a != b);
    assert!(a == 3u64);
    assert!(3u64 == a);
    assert!(a != 4u64);
    assert_eq!(
        a.partial_cmp(&b),
        Some(std::cmp::Ordering::Less)
    );
    assert_eq!(
        b.partial_cmp(&a),
        Some(std::cmp::Ordering::Greater)
    );
    assert_eq!(
        a.partial_cmp(&a),
        Some(std::cmp::Ordering::Equal)
    );
}

#[test]
fn epoch_arithmetic() {
    let a = Epoch::from(10);
    assert_eq!((a + 1).number(), 11);
    assert_eq!((a - 1).number(), 9);
    assert_eq!((a + Epoch::from(5)).number(), 15);
    assert_eq!((a - Epoch::from(4)).number(), 6);
    assert_eq!(a.previous().number(), 9);
}

#[test]
fn epoch_as_root_epoch() {
    assert_eq!(Epoch::from(5).as_root_epoch("ab12"), "5/ab12");
    assert_eq!(Epoch::from(0).as_root_epoch(""), "0/");
    assert_eq!(
        Epoch::from(u64::MAX).as_root_epoch("ff"),
        "18446744073709551615/ff"
    );
}

#[test]
fn epoch_to_string() {
    assert_eq!(Epoch::from(0).to_string(), "0");
    assert_eq!(Epoch::from(1234567890).to_string(), "1234567890");
}

#[test]
fn epoch_parse() {
    assert_eq!(Epoch::parse("17").unwrap().number(), 17);
    assert_eq!("17".parse::<Epoch>().unwrap().number(), 17);
    assert_eq!(
        Epoch::parse("18446744073709551615").unwrap().number(),
        u64::MAX
    );
    for bad in ["", "x", "-1", "1.5", "18446744073709551616", " 1", "1/"] {
        match Epoch::parse(bad) {
            Err(PlexiError::BadParameter(name)) => assert_eq!(name, "epoch"),
            other => panic!("{:?} gave {:?}", bad, other.map(|e| e.number())),
        }
    }
}

#[test]
fn decimal_parse_agrees_with_std() {
    for text in [
        "0",
        "00",
        "+0",
        "+",
        "-0",
        "",
        "1",
        "9",
        "10",
        "18446744073709551615",
        "18446744073709551616",
        "99999999999999999999999",
        "000000000000000000000000000001",
        "12a",
        "a12",
        "1_000",
        "++1",
        "٣",
        "1\n",
    ] {
        assert_eq!(parse_u64(text), text.parse::<u64>().ok(), "{:?}", text);
    }
}

#[test]
fn decimal_format_agrees_with_std_and_reads_back() {
    for n in [0u64, 1, 9, 10, 99, 100, 12345, u64::MAX - 1, u64::MAX] {
        let text = format_u64(n);
        assert_eq!(text, n.to_string());
        assert_eq!(parse_u64(&text), Some(n));
    }
}
