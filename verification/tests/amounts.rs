use xmrtui::amount::{format_xmr, parse_xmr, XmrInput};
use xmrtui::send::{transfer_request, SendError};

fn pico(s: &str) -> Option<u64> {
    match parse_xmr(s) {
        XmrInput::Pico(p) => Some(p),
        _ => None,
    }
}

#[test]
fn formats_whole_and_fractional_xmr() {
    assert_eq!(format_xmr(1_500_000_000_000), "1.5");
    assert_eq!(format_xmr(0), "0.0");
    assert_eq!(format_xmr(1), "0.000000000001");
    assert_eq!(format_xmr(150_000_000_000_000), "150.0");
    assert_eq!(format_xmr(250_000_000_000), "0.25");
    assert_eq!(format_xmr(u64::MAX), "18446744.073709551615");
}

#[test]
fn integers_are_whole_xmr() {
    assert_eq!(pico("1"), Some(1_000_000_000_000));
    assert_eq!(pico(" 1_000 "), Some(1_000_000_000_000_000));
    assert_eq!(pico("+2"), Some(2_000_000_000_000));
    assert_eq!(pico("0"), Some(0));
    assert_eq!(pico("18446744"), Some(18_446_744_000_000_000_000));
}

#[test]
fn empty_and_overflowing_amounts() {
    assert!(matches!(parse_xmr(""), XmrInput::Empty));
    assert!(matches!(parse_xmr("  __ "), XmrInput::Empty));
    match parse_xmr(" _ _ ") {
        XmrInput::Decimal(t) => assert_eq!(t, " "),
        _ => panic!("inner white space stays"),
    }
    assert!(matches!(parse_xmr("18446745"), XmrInput::Overflow));
}

#[test]
fn fractions_are_left_to_the_caller() {
    match parse_xmr(" 0_.5 ") {
        XmrInput::Decimal(t) => assert_eq!(t, "0.5"),
        _ => panic!("expected a decimal"),
    }
    match parse_xmr("99999999999999999999") {
        XmrInput::Decimal(t) => assert_eq!(t, "99999999999999999999"),
        _ => panic!("expected a decimal"),
    }
    match parse_xmr("-1") {
        XmrInput::Decimal(t) => assert_eq!(t, "-1"),
        _ => panic!("expected a decimal"),
    }
}

#[test]
fn whole_amount_round_trip() {
    for n in [0u64, 1, 7, 42, 18446744] {
        let p = pico(&n.to_string()).unwrap();
        assert_eq!(format_xmr(p), format!("{n}.0"));
    }
}

const ADDRESS: &str =
    "4ADT1BtbxqEWeMKp9GgPr2NeyJXXtNxvoDawpyA4WpzFcGcoHUvXeijE66DNfohE9r1bQYaBiQjEtKE7CtkTdLwiDznFzra";

#[test]
fn transfer_request_checks_address_then_amount() {
    assert!(matches!(transfer_request("4notanaddress", "1"), Err(SendError::InvalidAddress)));
    assert!(matches!(transfer_request("4notanaddress", ""), Err(SendError::InvalidAddress)));
    assert!(matches!(transfer_request(ADDRESS, " "), Err(SendError::EmptyAmount)));
    assert!(matches!(transfer_request(ADDRESS, "99999999"), Err(SendError::AmountOverflow)));
    let other = "4Byr22j9M2878Mtyb3fEPcBNwBZf5EXqn1Yi6VzR46618SFBrYysab2Cs1474CVDbsh94AJq7vuV3Z2DRq4zLcY3LHzo1Nbv3d8J6VhvCV";
    match transfer_request(ADDRESS, other) {
        Ok((addr, XmrInput::Decimal(_))) => assert_eq!(addr.to_string(), ADDRESS),
        _ => panic!("the destination is the address text"),
    }
    match transfer_request(ADDRESS, "2") {
        Ok((addr, XmrInput::Pico(p))) => {
            assert_eq!(addr.to_string(), ADDRESS);
            assert_eq!(p, 2_000_000_000_000);
        }
        _ => panic!("expected a whole amount"),
    }
    assert!(matches!(transfer_request(ADDRESS, "0.1"), Ok((_, XmrInput::Decimal(_)))));
}
