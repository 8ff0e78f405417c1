use lpp_recorder::route::{BaseBusRoute, BusRoute};

#[test]
fn common_parse_bus_route_correctly() {
    assert_eq!(
        BusRoute::from_route_name("6").unwrap(),
        BusRoute::from_components(None, 6, None, None),
    );

    assert_eq!(
        BusRoute::from_route_name("19").unwrap(),
        BusRoute::from_components(None, 19, None, None),
    );

    assert_eq!(
        BusRoute::from_route_name("3G").unwrap(),
        BusRoute::from_components(None, 3, Some("G".to_string()), None),
    );

    assert_eq!(
        BusRoute::from_route_name("N1").unwrap(),
        BusRoute::from_components(Some("N".to_string()), 1, None, None),
    );

    assert_eq!(
        BusRoute::from_route_name("N3B").unwrap(),
        BusRoute::from_components(Some("N".to_string()), 3, Some("B".to_string()), None),
    );

    assert_eq!(
        BusRoute::from_route_name("56 DOBROVA - ŠOLSKA").unwrap(),
        BusRoute::from_components(None, 56, None, Some(" DOBROVA - ŠOLSKA".to_string())),
    );

    assert_eq!(
        BusRoute::from_route_name("76(GROS.)").unwrap(),
        BusRoute::from_components(None, 76, None, Some("(GROS.)".to_string())),
    );
}

#[test]
fn parse_bus_route_correctly() {
    assert_eq!(
        BusRoute::from_route_name("6").unwrap(),
        BusRoute::from_components(None, 6, None, None),
    );

    assert_eq!(
        BusRoute::from_route_name("19").unwrap(),
        BusRoute::from_components(None, 19, None, None),
    );

    assert_eq!(
        BusRoute::from_route_name("3G").unwrap(),
        BusRoute::from_components(None, 3, Some("G".to_string()), None),
    );

    assert_eq!(
        BusRoute::from_route_name("N1").unwrap(),
        BusRoute::from_components(Some("N".to_string()), 1, None, None),
    );

    assert_eq!(
        BusRoute::from_route_name("N3B").unwrap(),
        BusRoute::from_components(Some("N".to_string()), 3, Some("B".to_string()), None),
    );
}

#[test]
fn empty_label_is_rejected() {
    let error = BusRoute::from_route_name("").unwrap_err();
    assert_eq!(error.route_name, "");
}

#[test]
fn label_without_number_is_rejected() {
    assert!(BusRoute::from_route_name("N").is_err());
    assert!(BusRoute::from_route_name("NG").is_err());
    assert_eq!(BusRoute::from_route_name("N").unwrap_err().route_name, "N");
}

#[test]
fn number_too_large_is_rejected() {
    assert!(BusRoute::from_route_name("99999999999").is_err());
    assert!(BusRoute::from_route_name("N99999999999B").is_err());
}

#[test]
fn prefix_is_upper_cased() {
    assert_eq!(
        BusRoute::from_route_name("n3").unwrap(),
        BusRoute::from_components(Some("N".to_string()), 3, None, None),
    );
    assert_eq!(
        BusRoute::from_route_name("č7").unwrap(),
        BusRoute::from_components(Some("Č".to_string()), 7, None, None),
    );
}

#[test]
fn letter_followed_by_text_is_trailing_text() {
    assert_eq!(
        BusRoute::from_route_name("3B NEKAJ").unwrap(),
        BusRoute::from_components(None, 3, None, Some("B NEKAJ".to_string())),
    );
    assert_eq!(
        BusRoute::from_route_name("11BC").unwrap(),
        BusRoute::from_components(None, 11, None, Some("BC".to_string())),
    );
}

#[test]
fn multi_byte_suffix_is_one_grapheme() {
    assert_eq!(
        BusRoute::from_route_name("3Š").unwrap(),
        BusRoute::from_components(None, 3, Some("Š".to_string()), None),
    );
}

#[test]
fn leading_zeros_and_plus_sign() {
    assert_eq!(
        BusRoute::from_route_name("007").unwrap(),
        BusRoute::from_components(None, 7, None, None),
    );
    assert_eq!(
        BusRoute::from_route_name("+5").unwrap(),
        BusRoute::from_components(None, 5, None, None),
    );
}

#[test]
fn canonical_label_reads_back() {
    for label in ["19", "3G", "N3B", "N1", "11B"] {
        let route = BusRoute::from_route_name(label).unwrap();
        let formatted = route.to_string();
        assert_eq!(formatted, label);
        assert_eq!(BusRoute::from_route_name(&formatted).unwrap(), route);
    }
    let route = BusRoute::from_route_name("n007b").unwrap();
    assert_eq!(route.to_string(), "N7b");
    assert_eq!(BusRoute::from_route_name(&route.to_string()).unwrap(), route);
}

#[test]
fn trailing_text_is_written_after_a_space() {
    let route = BusRoute::from_route_name("76(GROS.)").unwrap();
    assert_eq!(route.to_string(), "76 (GROS.)");
}

#[test]
fn base_route_ignores_prefix_and_suffix() {
    let a = BusRoute::from_route_name("3G").unwrap().to_base_route();
    let b = BusRoute::from_route_name("N3").unwrap().to_base_route();
    let c = BusRoute::from_route_name("3").unwrap().to_base_route();
    assert_eq!(a, b);
    assert_eq!(a, c);
    assert_eq!(a, BaseBusRoute::new_from_number(3));
    assert_ne!(a, BusRoute::from_route_name("13G").unwrap().to_base_route());
    assert_eq!(a.get(), 3);
    assert_eq!(a.to_string(), "3");
}

#[test]
fn base_route_from_text() {
    assert_eq!(BaseBusRoute::new_from_str("18").unwrap(), BaseBusRoute::new_from_number(18));
    let error = BaseBusRoute::new_from_str("18B").unwrap_err();
    assert_eq!(error.route_name, "18B");
}

#[test]
fn same_route_compares_all_parts() {
    let a = BusRoute::from_route_name("N3B").unwrap();
    let b = BusRoute::from_components(Some("N".to_string()), 3, Some("B".to_string()), None);
    let c = BusRoute::from_route_name("N3").unwrap();
    assert!(a.same_as(&b));
    assert!(!a.same_as(&c));
}

#[test]
fn sign_after_prefix_is_rejected() {
    assert!(BusRoute::from_route_name("N+3").is_err());
    assert!(BusRoute::from_route_name("N+3B").is_err());
    assert_eq!(
        BusRoute::from_route_name("N3").unwrap(),
        BusRoute::from_components(Some("N".to_string()), 3, None, None),
    );
}
