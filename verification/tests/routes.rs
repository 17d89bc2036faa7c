use dialtone::routes::{find_exact_route, is_valid_prefix, routes};

#[test]
fn route_table_contents() {
    let t = routes();
    assert_eq!(t.len(), 3);
    assert_eq!(t[0].digits, b"5664".to_vec());
    assert_eq!((t[0].file_index, t[0].ring_total_ms), (1, 4000));
    assert_eq!(t[1].digits, b"88522222".to_vec());
    assert_eq!((t[1].file_index, t[1].ring_total_ms), (2, 7000));
    assert_eq!(t[2].digits, b"112".to_vec());
    assert_eq!((t[2].file_index, t[2].ring_total_ms), (3, 7500));
}

#[test]
fn prefixes() {
    assert!(is_valid_prefix(b""));
    assert!(is_valid_prefix(b"5"));
    assert!(is_valid_prefix(b"566"));
    assert!(is_valid_prefix(b"5664"));
    assert!(is_valid_prefix(b"8852"));
    assert!(is_valid_prefix(b"11"));
    assert!(!is_valid_prefix(b"56645"));
    assert!(!is_valid_prefix(b"9"));
    assert!(!is_valid_prefix(b"12"));
}

#[test]
fn exact_routes() {
    let r = find_exact_route(b"5664").unwrap();
    assert_eq!((r.file_index, r.ring_total_ms), (1, 4000));
    let r = find_exact_route(b"88522222").unwrap();
    assert_eq!((r.file_index, r.ring_total_ms), (2, 7000));
    let r = find_exact_route(b"112").unwrap();
    assert_eq!((r.file_index, r.ring_total_ms), (3, 7500));
    assert!(find_exact_route(b"566").is_none());
    assert!(find_exact_route(b"").is_none());
    assert!(find_exact_route(b"1120").is_none());
}
