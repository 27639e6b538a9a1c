use drizzle_postgres::mac::{parse_mac, parse_mac_array};
use drizzle_postgres::values::PostgresValue;

#[test]
fn mac_addresses_parse_from_text() {
    assert_eq!(parse_mac("08:00:2b:01:02:03", 6), Some(vec![0x08, 0x00, 0x2b, 0x01, 0x02, 0x03]));
    assert_eq!(parse_mac("AA:bb:Cc:00:ff:10", 6), Some(vec![0xaa, 0xbb, 0xcc, 0x00, 0xff, 0x10]));
    assert_eq!(parse_mac("01:02:03:04:05:06:07:08", 8), Some(vec![1, 2, 3, 4, 5, 6, 7, 8]));
    assert_eq!(parse_mac("+1:02:03:04:05:06", 6), Some(vec![1, 2, 3, 4, 5, 6]));
}

#[test]
fn malformed_mac_addresses_are_refused() {
    assert_eq!(parse_mac("08:00:2b:01:02", 6), None);
    assert_eq!(parse_mac("08:00:2b:01:02:03:04", 6), None);
    assert_eq!(parse_mac("08-00-2b-01-02-03", 6), None);
    assert_eq!(parse_mac("08:00:2g:01:02:03", 6), None);
    assert_eq!(parse_mac("8:00:2b:01:02:033", 6), None);
    assert_eq!(parse_mac("-1:00:2b:01:02:03", 6), None);
    assert_eq!(parse_mac("", 6), None);
    assert_eq!(parse_mac("", 0), None);
    assert_eq!(parse_mac("é0:00:2b:01:02:03", 6), None);
}

#[test]
fn mac_text_round_trips() {
    let bytes = [0xde, 0xad, 0xbe, 0xef, 0x00, 0x01];
    let text = PostgresValue::MacAddr(bytes).to_text();
    assert_eq!(text, "de:ad:be:ef:00:01");
    assert_eq!(parse_mac(&text, 6), Some(bytes.to_vec()));
    let long = [1, 2, 3, 4, 5, 6, 7, 0xff];
    let text8 = PostgresValue::MacAddr8(long).to_text();
    assert_eq!(parse_mac(&text8, 8), Some(long.to_vec()));
}

#[test]
fn mac_columns_parse_entry_by_entry() {
    let column = vec![Some("00:00:00:00:00:01".to_string()), None];
    assert_eq!(parse_mac_array(&column, 6), Some(vec![Some(vec![0, 0, 0, 0, 0, 1]), None]));
    let bad = vec![None, Some("zz".to_string())];
    assert_eq!(parse_mac_array(&bad, 6), None);
    assert_eq!(parse_mac_array(&[], 6), Some(vec![]));
}
