use mqtt_shell::resize::{TerminalResize, DEFAULT_COLS, DEFAULT_ROWS};

fn decode(text: &str) -> Option<TerminalResize> {
    TerminalResize::decode(text.as_bytes())
}

#[test]
fn resize_encode_gives_the_wire_form() {
    let msg = TerminalResize { rows: 40, cols: 120 };
    assert_eq!(msg.encode(), b"{\"rows\":40,\"cols\":120}".to_vec());
}

#[test]
fn resize_encode_writes_each_number_in_decimal() {
    assert_eq!(TerminalResize { rows: 24, cols: 80 }.encode(), b"{\"rows\":24,\"cols\":80}".to_vec());
    assert_eq!(TerminalResize { rows: 1, cols: 65535 }.encode(), b"{\"rows\":1,\"cols\":65535}".to_vec());
    assert_eq!(TerminalResize { rows: 9, cols: 10 }.encode(), b"{\"rows\":9,\"cols\":10}".to_vec());
    assert_eq!(TerminalResize { rows: 100, cols: 10000 }.encode(), b"{\"rows\":100,\"cols\":10000}".to_vec());
    assert_eq!(TerminalResize { rows: 0, cols: 0 }.encode(), b"{\"rows\":0,\"cols\":0}".to_vec());
}

#[test]
fn resize_encode_is_read_by_a_json_parser() {
    let bytes = TerminalResize { rows: 51, cols: 203 }.encode();
    let value: serde_json::Value = serde_json::from_slice(&bytes).unwrap();
    assert_eq!(value.get("rows").and_then(|v| v.as_u64()), Some(51));
    assert_eq!(value.get("cols").and_then(|v| v.as_u64()), Some(203));
    assert_eq!(value.as_object().map(|o| o.len()), Some(2));
}

#[test]
fn resize_decode_reads_a_valid_message() {
    assert_eq!(decode("{\"rows\":40,\"cols\":120}"), Some(TerminalResize { rows: 40, cols: 120 }));
}

#[test]
fn resize_decode_does_not_depend_on_member_order_or_spacing() {
    assert_eq!(decode("{\"cols\":120,\"rows\":40}"), Some(TerminalResize { rows: 40, cols: 120 }));
    assert_eq!(
        decode(" { \"rows\" : 40 ,\n \"cols\" : 120 } "),
        Some(TerminalResize { rows: 40, cols: 120 })
    );
}

#[test]
fn resize_decode_ignores_other_members() {
    assert_eq!(
        decode("{\"rows\":2,\"cols\":3,\"pixel_width\":0,\"note\":\"x\"}"),
        Some(TerminalResize { rows: 2, cols: 3 })
    );
}

#[test]
fn resize_decode_takes_the_largest_sixteen_bit_size() {
    assert_eq!(
        decode("{\"rows\":65535,\"cols\":65535}"),
        Some(TerminalResize { rows: 65535, cols: 65535 })
    );
    assert_eq!(decode("{\"rows\":1,\"cols\":1}"), Some(TerminalResize { rows: 1, cols: 1 }));
}

#[test]
fn resize_decode_rejects_a_missing_field() {
    assert_eq!(decode("{\"rows\":40}"), None);
    assert_eq!(decode("{\"cols\":120}"), None);
    assert_eq!(decode("{}"), None);
}

#[test]
fn resize_decode_rejects_zero() {
    assert_eq!(decode("{\"rows\":0,\"cols\":80}"), None);
    assert_eq!(decode("{\"rows\":24,\"cols\":0}"), None);
    assert_eq!(decode("{\"rows\":0,\"cols\":0}"), None);
}

#[test]
fn resize_decode_rejects_negative_numbers() {
    assert_eq!(decode("{\"rows\":-1,\"cols\":80}"), None);
    assert_eq!(decode("{\"rows\":24,\"cols\":-80}"), None);
}

#[test]
fn resize_decode_rejects_numbers_that_do_not_fit() {
    assert_eq!(decode("{\"rows\":65536,\"cols\":80}"), None);
    assert_eq!(decode("{\"rows\":24,\"cols\":4294967296}"), None);
    assert_eq!(decode("{\"rows\":24,\"cols\":99999999999999999999999}"), None);
}

#[test]
fn resize_decode_rejects_members_that_are_not_integers() {
    assert_eq!(decode("{\"rows\":24.0,\"cols\":80}"), None);
    assert_eq!(decode("{\"rows\":\"24\",\"cols\":80}"), None);
    assert_eq!(decode("{\"rows\":null,\"cols\":80}"), None);
    assert_eq!(decode("{\"rows\":[24],\"cols\":80}"), None);
    assert_eq!(decode("{\"rows\":true,\"cols\":80}"), None);
}

#[test]
fn resize_decode_rejects_what_is_not_an_object() {
    assert_eq!(decode("[24,80]"), None);
    assert_eq!(decode("24"), None);
    assert_eq!(decode("\"rows\""), None);
    assert_eq!(decode("null"), None);
}

#[test]
fn resize_decode_rejects_what_is_not_json() {
    assert_eq!(decode(""), None);
    assert_eq!(decode("rows=24 cols=80"), None);
    assert_eq!(decode("{\"rows\":24,\"cols\":80"), None);
    assert_eq!(decode("{\"rows\":24,\"cols\":80} trailing"), None);
    assert_eq!(TerminalResize::decode(&[0xff, 0xfe, 0x00]), None);
}

#[test]
fn resize_decode_reads_back_what_encode_wrote() {
    for &(rows, cols) in &[(1u16, 1u16), (24, 80), (40, 120), (9, 10), (999, 1000), (65535, 65535)] {
        let msg = TerminalResize { rows, cols };
        assert_eq!(TerminalResize::decode(&msg.encode()), Some(msg));
    }
}

#[test]
fn resize_decode_rejects_an_encoded_empty_size() {
    let bytes = TerminalResize { rows: 0, cols: 80 }.encode();
    assert_eq!(TerminalResize::decode(&bytes), None);
}

#[test]
fn resize_from_fields_needs_both_fields_positive_and_small() {
    assert_eq!(
        TerminalResize::from_fields(Some(40), Some(120)),
        Some(TerminalResize { rows: 40, cols: 120 })
    );
    assert_eq!(TerminalResize::from_fields(None, Some(120)), None);
    assert_eq!(TerminalResize::from_fields(Some(40), None), None);
    assert_eq!(TerminalResize::from_fields(None, None), None);
    assert_eq!(TerminalResize::from_fields(Some(0), Some(120)), None);
    assert_eq!(TerminalResize::from_fields(Some(40), Some(0)), None);
    assert_eq!(TerminalResize::from_fields(Some(65536), Some(1)), None);
    assert_eq!(TerminalResize::from_fields(Some(1), Some(u64::MAX)), None);
    assert_eq!(
        TerminalResize::from_fields(Some(65535), Some(1)),
        Some(TerminalResize { rows: 65535, cols: 1 })
    );
}

#[test]
fn resize_new_refuses_zero() {
    assert_eq!(TerminalResize::new(24, 80), Some(TerminalResize { rows: 24, cols: 80 }));
    assert_eq!(TerminalResize::new(0, 80), None);
    assert_eq!(TerminalResize::new(24, 0), None);
}

#[test]
fn resize_validity_means_both_positive() {
    assert!(TerminalResize { rows: 1, cols: 1 }.is_valid());
    assert!(!TerminalResize { rows: 0, cols: 1 }.is_valid());
    assert!(!TerminalResize { rows: 1, cols: 0 }.is_valid());
}

#[test]
fn resize_fallback_is_eighty_by_twenty_four() {
    let r = TerminalResize::fallback();
    assert_eq!((r.cols, r.rows), (80, 24));
    assert_eq!((DEFAULT_COLS, DEFAULT_ROWS), (80, 24));
}
