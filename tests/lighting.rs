use rgbkbd::color::{parse_channel, parse_hex_color};
use rgbkbd::device::is_led_interface;
use rgbkbd::layout::offset_of_key;
use rgbkbd::text::{str_eq, trim_start_all_of};
use rgbkbd::{
    assign, build_reports, encode_layout, encode_led_map, new_map, parse_color, parse_key_name,
    resolve_target, set_map, Color, ErrorKind, Target, NUM_KEYS,
};

const BLACK: Color = Color { r: 0, g: 0, b: 0 };

fn offset(i: usize) -> usize {
    (i / 12) * 36 + i % 12
}

#[test]
fn offsets_of_all_keys() {
    let mut seen = [false; 444];
    for i in 0..NUM_KEYS {
        let o = offset_of_key(i);
        assert_eq!(o, offset(i));
        for ch in 0..3 {
            assert!(!seen[o + 12 * ch]);
            seen[o + 12 * ch] = true;
        }
    }
    assert_eq!(offset_of_key(0), 0);
    assert_eq!(offset_of_key(11), 11);
    assert_eq!(offset_of_key(12), 36);
    assert_eq!(offset_of_key(143), 407);
    assert!(seen[..432].iter().all(|s| *s));
    assert!(seen[432..].iter().all(|s| !*s));
}

#[test]
fn single_key_layout_for_every_key() {
    let c = Color { r: 7, g: 8, b: 9 };
    for i in 0..NUM_KEYS {
        let mut map = new_map();
        assign(&mut map, Target::Key(i), c).unwrap();
        let hw = encode_layout(&map);
        for p in 0..444 {
            let expected = if p == offset(i) {
                7
            } else if p == offset(i) + 12 {
                8
            } else if p == offset(i) + 24 {
                9
            } else {
                0
            };
            assert_eq!(hw[p], expected);
        }
    }
}

#[test]
fn encoding_gives_seven_full_reports() {
    let mut map = new_map();
    for i in 0..NUM_KEYS {
        map[i] = Color { r: i as u8, g: 255 - i as u8, b: 3 };
    }
    let reports = encode_led_map(&map);
    assert_eq!(reports.len(), 7);
    for r in &reports {
        assert_eq!(r.len(), 65);
        assert_eq!(r[0], 0);
    }
}

#[test]
fn first_report_carries_preamble() {
    for c in [BLACK, Color { r: 255, g: 255, b: 255 }, Color { r: 0xA1, g: 1, b: 0xB4 }] {
        let mut map = new_map();
        assign(&mut map, Target::All, c).unwrap();
        let reports = encode_led_map(&map);
        assert_eq!(&reports[0][1..5], &[0xA1, 0x01, 0x01, 0xB4]);
    }
}

#[test]
fn reports_carry_layout_in_order() {
    let mut hw = [0u8; 444];
    for p in 0..444 {
        hw[p] = (p % 251) as u8;
    }
    let reports = build_reports(&hw);
    assert_eq!(reports.len(), 7);
    assert_eq!(&reports[0][5..65], &hw[0..60]);
    for k in 1..7 {
        assert_eq!(reports[k][0], 0);
        assert_eq!(&reports[k][1..65], &hw[60 + 64 * (k - 1)..60 + 64 * k]);
    }
}

#[test]
fn all_then_single_key_override() {
    let c = Color { r: 10, g: 20, b: 30 };
    let c2 = Color { r: 1, g: 2, b: 3 };
    let mut map = new_map();
    assign(&mut map, Target::All, c).unwrap();
    let all = encode_layout(&map);
    for i in 0..NUM_KEYS {
        assert_eq!(all[offset(i)], 10);
        assert_eq!(all[offset(i) + 12], 20);
        assert_eq!(all[offset(i) + 24], 30);
    }
    assign(&mut map, Target::Key(50), c2).unwrap();
    let after = encode_layout(&map);
    let k = offset(50);
    for p in 0..444 {
        if p == k {
            assert_eq!(after[p], 1);
        } else if p == k + 12 {
            assert_eq!(after[p], 2);
        } else if p == k + 24 {
            assert_eq!(after[p], 3);
        } else {
            assert_eq!(after[p], all[p]);
        }
    }
}

#[test]
fn assign_out_of_range_index() {
    let mut map = new_map();
    let e = assign(&mut map, Target::Key(NUM_KEYS), Color { r: 1, g: 1, b: 1 }).unwrap_err();
    assert_eq!(e.kind, ErrorKind::InvalidKeyName);
    assert!(map.iter().all(|c| *c == BLACK));
}

#[test]
fn hex_literal_with_prefix() {
    let (c, next) = parse_color(&["0x112233"], 0, "ESC").unwrap();
    assert_eq!(c, Color { r: 17, g: 34, b: 51 });
    assert_eq!(next, 1);
    let (c, _) = parse_color(&["#FF0000"], 0, "ESC").unwrap();
    assert_eq!(c, Color { r: 255, g: 0, b: 0 });
    let (c, _) = parse_color(&["aBcDeF"], 0, "ESC").unwrap();
    assert_eq!(c, Color { r: 0xAB, g: 0xCD, b: 0xEF });
}

#[test]
fn decimal_triple_literal() {
    let (c, next) = parse_color(&["5", "10", "15"], 0, "ESC").unwrap();
    assert_eq!(c, Color { r: 5, g: 10, b: 15 });
    assert_eq!(next, 3);
    let (c, _) = parse_color(&["0", "255", "+7"], 0, "ESC").unwrap();
    assert_eq!(c, Color { r: 0, g: 255, b: 7 });
}

#[test]
fn four_hex_digits_rejected() {
    let e = parse_color(&["1234"], 0, "ESC").unwrap_err();
    assert_eq!(e.kind, ErrorKind::MalformedColorLiteral);
}

#[test]
fn malformed_literals_rejected() {
    for args in [
        &["12345g"][..],
        &["256", "0", "0"][..],
        &["1", "2"][..],
        &["1", "-2", "3"][..],
        &["1", "2", ""][..],
        &[][..],
    ] {
        let e = parse_color(args, 0, "ESC").unwrap_err();
        assert_eq!(e.kind, ErrorKind::MalformedColorLiteral);
    }
}

#[test]
fn channel_and_hex_parsers() {
    assert_eq!(parse_channel("0"), Some(0));
    assert_eq!(parse_channel("255"), Some(255));
    assert_eq!(parse_channel("0255"), Some(255));
    assert_eq!(parse_channel("256"), None);
    assert_eq!(parse_channel("99999999999"), None);
    assert_eq!(parse_channel("+"), None);
    assert_eq!(parse_channel(""), None);
    assert_eq!(parse_hex_color("000000"), Some(BLACK));
    assert_eq!(parse_hex_color("ffffff"), Some(Color { r: 255, g: 255, b: 255 }));
    assert_eq!(parse_hex_color("+12345"), None);
    assert_eq!(parse_hex_color("1234567"), None);
}

#[test]
fn esc_then_all_leaves_everything_black() {
    let mut map = new_map();
    set_map(&mut map, &["ESC", "#FF0000", "ALL", "000000"]).unwrap();
    assert_eq!(map[0], BLACK);
    assert!(map.iter().all(|c| *c == BLACK));
}

#[test]
fn all_then_key_last_write_wins() {
    let mut map = new_map();
    set_map(&mut map, &["all", "010203", "key_esc", "4", "5", "6"]).unwrap();
    assert_eq!(map[0], Color { r: 4, g: 5, b: 6 });
    assert!(map[1..].iter().all(|c| *c == Color { r: 1, g: 2, b: 3 }));
}

#[test]
fn key_names_resolve() {
    assert_eq!(parse_key_name("ESC"), Some(0));
    assert_eq!(resolve_target("KEY_ESC"), Some(Target::Key(0)));
    assert_eq!(resolve_target("ESC"), Some(Target::Key(0)));
    assert_eq!(resolve_target("ALL"), Some(Target::All));
    assert_eq!(resolve_target("NONEXISTENT"), None);
    assert_eq!(parse_key_name("FN"), Some(76));
    assert_eq!(parse_key_name("RIGHTMETA"), Some(76));
    assert_eq!(parse_key_name("KPENTER"), Some(131));
    assert_eq!(parse_key_name("esc"), None);
    assert_eq!(parse_key_name("NONEXISTENT"), None);
}

#[test]
fn unknown_key_name_fails_without_change() {
    let mut map = new_map();
    let e = set_map(&mut map, &["ESC", "#FF0000", "NONEXISTENT", "000000"]).unwrap_err();
    assert_eq!(e.kind, ErrorKind::InvalidKeyName);
    assert_eq!(e.subject, "NONEXISTENT");
    assert!(map.iter().all(|c| *c == BLACK));
}

#[test]
fn lower_case_key_prefix_is_upper_cased() {
    let mut map = new_map();
    set_map(&mut map, &["key_esc", "0x0a0b0c"]).unwrap();
    assert_eq!(map[0], Color { r: 10, g: 11, b: 12 });
}

#[test]
fn malformed_colour_reported_before_key() {
    let mut map = new_map();
    let e = set_map(&mut map, &["NONEXISTENT", "1234"]).unwrap_err();
    assert_eq!(e.kind, ErrorKind::MalformedColorLiteral);
    let e = set_map(&mut map, &["ESC"]).unwrap_err();
    assert_eq!(e.kind, ErrorKind::MalformedColorLiteral);
}

#[test]
fn no_instructions_leave_map() {
    let mut map = new_map();
    map[3] = Color { r: 9, g: 9, b: 9 };
    set_map(&mut map, &[]).unwrap();
    assert_eq!(map[3], Color { r: 9, g: 9, b: 9 });
}

#[test]
fn text_helpers() {
    assert!(str_eq("abc", "abc"));
    assert!(!str_eq("abc", "abd"));
    assert!(!str_eq("abc", "ab"));
    assert_eq!(trim_start_all_of("0x0x12", "0x"), "12");
    assert_eq!(trim_start_all_of("KEY_KEY_A", "KEY_"), "A");
    assert_eq!(trim_start_all_of("A", "KEY_"), "A");
}

#[test]
fn led_interface_matching() {
    assert!(is_led_interface(0x1e7d, 0x3098, 3));
    assert!(is_led_interface(0x1e7d, 0x307a, 3));
    assert!(!is_led_interface(0x1e7d, 0x307a, 2));
    assert!(!is_led_interface(0x1e7e, 0x3098, 3));
    assert!(!is_led_interface(0x1e7d, 0x3099, 3));
}
