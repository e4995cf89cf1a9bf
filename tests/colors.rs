use image::Rgba;
use verandah_plugin_utils::colors::{
    get_color, hex, invalid_colors, lookup, parse_colors, parse_hex,
};

fn labeled(entries: &[(&str, &str)]) -> Vec<(String, String)> {
    entries
        .iter()
        .map(|(k, v)| (k.to_string(), v.to_string()))
        .collect()
}

// Named color tests
#[test]
fn test_lookup_basic_colors() {
    assert_eq!(lookup("red"), Some(Rgba([255, 0, 0, 255])));
    assert_eq!(lookup("green"), Some(Rgba([0, 128, 0, 255])));
    assert_eq!(lookup("blue"), Some(Rgba([0, 0, 255, 255])));
    assert_eq!(lookup("white"), Some(Rgba([255, 255, 255, 255])));
    assert_eq!(lookup("black"), Some(Rgba([0, 0, 0, 255])));
}

#[test]
fn test_lookup_case_insensitive() {
    assert_eq!(lookup("RED"), Some(Rgba([255, 0, 0, 255])));
    assert_eq!(lookup("Red"), Some(Rgba([255, 0, 0, 255])));
    assert_eq!(lookup("rEd"), Some(Rgba([255, 0, 0, 255])));
}

#[test]
fn test_lookup_aliases() {
    assert_eq!(lookup("gray"), lookup("grey"));
    assert_eq!(lookup("aqua"), lookup("cyan"));
    assert_eq!(lookup("fuchsia"), lookup("magenta"));
}

#[test]
fn test_lookup_rebeccapurple() {
    assert_eq!(
        lookup("rebeccapurple"),
        Some(Rgba([0x66, 0x33, 0x99, 0xFF]))
    );
}

// Hex color tests
#[test]
fn test_lookup_hex_rrggbb() {
    let rgba = lookup("#ff6b35").unwrap();
    assert_eq!(rgba, Rgba([255, 107, 53, 255]));
}

#[test]
fn test_lookup_hex_rgb() {
    let rgba = lookup("#fab").unwrap();
    assert_eq!(rgba, Rgba([0xff, 0xaa, 0xbb, 0xff]));
}

#[test]
fn test_lookup_hex_rrggbbaa() {
    let rgba = lookup("#ff6b3580").unwrap();
    assert_eq!(rgba, Rgba([255, 107, 53, 128]));
}

#[test]
fn test_lookup_hex_black() {
    let rgba = lookup("#000000").unwrap();
    assert_eq!(rgba, Rgba([0, 0, 0, 255]));
}

#[test]
fn test_lookup_hex_white() {
    let rgba = lookup("#ffffff").unwrap();
    assert_eq!(rgba, Rgba([255, 255, 255, 255]));
}

#[test]
fn test_lookup_hex_requires_hash() {
    assert!(lookup("ff6b35").is_none());
    assert!(lookup("fab").is_none());
}

#[test]
fn test_lookup_hex_invalid_length() {
    assert!(lookup("#ff").is_none());
    assert!(lookup("#ffff").is_none());
    assert!(lookup("#fffff").is_none());
    assert!(lookup("#fffffff").is_none());
    assert!(lookup("#fffffffff").is_none());
}

#[test]
fn test_lookup_hex_invalid_hex() {
    assert!(lookup("#gggggg").is_none());
    assert!(lookup("#zzzzzz").is_none());
}

#[test]
fn test_lookup_unknown() {
    assert!(lookup("notacolor").is_none());
    assert!(lookup("").is_none());
}

#[test]
fn test_get_color_found() {
    let colors = vec![("fg".to_string(), Rgba([255, 0, 0, 255]))];
    assert_eq!(
        get_color(&colors, "fg", Rgba([0, 0, 0, 255])),
        Rgba([255, 0, 0, 255])
    );
}

#[test]
fn test_get_color_not_found() {
    let colors: Vec<(String, Rgba<u8>)> = Vec::new();
    assert_eq!(
        get_color(&colors, "fg", Rgba([0, 0, 0, 255])),
        Rgba([0, 0, 0, 255])
    );
}

#[test]
fn test_const_hex_rgb() {
    let color: Rgba<u8> = hex("#fab");
    assert_eq!(color, Rgba([0xff, 0xaa, 0xbb, 0xff]));
}

#[test]
fn test_const_hex_rrggbb() {
    let color: Rgba<u8> = hex("#ff6b35");
    assert_eq!(color, Rgba([255, 107, 53, 255]));
}

#[test]
fn test_const_hex_rrggbbaa() {
    let color: Rgba<u8> = hex("#ff6b3580");
    assert_eq!(color, Rgba([255, 107, 53, 128]));
}

const DIGITS: &str = "0123456789abcdef";

#[test]
fn short_hex_replicates_each_digit() {
    for (r, rc) in DIGITS.chars().enumerate() {
        for (g, gc) in DIGITS.chars().enumerate() {
            for (b, bc) in DIGITS.chars().enumerate() {
                let s = format!("#{}{}{}", rc, gc, bc);
                let expected = Rgba([(r * 17) as u8, (g * 17) as u8, (b * 17) as u8, 255]);
                assert_eq!(lookup(&s), Some(expected));
                assert_eq!(lookup(&s.to_uppercase()), Some(expected));
            }
        }
    }
}

#[test]
fn long_hex_takes_digit_pairs() {
    assert_eq!(lookup("#0a1B2c"), Some(Rgba([10, 27, 44, 255])));
    assert_eq!(lookup("#0a1B2c3D"), Some(Rgba([10, 27, 44, 61])));
    assert_eq!(lookup("#FFFFFF00"), Some(Rgba([255, 255, 255, 0])));
    assert_eq!(lookup("#12345678"), Some(Rgba([0x12, 0x34, 0x56, 0x78])));
}

#[test]
fn case_of_names_and_digits_is_ignored() {
    assert_eq!(lookup("SteelBlue"), lookup("steelblue"));
    assert_eq!(lookup("steelblue"), Some(Rgba([0x46, 0x82, 0xB4, 255])));
    assert_eq!(lookup("#FF6B35"), lookup("#ff6b35"));
    assert_eq!(lookup("LightGoldenRodYellow"), Some(Rgba([0xFA, 0xFA, 0xD2, 255])));
}

#[test]
fn malformed_specifications_resolve_to_nothing() {
    assert!(lookup("#").is_none());
    assert!(lookup("#ff6b3").is_none());
    assert!(lookup("#ff6b35 ").is_none());
    assert!(lookup(" #ff6b35").is_none());
    assert!(lookup("#ff6b3g").is_none());
    assert!(lookup("#ff6b35800").is_none());
    assert!(lookup("ff6b3580").is_none());
    assert!(lookup("steel blue").is_none());
    assert!(lookup("#é00").is_none());
    assert!(lookup("réd").is_none());
}

#[test]
fn parse_hex_is_strict() {
    assert_eq!(parse_hex("#fab"), Some(Rgba([255, 170, 187, 255])));
    assert_eq!(parse_hex("#ff6b3580"), Some(Rgba([255, 107, 53, 128])));
    assert_eq!(parse_hex("red"), None);
    assert_eq!(parse_hex("#12"), None);
    assert_eq!(parse_hex("#12345"), None);
    assert_eq!(parse_hex("#xyz"), None);
}

#[test]
fn every_named_color_resolves() {
    let names = [
        "aliceblue", "darkslategrey", "lightslategray", "mediumspringgreen", "papayawhip",
        "yellowgreen", "tan", "navy", "olive", "silver",
    ];
    for name in names {
        assert!(lookup(name).is_some(), "{}", name);
    }
    assert_eq!(lookup("tan"), Some(Rgba([0xD2, 0xB4, 0x8C, 255])));
    assert_eq!(lookup("darkslategray"), lookup("DARKSLATEGREY"));
}

#[test]
fn parse_colors_drops_bad_entries() {
    let input = labeled(&[("fg", "red"), ("bad", "xyz")]);
    let parsed = parse_colors(&input);
    assert_eq!(parsed, vec![("fg".to_string(), Rgba([255, 0, 0, 255]))]);
}

#[test]
fn parse_colors_keeps_labels_and_order() {
    let input = labeled(&[
        ("bg", "#000"),
        ("nope", "#12"),
        ("fg", "White"),
        ("accent", "#ff6b3580"),
        ("empty", ""),
    ]);
    let parsed = parse_colors(&input);
    assert_eq!(
        parsed,
        vec![
            ("bg".to_string(), Rgba([0, 0, 0, 255])),
            ("fg".to_string(), Rgba([255, 255, 255, 255])),
            ("accent".to_string(), Rgba([255, 107, 53, 128])),
        ]
    );
    assert!(parse_colors(&Vec::new()).is_empty());
}

#[test]
fn get_color_takes_first_match() {
    let colors = vec![
        ("bg".to_string(), Rgba([1, 2, 3, 4])),
        ("fg".to_string(), Rgba([5, 6, 7, 8])),
        ("fg".to_string(), Rgba([9, 9, 9, 9])),
    ];
    assert_eq!(get_color(&colors, "fg", Rgba([0, 0, 0, 0])), Rgba([5, 6, 7, 8]));
    assert_eq!(get_color(&colors, "FG", Rgba([0, 0, 0, 0])), Rgba([0, 0, 0, 0]));
}

#[test]
fn invalid_colors_reports_skipped_entries() {
    let input = labeled(&[("fg", "red"), ("bad", "xyz"), ("bg", "#000"), ("short", "#12")]);
    assert_eq!(
        invalid_colors(&input),
        vec![
            ("bad".to_string(), "xyz".to_string()),
            ("short".to_string(), "#12".to_string()),
        ]
    );
    assert!(invalid_colors(&labeled(&[("fg", "Red")])).is_empty());
}
