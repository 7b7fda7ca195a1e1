use zfs_backend::text::chars::{
    alphanumeric, ascii_lower_of, chars_of, control, digit, string_of, whitespace,
};
use zfs_backend::text::decimal::{decimal_text, hex2_text, parse_u64_text};
use zfs_backend::text::order::{insert_sorted, text_before};
use zfs_backend::text::search::{contains, starts_with_text, trim_end_text, trim_text};
use zfs_backend::text::split::{
    first_piece_text, join_texts, last_piece_text, lines_text, rsplit_once_text, split_nonempty,
    split_once_text, split_text,
};

#[test]
fn character_classes() {
    for code in 0..=0x10ffffu32 {
        if let Some(c) = char::from_u32(code) {
            assert_eq!(control(c), c.is_control(), "{code:#x}");
            assert_eq!(whitespace(c), c.is_whitespace(), "{code:#x}");
            assert_eq!(digit(c), c.is_ascii_digit(), "{code:#x}");
            assert_eq!(alphanumeric(c), c.is_ascii_alphanumeric(), "{code:#x}");
        }
    }
}

fn samples() -> Vec<&'static str> {
    vec![
        "", "a", "/", "//", "a/b", "/a/b/", "a//b", "tank/data/p1", "é/ü", "a,b,,c,", ",", "ab\ncd",
        "\n", "a\r\nb\n", "a\r", "\r\n\r\n", "a\n\nb", "x\u{2028}y\n", " a ", "\u{3000}a\t\u{85}",
        "ib", "kib", "kibib", "abab", "aab", "a=b=c", "@", "ds@snap@x",
    ]
}

#[test]
fn splitting() {
    for s in samples() {
        for sep in ['/', ',', '=', '@', 'a', 'é'] {
            assert_eq!(split_text(s, sep), s.split(sep).collect::<Vec<_>>());
            assert_eq!(
                split_nonempty(s, sep),
                s.split(sep).filter(|p| !p.is_empty()).collect::<Vec<_>>()
            );
            let pair = |p: Option<(&str, &str)>| p.map(|(a, b)| (a.to_string(), b.to_string()));
            assert_eq!(split_once_text(s, sep), pair(s.split_once(sep)));
            assert_eq!(rsplit_once_text(s, sep), pair(s.rsplit_once(sep)));
            assert_eq!(last_piece_text(s, sep), s.rsplit(sep).next().unwrap());
            assert_eq!(first_piece_text(s, sep), s.split(sep).next().unwrap());
        }
        assert_eq!(lines_text(s), s.lines().collect::<Vec<_>>(), "{s:?}");
        let parts = split_text(s, ',');
        assert_eq!(join_texts(&parts, ","), s);
    }
}

#[test]
fn searching() {
    for s in samples() {
        assert_eq!(trim_text(s), s.trim(), "{s:?}");
        for p in ["a", "ab", "ib", "b", "/", "ds", "é", "aab"] {
            assert_eq!(contains(s, p), s.contains(p));
            assert_eq!(starts_with_text(s, p), s.starts_with(p));
            assert_eq!(trim_end_text(s, p), s.trim_end_matches(p));
        }
        for t in samples() {
            assert_eq!(text_before(s, t), s < t, "{s:?} {t:?}");
        }
        let chars = chars_of(s);
        assert_eq!(string_of(&chars, 0, chars.len()), s);
        let lower = ascii_lower_of(&chars_of("AzÀ[9"));
        assert_eq!(string_of(&lower, 0, lower.len()), "AzÀ[9".to_ascii_lowercase());
    }
}

#[test]
fn numbers() {
    for n in [0, 1, 9, 10, 99, 100, 16384, u64::MAX - 1, u64::MAX] {
        assert_eq!(decimal_text(n), n.to_string());
        assert_eq!(parse_u64_text(&n.to_string()), Some(n));
    }
    for s in ["", "+", "+0", "007", "-0", "1_0", "٣", "18446744073709551616", "++1", " 1"] {
        assert_eq!(parse_u64_text(s), s.parse::<u64>().ok(), "{s:?}");
    }
    for n in 0..=255u8 {
        assert_eq!(hex2_text(n), format!("{n:02x}"));
    }
}

#[test]
fn sorted_insertion() {
    let mut list = Vec::new();
    for s in ["b", "a", "c", "b", "", "ab", "a"] {
        insert_sorted(&mut list, s.to_string());
    }
    assert_eq!(list, vec!["", "a", "ab", "b", "c"]);
}
