use roost_engine::entropy::{
    epoch_from, epoch_of, hex_id, hex_name, instance_id_from, mint_instance_id, name_from, random_epoch,
    random_name,
};
use roost_engine::path;
use roost_engine::text;
use roost_engine::text_map::{TextMap, TextSet};

#[test]
fn numbers_are_written_and_read() {
    assert_eq!(text::decimal_u64(0), "0");
    assert_eq!(text::decimal_u64(u64::MAX), "18446744073709551615");
    assert_eq!(text::decimal_i64(i64::MIN), "-9223372036854775808");
    let read = |s: &str| text::parse_i64(&text::chars_of(s));
    assert_eq!(read("-9223372036854775808"), Some(i64::MIN));
    assert_eq!(read("9223372036854775808"), None);
    assert_eq!(read("+7"), Some(7));
    assert_eq!(read(""), None);
    assert_eq!(read("1 "), None);
    assert_eq!(text::hex_padded_u64(0xab, 4), "00ab");
}

#[test]
fn lines_and_pieces_are_cut_like_lines_and_pieces() {
    let lines = |s: &str| text::lines_of(&text::chars_of(s));
    for s in ["", "a", "a\n", "a\nb", "a\r\nb\n\n", "\n"] {
        let expected: Vec<String> = s.lines().map(str::to_string).collect();
        assert_eq!(lines(s), expected, "{s:?}");
    }
    for s in ["", "/", "a/b", "/a//b/"] {
        let expected: Vec<String> = s.split('/').map(str::to_string).collect();
        assert_eq!(text::split_at_each(&text::chars_of(s), '/'), expected, "{s:?}");
    }
}

#[test]
fn white_space_is_trimmed_like_white_space() {
    for s in ["", " ", " a b ", "\t\u{a0}x\u{2028}", "\u{3000}", "\u{200b}z"] {
        assert_eq!(
            text::string_of(text::trim(&text::chars_of(s))),
            s.trim(),
            "{s:?}"
        );
    }
}

#[test]
fn prefixes_and_needles_are_found() {
    assert_eq!(text::strip_prefix("file://x", "file://"), Some("x".to_string()));
    assert_eq!(text::strip_prefix("x", "file://"), None);
    assert!(text::contains_text("missing field `a`", "missing field"));
    assert!(!text::contains_text("missing", "missing field"));
    assert!(text::contains_text("x", ""));
}

#[test]
fn paths_end_in_the_names_that_paths_end_in() {
    for p in ["", "/", "a", "/a", "/a/", "/a/.", "/a/..", ".", "..", "./a", "/a//b", "a/./b/."] {
        let std_path = std::path::Path::new(p);
        assert_eq!(
            path::file_name(p),
            std_path.file_name().map(|n| n.to_str().unwrap().to_string()),
            "{p:?}"
        );
        assert_eq!(
            path::parent(p),
            std_path.parent().map(|n| n.to_str().unwrap().to_string()),
            "{p:?}"
        );
        for q in ["", "/", "a", "/a", "a/b", "./a", "/a/b"] {
            assert_eq!(
                path::same_path(p, q),
                std_path == std::path::Path::new(q),
                "{p:?} {q:?}"
            );
            assert_eq!(
                path::join(p, q),
                std_path.join(q).to_str().unwrap(),
                "{p:?} {q:?}"
            );
        }
    }
    assert!(path::is_absolute("/a") && !path::is_absolute("a"));
}

#[test]
fn random_names_are_well_formed() {
    assert_eq!(epoch_of([0xff; 8]), i64::MAX as u64);
    assert_eq!(epoch_of([1, 0, 0, 0, 0, 0, 0, 0]), 1);
    assert_eq!(hex_id(0x0123_4567_89ab_cdef), "0123456789abcdef");
    assert_eq!(hex_name([0, 1, 2, 3, 0xfc, 0xfd, 0xfe, 0xff]), "00010203fcfdfeff");
    let name = random_name().expect("randomness");
    assert_eq!(name.len(), 16);
    let id = mint_instance_id().expect("randomness");
    assert_eq!(id.len(), 16);
    assert!(id.chars().all(|c| c.is_ascii_hexdigit() && !c.is_ascii_uppercase()));
    assert!(id.as_bytes()[0] < b'8');
    assert_ne!(mint_instance_id(), mint_instance_id());
    assert!(random_epoch().expect("randomness") <= i64::MAX as u64);
}

#[test]
fn a_draw_decides_what_is_named() {
    let bytes = [1, 2, 3, 4, 5, 6, 7, 0x88];
    assert_eq!(name_from(Ok(bytes)).as_deref(), Some("0102030405060788"));
    assert_eq!(epoch_from(Ok(bytes)), Some(0x0807_0605_0403_0201));
    assert_eq!(instance_id_from(Ok(bytes)).as_deref(), Some("0807060504030201"));
    assert_eq!(name_from(Err(getrandom::Error::UNSUPPORTED)), None);
    assert_eq!(epoch_from(Err(getrandom::Error::UNSUPPORTED)), None);
    assert_eq!(instance_id_from(Err(getrandom::Error::UNSUPPORTED)), None);
}

#[test]
fn maps_and_sets_of_text_keep_one_of_each() {
    let mut map = TextMap::new();
    map.insert("a".to_string(), "1".to_string());
    map.insert("a".to_string(), "2".to_string());
    map.insert_if_absent("a".to_string(), "3".to_string());
    map.insert_if_absent("b".to_string(), "4".to_string());
    assert_eq!(map.len(), 2);
    assert_eq!(map.get("a"), Some(&"2".to_string()));
    assert_eq!(map.copy().get("b"), Some(&"4".to_string()));
    assert!(!map.contains("c") && !map.is_empty());
    let mut set = TextSet::new();
    set.insert("a".to_string());
    set.insert("a".to_string());
    set.remove("a");
    assert!(!set.contains("a"));
}
