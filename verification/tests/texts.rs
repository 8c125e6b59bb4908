use spoolctl::clock::{from_millis, time_between};
use spoolctl::lines::{join_texts, lines_of, unlines_of};
use spoolctl::number::{decimal_text, padded_text, signed_text};
use spoolctl::order::{not_after, sort_texts, sorted_set, stable_positions};
use spoolctl::paths::join_path;
use spoolctl::settings::{
    make_line, means_on, own_data_dir, read_entry, settings_path_for_peers, upsert_key,
};
use spoolctl::shell::shell_result;
use spoolctl::text::{
    begins_with, chars_of, contains_any, contains_text, find_char, same, split_chars, string_of,
    to_ascii_lower, to_ascii_upper, trim_text,
};
use spoolctl::theme::{Palette, Rgb, Role};
use spoolctl::wide::{decode_lossy, decode_strict, encode_units, to_wide, units_of_bytes, until_nul};

fn owned(list: &[&str]) -> Vec<String> {
    list.iter().map(|s| s.to_string()).collect()
}

#[test]
fn trimming_twice_is_trimming_once() {
    let once = trim_text(" \t\u{3000}a b\r\n");
    assert_eq!(once, "a b");
    assert_eq!(trim_text(&once), once);
    assert_eq!(trim_text(" \n"), "");
}

#[test]
fn searching_in_texts() {
    let v = chars_of("абвабв");
    assert!(begins_with(&v, "абв"));
    assert!(!begins_with(&v, "бв"));
    assert!(contains_text(&v, "ваб"));
    assert!(contains_text(&v, ""));
    assert!(!contains_text(&v, "вв"));
    assert!(contains_any(&v, "xyв"));
    assert!(!contains_any(&v, "xyz"));
    assert_eq!(find_char(&v, 'в'), 2);
    assert_eq!(find_char(&v, 'x'), 6);
    assert!(same("a", "a"));
    assert!(!same("a", "aa"));
}

#[test]
fn splitting_texts() {
    let parts: Vec<String> = split_chars(&chars_of("a..b."), '.').iter().map(string_of).collect();
    assert_eq!(parts, vec!["a", "", "b", ""]);
    assert_eq!(split_chars(&chars_of(""), '.').len(), 1);
}

#[test]
fn ascii_letters_change_case() {
    assert_eq!(string_of(&to_ascii_lower("AbЯ9")), "abЯ9");
    assert_eq!(string_of(&to_ascii_upper("aZя[")), "AZя[");
}

#[test]
fn numbers_in_decimal() {
    assert_eq!(decimal_text(0), "0");
    assert_eq!(decimal_text(u128::MAX), u128::MAX.to_string());
    assert_eq!(signed_text(-42), "-42");
    assert_eq!(signed_text(i64::MIN), i64::MIN.to_string());
    assert_eq!(padded_text(7, 3), "007");
    assert_eq!(padded_text(1234, 3), "1234");
}

#[test]
fn numbers_read_back() {
    for n in [0u128, 9, 10, 99, 100, 65535] {
        assert_eq!(decimal_text(n).parse::<u128>().unwrap(), n);
    }
}

#[test]
fn lines_read_back() {
    let parts = owned(&["a", "", "b c"]);
    assert_eq!(unlines_of(&parts), "a\n\nb c\n");
    assert_eq!(lines_of(&unlines_of(&parts)), parts);
    assert_eq!(lines_of("a\r\nb\n\nc\r"), owned(&["a", "b", "", "c\r"]));
    assert!(lines_of("").is_empty());
    assert_eq!(join_texts(&parts, "; "), "a; ; b c");
    assert_eq!(join_texts(&[], "; "), "");
}

#[test]
fn sorting_ignores_the_order() {
    let a = owned(&["б", "a", "a", "aa", "Z"]);
    let b = owned(&["a", "Z", "б", "aa", "a"]);
    assert_eq!(sort_texts(&a), owned(&["Z", "a", "a", "aa", "б"]));
    assert_eq!(sort_texts(&a), sort_texts(&b));
    assert_eq!(sorted_set(&a), owned(&["Z", "a", "aa", "б"]));
}

#[test]
fn texts_are_ordered_totally() {
    for a in ["", "a", "b", "ab"] {
        for b in ["", "a", "b", "ab"] {
            assert_eq!(not_after(a, b), a <= b);
        }
    }
}

#[test]
fn sorting_by_key_is_stable() {
    let keys: Vec<Vec<char>> = ["b", "a", "b", "a"].iter().map(|k| chars_of(k)).collect();
    assert_eq!(stable_positions(&keys), vec![1, 3, 0, 2]);
}

#[test]
fn wide_texts_read_back() {
    let s = "aЯ😀";
    assert_eq!(encode_units(s), s.encode_utf16().collect::<Vec<u16>>());
    let wide = to_wide(s);
    assert_eq!(wide.last(), Some(&0));
    assert_eq!(decode_lossy(&until_nul(&wide)), s);
    assert_eq!(decode_strict(&encode_units(s)).as_deref(), Some(s));
}

#[test]
fn lonely_surrogates() {
    let bad = vec![0x61, 0xD800, 0x62, 0xDC00];
    assert_eq!(decode_lossy(&bad), String::from_utf16_lossy(&bad));
    assert_eq!(decode_strict(&bad), None);
    assert_eq!(units_of_bytes(&vec![1, 2, 3, 4, 5]), vec![0x0201, 0x0403]);
}

#[test]
fn joined_paths_end_with_their_part() {
    assert_eq!(join_path("a", "b"), "a\\b");
    assert_eq!(join_path("a\\", "b"), "a\\b");
    assert_eq!(join_path("C:", "b"), "C:b");
    assert_eq!(join_path("", "b"), "b");
    assert_eq!(join_path("a/", "b"), "a/b");
}

#[test]
fn verbatim_paths_are_put_together_anew() {
    assert_eq!(join_path(r"\\?\C:\x/", "b"), r"\\?\C:\x/\b");
    assert_eq!(join_path(r"\\?\C:\x\\y\", "b"), r"\\?\C:\x\y\b");
    assert_eq!(join_path(r"\\?\C:", "b"), r"\\?\C:\b");
    assert_eq!(join_path(r"\\?\C:\", "b"), r"\\?\C:\b");
    assert_eq!(join_path(r"\\?\C:/x", "b"), r"\\?\C:\x\b");
    assert_eq!(join_path(r"\\?\C:x\y", "b"), r"\\?\C:x\y\b");
    assert_eq!(join_path(r"\\?\UNC\srv\share\\x", "b"), r"\\?\UNC\srv\share\x\b");
    assert_eq!(join_path(r"\\?\UNC\srv", "b"), r"\\?\UNC\srv\b");
    assert_eq!(join_path(r"\\?\UNC\srv\\x", "b"), r"\\?\UNC\srv\x\b");
    assert_eq!(join_path(r"\\?\Volume{1}\.\x", "b"), r"\\?\Volume{1}\.\x\b");
    assert_eq!(join_path("//?/C:/x/", "b"), "//?/C:/x/b");
}

#[test]
fn entries_of_a_settings_file() {
    let e = |s: &str| read_entry(s).map(|(k, v)| format!("{k}|{v}"));
    assert_eq!(e(" a = b = c ").as_deref(), Some("a|b = c"));
    assert_eq!(e("# a=b"), None);
    assert_eq!(e("   "), None);
    assert_eq!(e("a"), None);
    assert_eq!(e("=b").as_deref(), Some("|b"));
    assert_eq!(make_line("k", "v"), "k=v");
    assert_eq!(e(&make_line("k", "v")).as_deref(), Some("k|v"));
    for v in ["1", "true", "yes", "on"] {
        assert!(means_on(v));
    }
    assert!(!means_on("ON"));
    assert!(!means_on("0"));
}

#[test]
fn one_key_is_set_and_the_others_stay() {
    assert_eq!(upsert_key(None, "k", "v"), "# SpoolCtl settings\nk=v\n");
    assert_eq!(upsert_key(Some(""), "k", "v"), "k=v\n");
    assert_eq!(
        upsert_key(Some("a=1\r\n#k=0\nk=1\nk=2"), "k", "v"),
        "a=1\n#k=0\nk=v\nk=2\n"
    );
}

#[test]
fn where_the_settings_are() {
    assert_eq!(
        settings_path_for_peers(Some(r"D:\p"), Some(r"C:\L"), r"C:\T"),
        r"D:\p\spoolctl-settings.txt"
    );
    assert_eq!(
        settings_path_for_peers(None, Some(r"C:\L"), r"C:\T"),
        r"C:\L\SpoolCtl\spoolctl-settings.txt"
    );
    assert_eq!(own_data_dir(None, r"C:\T"), r"C:\T\SpoolCtl");
}

#[test]
fn lengths_of_time() {
    assert_eq!(from_millis(80), 80_000_000);
    assert_eq!(time_between(5, 3), 2);
    assert_eq!(time_between(3, 5), 0);
}

#[test]
fn the_shell_reports_by_code() {
    assert_eq!(shell_result("x", 33), Ok(()));
    assert_eq!(shell_result("x", 0), Err("Не удалось открыть x (код 0).".to_owned()));
}

#[test]
fn palettes_of_both_themes() {
    let dark = Palette::for_dark(true);
    let light = Palette::for_dark(false);
    assert_eq!(dark.tip_text, Rgb { r: 235, g: 244, b: 255 });
    assert_eq!(light.tip_text, Rgb { r: 18, g: 52, b: 86 });
    assert_eq!(light.of(Role::Error), Rgb { r: 170, g: 35, b: 45 });
    assert_eq!(dark.of(Role::Good), dark.ok);
    assert_eq!(dark.of(Role::Accent), dark.accent);
    assert_eq!(dark.of(Role::Text), dark.text);
}
