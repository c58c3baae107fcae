use cargo_arch::text::{
    chars_of, clone_texts, is_space, sanitize_version, split_license, string_of,
};

fn texts(items: &[&str]) -> Vec<String> {
    items.iter().map(|item| item.to_string()).collect()
}

#[test]
fn white_space_is_what_the_standard_library_trims() {
    let mut code: u32 = 0;
    while code <= 0x10FFFF {
        if let Some(c) = char::from_u32(code) {
            assert_eq!(is_space(c), c.is_whitespace(), "U+{:04X}", code);
        }
        code += 1;
    }
}

#[test]
fn hyphens_of_a_version_become_underscores() {
    assert_eq!(sanitize_version("1.2.0-beta"), "1.2.0_beta");
    assert_eq!(sanitize_version("1.0.0-rc.1-alpha"), "1.0.0_rc.1_alpha");
    assert_eq!(sanitize_version("--"), "__");
}

#[test]
fn a_version_without_hyphens_is_kept() {
    assert_eq!(sanitize_version("0.1.0"), "0.1.0");
    assert_eq!(sanitize_version(""), "");
    assert_eq!(sanitize_version("1_2+b\u{e9}ta"), "1_2+b\u{e9}ta");
}

#[test]
fn licenses_are_the_pieces_between_slashes() {
    assert_eq!(split_license("MIT/Apache-2.0"), texts(&["MIT", "Apache-2.0"]));
    assert_eq!(split_license("MIT"), texts(&["MIT"]));
    assert_eq!(split_license("A/B/C"), texts(&["A", "B", "C"]));
}

#[test]
fn empty_pieces_are_kept() {
    assert_eq!(split_license(""), texts(&[""]));
    assert_eq!(split_license("/"), texts(&["", ""]));
    assert_eq!(split_license("MIT/"), texts(&["MIT", ""]));
    assert_eq!(split_license("/MIT"), texts(&["", "MIT"]));
    assert_eq!(split_license("MIT//ISC"), texts(&["MIT", "", "ISC"]));
}

#[test]
fn each_license_is_trimmed() {
    assert_eq!(split_license("MIT / Apache-2.0"), texts(&["MIT", "Apache-2.0"]));
    assert_eq!(split_license("  MIT OR ISC \n"), texts(&["MIT OR ISC"]));
    assert_eq!(split_license(" \t / \u{3000}BSD\u{a0}"), texts(&["", "BSD"]));
}

#[test]
fn splitting_agrees_with_the_standard_library() {
    let samples = ["MIT/Apache-2.0", "", "/", "a//b/", " x /y ", "\u{2003}z\u{2003}/\u{e9}"];
    for sample in samples {
        let expected: Vec<String> = sample.split('/').map(|piece| piece.trim().to_string()).collect();
        assert_eq!(split_license(sample), expected);
    }
}

#[test]
fn characters_go_to_a_vector_and_back() {
    let chars = chars_of("a\u{e9}\u{4e2d}z");
    assert_eq!(chars, vec!['a', '\u{e9}', '\u{4e2d}', 'z']);
    assert_eq!(string_of(&chars, 0, 4), "a\u{e9}\u{4e2d}z");
    assert_eq!(string_of(&chars, 1, 3), "\u{e9}\u{4e2d}");
    assert_eq!(string_of(&chars, 2, 2), "");
    assert_eq!(chars_of(""), Vec::<char>::new());
}

#[test]
fn copy_of_a_list_is_equal_to_it() {
    let list = texts(&["a", "", "b c"]);
    assert_eq!(clone_texts(&list), list);
    assert_eq!(clone_texts(&Vec::new()), Vec::<String>::new());
}
