use bugstalker_dap::numbers::{cap_u32, extend_u64, reinterpret_u32, truncate_i32, truncate_u32};
use bugstalker_dap::text::{
    address_text, clone_text, decimal_signed, decimal_unsigned, join, path_file_name,
};

fn name(path: &str) -> Option<String> {
    path_file_name(path)
}

#[test]
fn decimal_agrees_with_std() {
    for n in [0u64, 1, 9, 10, 11, 99, 100, 4095, 4096, 1_000_000_007, u64::MAX] {
        assert_eq!(decimal_unsigned(n), format!("{n}"));
    }
    for n in [0i64, -1, 1, -9, -10, 42, i64::MIN, i64::MAX] {
        assert_eq!(decimal_signed(n), format!("{n}"));
    }
}

#[test]
fn addresses_are_hexadecimal() {
    assert_eq!(address_text(0), "0x0");
    assert_eq!(address_text(0xdeadbeef), "0xdeadbeef");
    for n in [15usize, 16, 255, 256, 0x7fff_0123_4567, usize::MAX] {
        assert_eq!(address_text(n), format!("{n:#x}"));
    }
}

#[test]
fn join_puts_separators_between() {
    assert_eq!(join(&vec![], ", "), "");
    assert_eq!(join(&vec!["a".to_string()], ", "), "a");
    assert_eq!(
        join(&vec!["a".to_string(), "".to_string(), "c".to_string()], ", "),
        "a, , c"
    );
}

#[test]
fn file_name_agrees_with_std() {
    let paths = [
        "", "/", ".", "..", "./", "../", "a", "a/", "a//", "/a", "/a/b.rs", "/a/b.rs/", "a/.",
        "a/./", "a/..", "a/../", "a/b/..", "./a", "../a", "//", "/.", "/..", "a/./.", "...",
        "a/...", ".hidden", "src/é/main.rs", "/usr/src/ü", "a b/c d", "..a", "a..", "././.",
    ];
    for path in paths {
        let expected = std::path::Path::new(path)
            .file_name()
            .map(|os| os.to_string_lossy().to_string());
        assert_eq!(name(path), expected, "{path:?}");
    }
}

#[test]
fn file_name_of_source() {
    assert_eq!(name("/home/user/src/main.rs"), Some("main.rs".to_string()));
    assert_eq!(name("/home/user/.."), None);
}

#[test]
fn file_name_of_long_paths() {
    let slashes = "/".repeat(200_000);
    assert_eq!(name(&slashes), None);
    assert_eq!(name(&format!("src/a.rs{slashes}")), Some("a.rs".to_string()));
    let long = "x".repeat(200_000);
    assert_eq!(name(&format!("/{long}")), Some(long));
}

#[test]
fn optional_texts_are_copied() {
    assert_eq!(clone_text(&None), None);
    assert_eq!(clone_text(&Some("x".to_string())), Some("x".to_string()));
}

#[test]
fn conversions_agree_with_casts() {
    for n in [0u64, 1, 0x7fff_ffff, 0x8000_0000, 0xffff_ffff, 0x1_0000_0000, 0x1_8000_0001, u64::MAX] {
        assert_eq!(truncate_u32(n), n as u32);
        assert_eq!(truncate_i32(n), n as i32);
    }
    for n in [0i32, 1, -1, i32::MIN, i32::MAX, 4242] {
        assert_eq!(reinterpret_u32(n), n as u32);
        assert_eq!(extend_u64(n), n as u64);
    }
    assert_eq!(cap_u32(7), 7);
    assert_eq!(cap_u32(u32::MAX as usize), u32::MAX);
    assert_eq!(cap_u32(u32::MAX as usize + 1), u32::MAX);
}
