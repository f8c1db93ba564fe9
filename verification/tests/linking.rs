//! What the build-time setup works out from the answers of `llvm-config`.

use circt::build_common::{
    link_name, same_bytes, strip_prefix, strip_suffix, system_libcpp, system_libs, target_is,
};

#[test]
fn the_cpp_runtime_depends_on_the_target() {
    assert_eq!(system_libcpp(Some(b"msvc"), Some(b"windows")), None);
    assert_eq!(system_libcpp(Some(b"msvc"), Some(b"macos")), None);
    assert_eq!(system_libcpp(Some(b"msvc"), None), None);
    assert_eq!(system_libcpp(Some(b""), Some(b"macos")), Some("c++"));
    assert_eq!(system_libcpp(None, Some(b"macos")), Some("c++"));
    assert_eq!(system_libcpp(Some(b"gnu"), Some(b"freebsd")), Some("c++"));
    assert_eq!(system_libcpp(Some(b"gnu"), Some(b"linux")), Some("stdc++"));
    assert_eq!(system_libcpp(Some(b"musl"), Some(b"linux")), Some("stdc++"));
    assert_eq!(system_libcpp(None, None), Some("stdc++"));
    assert_eq!(system_libcpp(Some(b"msvcrt"), Some(b"windows")), Some("stdc++"));
    assert_eq!(system_libcpp(Some(b"MSVC"), Some(b"windows")), Some("stdc++"));
    assert_eq!(system_libcpp(Some(b"gnu"), Some(b"macosx")), Some("stdc++"));
    assert_eq!(system_libcpp(Some(b"macos"), Some(b"msvc")), Some("stdc++"));
}

#[test]
fn a_target_setting_is_compared_byte_for_byte() {
    assert!(target_is(Some(b"msvc"), b"msvc"));
    assert!(!target_is(Some(b"msv"), b"msvc"));
    assert!(!target_is(Some(b"msvc "), b"msvc"));
    assert!(!target_is(None, b"msvc"));
    assert!(!target_is(None, b""));
    assert!(target_is(Some(b""), b""));
    assert!(same_bytes(b"freebsd", b"freebsd"));
    assert!(!same_bytes(b"freebsd", b"freebsD"));
    assert!(!same_bytes(b"", b"x"));
}

#[test]
fn prefixes_and_suffixes_come_off_once() {
    assert_eq!(strip_prefix(b"-lrt", b"-l"), b"rt");
    assert_eq!(strip_prefix(b"-l-lrt", b"-l"), b"-lrt");
    assert_eq!(strip_prefix(b"rt", b"-l"), b"rt");
    assert_eq!(strip_prefix(b"-", b"-l"), b"-");
    assert_eq!(strip_prefix(b"-l", b"-l"), b"");
    assert_eq!(strip_prefix(b"abc", b""), b"abc");
    assert_eq!(strip_suffix(b"z.lib", b".lib"), b"z");
    assert_eq!(strip_suffix(b"z.lib.lib", b".lib"), b"z.lib");
    assert_eq!(strip_suffix(b"z.lob", b".lib"), b"z.lob");
    assert_eq!(strip_suffix(b"lib", b".lib"), b"lib");
    assert_eq!(strip_suffix(b".lib", b".lib"), b"");
}

#[test]
fn linker_arguments_name_libraries() {
    assert_eq!(link_name(b"-lrt"), b"rt");
    assert_eq!(link_name(b"-llibxml2.tbd"), b"xml2");
    assert_eq!(link_name(b"-lz.lib"), b"z");
    assert_eq!(link_name(b"psapi.lib"), b"psapi");
    assert_eq!(link_name(b"-llib"), b"");
    assert_eq!(link_name(b"-llib-lm"), b"m");
    assert_eq!(link_name(b"-lz.lib.tbd"), b"z");
    assert_eq!(link_name(b"-lz.tbd.lib"), b"z.tbd");
    assert_eq!(link_name(b"ole32"), b"ole32");
    assert_eq!(link_name(b""), b"");
}

#[test]
fn system_libraries_are_read_off_the_output() {
    let names = system_libs(b"-lrt -ldl\n-lm  -llibz.tbd\n");
    assert_eq!(names, vec![&b"rt"[..], &b"dl"[..], &b"m"[..], &b"z"[..]]);
    assert_eq!(system_libs(b"psapi.lib shell32.lib"), vec![&b"psapi"[..], &b"shell32"[..]]);
    assert_eq!(system_libs(b"-lpthread"), vec![&b"pthread"[..]]);
    assert!(system_libs(b"").is_empty());
    assert!(system_libs(b" \n \n").is_empty());
    assert_eq!(system_libs(b"\t-lm"), vec![&b"\t-lm"[..]]);
}
