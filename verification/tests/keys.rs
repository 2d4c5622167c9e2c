use extr::key::{get_extension, raw_extension_key};
use extr::paths::{find_last_dot, join_path, name_extension};
use extr::text::{join_strings, join_strs, owned, str_equal, str_less};

#[test]
fn compound_tar_suffix_gives_compound_key() {
    assert_eq!(get_extension("archive.tar.gz"), Some("tar.gz".to_string()));
    assert_eq!(get_extension("/data/backup.tar.bz2"), Some("tar.bz2".to_string()));
    assert_eq!(get_extension("a.b.tar.xz"), Some("tar.xz".to_string()));
}

#[test]
fn compound_key_is_lower_cased() {
    assert_eq!(get_extension("archive.tar.GZ"), Some("tar.gz".to_string()));
}

#[test]
fn tar_token_is_matched_exactly() {
    assert_eq!(get_extension("archive.TAR.gz"), Some("gz".to_string()));
    assert_eq!(get_extension("archive.star.gz"), Some("gz".to_string()));
}

#[test]
fn name_that_is_only_the_compound_suffix() {
    assert_eq!(get_extension("tar.gz"), Some("tar.gz".to_string()));
}

#[test]
fn single_suffix_is_lower_cased() {
    assert_eq!(get_extension("FILE.ZIP"), Some("zip".to_string()));
    assert_eq!(get_extension("file.zip"), Some("zip".to_string()));
    assert_eq!(get_extension("FILE.ZIP"), get_extension("file.zip"));
}

#[test]
fn name_without_dot_is_its_own_key() {
    assert_eq!(get_extension("README"), Some("readme".to_string()));
}

#[test]
fn name_ending_in_dot_has_empty_key() {
    assert_eq!(get_extension("file."), Some(String::new()));
}

#[test]
fn path_without_final_component_has_no_key() {
    assert_eq!(get_extension(""), None);
    assert_eq!(get_extension("/"), None);
    assert_eq!(get_extension("dir/.."), None);
}

#[test]
fn key_comes_from_the_final_component_only() {
    assert_eq!(get_extension("/some.tar/file.gz"), Some("gz".to_string()));
    assert_eq!(get_extension("dir.d/archive.7z"), Some("7z".to_string()));
}

#[test]
fn raw_key_keeps_case() {
    assert_eq!(raw_extension_key("Photo.JPG"), "JPG");
    assert_eq!(raw_extension_key("x.tar.GZ"), "tar.GZ");
    assert_eq!(raw_extension_key("plain"), "plain");
    assert_eq!(raw_extension_key(""), "");
    assert_eq!(raw_extension_key(".tar.zst"), "tar.zst");
}

#[test]
fn last_dot_positions() {
    assert_eq!(find_last_dot("a.b.c"), Some(3));
    assert_eq!(find_last_dot("abc"), None);
    assert_eq!(find_last_dot(""), None);
    assert_eq!(find_last_dot(".x"), Some(0));
    assert_eq!(find_last_dot("é.x"), Some(1));
}

#[test]
fn extension_of_a_name() {
    assert_eq!(name_extension("a.tar.gz"), Some("gz".to_string()));
    assert_eq!(name_extension("archive"), None);
    assert_eq!(name_extension(".hidden"), None);
    assert_eq!(name_extension("file."), Some(String::new()));
    assert_eq!(name_extension(".hidden.txt"), Some("txt".to_string()));
}

#[test]
fn joining_a_directory_and_a_name() {
    assert_eq!(join_path("out", "a.Z"), "out/a.Z");
    assert_eq!(join_path("out/", "a.Z"), "out/a.Z");
    assert_eq!(join_path("", "a.Z"), "a.Z");
    assert_eq!(join_path("/", "a.Z"), "/a.Z");
}

#[test]
fn string_equality_and_order() {
    assert!(str_equal("unar", "unar"));
    assert!(!str_equal("unar", "unrar"));
    assert!(str_less("7z", "arj"));
    assert!(str_less("tar", "tar.gz"));
    assert!(!str_less("tar.gz", "tar"));
    assert!(!str_less("zip", "zip"));
    assert!(str_less("", "a"));
    assert!(str_less("Z", "a"));
    assert_eq!(str_less("tbz2", "tgz"), "tbz2" < "tgz");
}

#[test]
fn joining_with_a_separator() {
    assert_eq!(join_strs(&vec!["a", "b", "c"], ", "), "a, b, c");
    assert_eq!(join_strs(&vec!["only"], ", "), "only");
    assert_eq!(join_strs(&vec![], ", "), "");
    assert_eq!(join_strings(&vec!["x".to_string(), "y".to_string()], "-"), "x-y");
    assert_eq!(owned(&vec!["a", "b"]), vec!["a".to_string(), "b".to_string()]);
}
