use ar_proxy::path::{join, staging_name};

fn parts(path: &str) -> Option<(String, String)> {
    staging_name(path)
}

fn pair(prefix: &str, suffix: &str) -> Option<(String, String)> {
    Some((prefix.to_string(), suffix.to_string()))
}

#[test]
fn name_keeps_stem_and_extension() {
    assert_eq!(parts("a/b/a/test.txt"), pair("test", ".txt"));
    assert_eq!(parts("test.txt"), pair("test", ".txt"));
    assert_eq!(parts("/abs/test.txt"), pair("test", ".txt"));
    assert_eq!(parts("a/b/lib-1.0.2.jar"), pair("lib-1.0.2", ".jar"));
    assert_eq!(parts("a/archive.tar.gz"), pair("archive.tar", ".gz"));
}

#[test]
fn extension_begins_at_the_last_dot() {
    assert_eq!(parts("foo."), pair("foo", "."));
    assert_eq!(parts("a/..foo"), pair(".", ".foo"));
    assert_eq!(parts("a/.b.c"), pair(".b", ".c"));
    assert_eq!(parts("a/..."), pair("..", "."));
}

#[test]
fn path_without_file_name_has_no_parts() {
    assert_eq!(parts(""), None);
    assert_eq!(parts("/"), None);
    assert_eq!(parts("//"), None);
    assert_eq!(parts("."), None);
    assert_eq!(parts("./"), None);
    assert_eq!(parts(".."), None);
    assert_eq!(parts("a/.."), None);
    assert_eq!(parts("a.txt/.."), None);
    assert_eq!(parts("a.txt/../"), None);
}

#[test]
fn file_name_without_extension_has_no_parts() {
    assert_eq!(parts("a/b/noext"), None);
    assert_eq!(parts("a.d/noext"), None);
    assert_eq!(parts("a/.hidden"), None);
    assert_eq!(parts(".hidden"), None);
}

#[test]
fn empty_and_dot_segments_count_for_nothing() {
    assert_eq!(parts("foo.txt/"), pair("foo", ".txt"));
    assert_eq!(parts("foo.txt/."), pair("foo", ".txt"));
    assert_eq!(parts("foo.txt/.//"), pair("foo", ".txt"));
    assert_eq!(parts("a//b.txt"), pair("b", ".txt"));
    assert_eq!(parts("./b.txt"), pair("b", ".txt"));
    assert_eq!(parts("a/b/"), None);
}

#[test]
fn path_is_joined_below_its_directory() {
    assert_eq!(join("internal-repo", "a/b/test.txt"), "internal-repo/a/b/test.txt");
    assert_eq!(join("internal-repo/", "a/b/test.txt"), "internal-repo/a/b/test.txt");
    assert_eq!(join("", "a/b/test.txt"), "a/b/test.txt");
    assert_eq!(join("repo", ""), "repo/");
    assert_eq!(join("repo/", ""), "repo/");
    assert_eq!(join("", ""), "");
    assert_eq!(join("a/b", "c"), "a/b/c");
    assert_eq!(join("/", "c"), "/c");
}

#[test]
fn absolute_path_stands_alone() {
    assert_eq!(join("internal-repo", "/etc/passwd"), "/etc/passwd");
    assert_eq!(join("", "/x"), "/x");
    assert_eq!(join("repo/", "/"), "/");
}
