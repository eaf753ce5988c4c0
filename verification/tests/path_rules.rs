use cli_run::path::{
    extension, file_name, force_extension, is_absolute, is_separator, join, parent,
    with_extension, Platform,
};

fn some(text: &str) -> Option<String> {
    Some(text.to_string())
}

#[test]
fn separators_differ_by_platform() {
    assert!(is_separator(Platform::Posix, '/'));
    assert!(!is_separator(Platform::Posix, '\\'));
    assert!(is_separator(Platform::Windows, '/'));
    assert!(is_separator(Platform::Windows, '\\'));
    assert!(!is_separator(Platform::Windows, ':'));
}

#[test]
fn absolute_paths_on_windows() {
    assert!(is_absolute(Platform::Windows, "C:\\tools\\tool.exe"));
    assert!(is_absolute(Platform::Windows, "c:/tools/tool"));
    assert!(is_absolute(Platform::Windows, "\\\\server\\share\\tool"));
    assert!(!is_absolute(Platform::Windows, "tool"));
    assert!(!is_absolute(Platform::Windows, "bin\\tool"));
    assert!(!is_absolute(Platform::Windows, "C:tool"));
    assert!(!is_absolute(Platform::Windows, "\\tool"));
    assert!(!is_absolute(Platform::Windows, "1:\\tool"));
    assert!(!is_absolute(Platform::Windows, ""));
}

#[test]
fn absolute_paths_on_posix() {
    assert!(is_absolute(Platform::Posix, "/usr/bin/tool"));
    assert!(is_absolute(Platform::Posix, "/"));
    assert!(!is_absolute(Platform::Posix, "usr/bin/tool"));
    assert!(!is_absolute(Platform::Posix, "C:\\tool"));
    assert!(!is_absolute(Platform::Posix, ""));
}

#[test]
fn file_name_is_the_last_component() {
    assert_eq!(file_name(Platform::Windows, "tool"), some("tool"));
    assert_eq!(file_name(Platform::Windows, "bin\\tool.exe"), some("tool.exe"));
    assert_eq!(file_name(Platform::Windows, "C:\\a/b\\tool"), some("tool"));
    assert_eq!(file_name(Platform::Windows, "C:tool"), some("tool"));
    assert_eq!(file_name(Platform::Posix, "/usr/bin/tool"), some("tool"));
    assert_eq!(file_name(Platform::Posix, "a\\b"), some("a\\b"));
    assert_eq!(file_name(Platform::Posix, "C:tool"), some("C:tool"));
}

#[test]
fn some_paths_have_no_file_name() {
    assert_eq!(file_name(Platform::Windows, ""), None);
    assert_eq!(file_name(Platform::Windows, "C:"), None);
    assert_eq!(file_name(Platform::Windows, "bin\\"), None);
    assert_eq!(file_name(Platform::Windows, "."), None);
    assert_eq!(file_name(Platform::Windows, ".."), None);
    assert_eq!(file_name(Platform::Windows, "bin\\.."), None);
    assert_eq!(file_name(Platform::Posix, "/"), None);
    assert_eq!(file_name(Platform::Posix, "a/."), None);
    assert_eq!(file_name(Platform::Posix, "..."), some("..."));
}

#[test]
fn extension_follows_the_last_dot() {
    assert_eq!(extension(Platform::Windows, "tool.exe"), some("exe"));
    assert_eq!(extension(Platform::Windows, "C:\\bin\\tool.ps1"), some("ps1"));
    assert_eq!(extension(Platform::Windows, "archive.tar.gz"), some("gz"));
    assert_eq!(extension(Platform::Windows, "tool."), some(""));
    assert_eq!(extension(Platform::Windows, "tool"), None);
    assert_eq!(extension(Platform::Windows, ".profile"), None);
    assert_eq!(extension(Platform::Windows, ".profile.bak"), some("bak"));
    assert_eq!(extension(Platform::Windows, "dir.d\\tool"), None);
    assert_eq!(extension(Platform::Windows, ".."), None);
    assert_eq!(extension(Platform::Windows, ""), None);
    assert_eq!(extension(Platform::Windows, "tool.EXE"), some("EXE"));
}

#[test]
fn with_extension_replaces_or_appends() {
    assert_eq!(with_extension(Platform::Windows, "tool", "exe"), "tool.exe");
    assert_eq!(with_extension(Platform::Windows, "tool.ps1", "exe"), "tool.exe");
    assert_eq!(with_extension(Platform::Windows, "tool.exe", "exe"), "tool.exe");
    assert_eq!(with_extension(Platform::Windows, "C:\\b.d\\tool", "ps1"), "C:\\b.d\\tool.ps1");
    assert_eq!(with_extension(Platform::Windows, "a.tar.gz", "zip"), "a.tar.zip");
    assert_eq!(with_extension(Platform::Windows, ".profile", "ps1"), ".profile.ps1");
    assert_eq!(with_extension(Platform::Windows, "tool.exe", ""), "tool");
    assert_eq!(with_extension(Platform::Windows, "tool", ""), "tool");
}

#[test]
fn with_extension_leaves_paths_without_file_name() {
    assert_eq!(with_extension(Platform::Windows, "", "exe"), "");
    assert_eq!(with_extension(Platform::Windows, "bin\\", "exe"), "bin\\");
    assert_eq!(with_extension(Platform::Windows, "..", "exe"), "..");
    assert_eq!(with_extension(Platform::Windows, "C:", "exe"), "C:");
}

#[test]
fn force_extension_keeps_a_matching_one() {
    assert_eq!(force_extension(Platform::Windows, "tool.ps1", "ps1"), "tool.ps1");
    assert_eq!(force_extension(Platform::Windows, "tool", "ps1"), "tool.ps1");
    assert_eq!(force_extension(Platform::Windows, "tool.exe", "ps1"), "tool.ps1");
    assert_eq!(force_extension(Platform::Windows, "tool.PS1", "ps1"), "tool.ps1");
    assert_eq!(force_extension(Platform::Windows, "C:\\x\\", "ps1"), "C:\\x\\");
}

#[test]
fn join_appends_with_one_separator() {
    assert_eq!(join(Platform::Windows, "C:\\bin", "tool"), "C:\\bin\\tool");
    assert_eq!(join(Platform::Windows, "C:\\bin\\", "tool"), "C:\\bin\\tool");
    assert_eq!(join(Platform::Windows, "C:/bin/", "tool"), "C:/bin/tool");
    assert_eq!(join(Platform::Windows, "", "tool"), "tool");
    assert_eq!(join(Platform::Windows, "C:", "tool"), "C:tool");
    assert_eq!(join(Platform::Posix, "/home/u", "project"), "/home/u/project");
    assert_eq!(join(Platform::Posix, "/home/u/", "project"), "/home/u/project");
    assert_eq!(join(Platform::Posix, "/home/u", "a/b"), "/home/u/a/b");
    assert_eq!(join(Platform::Posix, "", "a"), "a");
}

#[test]
fn join_lets_an_absolute_path_replace_the_base() {
    assert_eq!(join(Platform::Posix, "/home/u", "/etc"), "/etc");
    assert_eq!(join(Platform::Windows, "C:\\bin", "D:\\tools"), "D:\\tools");
    assert_eq!(join(Platform::Windows, "C:\\bin", "D:tools"), "D:tools");
    assert_eq!(join(Platform::Windows, "C:\\bin", "\\\\srv\\share"), "\\\\srv\\share");
    assert_eq!(join(Platform::Windows, "C:\\bin\\x", "\\tools"), "C:\\tools");
    assert_eq!(join(Platform::Windows, "bin", "\\tools"), "\\tools");
}

#[test]
fn parent_drops_the_last_component() {
    assert_eq!(parent(Platform::Posix, "/a/b/c"), some("/a/b"));
    assert_eq!(parent(Platform::Posix, "/a"), some("/"));
    assert_eq!(parent(Platform::Posix, "a"), some(""));
    assert_eq!(parent(Platform::Posix, "a//b"), some("a"));
    assert_eq!(parent(Platform::Posix, "./tmp/x"), some("./tmp"));
    assert_eq!(parent(Platform::Windows, "C:\\a\\b"), some("C:\\a"));
    assert_eq!(parent(Platform::Windows, "C:\\a"), some("C:\\"));
    assert_eq!(parent(Platform::Windows, "C:a"), some("C:"));
    assert_eq!(parent(Platform::Posix, "/"), None);
    assert_eq!(parent(Platform::Posix, "a/"), None);
    assert_eq!(parent(Platform::Posix, ""), None);
}
