use widots::text::trim;
use widots::models::lines::{render_lines, split_lines};
use widots::models::path::{
    expand_tilde_with_home, file_name, join, path_starts_with_tilde, paths_equal, strip_prefix,
};

#[test]
fn file_names_follow_path_components() {
    assert_eq!(file_name("/a/b/c.txt"), Some("c.txt".to_string()));
    assert_eq!(file_name("/a/b/"), Some("b".to_string()));
    assert_eq!(file_name("/"), None);
    assert_eq!(file_name("a/.."), None);
    assert_eq!(file_name("a/."), Some("a".to_string()));
    assert_eq!(file_name(""), None);
}

#[test]
fn join_appends_or_replaces() {
    assert_eq!(join("/home/u", ".config"), "/home/u/.config");
    assert_eq!(join("/home/u/", "x"), "/home/u/x");
    assert_eq!(join("/home/u", "/etc"), "/etc");
    assert_eq!(join("", "x"), "x");
}

#[test]
fn strip_prefix_works_on_components() {
    assert_eq!(strip_prefix("/src/dot/a/b", "/src/dot"), Some("a/b".to_string()));
    assert_eq!(strip_prefix("/src/dot", "/src/dot"), Some("".to_string()));
    assert_eq!(strip_prefix("/src/dotfiles/a", "/src/dot"), None);
    assert_eq!(strip_prefix("/src//dot/./a", "/src/dot"), Some("a".to_string()));
    assert!(paths_equal("/a//b/", "/a/b"));
    assert!(!paths_equal("/a/b", "a/b"));
}

#[test]
fn tilde_expansion() {
    assert!(path_starts_with_tilde("~/x"));
    assert!(path_starts_with_tilde("~"));
    assert!(!path_starts_with_tilde("~user/x"));
    assert_eq!(expand_tilde_with_home("~/x", "/home/u"), "/home/u/x");
    // `Path::join` with an empty path leaves a trailing separator.
    assert_eq!(expand_tilde_with_home("~", "/home/u"), "/home/u/");
    assert_eq!(expand_tilde_with_home("/abs", "/home/u"), "/abs");
    // Expanding twice changes nothing more.
    let once = expand_tilde_with_home("~/x", "/home/u");
    assert_eq!(expand_tilde_with_home(&once, "/home/u"), once);
}

#[test]
fn lines_split_and_render() {
    assert_eq!(split_lines("a\nb\r\nc"), vec!["a", "b", "c"]);
    assert_eq!(split_lines("a\n"), vec!["a"]);
    assert_eq!(split_lines(""), Vec::<String>::new());
    let lines = vec!["x".to_string(), "y".to_string()];
    let text = render_lines(&lines);
    assert_eq!(text, "x\ny\n");
    assert_eq!(split_lines(&text), lines);
    // A file of one or more lines is never empty, even of empty lines.
    assert_eq!(render_lines(&vec![String::new()]), "\n");
}

#[test]
fn trim_removes_unicode_white_space() {
    for s in ["  a b  ", "\u{3000}x\u{85}", "\t\n\r", "", "no-space", "\u{200B}zero width\u{200B}"] {
        assert_eq!(trim(s), s.trim());
    }
    assert_eq!(trim("\u{3000} a b\u{2029}"), "a b");
}

#[test]
fn tilde_paths_expand_to_absolute_paths_without_tilde() {
    for rest in ["", "a", "a/b/c", "x/./y", "../up", "a//b/"] {
        let p = format!("~/{}", rest);
        let e = expand_tilde_with_home(&p, "/home/u");
        assert!(e.starts_with('/'), "{}", e);
        assert!(!e.contains('~'), "{}", e);
    }
}
