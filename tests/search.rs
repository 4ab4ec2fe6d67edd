use void_launcher::search::{app_matches, keywords_of, matches_lowered};

#[test]
fn keywords_split_and_skip_empty() {
    assert_eq!(keywords_of("web;Browser;;internet;"), vec!["web", "Browser", "internet"]);
    assert_eq!(keywords_of(""), Vec::<String>::new());
    assert_eq!(keywords_of(";;"), Vec::<String>::new());
    assert_eq!(keywords_of("one"), vec!["one"]);
}

#[test]
fn name_matches_in_any_case() {
    assert!(app_matches("Firefox", None, "FIRE"));
    assert!(app_matches("Firefox", None, ""));
    assert!(!app_matches("Firefox", None, "chrome"));
}

#[test]
fn keyword_matches() {
    assert!(app_matches("Firefox", Some("Internet;WWW;Browser;"), "browse"));
    assert!(!app_matches("Firefox", Some("Internet;WWW;"), "net;w"));
    assert!(!app_matches("Files", Some("folder;"), "music"));
}

#[test]
fn lowered_matching() {
    let kws = vec!["terminal".to_string(), "shell".to_string()];
    assert!(matches_lowered("alacritty", &kws, "shel"));
    assert!(matches_lowered("alacritty", &kws, "crit"));
    assert!(!matches_lowered("alacritty", &kws, "Shell"));
}
