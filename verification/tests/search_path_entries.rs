use cli_run::search_path::split_search_path;

fn entries(text: &str) -> Vec<String> {
    split_search_path(text)
}

#[test]
fn empty_text_is_one_empty_entry() {
    assert_eq!(entries(""), vec![""]);
    assert_eq!(entries("\"\""), vec![""]);
}

#[test]
fn every_separator_ends_an_entry() {
    assert_eq!(entries(";;"), vec!["", "", ""]);
    assert_eq!(entries("c:\\"), vec!["c:\\"]);
    assert_eq!(entries("c:\\;"), vec!["c:\\", ""]);
    assert_eq!(
        entries("c:\\;c:\\Program Files\\"),
        vec!["c:\\", "c:\\Program Files\\"]
    );
}

#[test]
fn quotes_are_dropped_and_protect_separators() {
    assert_eq!(entries("c:\\;c:\\\"foo\"\\"), vec!["c:\\", "c:\\foo\\"]);
    assert_eq!(
        entries("c:\\;c:\\\"foo;bar\"\\;c:\\baz"),
        vec!["c:\\", "c:\\foo;bar\\", "c:\\baz"]
    );
    assert_eq!(
        entries("c:\\foo;c:\\som\"e;di\"r;c:\\bar"),
        vec!["c:\\foo", "c:\\some;dir", "c:\\bar"]
    );
}

#[test]
fn an_open_quote_runs_to_the_end() {
    assert_eq!(entries("a;\"b;c"), vec!["a", "b;c"]);
}

#[test]
fn a_quote_closed_in_one_entry_does_not_reach_the_next() {
    assert_eq!(entries("\"a\";b;c"), vec!["a", "b", "c"]);
}
