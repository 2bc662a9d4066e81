use browser_shell::search::{query_is_blank, suggest_query_url, suggestions_from_response};

#[test]
fn blank_queries_ask_for_nothing() {
    assert!(query_is_blank(""));
    assert!(query_is_blank("   \t\n"));
    assert!(suggest_query_url("").is_none());
    assert!(suggest_query_url("  \t ").is_none());
}

#[test]
fn query_url_carries_the_encoded_query() {
    let url = suggest_query_url("rust lang").unwrap();
    assert_eq!(
        url,
        "https://suggestqueries.google.com/complete/search?client=firefox&q=rust%20lang"
    );
}

#[test]
fn reply_entries_become_suggestions() {
    let r = suggestions_from_response("[\"q\",[\"alpha\",\"beta\"]]").unwrap();
    assert_eq!(r, vec!["alpha", "beta"]);
}

#[test]
fn at_most_five_suggestions_are_kept() {
    let r =
        suggestions_from_response("[\"q\",[\"a\",\"b\",\"c\",\"d\",\"e\",\"f\",\"g\"]]").unwrap();
    assert_eq!(r, vec!["a", "b", "c", "d", "e"]);
}

#[test]
fn non_string_entries_are_skipped() {
    let r = suggestions_from_response("[\"q\",[\"a\",5,\"b\",null,\"c\"]]").unwrap();
    assert_eq!(r, vec!["a", "b", "c"]);
}

#[test]
fn a_reply_that_is_not_json_is_an_error() {
    assert!(suggestions_from_response("not json").is_err());
}

#[test]
fn a_reply_without_an_entry_array_has_no_suggestions() {
    assert_eq!(suggestions_from_response("{}").unwrap(), Vec::<String>::new());
    assert_eq!(suggestions_from_response("[\"q\"]").unwrap(), Vec::<String>::new());
    assert_eq!(suggestions_from_response("[\"q\",42]").unwrap(), Vec::<String>::new());
}
