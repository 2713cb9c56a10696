use wifu::util::priority::{select, Error};

fn list(items: &[&str]) -> Vec<String> {
    items.iter().map(|s| s.to_string()).collect()
}

#[test]
fn empty_priority_is_refused() {
    let priority: Vec<String> = Vec::new();
    assert_eq!(select(None, &priority), Err(Error::EmptyPriority));
    assert_eq!(select(Some("a"), &priority), Err(Error::EmptyPriority));
}

#[test]
fn nothing_current_gives_the_head() {
    let priority = list(&["a", "b", "c"]);
    assert_eq!(select(None, &priority), Ok("a"));
}

#[test]
fn current_is_followed_by_its_successor() {
    let priority = list(&["a", "b", "c"]);
    assert_eq!(select(Some("a"), &priority), Ok("b"));
    assert_eq!(select(Some("b"), &priority), Ok("c"));
}

#[test]
fn the_last_entry_is_followed_by_the_head() {
    let priority = list(&["a", "b", "c"]);
    assert_eq!(select(Some("c"), &priority), Ok("a"));
    let pair = list(&["x", "a"]);
    assert_eq!(select(Some("a"), &pair), Ok("x"));
}

#[test]
fn an_unlisted_current_gives_the_head() {
    let priority = list(&["a", "b", "c"]);
    assert_eq!(select(Some("z"), &priority), Ok("a"));
    assert_eq!(select(Some(""), &priority), Ok("a"));
}

#[test]
fn a_single_entry_follows_itself() {
    let priority = list(&["only"]);
    assert_eq!(select(Some("only"), &priority), Ok("only"));
    assert_eq!(select(None, &priority), Ok("only"));
    assert_eq!(select(Some("other"), &priority), Ok("only"));
}

#[test]
fn the_first_occurrence_counts_among_duplicates() {
    let priority = list(&["b", "a", "a"]);
    assert_eq!(select(Some("a"), &priority), Ok("a"));
    assert_eq!(select(Some("b"), &priority), Ok("a"));
    let other = list(&["a", "b", "a"]);
    assert_eq!(select(Some("a"), &other), Ok("b"));
    assert_eq!(select(Some("b"), &other), Ok("a"));
}

#[test]
fn the_selection_is_always_listed() {
    let priority = list(&["n1", "n2", "n3", "n4"]);
    let candidates = [None, Some("n1"), Some("n2"), Some("n3"), Some("n4"), Some("nope")];
    for current in candidates {
        let picked = select(current, &priority).unwrap();
        assert!(priority.iter().any(|p| p == picked));
    }
}

#[test]
fn rotating_visits_every_entry_in_turn() {
    let priority = list(&["n1", "n2", "n3"]);
    let mut current: Option<String> = None;
    let mut seen = Vec::new();
    for _ in 0..6 {
        let picked = select(current.as_deref(), &priority).unwrap().to_string();
        seen.push(picked.clone());
        current = Some(picked);
    }
    assert_eq!(seen, list(&["n1", "n2", "n3", "n1", "n2", "n3"]));
}
