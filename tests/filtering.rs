use tmux_sessioniber::{contains_folded, filtered_view, item_matches};

fn strings(v: &[&str]) -> Vec<String> {
    v.iter().map(|s| s.to_string()).collect()
}

#[test]
fn filter_is_case_insensitive_and_keeps_order() {
    let items = strings(&["work", "Work-2", "personal"]);
    assert_eq!(filtered_view(&items, "work"), strings(&["work", "Work-2"]));
}

#[test]
fn filter_with_uppercase_query() {
    let items = strings(&["alpha", "BETA", "gamma-beta"]);
    assert_eq!(filtered_view(&items, "BeTa"), strings(&["BETA", "gamma-beta"]));
}

#[test]
fn empty_query_keeps_everything() {
    let items = strings(&["b", "a", "c"]);
    assert_eq!(filtered_view(&items, ""), items);
}

#[test]
fn no_match_gives_empty_view() {
    let items = strings(&["b", "a", "c"]);
    assert!(filtered_view(&items, "zzz").is_empty());
}

#[test]
fn empty_list_filters_to_empty() {
    let items: Vec<String> = Vec::new();
    assert!(filtered_view(&items, "a").is_empty());
}

#[test]
fn filtered_view_is_an_ordered_subsequence() {
    let items = strings(&["dev", "Prod", "dev-2", "test", "DEVOPS"]);
    let view = filtered_view(&items, "dev");
    assert_eq!(view, strings(&["dev", "dev-2", "DEVOPS"]));
    let mut pos = 0;
    for v in &view {
        while items[pos] != *v {
            pos += 1;
        }
        pos += 1;
    }
}

#[test]
fn filtering_twice_gives_the_same_view() {
    let items = strings(&["work", "Work-2", "personal", "homework"]);
    let once = filtered_view(&items, "WORK");
    let again = filtered_view(&items, "WORK");
    let twice = filtered_view(&once, "WORK");
    assert_eq!(once, again);
    assert_eq!(once, twice);
}

#[test]
fn item_matches_ignores_case() {
    assert!(item_matches("My-Session", "sess"));
    assert!(!item_matches("My-Session", "xyz"));
}

#[test]
fn contains_folded_is_plain_substring() {
    assert!(contains_folded("work-2", "rk-"));
    assert!(contains_folded("work", ""));
    assert!(!contains_folded("work", "Work"));
}
