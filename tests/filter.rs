use sift::filter::{noise_filter, Stoplist};

fn strings(v: &[&str]) -> Vec<String> {
    v.iter().map(|s| s.to_string()).collect()
}

#[test]
fn empty_values_are_dropped() {
    assert_eq!(noise_filter(&strings(&["", "a", ""]), None), strings(&["a"]));
}

#[test]
fn line_feeds_are_stripped() {
    assert_eq!(noise_filter(&strings(&["a\nb", "\nc\n"]), None), strings(&["ab", "c"]));
}

#[test]
fn duplicates_are_kept_in_order() {
    assert_eq!(noise_filter(&strings(&["z", "y", "z"]), None), strings(&["z", "y", "z"]));
}

#[test]
fn stoplisted_values_are_dropped() {
    let stop = Stoplist::new(strings(&["function", "length"]));
    assert!(stop.contains(&"length".to_string()));
    assert!(!stop.contains(&"api/v1".to_string()));
    assert_eq!(
        noise_filter(&strings(&["function", "api/v1", "length", "tok"]), Some(&stop)),
        strings(&["api/v1", "tok"])
    );
}

#[test]
fn stoplist_is_ignored_when_not_in_use() {
    assert_eq!(noise_filter(&strings(&["function"]), None), strings(&["function"]));
}

#[test]
fn filtering_twice_changes_nothing() {
    let stop = Stoplist::new(strings(&["common"]));
    let once = noise_filter(&strings(&["a\nb", "", "common", "c", "c"]), Some(&stop));
    let twice = noise_filter(&once, Some(&stop));
    assert_eq!(once, twice);
    assert_eq!(twice, strings(&["ab", "c", "c"]));
}
