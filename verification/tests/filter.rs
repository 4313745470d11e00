use selfbot::filter::should_delete;

fn terms(list: &[&str]) -> Vec<String> {
    list.iter().map(|t| t.to_string()).collect()
}

#[test]
fn should_delete_returns_the_term_that_the_content_holds() {
    let banned = terms(&["badword1", "badword2"]);
    assert_eq!(should_delete("this has badword1 in it", &banned), Some("badword1".to_string()));
}

#[test]
fn should_delete_passes_clean_text() {
    let banned = terms(&["badword1", "badword2"]);
    assert_eq!(should_delete("clean text", &banned), None);
}

#[test]
fn should_delete_matches_inside_a_word() {
    let banned = terms(&["badword1", "badword2"]);
    assert_eq!(should_delete("superbadword123", &banned), Some("badword1".to_string()));
}

#[test]
fn should_delete_goes_by_the_order_of_the_list() {
    let banned = terms(&["badword1", "badword2"]);
    assert_eq!(
        should_delete("badword2 comes before badword1", &banned),
        Some("badword1".to_string())
    );
    let reversed = terms(&["badword2", "badword1"]);
    assert_eq!(
        should_delete("badword1 comes before badword2", &reversed),
        Some("badword2".to_string())
    );
}

#[test]
fn should_delete_returns_a_later_term_where_the_earlier_is_absent() {
    let banned = terms(&["badword1", "badword2"]);
    assert_eq!(should_delete("only badword2 here", &banned), Some("badword2".to_string()));
}

#[test]
fn should_delete_is_case_sensitive() {
    let banned = terms(&["badword1", "badword2"]);
    assert_eq!(should_delete("this has BADWORD1 in it", &banned), None);
}

#[test]
fn should_delete_with_no_terms_finds_nothing() {
    assert_eq!(should_delete("this has badword1 in it", &[]), None);
}

#[test]
fn should_delete_on_empty_content() {
    let banned = terms(&["badword1"]);
    assert_eq!(should_delete("", &banned), None);
    let with_empty = terms(&["badword1", ""]);
    assert_eq!(should_delete("", &with_empty), Some(String::new()));
}
