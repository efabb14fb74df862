use garmin_export::error::AuthError;
use garmin_export::ticket::extract_ticket_url;

#[test]
fn ticket_url_is_extracted_and_unescaped() {
    let page = "var x = 1;\nresponse_url = \"https:\\/\\/host\\/path?ticket=XYZ\";\n";
    assert_eq!(
        extract_ticket_url(page),
        Ok("https://host/path?ticket=XYZ".to_string())
    );
}

#[test]
fn page_without_assignment_has_no_ticket() {
    assert_eq!(
        extract_ticket_url("<html><body>nothing here</body></html>"),
        Err(AuthError::TicketNotFound)
    );
}

#[test]
fn spaces_around_the_equals_sign_are_optional() {
    assert_eq!(
        extract_ticket_url("response_url=\"https://a/b\""),
        Ok("https://a/b".to_string())
    );
    assert_eq!(
        extract_ticket_url("response_url \t\n = \u{a0} \"https://a/b\""),
        Ok("https://a/b".to_string())
    );
}

#[test]
fn leftmost_match_wins() {
    let page = "response_url = \"http://no\"; response_url = \"https:\\/\\/first\"; response_url = \"https://second\";";
    assert_eq!(extract_ticket_url(page), Ok("https://first".to_string()));
}

#[test]
fn url_must_start_with_https_and_hold_more() {
    assert_eq!(extract_ticket_url("response_url = \"http://host\""), Err(AuthError::TicketNotFound));
    assert_eq!(extract_ticket_url("response_url = \"https:\""), Err(AuthError::TicketNotFound));
    assert_eq!(extract_ticket_url("response_url = \"https:x\""), Ok("https:x".to_string()));
}

#[test]
fn url_must_be_closed_by_a_quote() {
    assert_eq!(extract_ticket_url("response_url = \"https://host/path"), Err(AuthError::TicketNotFound));
    assert_eq!(extract_ticket_url("response_url = https://host/path\""), Err(AuthError::TicketNotFound));
}

#[test]
fn only_backslashes_before_slashes_are_dropped() {
    assert_eq!(
        extract_ticket_url("response_url = \"https:\\/\\/h\\a\\\\/b\\\""),
        Ok("https://h\\a\\/b\\".to_string())
    );
}

#[test]
fn text_beyond_ascii_is_kept() {
    assert_eq!(
        extract_ticket_url("\u{e9}t\u{e9} response_url = \"https:\\/\\/h\u{f4}te\\/\u{1F600}\";"),
        Ok("https://h\u{f4}te/\u{1F600}".to_string())
    );
}
