use gpt_chat::blog::{article_template, render_article};
use gpt_chat::header::header_value;
use gpt_chat::middleware::{
    error_location, is_error_status, redirect_header, require_api_key, require_login, Gate, Probe,
};
use gpt_chat::text::{same_text, text_or_empty};

#[test]
fn error_page_takes_code_and_message() {
    assert_eq!(error_location(401, "Log in"), "/error?code=401&message=Log in");
    assert_eq!(error_location(0, ""), "/error?code=0&message=");
    assert_eq!(error_location(65535, "a&b"), "/error?code=65535&message=a&b");
}

#[test]
fn visitors_are_sent_to_the_error_page() {
    assert_eq!(require_login(true), Gate::Pass);
    assert_eq!(
        require_login(false),
        Gate::Redirect("/error?code=401&message=You need to log in to view this page".to_string())
    );
}

#[test]
fn refused_credential_is_sent_to_the_error_page() {
    assert_eq!(require_api_key(Probe::Accepted), Gate::Pass);
    assert_eq!(
        require_api_key(Probe::Refused),
        Gate::Redirect(
            "/error?code=403&message=You API key is not set or invalid. Go to Settings.".to_string()
        )
    );
    assert_eq!(
        require_api_key(Probe::Unreachable),
        Gate::Redirect(
            "/error?code=403&message=You API key is not set or invalid. Go to Settings".to_string()
        )
    );
}

#[test]
fn statuses_from_400_are_errors() {
    assert!(!is_error_status(0));
    assert!(!is_error_status(200));
    assert!(!is_error_status(399));
    assert!(is_error_status(400));
    assert!(is_error_status(401));
    assert!(is_error_status(500));
    assert!(is_error_status(u16::MAX));
}

#[test]
fn articles_have_their_template() {
    assert_eq!(article_template("first-post"), "articles/first-post/body.md");
    assert_eq!(article_template(""), "articles//body.md");
}

#[test]
fn articles_are_rendered_from_markdown() {
    assert_eq!(render_article("## Title\n\ntext"), "<h2>Title</h2>\n<p>text</p>\n");
}

#[test]
fn texts_are_compared_by_their_characters() {
    assert!(same_text("", ""));
    assert!(same_text("é", "é"));
    assert!(!same_text("a", "A"));
    assert!(!same_text("a", "a "));
}

#[test]
fn missing_credential_is_the_empty_text() {
    assert_eq!(text_or_empty(None), "");
    assert_eq!(text_or_empty(Some("sk-1".to_string())), "sk-1");
}

#[test]
fn locations_of_the_gates_can_stand_in_a_header() {
    for gate in [require_login(false), require_api_key(Probe::Refused), require_api_key(Probe::Unreachable)] {
        match gate {
            Gate::Redirect(location) => assert_eq!(redirect_header(&location), Some(location)),
            Gate::Pass => panic!("expected a redirect"),
        }
    }
}

#[test]
fn location_with_a_line_break_cannot_stand_in_a_header() {
    assert_eq!(redirect_header(&error_location(500, "a\nb")), None);
    assert_eq!(redirect_header(&error_location(500, "a b\tc ü")), Some("/error?code=500&message=a b\tc ü".to_string()));
}

#[test]
fn header_values_are_texts_without_control_characters() {
    assert_eq!(header_value(String::new()), Some(String::new()));
    assert_eq!(header_value(" ~\t".to_string()), Some(" ~\t".to_string()));
    assert_eq!(header_value("\u{80}\u{ff}\u{10ffff}".to_string()), Some("\u{80}\u{ff}\u{10ffff}".to_string()));
    for code in (0u32..32).chain([127]) {
        let c = char::from_u32(code).unwrap();
        let text = format!("a{}b", c);
        assert_eq!(header_value(text.clone()).is_some(), c == '\t', "U+{:04X}", code);
    }
}
