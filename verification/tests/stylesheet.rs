use ssr_core::assemble::success_response;
use ssr_core::stylesheet::{choose_stylesheet, first_css, name_is_css};

#[test]
fn css_names_are_recognised() {
    assert!(name_is_css("index-abc123.css"));
    assert!(name_is_css("a.css"));
    assert!(!name_is_css("client.js"));
    assert!(!name_is_css(".css"));
    assert!(!name_is_css("css"));
    assert!(!name_is_css("style.CSS"));
    assert!(!name_is_css(""));
}

#[test]
fn first_css_picks_first_match() {
    let names = vec![
        String::from("client.js"),
        String::from("index.css"),
        String::from("other.css"),
    ];
    assert_eq!(first_css(&names), Some(1));
}

#[test]
fn first_css_on_empty_directory() {
    let names: Vec<String> = Vec::new();
    assert_eq!(first_css(&names), None);
}

#[test]
fn first_css_without_match() {
    let names = vec![String::from("client.js"), String::from("logo.svg")];
    assert_eq!(first_css(&names), None);
}

#[test]
fn scanned_stylesheet_wins() {
    let css = choose_stylesheet(
        Some(String::from("body{color:red}")),
        Some(String::from("p{margin:0}")),
    );
    assert_eq!(css, "body{color:red}");
}

#[test]
fn fallback_used_when_scan_finds_none() {
    let css = choose_stylesheet(None, Some(String::from("p{margin:0}")));
    assert_eq!(css, "p{margin:0}");
}

#[test]
fn no_stylesheet_yields_empty_text() {
    let css = choose_stylesheet(None, None);
    assert_eq!(css, "");
}

#[test]
fn single_css_file_ends_up_verbatim_in_the_document() {
    let names = vec![String::from("index-abc.css")];
    let picked = first_css(&names);
    assert_eq!(picked, Some(0));
    let css = choose_stylesheet(Some(String::from("body{color:red}")), None);
    let resp = success_response(&css, "<p>hi</p>");
    assert_eq!(resp.status, 200);
    assert!(resp.body.contains("<style>body{color:red}</style>"));
}

#[test]
fn empty_directory_still_renders_with_empty_style_block() {
    let names: Vec<String> = Vec::new();
    assert_eq!(first_css(&names), None);
    let css = choose_stylesheet(None, None);
    let resp = success_response(&css, "<p>hi</p>");
    assert_eq!(resp.status, 200);
    assert!(resp.body.contains("<style></style>"));
}
