use rusty_bot::document::{format_context, title_of_body, DocumentResult};

fn doc(title: &str, body: &str) -> DocumentResult {
    DocumentResult {
        title: String::from(title),
        body: String::from(body),
    }
}

#[test]
fn empty_search_gives_an_empty_context_block() {
    let r = format_context(&Vec::new());
    assert_eq!(r, "");
}

#[test]
fn one_document_gives_one_entry() {
    let r = format_context(&vec![doc("Rust", "A systems language.")]);
    assert_eq!(r, "Title: Rust\nBody: A systems language.\n");
}

#[test]
fn entries_are_joined_by_blank_lines() {
    let r = format_context(&vec![
        doc("Rust", "A systems language."),
        doc("Verus", "A verifier."),
        doc("Markdown", "A markup."),
    ]);
    assert_eq!(
        r,
        "Title: Rust\nBody: A systems language.\n\n\
         Title: Verus\nBody: A verifier.\n\n\
         Title: Markdown\nBody: A markup.\n"
    );
}

#[test]
fn title_of_empty_body_is_unknown() {
    assert_eq!(title_of_body(""), "Unknown");
}

#[test]
fn title_is_the_first_line() {
    assert_eq!(title_of_body("Rust in brief\nA language.\nFast."), "Rust in brief");
}

#[test]
fn title_of_single_line_body_is_the_whole_body() {
    assert_eq!(title_of_body("just one line"), "just one line");
}

#[test]
fn title_drops_a_carriage_return_line_ending() {
    assert_eq!(title_of_body("heading\r\nrest"), "heading");
}

#[test]
fn title_keeps_a_trailing_carriage_return_without_line_feed() {
    assert_eq!(title_of_body("heading\r"), "heading\r");
}

#[test]
fn title_of_leading_line_feed_is_empty() {
    assert_eq!(title_of_body("\nrest"), "");
}
