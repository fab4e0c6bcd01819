use termnote::listing::{deserialize_links, deserialize_topics, listing, listing_line};
use termnote::{Link, Topic};

fn topic(title: &str, command: &str) -> Topic {
    Topic {
        title: title.to_string(),
        description: "d".to_string(),
        command: command.to_string(),
        category: "c".to_string(),
    }
}

#[test]
fn a_line_holds_position_title_and_text() {
    assert_eq!(listing_line(0, "Build", "cargo build"), "0: Build - cargo build \n");
    assert_eq!(listing_line(12, "", ""), "12:  -  \n");
}

#[test]
fn a_listing_numbers_its_lines_from_zero() {
    let entries = vec![
        ("Build".to_string(), "cargo build".to_string()),
        ("Test".to_string(), "cargo test".to_string()),
    ];
    assert_eq!(listing(&entries), "0: Build - cargo build \n1: Test - cargo test \n");
}

#[test]
fn an_empty_listing_is_empty() {
    assert_eq!(listing(&Vec::new()), "");
    assert_eq!(deserialize_topics(&Vec::new()), "");
    assert_eq!(deserialize_links(&Vec::new()), "");
}

#[test]
fn topics_are_listed_plainly_without_colour() {
    colored::control::set_override(false);
    let build = topic("Build", "cargo build");
    let test = topic("Test", "cargo test");
    let text = deserialize_topics(&vec![&build, &test]);
    assert_eq!(text, "0: Build - cargo build \n1: Test - cargo test \n");
}

#[test]
fn topics_are_listed_with_green_commands_in_colour() {
    colored::control::set_override(true);
    let build = topic("Build", "cargo build");
    let text = deserialize_topics(&vec![&build]);
    assert_eq!(text, "0: Build - \u{1b}[92mcargo build\u{1b}[0m \n");
}

#[test]
fn links_are_listed_with_yellow_urls_in_colour() {
    colored::control::set_override(true);
    let docs = Link { title: "docs".to_string(), url: "https://example.org".to_string() };
    let text = deserialize_links(&vec![&docs]);
    assert_eq!(text, "0: docs - \u{1b}[33mhttps://example.org\u{1b}[0m \n");
}

#[test]
fn links_are_listed_plainly_without_colour() {
    colored::control::set_override(false);
    let docs = Link { title: "docs".to_string(), url: "https://example.org".to_string() };
    let more = Link { title: "more".to_string(), url: "https://example.com".to_string() };
    let text = deserialize_links(&vec![&docs, &more]);
    assert_eq!(text, "0: docs - https://example.org \n1: more - https://example.com \n");
}
