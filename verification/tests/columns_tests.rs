use termnote::columns::column_width_for;
use termnote::{calc_link_len_constraint, calc_topic_len_constraint, Link, TerminalUI, Topic};

fn entry(title: &str, command: &str, category: &str) -> Topic {
    Topic {
        title: title.to_string(),
        description: "not shown in the table".to_string(),
        command: command.to_string(),
        category: category.to_string(),
    }
}

#[test]
fn column_width_is_the_largest_width() {
    assert_eq!(column_width_for(&[3, 10, 7]), 10);
    assert_eq!(column_width_for(&[10, 3]), 10);
    assert_eq!(column_width_for(&[4]), 4);
    assert_eq!(column_width_for(&[0, 0]), 0);
}

#[test]
fn column_width_of_nothing_is_zero() {
    assert_eq!(column_width_for(&[]), 0);
}

#[test]
fn column_width_keeps_the_low_sixteen_bits() {
    assert_eq!(column_width_for(&[65535]), 65535);
    assert_eq!(column_width_for(&[65536]), 0);
    assert_eq!(column_width_for(&[12, 65536 + 5]), 5);
}

#[test]
fn topic_columns_are_category_title_command() {
    let items = vec![entry("Build", "cargo build", "dev"), entry("Deploy it", "make", "ops!")];
    assert_eq!(calc_topic_len_constraint(&items), (4, 9, 11));
}

#[test]
fn topic_columns_of_an_empty_list_are_zero() {
    assert_eq!(calc_topic_len_constraint(&[]), (0, 0, 0));
}

#[test]
fn wide_characters_take_two_columns() {
    let items = vec![entry("Ｈｅｌｌｏ", "日本語", "a")];
    assert_eq!(calc_topic_len_constraint(&items), (1, 10, 6));
}

#[test]
fn link_columns_are_title_url() {
    let items = vec![
        Link { title: "docs".to_string(), url: "https://example.org".to_string() },
        Link { title: "漢字".to_string(), url: "x".to_string() },
    ];
    assert_eq!(calc_link_len_constraint(&items), (4, 19));
    assert_eq!(calc_link_len_constraint(&[]), (0, 0));
}

#[test]
fn the_browser_holds_the_column_widths_of_its_topics() {
    let ui = TerminalUI::new(vec![entry("Build", "cargo build", "dev")]);
    assert_eq!(ui.longest_item_lens(), (3, 5, 11));
}
