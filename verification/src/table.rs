//! What the table of a browser shows: the texts of its header and of its
//! rows. Colours and borders are left to whoever draws the table.

use crate::lookup::texts_of;
use crate::model::{Link, LinkView, Topic, TopicView};
use crate::position::{decimal, decimal_text};
use vstd::prelude::*;
use vstd::string::StringExecFns;

verus! {

/// The width of the column that shows the position of a record.
pub const INDEX_COLUMN_WIDTH: u16 = 5;

/// The texts of the header above the topics.
pub open spec fn topic_header_text() -> Seq<Seq<char>> {
    seq!["Index"@, "Category"@, "Title"@, "Command"@]
}

/// The texts of the header above the links.
pub open spec fn link_header_text() -> Seq<Seq<char>> {
    seq!["Index"@, "Title"@, "URL"@]
}

/// The texts of the row of a topic: position, category, title, command.
pub open spec fn topic_row_text(index: nat, topic: TopicView) -> Seq<Seq<char>> {
    seq![decimal_text(index), topic.category, topic.title, topic.command]
}

/// The texts of the row of a link: position, title, URL.
pub open spec fn link_row_text(index: nat, link: LinkView) -> Seq<Seq<char>> {
    seq![decimal_text(index), link.title, link.url]
}

/// The header above the topics.
pub fn topic_header() -> (r: Vec<String>)
    ensures
        texts_of(r@) == topic_header_text(),
{
    let r = vec![
        String::from_str("Index"),
        String::from_str("Category"),
        String::from_str("Title"),
        String::from_str("Command"),
    ];
    assert(texts_of(r@) =~= topic_header_text());
    r
}

/// The header above the links.
pub fn link_header() -> (r: Vec<String>)
    ensures
        texts_of(r@) == link_header_text(),
{
    let r = vec![String::from_str("Index"), String::from_str("Title"), String::from_str("URL")];
    assert(texts_of(r@) =~= link_header_text());
    r
}

/// The row of the topic at position `index`.
pub fn topic_row(index: usize, topic: &Topic) -> (r: Vec<String>)
    ensures
        texts_of(r@) == topic_row_text(index as nat, topic@),
{
    let r = vec![
        decimal(index),
        topic.category.clone(),
        topic.title.clone(),
        topic.command.clone(),
    ];
    assert(texts_of(r@) =~= topic_row_text(index as nat, topic@));
    r
}

/// The row of the link at position `index`.
pub fn link_row(index: usize, link: &Link) -> (r: Vec<String>)
    ensures
        texts_of(r@) == link_row_text(index as nat, link@),
{
    let r = vec![decimal(index), link.title.clone(), link.url.clone()];
    assert(texts_of(r@) =~= link_row_text(index as nat, link@));
    r
}

/// The rows of the topics, each at its position.
pub fn topic_rows(topics: &[Topic]) -> (r: Vec<Vec<String>>)
    ensures
        r@.len() == topics@.len(),
        forall|i: int|
            0 <= i < r@.len() ==> texts_of((#[trigger] r@[i])@) == topic_row_text(
                i as nat,
                topics@[i]@,
            ),
{
    let mut rows: Vec<Vec<String>> = Vec::new();
    let mut i: usize = 0;
    while i < topics.len()
        invariant
            i <= topics.len(),
            rows@.len() == i,
            forall|j: int|
                0 <= j < i ==> texts_of((#[trigger] rows@[j])@) == topic_row_text(
                    j as nat,
                    topics@[j]@,
                ),
        decreases topics.len() - i,
    {
        rows.push(topic_row(i, &topics[i]));
        i += 1;
    }
    rows
}

/// The rows of the links, each at its position.
pub fn link_rows(links: &[Link]) -> (r: Vec<Vec<String>>)
    ensures
        r@.len() == links@.len(),
        forall|i: int|
            0 <= i < r@.len() ==> texts_of((#[trigger] r@[i])@) == link_row_text(
                i as nat,
                links@[i]@,
            ),
{
    let mut rows: Vec<Vec<String>> = Vec::new();
    let mut i: usize = 0;
    while i < links.len()
        invariant
            i <= links.len(),
            rows@.len() == i,
            forall|j: int|
                0 <= j < i ==> texts_of((#[trigger] rows@[j])@) == link_row_text(
                    j as nat,
                    links@[j]@,
                ),
        decreases links.len() - i,
    {
        rows.push(link_row(i, &links[i]));
        i += 1;
    }
    rows
}

} // verus!
