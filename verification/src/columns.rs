//! Column widths for the table that shows the records: each column is as
//! wide as the widest text it has to show.

use crate::model::{Link, Topic};
use crate::text::{display_width, width_of};
use vstd::prelude::*;

verus! {

/// The largest of `widths`, and zero where there is none.
pub open spec fn largest(widths: Seq<usize>) -> usize
    decreases widths.len(),
{
    if widths.len() == 0 {
        0
    } else {
        let before = largest(widths.drop_last());
        if widths.last() > before {
            widths.last()
        } else {
            before
        }
    }
}

/// The width of a column as the table takes it: the largest of the widths
/// it has to show, reduced to sixteen bits.
pub open spec fn column_width(widths: Seq<usize>) -> int {
    largest(widths) as int % 0x1_0000
}

/// The display width of each text.
pub open spec fn measured(texts: Seq<Seq<char>>) -> Seq<usize> {
    texts.map_values(|t: Seq<char>| display_width(t))
}

/// The titles of a sequence of topics.
pub open spec fn topic_titles(items: Seq<Topic>) -> Seq<Seq<char>> {
    items.map_values(|t: Topic| t.title@)
}

/// The commands of a sequence of topics.
pub open spec fn topic_commands(items: Seq<Topic>) -> Seq<Seq<char>> {
    items.map_values(|t: Topic| t.command@)
}

/// The categories of a sequence of topics.
pub open spec fn topic_categories(items: Seq<Topic>) -> Seq<Seq<char>> {
    items.map_values(|t: Topic| t.category@)
}

/// The titles of a sequence of links.
pub open spec fn link_titles(items: Seq<Link>) -> Seq<Seq<char>> {
    items.map_values(|l: Link| l.title@)
}

/// The URLs of a sequence of links.
pub open spec fn link_urls(items: Seq<Link>) -> Seq<Seq<char>> {
    items.map_values(|l: Link| l.url@)
}

/// The column widths for topics: category, title, command.
pub open spec fn topic_len_constraint(items: Seq<Topic>) -> (int, int, int) {
    (
        column_width(measured(topic_categories(items))),
        column_width(measured(topic_titles(items))),
        column_width(measured(topic_commands(items))),
    )
}

/// The column widths for links: title, URL.
pub open spec fn link_len_constraint(items: Seq<Link>) -> (int, int) {
    (column_width(measured(link_titles(items))), column_width(measured(link_urls(items))))
}

/// [`largest`] is the maximum: no width is larger, and unless there is no
/// width at all, one of them is exactly that large.
pub proof fn lemma_largest_is_maximum(widths: Seq<usize>)
    ensures
        forall|i: int| 0 <= i < widths.len() ==> #[trigger] widths[i] <= largest(widths),
        widths.len() == 0 ==> largest(widths) == 0,
        widths.len() > 0 ==> exists|i: int|
            0 <= i < widths.len() && #[trigger] widths[i] == largest(widths),
    decreases widths.len(),
{
    if widths.len() > 0 {
        let front = widths.drop_last();
        lemma_largest_is_maximum(front);
        assert forall|i: int| 0 <= i < widths.len() implies #[trigger] widths[i] <= largest(
            widths,
        ) by {
            if i < front.len() {
                assert(front[i] == widths[i]);
            }
        }
        if widths.last() > largest(front) || front.len() == 0 {
            assert(widths[widths.len() - 1] == largest(widths));
        } else {
            let i = choose|i: int| 0 <= i < front.len() && #[trigger] front[i] == largest(front);
            assert(front[i] == widths[i]);
        }
    }
}

/// The width of the column that has to show texts of the given widths.
pub fn column_width_for(widths: &[usize]) -> (r: u16)
    ensures
        r == column_width(widths@),
{
    let mut best: usize = 0;
    let mut i: usize = 0;
    proof {
        assert(widths@.take(0) =~= Seq::<usize>::empty());
    }
    while i < widths.len()
        invariant
            i <= widths.len(),
            best == largest(widths@.take(i as int)),
        decreases widths.len() - i,
    {
        proof {
            widths@.lemma_take_succ_push(i as int);
            assert(widths@.take(i as int).push(widths@[i as int]).drop_last() =~= widths@.take(
                i as int,
            ));
        }
        if widths[i] > best {
            best = widths[i];
        }
        i += 1;
    }
    proof {
        widths@.lemma_take_len();
    }
    (best % 0x1_0000) as u16
}

/// The widths of the category, title and command columns for `items`.
pub fn calc_topic_len_constraint(items: &[Topic]) -> (r: (u16, u16, u16))
    ensures
        (r.0 as int, r.1 as int, r.2 as int) == topic_len_constraint(items@),
{
    let mut titles: Vec<usize> = Vec::new();
    let mut commands: Vec<usize> = Vec::new();
    let mut categories: Vec<usize> = Vec::new();
    let mut i: usize = 0;
    while i < items.len()
        invariant
            i <= items.len(),
            titles@ =~= measured(topic_titles(items@)).take(i as int),
            commands@ =~= measured(topic_commands(items@)).take(i as int),
            categories@ =~= measured(topic_categories(items@)).take(i as int),
        decreases items.len() - i,
    {
        let topic = &items[i];
        titles.push(width_of(topic.title.as_str()));
        commands.push(width_of(topic.command.as_str()));
        categories.push(width_of(topic.category.as_str()));
        i += 1;
    }
    proof {
        measured(topic_titles(items@)).lemma_take_len();
        measured(topic_commands(items@)).lemma_take_len();
        measured(topic_categories(items@)).lemma_take_len();
    }
    (
        column_width_for(categories.as_slice()),
        column_width_for(titles.as_slice()),
        column_width_for(commands.as_slice()),
    )
}

/// The widths of the title and URL columns for `items`.
pub fn calc_link_len_constraint(items: &[Link]) -> (r: (u16, u16))
    ensures
        (r.0 as int, r.1 as int) == link_len_constraint(items@),
{
    let mut titles: Vec<usize> = Vec::new();
    let mut urls: Vec<usize> = Vec::new();
    let mut i: usize = 0;
    while i < items.len()
        invariant
            i <= items.len(),
            titles@ =~= measured(link_titles(items@)).take(i as int),
            urls@ =~= measured(link_urls(items@)).take(i as int),
        decreases items.len() - i,
    {
        let link = &items[i];
        titles.push(width_of(link.title.as_str()));
        urls.push(width_of(link.url.as_str()));
        i += 1;
    }
    proof {
        measured(link_titles(items@)).lemma_take_len();
        measured(link_urls(items@)).lemma_take_len();
    }
    (column_width_for(titles.as_slice()), column_width_for(urls.as_slice()))
}

} // verus!
