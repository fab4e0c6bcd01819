//! The plain listing of records that answers a search: one line for each
//! record, with its position in the listing, its title and what it stands for.
//!
//! What a record stands for, the command or the URL, is shown in colour where
//! the terminal takes it. The colour is added by an outside crate; the layout
//! of the lines is fixed here.

use crate::model::{Link, Topic};
use crate::position::{decimal, decimal_text};
use colored::Colorize;
use vstd::prelude::*;
use vstd::string::StringExecFns;

verus! {

/// One entry of a listing: the title, and the text shown behind it.
pub ghost struct EntryView {
    pub title: Seq<char>,
    pub shown: Seq<char>,
}

/// The views of the entries of a listing.
pub open spec fn entry_views(entries: Seq<(String, String)>) -> Seq<EntryView> {
    entries.map_values(|e: (String, String)| EntryView { title: e.0@, shown: e.1@ })
}

/// One line of a listing.
pub open spec fn line_text(index: nat, entry: EntryView) -> Seq<char> {
    decimal_text(index) + ": "@ + entry.title + " - "@ + entry.shown + " \n"@
}

/// A listing: the lines of its entries, each with its position.
pub open spec fn listing_text(entries: Seq<EntryView>) -> Seq<char>
    decreases entries.len(),
{
    if entries.len() == 0 {
        Seq::<char>::empty()
    } else {
        listing_text(entries.drop_last()) + line_text(
            (entries.len() - 1) as nat,
            entries.last(),
        )
    }
}

/// Wraps `colored::Colorize::bright_green` and the `Display` of what it
/// returns.
///
/// Trusted: nothing is claimed of the text that comes back. Whether escape
/// codes are put around `text` depends on the variables of the process and
/// on the terminal.
#[verifier::external_body]
fn bright_green(text: &str) -> (r: String) {
    format!("{}", text.bright_green())
}

/// Wraps `colored::Colorize::yellow` and the `Display` of what it returns.
///
/// Trusted: nothing is claimed of the text that comes back. Whether escape
/// codes are put around `text` depends on the variables of the process and
/// on the terminal.
#[verifier::external_body]
fn yellow(text: &str) -> (r: String) {
    format!("{}", text.yellow())
}

/// One line of a listing: position, title, and the text to show.
pub fn listing_line(index: usize, title: &str, shown: &str) -> (r: String)
    ensures
        r@ == line_text(index as nat, EntryView { title: title@, shown: shown@ }),
{
    decimal(index).concat(": ").concat(title).concat(" - ").concat(shown).concat(" \n")
}

/// The listing of the given entries, each a title and the text to show.
pub fn listing(entries: &Vec<(String, String)>) -> (r: String)
    ensures
        r@ == listing_text(entry_views(entries@)),
{
    let mut text = String::new();
    let mut i: usize = 0;
    proof {
        assert(entry_views(entries@).take(0) =~= Seq::<EntryView>::empty());
    }
    while i < entries.len()
        invariant
            i <= entries.len(),
            text@ == listing_text(entry_views(entries@).take(i as int)),
        decreases entries.len() - i,
    {
        let entry = &entries[i];
        let line = listing_line(i, entry.0.as_str(), entry.1.as_str());
        proof {
            let views = entry_views(entries@);
            assert(views.take(i + 1).drop_last() =~= views.take(i as int));
            assert(views.take(i + 1).last() == views[i as int]);
        }
        text = text.concat(line.as_str());
        i += 1;
    }
    proof {
        assert(entry_views(entries@).take(entries@.len() as int) =~= entry_views(entries@));
    }
    text
}

/// The listing of topics: each with its title and, in colour, its command.
pub fn deserialize_topics(topics: &Vec<&Topic>) -> (r: String)
    ensures
        exists|entries: Seq<EntryView>|
            {
                &&& entries.len() == topics@.len()
                &&& forall|i: int|
                    0 <= i < entries.len() ==> (#[trigger] entries[i]).title == topics@[i].title@
                &&& r@ == listing_text(entries)
            },
{
    let mut entries: Vec<(String, String)> = Vec::new();
    let mut i: usize = 0;
    while i < topics.len()
        invariant
            i <= topics.len(),
            entries@.len() == i,
            forall|j: int| 0 <= j < i ==> (#[trigger] entries@[j]).0@ == topics@[j].title@,
        decreases topics.len() - i,
    {
        let topic = topics[i];
        entries.push((topic.title.clone(), bright_green(topic.command.as_str())));
        i += 1;
    }
    let text = listing(&entries);
    proof {
        let views = entry_views(entries@);
        assert forall|j: int| 0 <= j < views.len() implies (#[trigger] views[j]).title
            == topics@[j].title@ by {
            assert(views[j].title == entries@[j].0@);
        }
    }
    text
}

/// The listing of links: each with its title and, in colour, its URL.
pub fn deserialize_links(links: &Vec<&Link>) -> (r: String)
    ensures
        exists|entries: Seq<EntryView>|
            {
                &&& entries.len() == links@.len()
                &&& forall|i: int|
                    0 <= i < entries.len() ==> (#[trigger] entries[i]).title == links@[i].title@
                &&& r@ == listing_text(entries)
            },
{
    let mut entries: Vec<(String, String)> = Vec::new();
    let mut i: usize = 0;
    while i < links.len()
        invariant
            i <= links.len(),
            entries@.len() == i,
            forall|j: int| 0 <= j < i ==> (#[trigger] entries@[j]).0@ == links@[j].title@,
        decreases links.len() - i,
    {
        let link = links[i];
        entries.push((link.title.clone(), yellow(link.url.as_str())));
        i += 1;
    }
    let text = listing(&entries);
    proof {
        let views = entry_views(entries@);
        assert forall|j: int| 0 <= j < views.len() implies (#[trigger] views[j]).title
            == links@[j].title@ by {
            assert(views[j].title == entries@[j].0@);
        }
    }
    text
}

} // verus!
