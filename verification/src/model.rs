//! The notebook's records and the collection that holds them.
//!
//! Every record has a mathematical view in which each text is a sequence of
//! characters; the contracts of the crate are stated over these views.

use crate::text::same_title;
use vstd::prelude::*;

verus! {

/// A recorded shell command.
#[derive(Debug, PartialEq, Eq)]
pub struct Topic {
    pub title: String,
    pub description: String,
    pub command: String,
    pub category: String,
}

/// What a [`Topic`] holds, as sequences of characters.
pub ghost struct TopicView {
    pub title: Seq<char>,
    pub description: Seq<char>,
    pub command: Seq<char>,
    pub category: Seq<char>,
}

impl View for Topic {
    type V = TopicView;

    open spec fn view(&self) -> TopicView {
        TopicView {
            title: self.title@,
            description: self.description@,
            command: self.command@,
            category: self.category@,
        }
    }
}

impl Clone for Topic {
    fn clone(&self) -> (r: Self)
        ensures
            r == *self,
    {
        Topic {
            title: self.title.clone(),
            description: self.description.clone(),
            command: self.command.clone(),
            category: self.category.clone(),
        }
    }
}

/// A recorded URL.
#[derive(Debug, PartialEq, Eq)]
pub struct Link {
    pub title: String,
    pub url: String,
}

/// What a [`Link`] holds, as sequences of characters.
pub ghost struct LinkView {
    pub title: Seq<char>,
    pub url: Seq<char>,
}

impl View for Link {
    type V = LinkView;

    open spec fn view(&self) -> LinkView {
        LinkView { title: self.title@, url: self.url@ }
    }
}

impl Clone for Link {
    fn clone(&self) -> (r: Self)
        ensures
            r == *self,
    {
        Link { title: self.title.clone(), url: self.url.clone() }
    }
}

/// The whole notebook: topics and links, each in insertion order.
#[derive(Debug, PartialEq, Eq)]
pub struct Library {
    pub topics: Vec<Topic>,
    pub links: Vec<Link>,
}

/// What a [`Library`] holds: two sequences of record views.
pub ghost struct LibraryView {
    pub topics: Seq<TopicView>,
    pub links: Seq<LinkView>,
}

/// The views of a sequence of topics, position by position.
pub open spec fn topic_views(topics: Seq<Topic>) -> Seq<TopicView> {
    topics.map_values(|t: Topic| t@)
}

/// The views of a sequence of links, position by position.
pub open spec fn link_views(links: Seq<Link>) -> Seq<LinkView> {
    links.map_values(|l: Link| l@)
}

impl View for Library {
    type V = LibraryView;

    open spec fn view(&self) -> LibraryView {
        LibraryView { topics: topic_views(self.topics@), links: link_views(self.links@) }
    }
}

/// Some topic of `topics` carries `title`, ignoring case.
pub open spec fn topic_title_taken(topics: Seq<TopicView>, title: Seq<char>) -> bool {
    exists|i: int| 0 <= i < topics.len() && same_title(#[trigger] topics[i].title, title)
}

/// Some link of `links` carries `title`, ignoring case.
pub open spec fn link_title_taken(links: Seq<LinkView>, title: Seq<char>) -> bool {
    exists|i: int| 0 <= i < links.len() && same_title(#[trigger] links[i].title, title)
}

/// No two topics share a title when case is ignored.
pub open spec fn topic_titles_distinct(topics: Seq<TopicView>) -> bool {
    forall|i: int, j: int|
        0 <= i < j < topics.len() ==> !same_title(
            #[trigger] topics[i].title,
            #[trigger] topics[j].title,
        )
}

/// No two links share a title when case is ignored.
pub open spec fn link_titles_distinct(links: Seq<LinkView>) -> bool {
    forall|i: int, j: int|
        0 <= i < j < links.len() ==> !same_title(
            #[trigger] links[i].title,
            #[trigger] links[j].title,
        )
}

impl LibraryView {
    /// Titles are distinct among the topics and, separately, among the links.
    pub open spec fn titles_distinct(self) -> bool {
        topic_titles_distinct(self.topics) && link_titles_distinct(self.links)
    }
}

impl Library {
    /// A notebook without records.
    pub fn new() -> (r: Library)
        ensures
            r@.topics.len() == 0,
            r@.links.len() == 0,
            r@.titles_distinct(),
    {
        Library { topics: Vec::new(), links: Vec::new() }
    }
}

} // verus!
