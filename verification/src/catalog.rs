//! The catalog: the operations that add, change, remove and find records
//! while keeping the notebook consistent.
//!
//! An operation that returns `Ok` has changed the notebook in memory, and the
//! caller is expected to write the document next; [`Outcome`] puts the two
//! results together. An operation that returns `Err` has changed nothing.

use crate::model::{
    link_title_taken, link_titles_distinct, link_views, topic_title_taken, topic_titles_distinct,
    topic_views, Link, LibraryView, LinkView, Topic, TopicView,
};
use crate::lookup::{lemma_marked_is_filter, position_of_text, select_marked, texts_of};
use crate::store::ObjectDB;
use crate::text::{lowercase, lowercased, mentions, same_title, text_mentions};
use vstd::prelude::*;

verus! {

/// Why the catalog turned a request down.
#[derive(Clone, Copy, Debug, PartialEq, Eq, Structural)]
pub enum CatalogError {
    /// A record with the same title, ignoring case, is already there.
    DuplicateTitle,
    /// No record carries the given title.
    NotFound,
    /// The position is not below the number of records.
    IndexOutOfRange,
    /// A change was asked for, but no field was given.
    NoFieldsProvided,
    /// The text given as a position is not a non-negative number.
    InvalidIndex,
}

/// The catalog service over the notebook of the process.
pub struct CRUDProcessor {
    pub database: ObjectDB,
}

impl View for CRUDProcessor {
    type V = LibraryView;

    open spec fn view(&self) -> LibraryView {
        self.database@
    }
}

/// The characters of an optional text.
pub open spec fn text_of(field: Option<&String>) -> Option<Seq<char>> {
    match field {
        Some(s) => Some(s@),
        None => None,
    }
}

/// `current`, unless a replacement is given.
pub open spec fn replaced(current: Seq<char>, replacement: Option<Seq<char>>) -> Seq<char> {
    match replacement {
        Some(s) => s,
        None => current,
    }
}

/// A topic after a partial change: each field that is given replaces the
/// old one, every other field stays. The category is never changed.
pub open spec fn patch_topic(
    topic: TopicView,
    title: Option<Seq<char>>,
    description: Option<Seq<char>>,
    command: Option<Seq<char>>,
) -> TopicView {
    TopicView {
        title: replaced(topic.title, title),
        description: replaced(topic.description, description),
        command: replaced(topic.command, command),
        category: topic.category,
    }
}

/// A link after a partial change.
pub open spec fn patch_link(link: LinkView, title: Option<Seq<char>>, url: Option<Seq<char>>) -> LinkView {
    LinkView { title: replaced(link.title, title), url: replaced(link.url, url) }
}

/// A partial change touches the fields that are given and no others: with
/// no field given the record stays as it is, and each field of the result
/// is the given one, or the old one where none is given.
pub proof fn lemma_patch_changes_only_given_fields(
    topic: TopicView,
    title: Option<Seq<char>>,
    description: Option<Seq<char>>,
    command: Option<Seq<char>>,
)
    ensures
        patch_topic(topic, None, None, None) == topic,
        patch_topic(topic, title, None, None) == (TopicView {
            title: replaced(topic.title, title),
            ..topic
        }),
        patch_topic(topic, None, description, None) == (TopicView {
            description: replaced(topic.description, description),
            ..topic
        }),
        patch_topic(topic, None, None, command) == (TopicView {
            command: replaced(topic.command, command),
            ..topic
        }),
        title is None ==> patch_topic(topic, title, description, command).title == topic.title,
        description is None ==> patch_topic(topic, title, description, command).description
            == topic.description,
        command is None ==> patch_topic(topic, title, description, command).command
            == topic.command,
        patch_topic(topic, title, description, command).category == topic.category,
{
}

/// A partial change of a link touches the fields that are given and no
/// others.
pub proof fn lemma_patch_link_changes_only_given_fields(
    link: LinkView,
    title: Option<Seq<char>>,
    url: Option<Seq<char>>,
)
    ensures
        patch_link(link, None, None) == link,
        patch_link(link, title, None) == (LinkView { title: replaced(link.title, title), ..link }),
        patch_link(link, None, url) == (LinkView { url: replaced(link.url, url), ..link }),
{
}

/// The lowercase forms of the titles of `topics`.
fn folded_topic_titles(topics: &Vec<Topic>) -> (r: Vec<String>)
    ensures
        r@.len() == topics@.len(),
        forall|i: int| 0 <= i < r@.len() ==> (#[trigger] r@[i])@ == lowercase(topics@[i].title@),
{
    let mut folded: Vec<String> = Vec::new();
    let mut i: usize = 0;
    while i < topics.len()
        invariant
            i <= topics.len(),
            folded@.len() == i,
            forall|j: int| 0 <= j < i ==> (#[trigger] folded@[j])@ == lowercase(topics@[j].title@),
        decreases topics.len() - i,
    {
        folded.push(lowercased(topics[i].title.as_str()));
        i += 1;
    }
    folded
}

/// The lowercase forms of the titles of `links`.
fn folded_link_titles(links: &Vec<Link>) -> (r: Vec<String>)
    ensures
        r@.len() == links@.len(),
        forall|i: int| 0 <= i < r@.len() ==> (#[trigger] r@[i])@ == lowercase(links@[i].title@),
{
    let mut folded: Vec<String> = Vec::new();
    let mut i: usize = 0;
    while i < links.len()
        invariant
            i <= links.len(),
            folded@.len() == i,
            forall|j: int| 0 <= j < i ==> (#[trigger] folded@[j])@ == lowercase(links@[j].title@),
        decreases links.len() - i,
    {
        folded.push(lowercased(links[i].title.as_str()));
        i += 1;
    }
    folded
}

/// Tells whether some topic carries `title`, ignoring case.
fn topic_title_in_use(topics: &Vec<Topic>, title: &str) -> (r: bool)
    ensures
        r == topic_title_taken(topic_views(topics@), title@),
{
    let folded = folded_topic_titles(topics);
    let wanted = lowercased(title);
    let found = position_of_text(&folded, wanted.as_str());
    proof {
        let views = topic_views(topics@);
        let texts = texts_of(folded@);
        assert forall|i: int| 0 <= i < views.len() implies (same_title(
            #[trigger] views[i].title,
            title@,
        ) <==> texts[i] == wanted@) by {
            assert(texts[i] == folded@[i]@);
        }
        match found {
            Some(at) => {
                assert(same_title(views[at as int].title, title@));
            },
            None => {
                assert forall|i: int| 0 <= i < views.len() implies !same_title(
                    #[trigger] views[i].title,
                    title@,
                ) by {
                    assert(texts[i] != wanted@);
                }
            },
        }
    }
    found.is_some()
}

/// Tells whether some link carries `title`, ignoring case.
fn link_title_in_use(links: &Vec<Link>, title: &str) -> (r: bool)
    ensures
        r == link_title_taken(link_views(links@), title@),
{
    let folded = folded_link_titles(links);
    let wanted = lowercased(title);
    let found = position_of_text(&folded, wanted.as_str());
    proof {
        let views = link_views(links@);
        let texts = texts_of(folded@);
        assert forall|i: int| 0 <= i < views.len() implies (same_title(
            #[trigger] views[i].title,
            title@,
        ) <==> texts[i] == wanted@) by {
            assert(texts[i] == folded@[i]@);
        }
        match found {
            Some(at) => {
                assert(same_title(views[at as int].title, title@));
            },
            None => {
                assert forall|i: int| 0 <= i < views.len() implies !same_title(
                    #[trigger] views[i].title,
                    title@,
                ) by {
                    assert(texts[i] != wanted@);
                }
            },
        }
    }
    found.is_some()
}

impl CRUDProcessor {
    /// The catalog over the given notebook.
    pub fn init(database: ObjectDB) -> (r: CRUDProcessor)
        ensures
            r.database == database,
    {
        CRUDProcessor { database }
    }

    /// Appends a topic, unless its title is taken.
    pub fn add(&mut self, title: String, description: String, cmd: String, category: String) -> (r:
        Result<(), CatalogError>)
        ensures
            topic_title_taken(old(self)@.topics, title@) ==> r == Err::<(), CatalogError>(
                CatalogError::DuplicateTitle,
            ) && *final(self) == *old(self),
            !topic_title_taken(old(self)@.topics, title@) ==> r == Ok::<(), CatalogError>(())
                && final(self)@.topics == old(self)@.topics.push(
                TopicView {
                    title: title@,
                    description: description@,
                    command: cmd@,
                    category: category@,
                },
            ) && final(self).database.library.links == old(self).database.library.links,
            topic_titles_distinct(old(self)@.topics) ==> topic_titles_distinct(final(self)@.topics),
    {
        if topic_title_in_use(&self.database.library.topics, title.as_str()) {
            return Err(CatalogError::DuplicateTitle);
        }
        let ghost before = self.database.library.topics@;
        let entry = Topic { title, description, command: cmd, category };
        self.database.library.topics.push(entry);
        proof {
            let after = self.database.library.topics@;
            assert(after == before.push(entry));
            assert(topic_views(after) =~= topic_views(before).push(entry@));
            if topic_titles_distinct(topic_views(before)) {
                assert forall|i: int, j: int| 0 <= i < j < topic_views(after).len() implies !same_title(
                    #[trigger] topic_views(after)[i].title,
                    #[trigger] topic_views(after)[j].title,
                ) by {
                    if j < before.len() {
                        assert(topic_views(after)[i] == topic_views(before)[i]);
                        assert(topic_views(after)[j] == topic_views(before)[j]);
                    } else {
                        assert(topic_views(after)[i] == topic_views(before)[i]);
                        assert(topic_views(after)[j].title == title@);
                    }
                }
            }
        }
        Ok(())
    }

    /// Appends a link, unless its title is taken by another link.
    pub fn add_url(&mut self, title: String, url: String) -> (r: Result<(), CatalogError>)
        ensures
            link_title_taken(old(self)@.links, title@) ==> r == Err::<(), CatalogError>(
                CatalogError::DuplicateTitle,
            ) && *final(self) == *old(self),
            !link_title_taken(old(self)@.links, title@) ==> r == Ok::<(), CatalogError>(())
                && final(self)@.links == old(self)@.links.push(
                LinkView { title: title@, url: url@ },
            ) && final(self).database.library.topics == old(self).database.library.topics,
            link_titles_distinct(old(self)@.links) ==> link_titles_distinct(final(self)@.links),
    {
        if link_title_in_use(&self.database.library.links, title.as_str()) {
            return Err(CatalogError::DuplicateTitle);
        }
        let ghost before = self.database.library.links@;
        let entry = Link { title, url };
        self.database.library.links.push(entry);
        proof {
            let after = self.database.library.links@;
            assert(after == before.push(entry));
            assert(link_views(after) =~= link_views(before).push(entry@));
            if link_titles_distinct(link_views(before)) {
                assert forall|i: int, j: int| 0 <= i < j < link_views(after).len() implies !same_title(
                    #[trigger] link_views(after)[i].title,
                    #[trigger] link_views(after)[j].title,
                ) by {
                    if j < before.len() {
                        assert(link_views(after)[i] == link_views(before)[i]);
                        assert(link_views(after)[j] == link_views(before)[j]);
                    } else {
                        assert(link_views(after)[i] == link_views(before)[i]);
                        assert(link_views(after)[j].title == title@);
                    }
                }
            }
        }
        Ok(())
    }

    /// Removes the topic at `index`; the topics behind it move up by one.
    pub fn remove_by_index(&mut self, index: usize) -> (r: Result<(), CatalogError>)
        ensures
            index >= old(self)@.topics.len() ==> r == Err::<(), CatalogError>(
                CatalogError::IndexOutOfRange,
            ) && *final(self) == *old(self),
            index < old(self)@.topics.len() ==> r == Ok::<(), CatalogError>(())
                && final(self)@.topics == old(self)@.topics.remove(index as int)
                && final(self).database.library.links == old(self).database.library.links,
            index < old(self)@.topics.len() ==> final(self)@.topics.len() == old(self)@.topics.len()
                - 1,
            forall|j: int|
                0 <= j < index && j < final(self)@.topics.len() ==> final(self)@.topics[j] == old(self)@.topics[j],
            forall|j: int|
                index <= j < final(self)@.topics.len() && index < old(self)@.topics.len() ==> final(self)@.topics[j] == old(self)@.topics[j + 1],
            topic_titles_distinct(old(self)@.topics) ==> topic_titles_distinct(final(self)@.topics),
    {
        if index >= self.database.library.topics.len() {
            return Err(CatalogError::IndexOutOfRange);
        }
        let ghost before = self.database.library.topics@;
        self.database.library.topics.remove(index);
        proof {
            let after = self.database.library.topics@;
            assert(topic_views(after) =~= topic_views(before).remove(index as int));
            lemma_remove_keeps_topics_distinct(topic_views(before), index as int);
        }
        Ok(())
    }

    /// Removes the link at `index`; the links behind it move up by one.
    pub fn remove_url_by_index(&mut self, index: usize) -> (r: Result<(), CatalogError>)
        ensures
            index >= old(self)@.links.len() ==> r == Err::<(), CatalogError>(
                CatalogError::IndexOutOfRange,
            ) && *final(self) == *old(self),
            index < old(self)@.links.len() ==> r == Ok::<(), CatalogError>(())
                && final(self)@.links == old(self)@.links.remove(index as int)
                && final(self).database.library.topics == old(self).database.library.topics,
            index < old(self)@.links.len() ==> final(self)@.links.len() == old(self)@.links.len()
                - 1,
            forall|j: int|
                0 <= j < index && j < final(self)@.links.len() ==> final(self)@.links[j] == old(self)@.links[j],
            forall|j: int|
                index <= j < final(self)@.links.len() && index < old(self)@.links.len() ==> final(self)@.links[j] == old(self)@.links[j + 1],
            link_titles_distinct(old(self)@.links) ==> link_titles_distinct(final(self)@.links),
    {
        if index >= self.database.library.links.len() {
            return Err(CatalogError::IndexOutOfRange);
        }
        let ghost before = self.database.library.links@;
        self.database.library.links.remove(index);
        proof {
            let after = self.database.library.links@;
            assert(link_views(after) =~= link_views(before).remove(index as int));
            lemma_remove_keeps_links_distinct(link_views(before), index as int);
        }
        Ok(())
    }

    /// Changes the given fields of the topic at `index` and keeps the others.
    ///
    /// The position is looked at first: with a position out of range the
    /// answer is `IndexOutOfRange` whatever fields are given.
    pub fn update(
        &mut self,
        index: usize,
        title: Option<&String>,
        description: Option<&String>,
        cmd: Option<&String>,
    ) -> (r: Result<(), CatalogError>)
        ensures
            index >= old(self)@.topics.len() ==> r == Err::<(), CatalogError>(
                CatalogError::IndexOutOfRange,
            ),
            index < old(self)@.topics.len() && title is None && description is None && cmd is None
                ==> r == Err::<(), CatalogError>(CatalogError::NoFieldsProvided),
            index < old(self)@.topics.len() && !(title is None && description is None
                && cmd is None) ==> r == Ok::<(), CatalogError>(()),
            r is Err ==> *final(self) == *old(self),
            r is Ok ==> final(self)@.topics == old(self)@.topics.update(
                index as int,
                patch_topic(
                    old(self)@.topics[index as int],
                    text_of(title),
                    text_of(description),
                    text_of(cmd),
                ),
            ) && final(self).database.library.links == old(self).database.library.links,
    {
        if index >= self.database.library.topics.len() {
            return Err(CatalogError::IndexOutOfRange);
        }
        if title.is_none() && description.is_none() && cmd.is_none() {
            return Err(CatalogError::NoFieldsProvided);
        }
        let ghost before = self.database.library.topics@;
        let current = &self.database.library.topics[index];
        let changed = Topic {
            title: match title {
                Some(t) => t.clone(),
                None => current.title.clone(),
            },
            description: match description {
                Some(d) => d.clone(),
                None => current.description.clone(),
            },
            command: match cmd {
                Some(c) => c.clone(),
                None => current.command.clone(),
            },
            category: current.category.clone(),
        };
        self.database.library.topics.set(index, changed);
        proof {
            let after = self.database.library.topics@;
            assert(after == before.update(index as int, changed));
            assert(topic_views(after) =~= topic_views(before).update(index as int, changed@));
        }
        Ok(())
    }

    /// Changes the given fields of the link at `index` and keeps the others.
    ///
    /// The position is looked at first: with a position out of range the
    /// answer is `IndexOutOfRange` whatever fields are given.
    pub fn update_url(&mut self, index: usize, title: Option<&String>, url: Option<&String>) -> (r:
        Result<(), CatalogError>)
        ensures
            index >= old(self)@.links.len() ==> r == Err::<(), CatalogError>(
                CatalogError::IndexOutOfRange,
            ),
            index < old(self)@.links.len() && title is None && url is None ==> r == Err::<
                (),
                CatalogError,
            >(CatalogError::NoFieldsProvided),
            index < old(self)@.links.len() && !(title is None && url is None) ==> r == Ok::<
                (),
                CatalogError,
            >(()),
            r is Err ==> *final(self) == *old(self),
            r is Ok ==> final(self)@.links == old(self)@.links.update(
                index as int,
                patch_link(old(self)@.links[index as int], text_of(title), text_of(url)),
            ) && final(self).database.library.topics == old(self).database.library.topics,
    {
        if index >= self.database.library.links.len() {
            return Err(CatalogError::IndexOutOfRange);
        }
        if title.is_none() && url.is_none() {
            return Err(CatalogError::NoFieldsProvided);
        }
        let ghost before = self.database.library.links@;
        let current = &self.database.library.links[index];
        let changed = Link {
            title: match title {
                Some(t) => t.clone(),
                None => current.title.clone(),
            },
            url: match url {
                Some(u) => u.clone(),
                None => current.url.clone(),
            },
        };
        self.database.library.links.set(index, changed);
        proof {
            let after = self.database.library.links@;
            assert(after == before.update(index as int, changed));
            assert(link_views(after) =~= link_views(before).update(index as int, changed@));
        }
        Ok(())
    }

    /// Removes the first topic whose title is exactly `title`, case included.
    pub fn remove_by_title(&mut self, title: &str) -> (r: Result<(), CatalogError>)
        ensures
            first_titled(old(self)@.topics, title@) is None ==> r == Err::<(), CatalogError>(
                CatalogError::NotFound,
            ) && *final(self) == *old(self),
            first_titled(old(self)@.topics, title@) is Some ==> r == Ok::<(), CatalogError>(())
                && final(self)@.topics == old(self)@.topics.remove(
                first_titled(old(self)@.topics, title@)->Some_0,
            ) && final(self).database.library.links == old(self).database.library.links,
    {
        let mut i: usize = 0;
        while i < self.database.library.topics.len()
            invariant
                *self == *old(self),
                i <= self.database.library.topics.len(),
                forall|j: int| 0 <= j < i ==> (#[trigger] self.database.library.topics@[j]).title@
                    != title@,
            decreases self.database.library.topics.len() - i,
        {
            if str_equal(self.database.library.topics[i].title.as_str(), title) {
                let ghost before = self.database.library.topics@;
                proof {
                    lemma_first_titled(topic_views(before), title@, i as int);
                }
                self.database.library.topics.remove(i);
                proof {
                    let after = self.database.library.topics@;
                    assert(topic_views(after) =~= topic_views(before).remove(i as int));
                }
                return Ok(());
            }
            i += 1;
        }
        proof {
            lemma_first_titled_none(topic_views(self.database.library.topics@), title@);
        }
        Err(CatalogError::NotFound)
    }

    /// The topics whose title or description mentions `query`, ignoring
    /// case, in the order in which the notebook holds them.
    pub fn search_by_title_or_description(&self, query: &str) -> (r: Vec<&Topic>)
        ensures
            r@.map_values(|t: &Topic| *t) == self.database.library.topics@.filter(
                |t: Topic| topic_matches(t@, query@),
            ),
    {
        let topics = &self.database.library.topics;
        let mut marks: Vec<bool> = Vec::new();
        let mut i: usize = 0;
        while i < topics.len()
            invariant
                i <= topics.len(),
                marks@.len() == i,
                forall|j: int|
                    0 <= j < i ==> #[trigger] marks@[j] == topic_matches(topics@[j]@, query@),
            decreases topics.len() - i,
        {
            let topic = &topics[i];
            let hit = text_mentions(topic.title.as_str(), query) || text_mentions(
                topic.description.as_str(),
                query,
            );
            marks.push(hit);
            i += 1;
        }
        proof {
            lemma_marked_is_filter(topics@, marks@, |t: Topic| topic_matches(t@, query@));
        }
        select_marked(topics, &marks)
    }

    /// The links whose title mentions `query`, ignoring case, in the order
    /// in which the notebook holds them.
    pub fn search_links_by_title(&self, query: &str) -> (r: Vec<&Link>)
        ensures
            r@.map_values(|l: &Link| *l) == self.database.library.links@.filter(
                |l: Link| link_matches(l@, query@),
            ),
    {
        let links = &self.database.library.links;
        let mut marks: Vec<bool> = Vec::new();
        let mut i: usize = 0;
        while i < links.len()
            invariant
                i <= links.len(),
                marks@.len() == i,
                forall|j: int|
                    0 <= j < i ==> #[trigger] marks@[j] == link_matches(links@[j]@, query@),
            decreases links.len() - i,
        {
            marks.push(text_mentions(links[i].title.as_str(), query));
            i += 1;
        }
        proof {
            lemma_marked_is_filter(links@, marks@, |l: Link| link_matches(l@, query@));
        }
        select_marked(links, &marks)
    }
}

/// A topic answers a query when its title or its description mentions it.
pub open spec fn topic_matches(topic: TopicView, query: Seq<char>) -> bool {
    mentions(topic.title, query) || mentions(topic.description, query)
}

/// A link answers a query when its title mentions it.
pub open spec fn link_matches(link: LinkView, query: Seq<char>) -> bool {
    mentions(link.title, query)
}

/// The position of the first topic whose title is exactly `title`.
pub open spec fn first_titled(topics: Seq<TopicView>, title: Seq<char>) -> Option<int> {
    if exists|i: int| 0 <= i < topics.len() && (#[trigger] topics[i]).title == title {
        Some(
            choose|i: int|
                0 <= i < topics.len() && (#[trigger] topics[i]).title == title && forall|j: int|
                    0 <= j < i ==> (#[trigger] topics[j]).title != title,
        )
    } else {
        None
    }
}

/// A position that carries `title`, with no earlier one carrying it, is the
/// one that [`first_titled`] names.
pub proof fn lemma_first_titled(topics: Seq<TopicView>, title: Seq<char>, at: int)
    requires
        0 <= at < topics.len(),
        topics[at].title == title,
        forall|j: int| 0 <= j < at ==> (#[trigger] topics[j]).title != title,
    ensures
        first_titled(topics, title) == Some(at),
{
    let found = choose|i: int|
        0 <= i < topics.len() && (#[trigger] topics[i]).title == title && forall|j: int|
            0 <= j < i ==> (#[trigger] topics[j]).title != title;
    assert(0 <= found < topics.len() && topics[found].title == title && forall|j: int|
        0 <= j < found ==> (#[trigger] topics[j]).title != title);
    if found < at {
        assert(topics[found].title != title);
    }
    if at < found {
        assert(topics[at].title != title);
    }
}

/// Where no topic carries `title`, [`first_titled`] names none.
pub proof fn lemma_first_titled_none(topics: Seq<TopicView>, title: Seq<char>)
    requires
        forall|j: int| 0 <= j < topics.len() ==> (#[trigger] topics[j]).title != title,
    ensures
        first_titled(topics, title) is None,
{
}

/// Tells whether two texts hold the same characters.
fn str_equal(a: &str, b: &str) -> (r: bool)
    ensures
        r == (a@ == b@),
{
    let left = a.to_owned();
    let right = b.to_owned();
    left == right
}

/// Taking one topic out cannot make two of the remaining titles clash.
pub proof fn lemma_remove_keeps_topics_distinct(topics: Seq<TopicView>, index: int)
    requires
        0 <= index < topics.len(),
    ensures
        topic_titles_distinct(topics) ==> topic_titles_distinct(topics.remove(index)),
{
    let rest = topics.remove(index);
    if topic_titles_distinct(topics) {
        assert forall|i: int, j: int| 0 <= i < j < rest.len() implies !same_title(
            #[trigger] rest[i].title,
            #[trigger] rest[j].title,
        ) by {
            let si = if i < index { i } else { i + 1 };
            let sj = if j < index { j } else { j + 1 };
            assert(rest[i] == topics[si]);
            assert(rest[j] == topics[sj]);
        }
    }
}

/// Taking one link out cannot make two of the remaining titles clash.
pub proof fn lemma_remove_keeps_links_distinct(links: Seq<LinkView>, index: int)
    requires
        0 <= index < links.len(),
    ensures
        link_titles_distinct(links) ==> link_titles_distinct(links.remove(index)),
{
    let rest = links.remove(index);
    if link_titles_distinct(links) {
        assert forall|i: int, j: int| 0 <= i < j < rest.len() implies !same_title(
            #[trigger] rest[i].title,
            #[trigger] rest[j].title,
        ) by {
            let si = if i < index { i } else { i + 1 };
            let sj = if j < index { j } else { j + 1 };
            assert(rest[i] == links[si]);
            assert(rest[j] == links[sj]);
        }
    }
}

} // verus!
