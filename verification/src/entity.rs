//! The entities that the listings show.

use vstd::prelude::*;

verus! {

/// A saved link, as the server returns it.
#[derive(Clone, Debug, PartialEq, Eq)]
pub struct LinkEntry {
    pub id: u64,
    pub name: String,
    pub url: String,
}

/// The mathematical value of a [`LinkEntry`].
pub struct LinkEntryView {
    pub id: nat,
    pub name: Seq<char>,
    pub url: Seq<char>,
}

impl View for LinkEntry {
    type V = LinkEntryView;

    open spec fn view(&self) -> LinkEntryView {
        LinkEntryView { id: self.id as nat, name: self.name@, url: self.url@ }
    }
}

/// One entry of the content feed, as the server returns it.
#[derive(Clone, Debug, PartialEq, Eq)]
pub struct ContentEntry {
    pub id: u64,
    pub title: String,
    pub url: String,
    pub description: Option<String>,
}

/// The mathematical value of a [`ContentEntry`].
pub struct ContentEntryView {
    pub id: nat,
    pub title: Seq<char>,
    pub url: Seq<char>,
    pub description: Option<Seq<char>>,
}

impl View for ContentEntry {
    type V = ContentEntryView;

    open spec fn view(&self) -> ContentEntryView {
        ContentEntryView {
            id: self.id as nat,
            title: self.title@,
            url: self.url@,
            description: text_of(self.description),
        }
    }
}

/// The text of an optional string.
pub open spec fn text_of(o: Option<String>) -> Option<Seq<char>> {
    match o {
        Some(s) => Some(s@),
        None => None,
    }
}

/// The values of a sequence of links, in order.
pub open spec fn link_views(s: Seq<LinkEntry>) -> Seq<LinkEntryView> {
    s.map_values(|e: LinkEntry| e@)
}

/// No two links of `s` have the same id.
pub open spec fn link_ids_distinct(s: Seq<LinkEntryView>) -> bool {
    forall|i: int, j: int| 0 <= i < j < s.len() ==> s[i].id != s[j].id
}

/// The values of a sequence of content entries, in order.
pub open spec fn content_views(s: Seq<ContentEntry>) -> Seq<ContentEntryView> {
    s.map_values(|e: ContentEntry| e@)
}

/// The first `n` elements of `s`, or all of `s` when it has fewer.
pub open spec fn first_n<T>(s: Seq<T>, n: nat) -> Seq<T> {
    if s.len() <= n {
        s
    } else {
        s.subrange(0, n as int)
    }
}

/// Taking the values of a prefix is taking a prefix of the values.
pub proof fn lemma_content_views_first_n(s: Seq<ContentEntry>, n: nat)
    ensures
        content_views(first_n(s, n)) == first_n(content_views(s), n),
{
    assert(content_views(first_n(s, n)) =~= first_n(content_views(s), n));
}

/// Appending a link appends its value.
pub proof fn lemma_link_views_push(s: Seq<LinkEntry>, e: LinkEntry)
    ensures
        link_views(s.push(e)) == link_views(s).push(e@),
{
    assert(link_views(s.push(e)) =~= link_views(s).push(e@));
}

} // verus!
