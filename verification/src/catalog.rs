//! Catalog entries: named links with a description.

use vstd::prelude::*;
use crate::tags::{add_tag, remove_tag, with_tag, without_tag};
use crate::text::texts;

verus! {

/// A named link with a description.
#[derive(Debug, PartialEq, Eq)]
pub struct CatalogItem {
    pub name: String,
    pub description: String,
    pub url: String,
    pub tags: Vec<String>,
}

/// What a catalog entry holds.
#[verifier::ext_equal]
pub struct CatalogItemView {
    pub name: Seq<char>,
    pub description: Seq<char>,
    pub url: Seq<char>,
    pub tags: Seq<Seq<char>>,
}

impl View for CatalogItem {
    type V = CatalogItemView;

    open spec fn view(&self) -> CatalogItemView {
        CatalogItemView {
            name: self.name@,
            description: self.description@,
            url: self.url@,
            tags: texts(self.tags@),
        }
    }
}

impl Clone for CatalogItem {
    fn clone(&self) -> (r: Self)
        ensures
            r@ == self@,
    {
        let r = CatalogItem {
            name: self.name.clone(),
            description: self.description.clone(),
            url: self.url.clone(),
            tags: self.tags.clone(),
        };
        assert(r.tags@ =~= self.tags@);
        r
    }
}

impl CatalogItem {
    /// An entry without tags.
    pub fn new(name: String, description: String, url: String) -> (item: CatalogItem)
        ensures
            item@ == (CatalogItemView {
                name: name@,
                description: description@,
                url: url@,
                tags: Seq::empty(),
            }),
    {
        let item = CatalogItem { name, description, url, tags: Vec::new() };
        assert(item@.tags =~= Seq::<Seq<char>>::empty());
        item
    }

    /// Adds `tag` unless the entry has it already.
    pub fn add_tag(&mut self, tag: String)
        ensures
            final(self)@ == (CatalogItemView { tags: with_tag(old(self)@.tags, tag@), ..old(self)@ }),
            old(self)@.tags.no_duplicates() ==> final(self)@.tags.no_duplicates(),
    {
        add_tag(&mut self.tags, tag);
    }

    /// Removes every occurrence of `tag`.
    pub fn remove_tag(&mut self, tag: &str)
        ensures
            final(self)@ == (CatalogItemView { tags: without_tag(old(self)@.tags, tag@), ..old(self)@ }),
            old(self)@.tags.no_duplicates() ==> final(self)@.tags.no_duplicates(),
    {
        remove_tag(&mut self.tags, tag);
    }
}

} // verus!
