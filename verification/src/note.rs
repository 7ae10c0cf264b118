//! Notes.

use vstd::prelude::*;
use crate::tags::{add_tag, remove_tag, with_tag, without_tag};
use crate::text::texts;

verus! {

/// A titled piece of free text.
#[derive(Debug, PartialEq, Eq)]
pub struct Note {
    pub title: String,
    pub content: String,
    pub created_at: String,
    pub tags: Vec<String>,
}

/// What a note holds.
#[verifier::ext_equal]
pub struct NoteView {
    pub title: Seq<char>,
    pub content: Seq<char>,
    pub created_at: Seq<char>,
    pub tags: Seq<Seq<char>>,
}

impl View for Note {
    type V = NoteView;

    open spec fn view(&self) -> NoteView {
        NoteView {
            title: self.title@,
            content: self.content@,
            created_at: self.created_at@,
            tags: texts(self.tags@),
        }
    }
}

impl Clone for Note {
    fn clone(&self) -> (r: Self)
        ensures
            r@ == self@,
    {
        let r = Note {
            title: self.title.clone(),
            content: self.content.clone(),
            created_at: self.created_at.clone(),
            tags: self.tags.clone(),
        };
        assert(r.tags@ =~= self.tags@);
        r
    }
}

impl NoteView {
    /// A note as it is when created: no content and no tags.
    pub open spec fn fresh(title: Seq<char>, created_at: Seq<char>) -> NoteView {
        NoteView { title, content: Seq::empty(), created_at, tags: Seq::empty() }
    }
}

/// The views of a sequence of notes, in order.
pub open spec fn note_views(notes: Seq<Note>) -> Seq<NoteView> {
    notes.map_values(|n: Note| n@)
}

impl Note {
    /// A note without content or tags.
    pub fn new(title: String, created_at: String) -> (note: Note)
        ensures
            note@ == NoteView::fresh(title@, created_at@),
    {
        let note = Note { title, content: String::new(), created_at, tags: Vec::new() };
        assert(note@.tags =~= Seq::<Seq<char>>::empty());
        note
    }

    /// Adds `tag` unless the note has it already.
    pub fn add_tag(&mut self, tag: String)
        ensures
            final(self)@ == (NoteView { tags: with_tag(old(self)@.tags, tag@), ..old(self)@ }),
            old(self)@.tags.no_duplicates() ==> final(self)@.tags.no_duplicates(),
    {
        add_tag(&mut self.tags, tag);
    }

    /// Removes every occurrence of `tag`.
    pub fn remove_tag(&mut self, tag: &str)
        ensures
            final(self)@ == (NoteView { tags: without_tag(old(self)@.tags, tag@), ..old(self)@ }),
            old(self)@.tags.no_duplicates() ==> final(self)@.tags.no_duplicates(),
    {
        remove_tag(&mut self.tags, tag);
    }
}

} // verus!
