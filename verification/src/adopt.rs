//! Taking a leftover `# [Body]` block back as the body.
use vstd::prelude::*;

use crate::body_notes;
use crate::entry::{EntryComment, EntryView, HurlEntry};
use crate::json_comments;
use crate::parser;
use crate::text;
use crate::writer;

verus! {

/// What a request with an authored body sends.
pub open spec fn wire_of(body: Option<Seq<char>>) -> Option<Seq<char>> {
    match body {
        Some(b) => Some(json_comments::wire(b)),
        None => None,
    }
}

/// The entry that one would become if its leftover notes were its body.
pub open spec fn adopted(e: EntryView) -> Option<EntryView> {
    match body_notes::body_block_in(e.comments, None) {
        Some(block) => Some(
            EntryView {
                body_src: Some(block.1),
                comments: body_notes::comments_without(e.comments, block.0),
                ..e
            },
        ),
        None => None,
    }
}

/// Whether what was read back is one request that sends the same body.
pub open spec fn came_back(back: Seq<EntryView>, e: EntryView) -> bool {
    back.len() == 1 && wire_of(back[0].body_src) == wire_of(e.body_src)
}

/// Whether an entry that is written out reads back as one request that sends
/// the same body.
pub open spec fn survives_being_written(e: EntryView) -> bool {
    came_back(parser::requests_in(writer::hurl_text(e)), e)
}

/// Whether an entry's leftover notes can be its body.
pub open spec fn adoptable(e: EntryView) -> bool {
    match adopted(e) {
        Some(next) => survives_being_written(next),
        None => false,
    }
}

impl HurlEntry {
    /// Whether `back` is one request that sends what this one sends.
    pub fn came_back_in(&self, back: &[HurlEntry]) -> (r: bool)
        ensures
            r == came_back(back.deep_view(), self.deep_view()),
    {
        if back.len() != 1 {
            return false;
        }
        assert(back.deep_view()[0] == back@[0].deep_view());
        match (&back[0].body_src, &self.body_src) {
            (Some(a), Some(b)) => {
                let sent = json_comments::wire_text(b.as_str());
                text::same(json_comments::wire_text(a.as_str()).as_str(), sent.as_str())
            },
            (None, None) => true,
            _ => false,
        }
    }

    fn survives_being_written(&self) -> (r: bool)
        ensures
            r == survives_being_written(self.deep_view()),
    {
        let back = parser::parse_hurl(self.to_hurl().as_str());
        self.came_back_in(back.as_slice())
    }

    fn adopted_notes(&self) -> (r: Option<HurlEntry>)
        ensures
            r.deep_view() == adopted(self.deep_view()),
    {
        match self.stale_body_notes() {
            Some((at, notes)) => {
                let mut next = self.clone();
                let mut comments: Vec<EntryComment> = Vec::new();
                std::mem::swap(&mut comments, &mut next.comments);
                next.comments = body_notes::drop_comments(comments, at.as_slice());
                next.body_src = Some(notes);
                Some(next)
            },
            None => None,
        }
    }

    /// Whether the leftover notes can be taken back as the body.
    ///
    /// The test is not whether the comments strip cleanly: a stray word strips
    /// to itself and is still no body that Hurl accepts, and a file with it
    /// would read back as no requests at all. So the entry is written out and
    /// read back.
    pub fn can_adopt_body_notes(&self) -> (r: bool)
        ensures
            r == adoptable(self.deep_view()),
    {
        match self.adopted_notes() {
            Some(next) => next.survives_being_written(),
            None => false,
        }
    }

    /// Takes the leftover notes back as the body, comments and all, where they
    /// can be. This changes what the request sends.
    pub fn adopt_body_notes(&mut self) -> (r: bool)
        ensures
            r == adoptable(old(self).deep_view()),
            final(self).deep_view() == (if r {
                adopted(old(self).deep_view()).unwrap()
            } else {
                old(self).deep_view()
            }),
    {
        match self.adopted_notes() {
            Some(next) => {
                if !next.survives_being_written() {
                    return false;
                }
                *self = next;
                true
            },
            None => false,
        }
    }
}

} // verus!
