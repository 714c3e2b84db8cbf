//! The `# [Body]` block that carries an authored body through a `.hurl` file.
//!
//! A body authored with comments is written twice: as a block of `#` lines that
//! Hurl passes over, and as the strict JSON that is sent. On the way back a
//! block that still says what the body says is taken for the authored body; one
//! that does not is left among the entry's comments, stale.
use vstd::prelude::*;

use crate::entry::{CommentAnchor, CommentView, EntryComment, HurlEntry};
use crate::json_comments;
use crate::text;

verus! {

/// Positions as integers.
pub open spec fn ints(v: Seq<usize>) -> Seq<int> {
    v.map_values(|i: usize| i as int)
}

// ---------------------------------------------------------------------------
// The block's lines
// ---------------------------------------------------------------------------
/// How many lines a `# [Body] <n>` marker claims. The count is what makes the
/// block safe to claim: a body may hold any line at all, so no closing marker
/// could be told from its contents.
pub open spec fn body_marker(line: Seq<char>) -> Option<nat> {
    match text::without_prefix(text::trimmed_start(line), "#"@) {
        Some(behind) => {
            let rest = text::trimmed_start(behind);
            if rest.len() >= 6 && text::lowered(rest.take(6)) == text::lowered("[body]"@) {
                text::number_in(text::trimmed(rest.skip(6)), usize::MAX as nat)
            } else {
                None
            }
        },
        None => None,
    }
}

/// A line of the block without its marker and the one space behind it, so that
/// the body's own indentation comes back as authored.
pub open spec fn body_line(line: Seq<char>) -> Seq<char> {
    match text::without_prefix(text::trimmed_start(line), "#"@) {
        Some(rest) => match text::without_prefix(rest, " "@) {
            Some(inner) => inner,
            None => rest,
        },
        None => Seq::empty(),
    }
}

/// Recognises a `# [Body] <n>` marker and returns the line count it claims.
pub fn parse_body_marker(line: &str) -> (r: Option<usize>)
    ensures
        r is Some == body_marker(line@) is Some,
        r matches Some(n) ==> body_marker(line@) == Some(n as nat),
{
    let from = text::trim_start(line);
    match text::strip_prefix(from.as_str(), "#") {
        Some(behind) => {
            let rest = text::trim_start(behind.as_str());
            let cs = text::chars_of(rest.as_str());
            if cs.len() < 6 {
                return None;
            }
            let want = text::chars_of("[body]");
            assert(cs@.subrange(0, 6) == cs@.take(6));
            if !text::same_letters(&cs[0..6], want.as_slice()) {
                return None;
            }
            let count = text::string_of(text::trim_chars(&cs[6..cs.len()]));
            assert(cs@.subrange(6, cs@.len() as int) == cs@.skip(6));
            match text::parse_number(count.as_str(), usize::MAX as u64) {
                Some(n) => Some(n as usize),
                None => None,
            }
        },
        None => None,
    }
}

/// Undoes one line of the block's encoding.
pub fn decode_body_line(line: &str) -> (r: String)
    ensures
        r@ == body_line(line@),
{
    let from = text::trim_start(line);
    match text::strip_prefix(from.as_str(), "#") {
        Some(rest) => match text::strip_prefix(rest.as_str(), " ") {
            Some(inner) => inner,
            None => rest,
        },
        None => String::new(),
    }
}

// ---------------------------------------------------------------------------
// Blocks among comments
// ---------------------------------------------------------------------------
/// Where the comments before a block stand among all comments.
pub open spec fn positions(comments: Seq<CommentView>, anchor: CommentAnchor) -> Seq<int>
    decreases comments.len(),
{
    if comments.len() == 0 {
        Seq::empty()
    } else if comments.last().anchor == anchor {
        positions(comments.drop_last(), anchor).push(comments.len() - 1)
    } else {
        positions(comments.drop_last(), anchor)
    }
}

/// The block whose marker is the comment at `at[pos]`: the comments it takes up,
/// and the body they describe. A marker that claims no lines describes no body,
/// and one that claims more than are left is damaged.
pub open spec fn block_at(comments: Seq<CommentView>, at: Seq<int>, pos: int) -> Option<
    (Seq<int>, Seq<char>),
> {
    match body_marker(comments[at[pos]].text) {
        Some(n) => if n > 0 && pos + 1 + n <= at.len() {
            Some(
                (
                    at.subrange(pos, pos + 1 + n),
                    text::joined(
                        at.subrange(pos + 1, pos + 1 + n).map_values(
                            |i: int| body_line(comments[i].text),
                        ),
                        "\n"@,
                    ),
                ),
            )
        } else {
            None
        },
        None => None,
    }
}

/// Whether a block still says what a body says.
pub open spec fn reconciles(notes: Seq<char>, body: Seq<char>) -> bool {
    json_comments::equivalent(json_comments::wire(notes), body)
}

/// The first block at or behind `pos`; where there is a `body` to hold it
/// against, the first that reconciles with it.
pub open spec fn block_from(
    comments: Seq<CommentView>,
    at: Seq<int>,
    pos: int,
    body: Option<Seq<char>>,
) -> Option<(Seq<int>, Seq<char>)>
    decreases at.len() - pos,
{
    if pos >= at.len() {
        None
    } else {
        match block_at(comments, at, pos) {
            Some(block) => if body is None || reconciles(block.1, body.unwrap()) {
                Some(block)
            } else {
                block_from(comments, at, pos + 1, body)
            },
            None => block_from(comments, at, pos + 1, body),
        }
    }
}

/// The first block among the comments before the body; where there is a `body`
/// to hold it against, the first that reconciles with it.
pub open spec fn body_block_in(comments: Seq<CommentView>, body: Option<Seq<char>>) -> Option<
    (Seq<int>, Seq<char>),
> {
    block_from(comments, positions(comments, CommentAnchor::Body), 0, body)
}

/// The comments but for those at the positions `at`.
pub open spec fn comments_without(comments: Seq<CommentView>, at: Seq<int>) -> Seq<CommentView>
    decreases comments.len(),
{
    if comments.len() == 0 {
        Seq::empty()
    } else if at.contains(comments.len() - 1) {
        comments_without(comments.drop_last(), at)
    } else {
        comments_without(comments.drop_last(), at).push(comments.last())
    }
}

/// Positions stand inside the list, each behind the one before.
pub proof fn lemma_positions(comments: Seq<CommentView>, anchor: CommentAnchor)
    ensures
        forall|j: int|
            0 <= j < positions(comments, anchor).len() ==> 0 <= #[trigger] positions(
                comments,
                anchor,
            )[j] < comments.len(),
    decreases comments.len(),
{
    if comments.len() > 0 {
        lemma_positions(comments.drop_last(), anchor);
        let before = positions(comments.drop_last(), anchor);
        let all = positions(comments, anchor);
        assert forall|j: int| 0 <= j < all.len() implies 0 <= #[trigger] all[j]
            < comments.len() by {
            if j < before.len() {
                assert(all[j] == before[j]);
            }
        }
    }
}

/// Where the comments before a block stand.
fn positions_of(comments: &[EntryComment], anchor: CommentAnchor) -> (r: Vec<usize>)
    ensures
        ints(r@) == positions(comments.deep_view(), anchor),
{
    let ghost all = comments.deep_view();
    let mut out: Vec<usize> = Vec::new();
    for i in 0..comments.len()
        invariant
            all == comments.deep_view(),
            ints(out@) == positions(all.take(i as int), anchor),
    {
        assert(all.take(i + 1).drop_last() == all.take(i as int));
        assert(all.take(i + 1).last() == comments@[i as int].deep_view());
        if comments[i].anchor == anchor {
            let ghost done = ints(out@);
            out.push(i);
            assert(ints(out@) == done.push(i as int));
        }
    }
    assert(all.take(all.len() as int) == all);
    out
}

/// The first block among the comments before the body; where there is a `body`
/// to hold it against, the first that reconciles with it.
pub(crate) fn find_body_block(comments: &[EntryComment], body: Option<&str>) -> (r: Option<
    (Vec<usize>, String),
>)
    ensures
        ({
            let want = body_block_in(
                comments.deep_view(),
                match body {
                    Some(b) => Some(b@),
                    None => None,
                },
            );
            match r {
                Some(block) => want == Some((ints(block.0@), block.1@)),
                None => want is None,
            }
        }),
{
    let ghost cs = comments.deep_view();
    let ghost b: Option<Seq<char>> = match body {
        Some(b) => Some(b@),
        None => None,
    };
    let at = positions_of(comments, CommentAnchor::Body);
    let ghost ats = ints(at@);
    proof {
        lemma_positions(cs, CommentAnchor::Body);
    }
    let mut pos: usize = 0;
    while pos < at.len()
        invariant
            cs == comments.deep_view(),
            b == (match body {
                Some(b) => Some(b@),
                None => None,
            }),
            ats == ints(at@),
            ats == positions(cs, CommentAnchor::Body),
            forall|j: int| 0 <= j < ats.len() ==> 0 <= #[trigger] ats[j] < cs.len(),
            pos <= at.len(),
            body_block_in(cs, b) == block_from(cs, ats, pos as int, b),
        decreases at.len() - pos,
    {
        let idx: usize = at[pos];
        assert(ats[pos as int] == idx);
        assert(cs[idx as int] == comments@[idx as int].deep_view());
        if let Some(n) = parse_body_marker(comments[idx].text.as_str()) {
            if n > 0 && n <= at.len() - pos - 1 {
                let mut claimed: Vec<usize> = Vec::new();
                claimed.push(idx);
                let mut lines: Vec<String> = Vec::new();
                let ghost f = |i: int| body_line(cs[i].text);
                let ghost want = ats.subrange(pos + 1, pos + 1 + n).map_values(f);
                assert(ats.subrange(pos as int, pos + 1) == seq![idx as int]);
                assert(ints(claimed@) == ats.subrange(pos as int, pos + 1));
                for k in 0..n
                    invariant
                        cs == comments.deep_view(),
                        ats == ints(at@),
                        forall|j: int| 0 <= j < ats.len() ==> 0 <= #[trigger] ats[j] < cs.len(),
                        pos < at.len(),
                        n <= at.len() - pos - 1,
                        f == (|i: int| body_line(cs[i].text)),
                        want == ats.subrange(pos + 1, pos + 1 + n).map_values(f),
                        ints(claimed@) == ats.subrange(pos as int, pos + 1 + k),
                        lines.len() == k,
                        forall|j: int| 0 <= j < k ==> (#[trigger] lines@[j])@ == want[j],
                {
                    let i: usize = at[pos + 1 + k];
                    assert(ats[pos + 1 + k] == i);
                    assert(cs[i as int] == comments@[i as int].deep_view());
                    lines.push(decode_body_line(comments[i].text.as_str()));
                    let ghost done = ints(claimed@);
                    claimed.push(i);
                    assert(ints(claimed@) == done.push(i as int));
                    assert(ats.subrange(pos as int, pos + 1 + k + 1) == ats.subrange(
                        pos as int,
                        pos + 1 + k,
                    ).push(i as int));
                }
                assert(lines.deep_view() == want);
                let notes = text::join(lines.as_slice(), "\n");
                let fits = match body {
                    None => true,
                    Some(body) => {
                        let wire = json_comments::wire_text(notes.as_str());
                        json_comments::bodies_equivalent(wire.as_str(), body)
                    },
                };
                if fits {
                    return Some((claimed, notes));
                }
            }
        }
        pos += 1;
    }
    None
}

/// The comments but for those at the positions `at`.
pub(crate) fn drop_comments(comments: Vec<EntryComment>, at: &[usize]) -> (r: Vec<EntryComment>)
    ensures
        r.deep_view() == comments_without(comments.deep_view(), ints(at@)),
{
    let ghost all = comments.deep_view();
    let ghost ats = ints(at@);
    let mut out: Vec<EntryComment> = Vec::new();
    for i in 0..comments.len()
        invariant
            all == comments.deep_view(),
            ats == ints(at@),
            out.deep_view() == comments_without(all.take(i as int), ats),
    {
        assert(all.take(i + 1).drop_last() == all.take(i as int));
        assert(all.take(i + 1).last() == comments@[i as int].deep_view());
        let mut gone = false;
        for k in 0..at.len()
            invariant
                ats == ints(at@),
                gone == exists|j: int| 0 <= j < k && #[trigger] ats[j] == i,
        {
            assert(ats[k as int] == at@[k as int]);
            if at[k] == i {
                gone = true;
            }
        }
        assert(gone == ats.contains(i as int));
        if !gone {
            let ghost done = out.deep_view();
            let c = comments[i].clone();
            out.push(c);
            assert(out.deep_view() == done.push(c.deep_view()));
        }
    }
    assert(all.take(all.len() as int) == all);
    out
}

impl HurlEntry {
    /// The leftover `# [Body]` block this request carries among its comments,
    /// if any: the positions of the comments it takes up, and the body it
    /// describes.
    ///
    /// A block that still reconciles with the body is claimed when the file is
    /// read and never gets here, so this is by definition one that no longer
    /// describes what the request sends.
    pub fn stale_body_notes(&self) -> (r: Option<(Vec<usize>, String)>)
        ensures
            match r {
                Some(block) => body_block_in(self.comments.deep_view(), None) == Some(
                    (ints(block.0@), block.1@),
                ),
                None => body_block_in(self.comments.deep_view(), None) is None,
            },
    {
        find_body_block(self.comments.as_slice(), None)
    }

    /// Throws the leftover notes away and keeps the body as it is. Says whether
    /// there were any.
    pub fn discard_body_notes(&mut self) -> (r: bool)
        ensures
            r == body_block_in(old(self).comments.deep_view(), None) is Some,
            final(self).deep_view() == (crate::entry::EntryView {
                comments: match body_block_in(old(self).comments.deep_view(), None) {
                    Some(block) => comments_without(old(self).comments.deep_view(), block.0),
                    None => old(self).comments.deep_view(),
                },
                ..old(self).deep_view()
            }),
    {
        match self.stale_body_notes() {
            Some(block) => {
                let mut comments: Vec<EntryComment> = Vec::new();
                std::mem::swap(&mut comments, &mut self.comments);
                self.comments = drop_comments(comments, block.0.as_slice());
                true
            },
            None => false,
        }
    }
}

} // verus!
