//! The language of the visible texts.
use vstd::prelude::*;

use crate::text;

verus! {

/// A language that the texts are there in.
#[derive(Debug, Clone, Copy, PartialEq, Eq, Structural)]
pub enum Language {
    English,
    French,
    Danish,
}

impl Default for Language {
    fn default() -> (r: Self)
        ensures
            r == Language::English,
    {
        Language::English
    }
}

impl Language {
    /// Where a language's wording stands in a row of the table.
    pub open spec fn column(self) -> int {
        match self {
            Language::English => 0,
            Language::French => 1,
            Language::Danish => 2,
        }
    }
}

/// The wording of a row of the table in a language.
pub open spec fn said(row: [&'static str; 3], lang: Language) -> Seq<char> {
    row@[lang.column()]@
}

/// The visible texts in one language.
///
/// The texts themselves are the rows of [`strings`](crate::strings); this picks
/// the wording.
#[derive(Debug)]
pub struct Strings {
    pub lang: Language,
}

impl Strings {
    /// The texts in a language.
    pub fn for_language(lang: &Language) -> (r: Self)
        ensures
            r.lang == *lang,
    {
        Strings { lang: *lang }
    }

    /// The texts in English, for where there is no language to go by.
    pub fn english() -> (r: Self)
        ensures
            r.lang == Language::English,
    {
        Strings { lang: Language::English }
    }

    /// The wording of a row.
    pub fn pick(&self, row: &[&'static str; 3]) -> (r: &'static str)
        ensures
            r@ == said(*row, self.lang),
    {
        match self.lang {
            Language::English => row[0],
            Language::French => row[1],
            Language::Danish => row[2],
        }
    }
}

/// A template with its first `{}`s replaced by `args`, in order. A `{}` without
/// an argument is left, and so is an argument without a `{}`.
pub open spec fn filled(template: Seq<char>, args: Seq<Seq<char>>) -> Seq<char>
    decreases args.len(),
{
    let n = text::find_pair(template, '{', '}', 0);
    if args.len() == 0 || n >= template.len() {
        template
    } else {
        template.take(n) + args[0] + filled(template.skip(n + 2), args.skip(1))
    }
}

/// Fills the `{}` placeholders of a template in order. A template that has too
/// many or too few makes odd text, and no more than that.
pub fn fill(template: &str, args: &[&str]) -> (r: String)
    ensures
        r@ == filled(template@, args@.map_values(|a: &str| a@)),
{
    let ghost all = args@.map_values(|a: &str| a@);
    let cs = text::chars_of(template);
    let mut out = String::new();
    let mut from: usize = 0;
    let mut i: usize = 0;
    assert(all.skip(0) == all);
    assert(cs@.skip(0) == template@);
    assert(out@ + filled(template@, all) == filled(template@, all));
    while i < args.len()
        invariant
            all == args@.map_values(|a: &str| a@),
            from <= cs.len(),
            i <= args.len(),
            out@ + filled(cs@.skip(from as int), all.skip(i as int)) == filled(template@, all),
        decreases args.len() - i,
    {
        let rest: &[char] = &cs[from..cs.len()];
        assert(rest@ == cs@.skip(from as int));
        let n: usize = text::pair_at(rest, '{', '}', 0);
        proof {
            text::lemma_find_pair(rest@, '{', '}', 0);
        }
        if n >= rest.len() {
            text::push_chars(&mut out, rest);
            return out;
        }
        let ghost done = out@;
        text::push_chars(&mut out, &rest[0..n]);
        out.push_str(args[i]);
        proof {
            assert(rest@.subrange(0, n as int) == rest@.take(n as int));
            assert(all.skip(i as int)[0] == args@[i as int]@);
            assert(all.skip(i as int).skip(1) == all.skip(i + 1));
            assert(rest@.skip(n + 2) == cs@.skip(from + n + 2));
            let tail = filled(rest@.skip(n + 2), all.skip(i + 1));
            assert(filled(rest@, all.skip(i as int)) == rest@.take(n as int) + args@[i as int]@
                + tail);
            assert(out@ + tail == done + filled(rest@, all.skip(i as int)));
        }
        from = from + n + 2;
        i += 1;
    }
    text::push_chars(&mut out, &cs[from..cs.len()]);
    assert(cs@.subrange(from as int, cs@.len() as int) == cs@.skip(from as int));
    out
}

} // verus!
