//! What holds of the spellings of a path, and of files as base64 text.
use vstd::prelude::*;

use crate::base64_text;
use crate::base64_text::Alphabet;
use crate::stage;
use crate::text;

verus! {

// ---------------------------------------------------------------------------
// Spellings
// ---------------------------------------------------------------------------
proof fn lemma_split_at(a: Seq<char>, b: Seq<char>)
    ensures
        text::split_on(a + seq!['/'] + b, '/') == text::split_on(a, '/') + text::split_on(b, '/'),
        text::split_on(a, '/').len() > 0,
    decreases a.len(),
{
    let s = a + seq!['/'] + b;
    let n = text::find(a, '/');
    text::lemma_find_from(a, '/', 0);
    if n < a.len() {
        assert forall|j: int| 0 <= j < n implies s[j] != '/' by {
            assert(s[j] == a[j]);
        }
        assert(s[n] == a[n]);
        text::lemma_find_is(s, '/', 0, n);
        assert(s.take(n) =~= a.take(n));
        let rest = a.skip(n + 1);
        assert(s.skip(n + 1) =~= rest + seq!['/'] + b);
        lemma_split_at(rest, b);
        assert(text::split_on(s, '/') =~= seq![a.take(n)] + (text::split_on(rest, '/')
            + text::split_on(b, '/')));
        assert(text::split_on(a, '/') =~= seq![a.take(n)] + text::split_on(rest, '/'));
    } else {
        assert forall|j: int| 0 <= j < a.len() implies s[j] != '/' by {
            assert(s[j] == a[j]);
        }
        assert(s[a.len() as int] == '/');
        text::lemma_find_is(s, '/', 0, a.len() as int);
        assert(s.take(a.len() as int) =~= a);
        assert(s.skip(a.len() as int + 1) =~= b);
    }
}

proof fn lemma_idle_part(before: Seq<Seq<char>>, part: Seq<char>, behind: Seq<Seq<char>>)
    requires
        before.len() > 0,
        part.len() == 0 || part == "."@,
    ensures
        stage::kept_parts(before + seq![part] + behind) == stage::kept_parts(before + behind),
    decreases behind.len(),
{
    let with = before + seq![part] + behind;
    let less = before + behind;
    if behind.len() == 0 {
        assert(with.drop_last() =~= before);
        assert(with.last() == part);
        assert(less =~= before);
    } else {
        let front = behind.drop_last();
        assert(with.drop_last() =~= before + seq![part] + front);
        assert(less.drop_last() =~= before + front);
        assert(with.last() == less.last());
        lemma_idle_part(before, part, front);
    }
}

/// A slash too many, or a `.` between two, changes nothing of what a path stands for. No
/// more does a slash at its end.
pub proof fn a_path_is_the_same_however_it_is_spelled(a: Seq<char>, b: Seq<char>)
    requires
        a.len() > 0,
    ensures
        stage::place(a + seq!['/', '/'] + b) == stage::place(a + seq!['/'] + b),
        stage::place(a + seq!['/', '.', '/'] + b) == stage::place(a + seq!['/'] + b),
        stage::place(a + seq!['/']) == stage::place(a),
{
    reveal_strlit(".");
    let none = Seq::<char>::empty();
    let dot = seq!['.'];
    assert(dot =~= "."@);
    let x = text::split_on(a, '/');
    let y = text::split_on(b, '/');
    lemma_split_at(a, b);
    lemma_single(none);
    lemma_single(dot);
    let twice = a + seq!['/', '/'] + b;
    assert(twice =~= a + seq!['/'] + (none + seq!['/'] + b));
    lemma_split_at(a, none + seq!['/'] + b);
    lemma_split_at(none, b);
    assert(text::split_on(twice, '/') =~= x + seq![none] + y);
    lemma_idle_part(x, none, y);
    let dotted = a + seq!['/', '.', '/'] + b;
    assert(dotted =~= a + seq!['/'] + (dot + seq!['/'] + b));
    lemma_split_at(a, dot + seq!['/'] + b);
    lemma_split_at(dot, b);
    assert(text::split_on(dotted, '/') =~= x + seq![dot] + y);
    lemma_idle_part(x, dot, y);
    let ended = a + seq!['/'];
    assert(ended =~= a + seq!['/'] + none);
    lemma_split_at(a, none);
    let nothing = Seq::<Seq<char>>::empty();
    assert(text::split_on(ended, '/') =~= x + seq![none] + nothing);
    lemma_idle_part(x, none, nothing);
    assert(x + nothing =~= x);
    assert(twice[0] == a[0] && dotted[0] == a[0] && ended[0] == a[0]);
    assert((a + seq!['/'] + b)[0] == a[0]);
}

proof fn lemma_single(s: Seq<char>)
    requires
        forall|i: int| 0 <= i < s.len() ==> #[trigger] s[i] != '/',
    ensures
        text::split_on(s, '/') == seq![s],
{
    text::lemma_find_is(s, '/', 0, s.len() as int);
}

/// Whether a text can be one part of a path, and stands for nothing but itself.
pub open spec fn is_part(s: Seq<char>) -> bool {
    &&& s.len() > 0 && s != "."@
    &&& forall|i: int| 0 <= i < s.len() ==> #[trigger] s[i] != '/'
}

/// A path with parts that stand for themselves is known by them, all of them and in
/// their order, and by whether it begins at the root. So two such paths are of one file
/// only where they are the same.
pub proof fn a_path_is_known_by_its_parts(parts: Seq<Seq<char>>)
    requires
        parts.len() > 0,
        forall|i: int| 0 <= i < parts.len() ==> is_part(#[trigger] parts[i]),
    ensures
        stage::place(text::joined(parts, "/"@)) == (false, parts),
        stage::place("/"@ + text::joined(parts, "/"@)) == (true, parts),
{
    reveal_strlit("/");
    let none = Seq::<char>::empty();
    let path = text::joined(parts, "/"@);
    lemma_parts(parts);
    lemma_kept(Seq::empty(), parts);
    assert(Seq::<Seq<char>>::empty() + parts =~= parts);
    let rooted = "/"@ + path;
    assert(rooted =~= none + seq!['/'] + path);
    lemma_split_at(none, path);
    lemma_single(none);
    lemma_kept(seq![none], parts);
    assert(seq![none].drop_last() =~= Seq::<Seq<char>>::empty());
    assert(stage::kept_parts(Seq::<Seq<char>>::empty()) =~= Seq::<Seq<char>>::empty());
    assert(stage::kept_parts(seq![none]) =~= Seq::<Seq<char>>::empty());
    assert(Seq::<Seq<char>>::empty() + parts =~= parts);
    assert(rooted[0] == '/');
}

proof fn lemma_parts(parts: Seq<Seq<char>>)
    requires
        parts.len() > 0,
        forall|i: int| 0 <= i < parts.len() ==> is_part(#[trigger] parts[i]),
    ensures
        text::split_on(text::joined(parts, "/"@), '/') == parts,
        text::joined(parts, "/"@).len() > 0 && text::joined(parts, "/"@)[0] != '/',
    decreases parts.len(),
{
    reveal_strlit("/");
    let last = parts.last();
    assert(is_part(parts[parts.len() - 1]));
    lemma_single(last);
    if parts.len() == 1 {
        assert(parts =~= seq![last]);
        assert(last[0] != '/');
    } else {
        let front = parts.drop_last();
        assert forall|i: int| 0 <= i < front.len() implies is_part(#[trigger] front[i]) by {
            assert(front[i] == parts[i]);
        }
        lemma_parts(front);
        let head = text::joined(front, "/"@);
        assert(head + "/"@ + last =~= head + seq!['/'] + last);
        lemma_split_at(head, last);
        assert(front + seq![last] =~= parts);
        assert((head + "/"@ + last)[0] == head[0]);
    }
}

proof fn lemma_kept(before: Seq<Seq<char>>, parts: Seq<Seq<char>>)
    requires
        forall|i: int| 0 <= i < parts.len() ==> is_part(#[trigger] parts[i]),
    ensures
        stage::kept_parts(before + parts) == stage::kept_parts(before) + parts,
    decreases parts.len(),
{
    let all = before + parts;
    if parts.len() == 0 {
        assert(all =~= before);
    } else {
        let front = parts.drop_last();
        assert forall|i: int| 0 <= i < front.len() implies is_part(#[trigger] front[i]) by {
            assert(front[i] == parts[i]);
        }
        lemma_kept(before, front);
        assert(is_part(parts[parts.len() - 1]));
        assert(all.drop_last() =~= before + front);
        assert(all.last() == parts.last());
    }
}

// ---------------------------------------------------------------------------
// Base64
// ---------------------------------------------------------------------------
/// What a character of base64 text stands for.
pub open spec fn six_bits(c: char) -> int {
    if 'A' <= c <= 'Z' {
        c as int - 'A' as int
    } else if 'a' <= c <= 'z' {
        c as int - 'a' as int + 26
    } else if '0' <= c <= '9' {
        c as int - '0' as int + 52
    } else if c == '+' || c == '-' {
        62
    } else {
        63
    }
}

proof fn lemma_sextet(n: int, alphabet: Alphabet)
    requires
        0 <= n < 64,
    ensures
        six_bits(base64_text::sextet(n, alphabet)) == n,
        base64_text::sextet(n, alphabet) != '=',
{
}

/// Bytes go into base64 three by three: the four characters for them stand for the same
/// number. Of one byte or two that are left, the number is filled up with zero bits, and
/// in the standard alphabet the group with `=`.
pub proof fn three_bytes_make_four_characters(a: u8, b: u8, c: u8, rest: Seq<u8>, alphabet: Alphabet)
    ensures
        ({
            let g = base64_text::base64_of(seq![a, b, c] + rest, alphabet);
            &&& g.len() >= 4 && g.skip(4) == base64_text::base64_of(rest, alphabet)
            &&& six_bits(g[0]) * 262144 + six_bits(g[1]) * 4096 + six_bits(g[2]) * 64 + six_bits(
                g[3],
            ) == a * 65536 + b * 256 + c
        }),
        ({
            let g = base64_text::base64_of(seq![a, b], alphabet);
            &&& six_bits(g[0]) * 4096 + six_bits(g[1]) * 64 + six_bits(g[2]) == (a * 256 + b) * 4
            &&& alphabet is Standard ==> g.len() == 4 && g[3] == '='
            &&& alphabet is UrlSafe ==> g.len() == 3
        }),
        ({
            let g = base64_text::base64_of(seq![a], alphabet);
            &&& six_bits(g[0]) * 64 + six_bits(g[1]) == a * 16
            &&& alphabet is Standard ==> g.len() == 4 && g[2] == '=' && g[3] == '='
            &&& alphabet is UrlSafe ==> g.len() == 2
        }),
        base64_text::base64_of(Seq::empty(), alphabet).len() == 0,
{
    let all = seq![a, b, c] + rest;
    assert(all.skip(3) =~= rest);
    assert(all[0] == a && all[1] == b && all[2] == c);
    lemma_sextet(a as int / 4, alphabet);
    lemma_sextet(a as int % 4 * 16 + b as int / 16, alphabet);
    lemma_sextet(b as int % 16 * 4 + c as int / 64, alphabet);
    lemma_sextet(c as int % 64, alphabet);
    lemma_sextet(b as int % 16 * 4, alphabet);
    lemma_sextet(a as int % 4 * 16, alphabet);
    let g = base64_text::base64_of(all, alphabet);
    assert(g.skip(4) =~= base64_text::base64_of(rest, alphabet));
}

/// The standard alphabet has no character of the one that is safe in URLs but those that
/// both have, and the other way round.
pub proof fn the_alphabets_differ_in_two_characters(n: int)
    requires
        0 <= n < 64,
    ensures
        n < 62 ==> base64_text::sextet(n, Alphabet::Standard) == base64_text::sextet(
            n,
            Alphabet::UrlSafe,
        ),
        base64_text::sextet(62, Alphabet::Standard) == '+',
        base64_text::sextet(63, Alphabet::Standard) == '/',
        base64_text::sextet(62, Alphabet::UrlSafe) == '-',
        base64_text::sextet(63, Alphabet::UrlSafe) == '_',
{
}

} // verus!
