//! A cursor stays where it was when a body is laid out afresh.
use vstd::prelude::*;
use vstd::utf8::*;

use crate::json_format;
use crate::json_layout;
use crate::text;

verus! {

/// The bytes of a character are all of them white space, or none of them.
proof fn lemma_scalar(c: char)
    ensures
        encode_scalar(c as u32).len() > 0,
        text::is_ascii_white(c) ==> encode_scalar(c as u32).len() == 1
            && json_format::is_white_byte(encode_scalar(c as u32)[0]),
        !text::is_ascii_white(c) ==> forall|i: int|
            0 <= i < encode_scalar(c as u32).len() ==> !json_format::is_white_byte(
                #[trigger] encode_scalar(c as u32)[i],
            ),
{
    let v = c as u32;
    assert((v <= 0x7f) ==> (v & 0x7f) == v) by (bit_vector);
    assert(forall|x: u8| #[trigger] (0x80u8 | x) >= 0x80) by (bit_vector);
    assert(forall|x: u8| #[trigger] (0xc0u8 | x) >= 0xc0) by (bit_vector);
    assert(forall|x: u8| #[trigger] (0xe0u8 | x) >= 0xe0) by (bit_vector);
    assert(forall|x: u8| #[trigger] (0xf0u8 | x) >= 0xf0) by (bit_vector);
    char_is_scalar(c);
}

proof fn lemma_encode_add(a: Seq<char>, b: Seq<char>)
    ensures
        encode_utf8(a + b) == encode_utf8(a) + encode_utf8(b),
    decreases a.len(),
{
    if a.len() == 0 {
        assert(a + b =~= b);
        assert(encode_utf8(a) + encode_utf8(b) =~= encode_utf8(b));
    } else {
        lemma_encode_add(a.drop_first(), b);
        assert((a + b).drop_first() =~= a.drop_first() + b);
        assert((a + b)[0] == a[0]);
        let first = encode_scalar(a[0] as u32);
        assert(first + (encode_utf8(a.drop_first()) + encode_utf8(b)) =~= first + encode_utf8(
            a.drop_first(),
        ) + encode_utf8(b));
    }
}

proof fn lemma_solid_first(c: char, rest: Seq<char>)
    ensures
        json_layout::solid(seq![c] + rest) == (if text::is_ascii_white(c) {
            json_layout::solid(rest)
        } else {
            seq![c] + json_layout::solid(rest)
        }),
{
    let p = |c: char| !text::is_ascii_white(c);
    Seq::filter_distributes_over_add(seq![c], rest, p);
    reveal(Seq::filter);
    assert(seq![c].drop_last() =~= Seq::<char>::empty());
    assert(seq![c].drop_last().filter(p) =~= Seq::<char>::empty());
    if text::is_ascii_white(c) {
        assert(Seq::<char>::empty() + json_layout::solid(rest) =~= json_layout::solid(rest));
    } else {
        assert(seq![c].filter(p) =~= seq![c]);
    }
}

proof fn lemma_all_solid(bytes: Seq<u8>)
    requires
        forall|i: int| 0 <= i < bytes.len() ==> !json_format::is_white_byte(#[trigger] bytes[i]),
    ensures
        json_format::solid_bytes(bytes) == bytes.len(),
    decreases bytes.len(),
{
    reveal(Seq::filter);
    if bytes.len() > 0 {
        let front = bytes.drop_last();
        assert(forall|i: int| 0 <= i < front.len() ==> front[i] == bytes[i]);
        lemma_all_solid(front);
        assert(!json_format::is_white_byte(bytes[bytes.len() - 1]));
    }
}

/// The bytes of a text that are not white space are those of its characters that
/// are not.
proof fn lemma_solid_bytes(s: Seq<char>)
    ensures
        json_format::solid_bytes(encode_utf8(s)) == encode_utf8(json_layout::solid(s)).len(),
    decreases s.len(),
{
    reveal(Seq::filter);
    if s.len() > 0 {
        let c = s[0];
        let rest = s.drop_first();
        let first = encode_scalar(c as u32);
        lemma_solid_bytes(rest);
        assert(s =~= seq![c] + rest);
        lemma_solid_first(c, rest);
        lemma_scalar(c);
        Seq::filter_distributes_over_add(
            first,
            encode_utf8(rest),
            |b: u8| !json_format::is_white_byte(b),
        );
        if text::is_ascii_white(c) {
            let p = |b: u8| !json_format::is_white_byte(b);
            assert(first.drop_last() =~= Seq::<u8>::empty());
            assert(first.drop_last().filter(p) =~= Seq::<u8>::empty());
            assert(first.last() == first[0]);
            assert(json_format::solid_bytes(first) == 0);
        } else {
            lemma_all_solid(first);
            let kept = seq![c] + json_layout::solid(rest);
            assert(kept.drop_first() =~= json_layout::solid(rest));
        }
    } else {
        assert(json_layout::solid(s) =~= s);
        assert(encode_utf8(s) =~= Seq::<u8>::empty());
    }
}

proof fn lemma_shifted(a: Seq<u8>, b: Seq<u8>, n: nat, i: int)
    requires
        0 <= i <= b.len(),
    ensures
        json_format::after_solid(a + b, n, a.len() + i) == a.len() + json_format::after_solid(
            b,
            n,
            i,
        ),
    decreases b.len() - i,
{
    if i < b.len() {
        assert((a + b)[a.len() + i] == b[i]);
        lemma_shifted(a, b, n, i + 1);
        if n > 1 {
            lemma_shifted(a, b, (n - 1) as nat, i + 1);
        }
    }
}

proof fn lemma_run(bytes: Seq<u8>, n: nat, i: int, w: int)
    requires
        0 <= i,
        0 < w <= n,
        i + w <= bytes.len(),
        forall|k: int| i <= k < i + w ==> !json_format::is_white_byte(#[trigger] bytes[k]),
    ensures
        n == w ==> json_format::after_solid(bytes, n, i) == i + w,
        n > w ==> json_format::after_solid(bytes, n, i) == json_format::after_solid(
            bytes,
            (n - w) as nat,
            i + w,
        ),
    decreases w,
{
    assert(!json_format::is_white_byte(bytes[i]));
    if w > 1 {
        lemma_run(bytes, (n - 1) as nat, i + 1, w - 1);
    }
}

/// Where the first `m` characters that are not white space are over.
proof fn lemma_behind(t: Seq<char>, m: int) -> (j: int)
    requires
        1 <= m <= json_layout::solid(t).len(),
    ensures
        0 < j <= t.len(),
        !text::is_ascii_white(t[j - 1]),
        json_layout::solid(t.take(j)) == json_layout::solid(t).take(m),
        json_format::after_solid(
            encode_utf8(t),
            encode_utf8(json_layout::solid(t).take(m)).len(),
            0,
        ) == encode_utf8(t.take(j)).len(),
        encode_utf8(json_layout::solid(t).take(m)).len() > 0,
        is_char_boundary(encode_utf8(t), encode_utf8(t.take(j)).len() as int),
    decreases t.len(),
{
    if t.len() == 0 {
        reveal(Seq::filter);
        assert(false);
        0
    } else {
        let c = t[0];
        let rest = t.drop_first();
        let first = encode_scalar(c as u32);
        let w = first.len() as int;
        let bytes = encode_utf8(t);
        let kept = json_layout::solid(t);
        assert(t =~= seq![c] + rest);
        lemma_solid_first(c, rest);
        lemma_scalar(c);
        encode_utf8_valid_utf8(t);
        encode_utf8_first_scalar(t);
        assert(pop_first_scalar(bytes) =~= encode_utf8(rest));
        encode_utf8_valid_utf8(rest);
        assert(forall|k: int| 0 <= k < w ==> bytes[k] == first[k]);
        if !text::is_ascii_white(c) && m == 1 {
            assert(kept.take(1) =~= seq![c]);
            assert(t.take(1) =~= seq![c]);
            lemma_solid_first(c, Seq::empty());
            assert(seq![c] + Seq::<char>::empty() =~= seq![c]);
            reveal(Seq::filter);
            assert(json_layout::solid(Seq::<char>::empty()) =~= Seq::<char>::empty());
            assert(seq![c].drop_first() =~= Seq::<char>::empty());
            reveal_with_fuel(encode_utf8, 2);
            assert(encode_utf8(seq![c]) =~= first);
            lemma_run(bytes, w as nat, 0, w);
            reveal_with_fuel(is_char_boundary, 2);
            1
        } else {
            let n = if text::is_ascii_white(c) {
                m
            } else {
                m - 1
            };
            let below = json_layout::solid(rest);
            let k = lemma_behind(rest, n);
            let j = k + 1;
            assert(t.take(j) =~= seq![c] + rest.take(k));
            lemma_solid_first(c, rest.take(k));
            assert(t.take(j).drop_first() =~= rest.take(k));
            assert(t.take(j)[0] == c);
            assert(encode_utf8(t.take(j)) == first + encode_utf8(rest.take(k)));
            let x = encode_utf8(below.take(n)).len();
            lemma_shifted(first, encode_utf8(rest), x, 0);
            if text::is_ascii_white(c) {
                assert(json_format::after_solid(bytes, x, 0) == json_format::after_solid(
                    bytes,
                    x,
                    1,
                ));
            } else {
                assert(kept.take(m) =~= seq![c] + below.take(n));
                assert(kept.take(m).drop_first() =~= below.take(n));
                assert(encode_utf8(kept.take(m)) == first + encode_utf8(below.take(n)));
                lemma_run(bytes, (w + x) as nat, 0, w);
            }
            j
        }
    }
}

/// A cursor behind some characters of a text belongs, in a text of the same
/// characters with other white space between them, behind the same characters,
/// and directly behind the last of them. A layout is such a text.
pub proof fn a_cursor_stays_behind_the_same_characters(s: Seq<char>, t: Seq<char>, k: int) -> (j:
    int)
    requires
        json_layout::solid(s) == json_layout::solid(t),
        0 <= k <= s.len(),
    ensures
        0 <= j <= t.len(),
        json_format::cursor_in(
            encode_utf8(s),
            encode_utf8(t),
            encode_utf8(s.take(k)).len() as int,
        ) == encode_utf8(t.take(j)).len(),
        json_layout::solid(t.take(j)) == json_layout::solid(s.take(k)),
        j > 0 ==> !text::is_ascii_white(t[j - 1]),
{
    let before = s.take(k);
    let at = encode_utf8(before).len() as int;
    let kept = json_layout::solid(before);
    let m = kept.len() as int;
    assert(s =~= before + s.skip(k));
    lemma_encode_add(before, s.skip(k));
    assert(encode_utf8(s).take(at) =~= encode_utf8(before));
    lemma_solid_bytes(before);
    Seq::filter_distributes_over_add(before, s.skip(k), |c: char| !text::is_ascii_white(c));
    assert(json_layout::solid(s).take(m) =~= kept);
    if m == 0 {
        assert(t.take(0) =~= Seq::<char>::empty());
        reveal(Seq::filter);
        assert(json_layout::solid(t.take(0)) =~= kept);
        0
    } else {
        lemma_behind(t, m)
    }
}

/// The bytes of `b` that are not white space.
pub open spec fn solid_of(b: Seq<u8>) -> Seq<u8> {
    b.filter(|x: u8| x != 0x20 && x != 0x09 && x != 0x0a && x != 0x0c && x != 0x0d)
}

/// Whether position `a` of `out` is right behind its `n`-th byte that is not white
/// space, or its end where there are fewer.
pub open spec fn is_behind(out: Seq<u8>, n: nat, a: int) -> bool {
    ||| 0 < a <= out.len() && solid_of(out.take(a)).len() == n && solid_of(seq![out[a - 1]]).len()
        == 1
    ||| a == out.len() && solid_of(out).len() < n
}

proof fn lemma_after_solid_counts(out: Seq<u8>, n: nat, i: int)
    requires
        0 <= i <= out.len(),
        n > 0,
        solid_of(out.take(i)).len() < n,
    ensures
        is_behind(
            out,
            n,
            json_format::after_solid(out, (n - solid_of(out.take(i)).len()) as nat, i),
        ),
    decreases out.len() - i,
{
    reveal(Seq::filter);
    let p = |x: u8| x != 0x20 && x != 0x09 && x != 0x0a && x != 0x0c && x != 0x0d;
    if i < out.len() {
        let next = out.take(i + 1);
        assert(next.drop_last() =~= out.take(i));
        assert(next.last() == out[i]);
        assert(solid_of(next) == (if p(out[i]) {
            solid_of(out.take(i)).push(out[i])
        } else {
            solid_of(out.take(i))
        }));
        if !p(out[i]) || solid_of(next).len() < n {
            lemma_after_solid_counts(out, n, i + 1);
        } else {
            let one = seq![out[i]];
            assert(one.drop_last() =~= Seq::<u8>::empty());
            assert(one.last() == out[i]);
            assert(solid_of(one) =~= one) by {
                reveal_with_fuel(Seq::filter, 2);
            }
            assert(is_behind(out, n, i + 1));
        }
    } else {
        assert(out.take(i) =~= out);
    }
}

/// What stands before a cursor: all of the text where it is behind the end.
pub open spec fn before_cursor(src: Seq<u8>, at: int) -> Seq<u8> {
    if at <= src.len() {
        src.take(at)
    } else {
        src
    }
}

/// Whether position `r` of `out` is the first where a character begins from right
/// behind its `n`-th byte on that is not white space.
pub open spec fn is_put_behind(out: Seq<u8>, n: nat, r: int) -> bool {
    exists|a: int| #[trigger] is_behind(out, n, a) && is_next_boundary(out, a, r)
}

/// Whether `r` is the first position from `a` on where a character begins, or the end.
pub open spec fn is_next_boundary(out: Seq<u8>, a: int, r: int) -> bool {
    &&& a <= r <= out.len()
    &&& r < out.len() ==> is_char_boundary(out, r)
    &&& forall|j: int| a <= j < r ==> !is_char_boundary(out, j)
}

/// Wherever a cursor stands in a text, be it behind its end, it is put right behind as
/// many bytes that are not white space as it was behind before, or else to the end,
/// and from there on to where a character begins. One that was behind none is put
/// first.
pub proof fn a_cursor_counts_what_is_before_it(src: Seq<u8>, out: Seq<u8>, at: int)
    requires
        0 <= at,
    ensures
        solid_of(before_cursor(src, at)).len() == 0 ==> json_format::cursor_in(src, out, at) == 0,
        solid_of(before_cursor(src, at)).len() > 0 ==> is_put_behind(
            out,
            solid_of(before_cursor(src, at)).len(),
            json_format::cursor_in(src, out, at),
        ),
{
    let before = before_cursor(src, at);
    assert(src.take(src.len() as int) =~= src);
    assert((|x: u8| x != 0x20 && x != 0x09 && x != 0x0a && x != 0x0c && x != 0x0d) =~= (|b: u8|
        !json_format::is_white_byte(b)));
    let n = solid_of(before).len();
    assert(json_format::solid_bytes(before) == n);
    if n > 0 {
        assert(out.take(0) =~= Seq::<u8>::empty());
        reveal(Seq::filter);
        assert(solid_of(out.take(0)).len() == 0);
        lemma_after_solid_counts(out, n, 0);
        let a = json_format::after_solid(out, n, 0);
        json_format::lemma_after_solid(out, n, 0);
        lemma_boundary(out, a);
        assert(is_behind(out, n, a));
        let r = json_format::cursor_in(src, out, at);
        assert(r == json_format::boundary_from(out, a));
        assert(is_next_boundary(out, a, r));
    } else {
        assert(json_format::cursor_in(src, out, at) == 0);
    }
}

proof fn lemma_boundary(out: Seq<u8>, i: int)
    requires
        0 <= i <= out.len(),
    ensures
        ({
            let r = json_format::boundary_from(out, i);
            &&& i <= r <= out.len()
            &&& r < out.len() ==> is_char_boundary(out, r)
            &&& forall|j: int| i <= j < r ==> !is_char_boundary(out, j)
        }),
    decreases out.len() - i,
{
    if i < out.len() && !is_char_boundary(out, i) {
        lemma_boundary(out, i + 1);
    }
}

} // verus!
