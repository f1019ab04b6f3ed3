//! The text rules of the identifier scheme: what segments may contain, how an
//! identifier renders to text, and how rendered text decomposes back into
//! segments.

use vstd::prelude::*;
use vstd::string::*;

verus! {

/// `s` contains no occurrence of `c`.
pub open spec fn free_of(s: Seq<char>, c: char) -> bool {
    forall|j: int| 0 <= j < s.len() ==> s[j] != c
}

/// A domain is valid when it is non-empty and contains neither the segment
/// separator nor the hierarchy separator.
pub open spec fn domain_valid(s: Seq<char>) -> bool {
    &&& s.len() > 0
    &&& free_of(s, ':')
    &&& free_of(s, '/')
}

/// A part is valid when it is non-empty, does not begin with the segment
/// separator, and contains no hierarchy separator.
pub open spec fn part_valid(s: Seq<char>) -> bool {
    &&& s.len() > 0
    &&& s[0] != ':'
    &&& free_of(s, '/')
}

/// Every element of `ps` is a valid part.
pub open spec fn parts_text_valid(ps: Seq<Seq<char>>) -> bool {
    forall|k: int| 0 <= k < ps.len() ==> part_valid(#[trigger] ps[k])
}

/// The index of the first occurrence of `c` in `s`, if any.
pub open spec fn find_char(s: Seq<char>, c: char) -> Option<int>
    decreases s.len(),
{
    if s.len() == 0 {
        None
    } else if s[0] == c {
        Some(0int)
    } else {
        match find_char(s.drop_first(), c) {
            Some(i) => Some(i + 1),
            None => None,
        }
    }
}

/// `find_char` returns the first occurrence: the reported index holds `c`
/// and nothing before it does; `None` means no index holds `c`.
pub proof fn lemma_find_char(s: Seq<char>, c: char)
    ensures
        match find_char(s, c) {
            Some(i) => 0 <= i < s.len() && s[i] == c && (forall|j: int| 0 <= j < i ==> s[j] != c),
            None => free_of(s, c),
        },
    decreases s.len(),
{
    if s.len() == 0 {
    } else if s[0] == c {
    } else {
        lemma_find_char(s.drop_first(), c);
        match find_char(s.drop_first(), c) {
            Some(i) => {
                assert(s.drop_first()[i] == s[i + 1]);
                assert(forall|j: int| 0 <= j < i + 1 ==> s[j] != c) by {
                    assert(forall|j: int| 1 <= j < i + 1 ==> s[j] == s.drop_first()[j - 1]);
                }
            },
            None => {
                assert(forall|j: int| 1 <= j < s.len() ==> s[j] == s.drop_first()[j - 1]);
            },
        }
    }
}

/// An index that holds `c`, with no earlier occurrence, is what `find_char`
/// returns.
pub proof fn lemma_find_char_is(s: Seq<char>, c: char, i: int)
    requires
        0 <= i < s.len(),
        s[i] == c,
        forall|j: int| 0 <= j < i ==> s[j] != c,
    ensures
        find_char(s, c) == Some(i),
{
    lemma_find_char(s, c);
    match find_char(s, c) {
        Some(k) => {
            if k < i {
                assert(s[k] != c);
            }
            if k > i {
                assert(s[i] != c);
            }
        },
        None => {
            assert(s[i] != c);
        },
    }
}

/// A sequence free of `c` makes `find_char` return `None`.
pub proof fn lemma_find_char_none(s: Seq<char>, c: char)
    requires
        free_of(s, c),
    ensures
        find_char(s, c) is None,
{
    lemma_find_char(s, c);
    match find_char(s, c) {
        Some(k) => {
            assert(s[k] != c);
        },
        None => {},
    }
}

/// In `a + [c] + b` with `a` free of `c`, the first occurrence of `c` is the
/// one standing between `a` and `b`.
pub proof fn lemma_find_char_concat(a: Seq<char>, b: Seq<char>, c: char)
    requires
        free_of(a, c),
    ensures
        find_char(a + seq![c] + b, c) == Some(a.len() as int),
{
    let s = a + seq![c] + b;
    assert(s[a.len() as int] == c);
    assert(forall|j: int| 0 <= j < a.len() ==> s[j] == a[j]);
    lemma_find_char_is(s, c, a.len() as int);
}

/// A first occurrence of `c` at `i`, looking only from `k` on, is what
/// `find_char` reports on the suffix starting at `k`.
pub proof fn lemma_find_char_window(s: Seq<char>, c: char, k: int, i: int)
    requires
        0 <= k <= i < s.len(),
        s[i] == c,
        forall|j: int| k <= j < i ==> s[j] != c,
    ensures
        find_char(s.skip(k), c) == Some(i - k),
{
    let w = s.skip(k);
    assert(w[i - k] == s[i]);
    assert(forall|j: int| 0 <= j < i - k ==> w[j] == s[j + k]);
    lemma_find_char_is(w, c, i - k);
}

/// A suffix holding no `c` from `k` on makes `find_char` report nothing.
pub proof fn lemma_find_char_window_none(s: Seq<char>, c: char, k: int)
    requires
        0 <= k <= s.len(),
        forall|j: int| k <= j < s.len() ==> s[j] != c,
    ensures
        find_char(s.skip(k), c) is None,
{
    let w = s.skip(k);
    assert(forall|j: int| 0 <= j < w.len() ==> w[j] == s[j + k]);
    lemma_find_char_none(w, c);
}

/// `s` split at each occurrence of `c`, the separators dropped.
pub open spec fn split_on(s: Seq<char>, c: char) -> Seq<Seq<char>>
    decreases s.len(),
{
    match find_char(s, c) {
        Some(i) => {
            if 0 <= i < s.len() {
                seq![s.take(i)] + split_on(s.skip(i + 1), c)
            } else {
                seq![s]
            }
        },
        None => seq![s],
    }
}

/// The elements of `ps` joined with `c` between neighbours.
pub open spec fn join_with(ps: Seq<Seq<char>>, c: char) -> Seq<char>
    decreases ps.len(),
{
    if ps.len() == 0 {
        Seq::empty()
    } else if ps.len() == 1 {
        ps[0]
    } else {
        ps[0] + seq![c] + join_with(ps.drop_first(), c)
    }
}

/// Splitting a joined sequence recovers the pieces, provided none of the
/// pieces contains the separator.
pub proof fn lemma_split_join(ps: Seq<Seq<char>>, c: char)
    requires
        ps.len() > 0,
        forall|k: int| 0 <= k < ps.len() ==> free_of(#[trigger] ps[k], c),
    ensures
        split_on(join_with(ps, c), c) == ps,
    decreases ps.len(),
{
    if ps.len() == 1 {
        lemma_find_char_none(ps[0], c);
        assert(seq![ps[0]] =~= ps);
    } else {
        let rest = ps.drop_first();
        let joined_rest = join_with(rest, c);
        let s = join_with(ps, c);
        lemma_find_char_concat(ps[0], joined_rest, c);
        let n = ps[0].len() as int;
        assert(s.take(n) =~= ps[0]);
        assert(s.skip(n + 1) =~= joined_rest);
        assert(forall|k: int| 0 <= k < rest.len() ==> rest[k] == ps[k + 1]);
        lemma_split_join(rest, c);
        assert(seq![ps[0]] + rest =~= ps);
    }
}

/// Joining one more piece appends a separator and the piece to the text of
/// the pieces before it.
pub proof fn lemma_join_snoc(ps: Seq<Seq<char>>, c: char)
    requires
        ps.len() >= 2,
    ensures
        join_with(ps, c) == join_with(ps.drop_last(), c) + seq![c] + ps.last(),
    decreases ps.len(),
{
    if ps.len() == 2 {
        assert(ps.drop_first().len() == 1);
        assert(ps.drop_first()[0] == ps[1]);
        assert(join_with(ps.drop_first(), c) == ps[1]);
        assert(ps.drop_last().len() == 1);
        assert(ps.drop_last()[0] == ps[0]);
        assert(join_with(ps, c) =~= ps[0] + seq![c] + ps[1]);
    } else {
        let rest = ps.drop_first();
        lemma_join_snoc(rest, c);
        assert(rest.drop_last() =~= ps.drop_last().drop_first());
        assert(rest.last() == ps.last());
        assert(ps.drop_last()[0] == ps[0]);
        assert(ps.drop_last().len() >= 2);
        assert(join_with(ps.drop_last(), c) == ps[0] + seq![c] + join_with(
            ps.drop_last().drop_first(),
            c,
        ));
        assert(join_with(ps, c) =~= join_with(ps.drop_last(), c) + seq![c] + ps.last());
    }
}

/// The first occurrence of `c` in `s` at or after `start`, if any.
pub fn find_char_from(s: &str, start: usize, c: char) -> (r: Option<usize>)
    requires
        start <= s@.len(),
    ensures
        match r {
            Some(i) => start <= i < s@.len() && s@[i as int] == c && (forall|j: int|
                start <= j < i ==> s@[j] != c),
            None => forall|j: int| start <= j < s@.len() ==> s@[j] != c,
        },
{
    let n = s.unicode_len();
    let mut i = start;
    while i < n
        invariant
            start <= i <= n,
            n == s@.len(),
            forall|j: int| start <= j < i ==> s@[j] != c,
        decreases n - i,
    {
        if s.get_char(i) == c {
            return Some(i);
        }
        i = i + 1;
    }
    None
}

/// Whether two pieces of text hold the same characters.
pub fn str_eq(a: &str, b: &str) -> (r: bool)
    ensures
        r == (a@ == b@),
{
    let n = a.unicode_len();
    let m = b.unicode_len();
    if n != m {
        return false;
    }
    let mut i: usize = 0;
    while i < n
        invariant
            0 <= i <= n,
            n == a@.len(),
            n == b@.len(),
            forall|j: int| 0 <= j < i ==> a@[j] == b@[j],
        decreases n - i,
    {
        if a.get_char(i) != b.get_char(i) {
            return false;
        }
        i = i + 1;
    }
    proof {
        assert(a@ =~= b@);
    }
    true
}

/// The characters of `s` from `from` (inclusive) to `to` (exclusive), as an
/// owned string.
pub fn text_range(s: &str, from: usize, to: usize) -> (r: String)
    requires
        from <= to <= s@.len(),
    ensures
        r@ == s@.subrange(from as int, to as int),
{
    let sub = s.substring_char(from, to);
    sub.to_owned()
}

/// The abstract value of an identifier: the five segments as plain character
/// sequences.
pub ghost struct ErnView {
    pub domain: Seq<char>,
    pub category: Seq<char>,
    pub account: Seq<char>,
    pub root: Seq<char>,
    pub parts: Seq<Seq<char>>,
}

/// The rendered text of an identifier under the given family prefix: the four
/// head segments separated by ':', then, only if any parts exist, '/' and the
/// parts joined with '/'.
pub open spec fn ern_text(
    prefix: Seq<char>,
    d: Seq<char>,
    c: Seq<char>,
    a: Seq<char>,
    r: Seq<char>,
    ps: Seq<Seq<char>>,
) -> Seq<char> {
    let head = prefix + d + seq![':'] + c + seq![':'] + a + seq![':'] + r;
    if ps.len() == 0 {
        head
    } else {
        head + seq!['/'] + join_with(ps, '/')
    }
}

/// The fourth field of a rendered identifier decomposed at its first '/':
/// the root, and the hierarchy split at each further '/'.
pub open spec fn split_root_parts(tail: Seq<char>) -> (Seq<char>, Seq<Seq<char>>) {
    match find_char(tail, '/') {
        None => (tail, Seq::<Seq<char>>::empty()),
        Some(i) => (tail.take(i), split_on(tail.skip(i + 1), '/')),
    }
}

/// The shape of rendered text: the family prefix followed by a non-empty
/// remainder holding at least three ':'. Yields the four raw fields — the
/// text before each of the first three ':' after the prefix, and everything
/// after the third.
pub open spec fn spec_split_fields(s: Seq<char>) -> Option<
    (Seq<char>, Seq<char>, Seq<char>, Seq<char>),
> {
    if s.len() <= 4 || s.subrange(0, 4) != "ern:"@ {
        None
    } else {
        let rest = s.skip(4);
        match find_char(rest, ':') {
            None => None,
            Some(i1) => {
                let d = rest.take(i1);
                let r1 = rest.skip(i1 + 1);
                match find_char(r1, ':') {
                    None => None,
                    Some(i2) => {
                        let c = r1.take(i2);
                        let r2 = r1.skip(i2 + 1);
                        match find_char(r2, ':') {
                            None => None,
                            Some(i3) => Some((d, c, r2.take(i3), r2.skip(i3 + 1))),
                        }
                    },
                }
            },
        }
    }
}

/// How rendered text decomposes back into an identifier: strip the family
/// prefix, split the remainder at its first three ':' into domain, category
/// and account, split what follows at its first '/' into root and hierarchy,
/// and accept the result only if the domain and every part are valid.
pub open spec fn spec_parse(s: Seq<char>) -> Option<ErnView> {
    match spec_split_fields(s) {
        None => None,
        Some(f) => {
            let rp = split_root_parts(f.3);
            if domain_valid(f.0) && parts_text_valid(rp.1) {
                Some(ErnView { domain: f.0, category: f.1, account: f.2, root: rp.0, parts: rp.1 })
            } else {
                None
            }
        },
    }
}

/// Round trip: rendering an identifier and decomposing the text yields the
/// identifier back, whenever the segments obey the text rules — the domain
/// valid, category and account free of ':', the root free of '/', and every
/// part valid. Category and account may contain '/' and the root and parts
/// may contain ':': the decomposition still recovers them exactly.
#[verifier::rlimit(50)]
pub proof fn lemma_parse_of_rendered(v: ErnView)
    requires
        domain_valid(v.domain),
        free_of(v.category, ':'),
        free_of(v.account, ':'),
        free_of(v.root, '/'),
        parts_text_valid(v.parts),
    ensures
        spec_parse(ern_text("ern:"@, v.domain, v.category, v.account, v.root, v.parts)) == Some(v),
{
    let joined = join_with(v.parts, '/');
    let tail: Seq<char> = if v.parts.len() == 0 {
        v.root
    } else {
        v.root + seq!['/'] + joined
    };
    let after_a = v.account + seq![':'] + tail;
    let after_c = v.category + seq![':'] + after_a;
    let rest = v.domain + seq![':'] + after_c;
    let s = ern_text("ern:"@, v.domain, v.category, v.account, v.root, v.parts);
    reveal_strlit("ern:");
    assert(s =~= "ern:"@ + rest);
    assert(s.len() > 4);
    assert(s.subrange(0, 4) =~= "ern:"@);
    assert(s.skip(4) =~= rest);
    lemma_find_char_concat(v.domain, after_c, ':');
    let n1 = v.domain.len() as int;
    assert(rest.take(n1) =~= v.domain);
    assert(rest.skip(n1 + 1) =~= after_c);
    lemma_find_char_concat(v.category, after_a, ':');
    let n2 = v.category.len() as int;
    assert(after_c.take(n2) =~= v.category);
    assert(after_c.skip(n2 + 1) =~= after_a);
    lemma_find_char_concat(v.account, tail, ':');
    let n3 = v.account.len() as int;
    assert(after_a.take(n3) =~= v.account);
    assert(after_a.skip(n3 + 1) =~= tail);
    if v.parts.len() == 0 {
        lemma_find_char_none(v.root, '/');
        assert(split_root_parts(tail) == (v.root, Seq::<Seq<char>>::empty()));
    } else {
        lemma_find_char_concat(v.root, joined, '/');
        let n4 = v.root.len() as int;
        assert(tail.take(n4) =~= v.root);
        assert(tail.skip(n4 + 1) =~= joined);
        assert(forall|k: int| 0 <= k < v.parts.len() ==> free_of(#[trigger] v.parts[k], '/')) by {
            assert(forall|k: int| 0 <= k < v.parts.len() ==> part_valid(#[trigger] v.parts[k]));
        }
        lemma_split_join(v.parts, '/');
        assert(split_root_parts(tail) == (v.root, v.parts));
    }
    assert(find_char(s.skip(4), ':') == Some(n1));
    assert(s.skip(4).take(n1) == v.domain);
    assert(s.skip(4).skip(n1 + 1) == after_c);
    assert(find_char(after_c, ':') == Some(n2));
    assert(find_char(after_a, ':') == Some(n3));
    assert(split_root_parts(tail) == (v.root, v.parts));
    assert(spec_split_fields(s) == Some((v.domain, v.category, v.account, tail)));
    assert(spec_parse(s) == Some(v));
}

} // verus!
