//! Character-level string helpers, each with its mathematical meaning.

use vstd::prelude::*;

verus! {

/// The characters of `s` that come after the last occurrence of `c`
/// (the whole of `s` when `c` does not occur): what `s.split(c).last()` yields.
pub open spec fn after_last(s: Seq<char>, c: char) -> Seq<char>
    decreases s.len(),
{
    if s.len() == 0 {
        s
    } else if s.last() == c {
        Seq::empty()
    } else {
        after_last(s.drop_last(), c).push(s.last())
    }
}

/// The characters of `s` before the first occurrence of `c`
/// (the whole of `s` when `c` does not occur): what `s.split(c).next()` yields.
pub open spec fn before_first(s: Seq<char>, c: char) -> Seq<char>
    decreases s.len(),
{
    if s.len() == 0 {
        s
    } else if s[0] == c {
        Seq::empty()
    } else {
        seq![s[0]] + before_first(s.drop_first(), c)
    }
}

/// `needle` occurs in `hay` as a contiguous piece.
pub open spec fn has_substring(hay: Seq<char>, needle: Seq<char>) -> bool {
    exists|i: int|
        0 <= i && i + needle.len() <= hay.len() && #[trigger] hay.subrange(i, i + needle.len())
            == needle
}

/// The characters of a string, in order.
pub fn chars_of(s: &str) -> (v: Vec<char>)
    ensures
        v@ == s@,
{
    let n: usize = s.unicode_len();
    let mut v: Vec<char> = Vec::new();
    let mut i: usize = 0;
    while i < n
        invariant
            n == s@.len(),
            i <= n,
            v@ == s@.take(i as int),
        decreases n - i,
    {
        let c = s.get_char(i);
        v.push(c);
        i = i + 1;
        assert(v@ =~= s@.take(i as int));
    }
    assert(v@ =~= s@);
    v
}

/// Whether `c` occurs in `s`.
pub fn contains_char(s: &str, c: char) -> (res: bool)
    ensures
        res == s@.contains(c),
{
    let v = chars_of(s);
    let mut i: usize = 0;
    while i < v.len()
        invariant
            v@ == s@,
            i <= v.len(),
            forall|j: int| 0 <= j < i ==> v@[j] != c,
        decreases v.len() - i,
    {
        if v[i] == c {
            assert(s@[i as int] == c);
            return true;
        }
        i = i + 1;
    }
    false
}

proof fn lemma_after_last_step(s: Seq<char>, c: char, i: int)
    requires
        0 <= i < s.len(),
    ensures
        s.take(i + 1).drop_last() == s.take(i),
        s.take(i + 1).last() == s[i],
{
    assert(s.take(i + 1).drop_last() =~= s.take(i));
}

/// The piece of `s` after the last `c`.
pub fn piece_after_last<'a>(s: &'a str, c: char) -> (res: &'a str)
    ensures
        res@ == after_last(s@, c),
{
    let v = chars_of(s);
    let n: usize = v.len();
    let mut start: usize = 0;
    let mut i: usize = 0;
    while i < n
        invariant
            v@ == s@,
            n == v@.len(),
            start <= i <= n,
            after_last(s@.take(i as int), c) == s@.subrange(start as int, i as int),
        decreases n - i,
    {
        proof {
            lemma_after_last_step(s@, c, i as int);
        }
        if v[i] == c {
            start = i + 1;
            assert(s@.subrange(start as int, (i + 1) as int) =~= Seq::<char>::empty());
        } else {
            assert(s@.subrange(start as int, (i + 1) as int) =~= s@.subrange(
                start as int,
                i as int,
            ).push(s@[i as int]));
        }
        i = i + 1;
    }
    assert(s@.take(n as int) =~= s@);
    s.substring_char(start, n)
}

proof fn lemma_before_first(s: Seq<char>, c: char, k: int)
    requires
        0 <= k <= s.len(),
        forall|j: int| 0 <= j < k ==> s[j] != c,
        k == s.len() || s[k] == c,
    ensures
        before_first(s, c) == s.take(k),
    decreases s.len(),
{
    if s.len() == 0 {
        assert(s.take(k) =~= s);
    } else if s[0] == c {
        assert(k == 0);
        assert(s.take(k) =~= Seq::<char>::empty());
    } else {
        let t = s.drop_first();
        assert forall|j: int| 0 <= j < k - 1 implies t[j] != c by {
            assert(t[j] == s[j + 1]);
        }
        lemma_before_first(t, c, k - 1);
        assert(s.take(k) =~= seq![s[0]] + t.take(k - 1));
    }
}

/// The piece of `s` before the first `c`.
pub fn piece_before_first<'a>(s: &'a str, c: char) -> (res: &'a str)
    ensures
        res@ == before_first(s@, c),
{
    let v = chars_of(s);
    let n: usize = v.len();
    let mut i: usize = 0;
    while i < n
        invariant
            v@ == s@,
            n == v@.len(),
            i <= n,
            forall|j: int| 0 <= j < i ==> s@[j] != c,
        ensures
            i <= n,
            forall|j: int| 0 <= j < i ==> s@[j] != c,
            i == n || s@[i as int] == c,
        decreases n - i,
    {
        if v[i] == c {
            break;
        }
        i = i + 1;
    }
    proof {
        lemma_before_first(s@, c, i as int);
    }
    s.substring_char(0, i)
}

fn matches_at(h: &Vec<char>, n: &Vec<char>, i: usize) -> (res: bool)
    requires
        i + n@.len() <= h@.len(),
    ensures
        res == (h@.subrange(i as int, i + n@.len()) == n@),
{
    let mut j: usize = 0;
    while j < n.len()
        invariant
            i + n@.len() <= h@.len(),
            h@.len() == h.len(),
            j <= n@.len(),
            forall|m: int| 0 <= m < j ==> h@[i + m] == n@[m],
        decreases n.len() - j,
    {
        if h[i + j] != n[j] {
            assert(h@.subrange(i as int, i + n@.len())[j as int] != n@[j as int]);
            return false;
        }
        j = j + 1;
    }
    assert(h@.subrange(i as int, i + n@.len()) =~= n@);
    true
}

/// Whether `needle` occurs in `hay` as a contiguous piece (what `str::contains` answers).
pub fn contains_text(hay: &str, needle: &str) -> (res: bool)
    ensures
        res == has_substring(hay@, needle@),
{
    let h = chars_of(hay);
    let n = chars_of(needle);
    if n.len() > h.len() {
        return false;
    }
    let last: usize = h.len() - n.len();
    let mut i: usize = 0;
    while i <= last
        invariant
            h@ == hay@,
            n@ == needle@,
            last == h@.len() - n@.len(),
            n@.len() <= h@.len(),
            forall|k: int|
                0 <= k < i ==> #[trigger] hay@.subrange(k, k + needle@.len()) != needle@,
        decreases last + 1 - i,
    {
        if matches_at(&h, &n, i) {
            return true;
        }
        if i == last {
            return false;
        }
        i = i + 1;
    }
    false
}

/// Whether two strings hold the same characters.
pub fn same_text(a: &str, b: &str) -> (res: bool)
    ensures
        res == (a@ == b@),
{
    let x = chars_of(a);
    let y = chars_of(b);
    if x.len() != y.len() {
        return false;
    }
    let mut i: usize = 0;
    while i < x.len()
        invariant
            x@ == a@,
            y@ == b@,
            x@.len() == y@.len(),
            i <= x@.len(),
            forall|j: int| 0 <= j < i ==> x@[j] == y@[j],
        decreases x.len() - i,
    {
        if x[i] != y[i] {
            return false;
        }
        i = i + 1;
    }
    assert(x@ =~= y@);
    true
}

/// What comes after the last `c` is a suffix of `s` holding no `c`, and it is
/// either the whole of `s` (which then holds no `c`) or preceded by a `c`.
pub proof fn law_after_last(s: Seq<char>, c: char)
    ensures
        after_last(s, c).len() <= s.len(),
        s.skip(s.len() - after_last(s, c).len()) == after_last(s, c),
        !after_last(s, c).contains(c),
        after_last(s, c).len() == s.len() ==> !s.contains(c),
        after_last(s, c).len() < s.len() ==> s[s.len() - after_last(s, c).len() - 1] == c,
    decreases s.len(),
{
    let r = after_last(s, c);
    if s.len() == 0 {
        assert(s.skip(0) =~= s);
    } else if s.last() == c {
        assert(s.skip(s.len() as int) =~= r);
    } else {
        let t = s.drop_last();
        law_after_last(t, c);
        let rt = after_last(t, c);
        assert(s.skip(s.len() - r.len()) =~= t.skip(t.len() - rt.len()).push(s.last()));
        assert forall|i: int| 0 <= i < r.len() implies r[i] != c by {
            if i < rt.len() {
                assert(r[i] == rt[i]);
            }
        }
        if r.len() == s.len() {
            assert forall|i: int| 0 <= i < s.len() implies s[i] != c by {
                if i < t.len() {
                    assert(s[i] == t[i]);
                }
            }
        } else {
            assert(s[s.len() - r.len() - 1] == t[t.len() - rt.len() - 1]);
        }
    }
}

/// What comes before the first `c` is a prefix of `s` holding no `c`, and it
/// is either the whole of `s` (which then holds no `c`) or followed by a `c`.
pub proof fn law_before_first(s: Seq<char>, c: char)
    ensures
        before_first(s, c).len() <= s.len(),
        s.take(before_first(s, c).len() as int) == before_first(s, c),
        !before_first(s, c).contains(c),
        before_first(s, c).len() == s.len() ==> !s.contains(c),
        before_first(s, c).len() < s.len() ==> s[before_first(s, c).len() as int] == c,
    decreases s.len(),
{
    let r = before_first(s, c);
    if s.len() == 0 {
        assert(s.take(0) =~= s);
    } else if s[0] == c {
        assert(s.take(0) =~= r);
    } else {
        let t = s.drop_first();
        law_before_first(t, c);
        let rt = before_first(t, c);
        assert(s.take(r.len() as int) =~= seq![s[0]] + t.take(rt.len() as int));
        assert forall|i: int| 0 <= i < r.len() implies r[i] != c by {
            if i > 0 {
                assert(r[i] == rt[i - 1]);
            }
        }
        if r.len() == s.len() {
            assert forall|i: int| 0 <= i < s.len() implies s[i] != c by {
                if i > 0 {
                    assert(s[i] == t[i - 1]);
                }
            }
        } else {
            assert(s[r.len() as int] == t[rt.len() as int]);
        }
    }
}

/// `has_substring` holds exactly when some window of `hay` equals `needle`;
/// every text contains the empty text and itself.
pub proof fn law_has_substring(hay: Seq<char>, needle: Seq<char>, i: int)
    ensures
        0 <= i && i + needle.len() <= hay.len() && hay.subrange(i, i + needle.len()) == needle
            ==> has_substring(hay, needle),
        has_substring(hay, Seq::empty()),
        has_substring(hay, hay),
        needle.len() > hay.len() ==> !has_substring(hay, needle),
{
    let e = Seq::<char>::empty();
    assert(hay.subrange(0int, 0int + e.len()) =~= e);
    assert(hay.subrange(0int, 0int + hay.len()) =~= hay);
}

} // verus!
