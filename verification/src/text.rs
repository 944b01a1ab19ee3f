use vstd::prelude::*;
use vstd::string::StrSliceExecFns;

verus! {

/// Lexicographic order of texts by code point, the shorter of two texts that
/// agree up to its end coming first. Comparing UTF-8 bytes, as `str` does, gives
/// the same order, since UTF-8 keeps the order of code points.
pub open spec fn text_less(a: Seq<char>, b: Seq<char>) -> bool
    decreases a.len(),
{
    if a.len() == 0 {
        b.len() > 0
    } else if b.len() == 0 {
        false
    } else if a[0] != b[0] {
        (a[0] as u32) < (b[0] as u32)
    } else {
        text_less(a.drop_first(), b.drop_first())
    }
}

/// A sequence of texts in strictly increasing order, hence without repeats.
pub open spec fn strictly_increasing(s: Seq<Seq<char>>) -> bool {
    forall|i: int, j: int| 0 <= i < j < s.len() ==> text_less(#[trigger] s[i], #[trigger] s[j])
}

/// No text comes before itself.
pub proof fn lemma_text_less_irreflexive(a: Seq<char>)
    ensures
        !text_less(a, a),
    decreases a.len(),
{
    if a.len() > 0 {
        lemma_text_less_irreflexive(a.drop_first());
    }
}

/// Of two different texts, one comes before the other.
pub proof fn lemma_text_less_total(a: Seq<char>, b: Seq<char>)
    requires
        a != b,
    ensures
        text_less(a, b) || text_less(b, a),
    decreases a.len(),
{
    if a.len() == 0 && b.len() == 0 {
        assert(a =~= b);
    } else if a.len() > 0 && b.len() > 0 && a[0] != b[0] {
        vstd::utf8::char_u32_cast(a[0], a[0] as u32);
        vstd::utf8::char_u32_cast(b[0], b[0] as u32);
    } else if a.len() > 0 && b.len() > 0 && a[0] == b[0] {
        if a.drop_first() == b.drop_first() {
            assert(a =~= seq![a[0]] + a.drop_first());
            assert(b =~= seq![b[0]] + b.drop_first());
        } else {
            lemma_text_less_total(a.drop_first(), b.drop_first());
        }
    }
}

/// The order is asymmetric.
pub proof fn lemma_text_less_asymmetric(a: Seq<char>, b: Seq<char>)
    requires
        text_less(a, b),
    ensures
        !text_less(b, a),
    decreases a.len(),
{
    if a.len() > 0 && b.len() > 0 && a[0] == b[0] {
        lemma_text_less_asymmetric(a.drop_first(), b.drop_first());
    }
}

/// The order is transitive.
pub proof fn lemma_text_less_transitive(a: Seq<char>, b: Seq<char>, c: Seq<char>)
    requires
        text_less(a, b),
        text_less(b, c),
    ensures
        text_less(a, c),
    decreases a.len(),
{
    if a.len() > 0 && b.len() > 0 && c.len() > 0 && a[0] == b[0] && b[0] == c[0] {
        lemma_text_less_transitive(a.drop_first(), b.drop_first(), c.drop_first());
    }
}

/// A text after the last of an increasing sequence extends it increasingly.
pub proof fn lemma_push_increasing(s: Seq<Seq<char>>, x: Seq<char>)
    requires
        strictly_increasing(s),
        s.len() > 0 ==> text_less(s.last(), x),
    ensures
        strictly_increasing(s.push(x)),
{
    let t = s.push(x);
    assert forall|i: int, j: int| 0 <= i < j < t.len() implies text_less(#[trigger] t[i], #[trigger] t[j]) by {
        if j == s.len() {
            assert(t[j] == x);
            assert(t[i] == s[i]);
            if i < s.len() - 1 {
                assert(text_less(s[i], s[s.len() - 1]));
                lemma_text_less_transitive(s[i], s.last(), x);
            }
        } else {
            assert(t[i] == s[i] && t[j] == s[j]);
        }
    }
}

/// An increasing sequence of texts repeats none.
pub proof fn lemma_increasing_no_duplicates(s: Seq<Seq<char>>)
    requires
        strictly_increasing(s),
    ensures
        s.no_duplicates(),
{
    assert forall|i: int, j: int| 0 <= i < s.len() && 0 <= j < s.len() && i != j implies s[i] != s[j] by {
        if i < j {
            assert(text_less(s[i], s[j]));
            lemma_text_less_irreflexive(s[i]);
        } else {
            assert(text_less(s[j], s[i]));
            lemma_text_less_irreflexive(s[j]);
        }
    }
}

/// A text that falls strictly between the neighbours at position `p` of an
/// increasing sequence (or before its first, or after its last) is not in it.
pub proof fn lemma_not_in_increasing(s: Seq<Seq<char>>, x: Seq<char>, p: int)
    requires
        strictly_increasing(s),
        0 <= p <= s.len(),
        p > 0 ==> text_less(s[p - 1], x),
        p < s.len() ==> text_less(x, s[p]),
    ensures
        !s.contains(x),
{
    if s.contains(x) {
        let k = choose|k: int| 0 <= k < s.len() && s[k] == x;
        if k < p {
            if k < p - 1 {
                assert(text_less(s[k], s[p - 1]));
                lemma_text_less_transitive(s[k], s[p - 1], x);
            }
            lemma_text_less_irreflexive(x);
        } else {
            if k > p {
                assert(text_less(s[p], s[k]));
                lemma_text_less_transitive(x, s[p], s[k]);
            }
            lemma_text_less_irreflexive(x);
        }
    }
}

/// Two sequences of texts without repeats, of which the second holds none of
/// the first, join into one without repeats.
pub proof fn lemma_join_no_duplicates(a: Seq<Seq<char>>, b: Seq<Seq<char>>)
    requires
        a.no_duplicates(),
        b.no_duplicates(),
        forall|i: int| 0 <= i < b.len() ==> !a.contains(#[trigger] b[i]),
    ensures
        (a + b).no_duplicates(),
{
    let c = a + b;
    assert forall|i: int, j: int| 0 <= i < c.len() && 0 <= j < c.len() && i != j implies c[i] != c[j] by {
        if i < a.len() && j >= a.len() {
            assert(c[i] == a[i]);
            assert(c[j] == b[j - a.len()]);
            assert(!a.contains(b[j - a.len()]));
        } else if j < a.len() && i >= a.len() {
            assert(c[j] == a[j]);
            assert(c[i] == b[i - a.len()]);
            assert(!a.contains(b[i - a.len()]));
        }
    }
}

/// Two increasing sequences of texts with the same members are the same.
pub proof fn lemma_increasing_same_members(a: Seq<Seq<char>>, b: Seq<Seq<char>>)
    requires
        strictly_increasing(a),
        strictly_increasing(b),
        forall|x: Seq<char>| a.contains(x) == b.contains(x),
    ensures
        a == b,
    decreases a.len(),
{
    if a.len() == 0 {
        if b.len() > 0 {
            assert(b.contains(b[0]));
        }
        assert(a =~= b);
    } else if b.len() == 0 {
        assert(a.contains(a[0]));
    } else {
        assert(a.contains(a[0]) && b.contains(b[0]));
        if a[0] != b[0] {
            let i = choose|i: int| 0 <= i < a.len() && a[i] == b[0];
            let j = choose|j: int| 0 <= j < b.len() && b[j] == a[0];
            assert(i > 0 && j > 0);
            assert(text_less(a[0], a[i]));
            assert(text_less(b[0], b[j]));
            lemma_text_less_asymmetric(a[0], b[0]);
        }
        let a1 = a.drop_first();
        let b1 = b.drop_first();
        assert forall|x: Seq<char>| a1.contains(x) == b1.contains(x) by {
            if a1.contains(x) {
                let i = choose|i: int| 0 <= i < a1.len() && a1[i] == x;
                assert(a[i + 1] == x);
                assert(text_less(a[0], x));
                lemma_text_less_irreflexive(x);
                assert(b.contains(x));
                let j = choose|j: int| 0 <= j < b.len() && b[j] == x;
                assert(j != 0);
                assert(b1[j - 1] == x);
            }
            if b1.contains(x) {
                let j = choose|j: int| 0 <= j < b1.len() && b1[j] == x;
                assert(b[j + 1] == x);
                assert(text_less(b[0], x));
                lemma_text_less_irreflexive(x);
                assert(a.contains(x));
                let i = choose|i: int| 0 <= i < a.len() && a[i] == x;
                assert(i != 0);
                assert(a1[i - 1] == x);
            }
        }
        assert forall|i: int, j: int| 0 <= i < j < a1.len() implies text_less(#[trigger] a1[i], #[trigger] a1[j]) by {
            assert(a1[i] == a[i + 1] && a1[j] == a[j + 1]);
        }
        assert forall|i: int, j: int| 0 <= i < j < b1.len() implies text_less(#[trigger] b1[i], #[trigger] b1[j]) by {
            assert(b1[i] == b[i + 1] && b1[j] == b[j + 1]);
        }
        lemma_increasing_same_members(a1, b1);
        assert(a =~= seq![a[0]] + a1);
        assert(b =~= seq![b[0]] + b1);
    }
}

/// Whether two texts are the same.
pub fn texts_equal(a: &str, b: &str) -> (r: bool)
    ensures
        r == (a@ == b@),
{
    let x = a.to_owned();
    let y = b.to_owned();
    x.eq(&y)
}

/// Whether `a` comes before `b` in the order of texts.
pub fn text_less_than(a: &str, b: &str) -> (r: bool)
    ensures
        r == text_less(a@, b@),
{
    let la = a.unicode_len();
    let lb = b.unicode_len();
    let mut i: usize = 0;
    assert(a@.skip(0) =~= a@);
    assert(b@.skip(0) =~= b@);
    while i < la && i < lb
        invariant
            la == a@.len(),
            lb == b@.len(),
            i <= la,
            i <= lb,
            text_less(a@, b@) == text_less(a@.skip(i as int), b@.skip(i as int)),
        decreases la - i,
    {
        let ca = a.get_char(i);
        let cb = b.get_char(i);
        assert(a@.skip(i as int)[0] == ca);
        assert(b@.skip(i as int)[0] == cb);
        if ca != cb {
            return (ca as u32) < (cb as u32);
        }
        assert(a@.skip(i as int).drop_first() =~= a@.skip(i + 1));
        assert(b@.skip(i as int).drop_first() =~= b@.skip(i + 1));
        i = i + 1;
    }
    la < lb
}

} // verus!
