//! The order of texts by which the engine lists records: the order of a
//! dictionary, with characters compared by their code points.
use vstd::prelude::*;
use vstd::string::StrSliceExecFns;

verus! {

/// Whether `a` comes strictly before `b`: at the first place where the two
/// differ `a` has the smaller character, or `a` ends there and `b` goes on.
pub open spec fn text_before(a: Seq<char>, b: Seq<char>) -> bool
    decreases a.len(),
{
    if b.len() == 0 {
        false
    } else if a.len() == 0 {
        true
    } else if a[0] == b[0] {
        text_before(a.drop_first(), b.drop_first())
    } else {
        (a[0] as int) < (b[0] as int)
    }
}

/// Of two different texts one comes before the other.
pub proof fn lemma_text_before_total(a: Seq<char>, b: Seq<char>)
    requires
        a != b,
    ensures
        text_before(a, b) || text_before(b, a),
    decreases a.len(),
{
    if a.len() > 0 && b.len() > 0 && a[0] == b[0] {
        if a.drop_first() == b.drop_first() {
            assert(a =~= seq![a[0]] + a.drop_first());
            assert(b =~= seq![b[0]] + b.drop_first());
        }
        lemma_text_before_total(a.drop_first(), b.drop_first());
    } else if a.len() == 0 && b.len() == 0 {
        assert(a =~= b);
    }
}

/// What comes before a text that comes before a third comes before the third.
pub proof fn lemma_text_before_transitive(a: Seq<char>, b: Seq<char>, c: Seq<char>)
    requires
        text_before(a, b),
        text_before(b, c),
    ensures
        text_before(a, c),
    decreases a.len(),
{
    if a.len() > 0 && a[0] == b[0] && b[0] == c[0] {
        lemma_text_before_transitive(a.drop_first(), b.drop_first(), c.drop_first());
    }
}

/// Decides whether `a` comes strictly before `b`.
pub fn is_text_before(a: &String, b: &String) -> (r: bool)
    ensures
        r == text_before(a@, b@),
{
    let x = a.as_str();
    let y = b.as_str();
    let n = x.unicode_len();
    let m = y.unicode_len();
    let mut i: usize = 0;
    proof {
        assert(a@.skip(0) =~= a@);
        assert(b@.skip(0) =~= b@);
    }
    while i < n && i < m
        invariant
            i <= n,
            i <= m,
            n == a@.len(),
            m == b@.len(),
            x@ == a@,
            y@ == b@,
            text_before(a@, b@) == text_before(a@.skip(i as int), b@.skip(i as int)),
        decreases n - i,
    {
        let c = x.get_char(i);
        let d = y.get_char(i);
        proof {
            assert(a@.skip(i as int)[0] == c);
            assert(b@.skip(i as int)[0] == d);
            assert(a@.skip(i as int).drop_first() =~= a@.skip(i + 1));
            assert(b@.skip(i as int).drop_first() =~= b@.skip(i + 1));
        }
        if c != d {
            return (c as u32) < (d as u32);
        }
        i += 1;
    }
    i < m
}

} // verus!
