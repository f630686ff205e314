//! Functions passed as values, and greetings built from names.
use vstd::prelude::*;
use vstd::string::StringExecFns;

verus! {

/// Calls `f` once.
pub fn run<F: Fn()>(f: F)
    requires
        f.requires(()),
    ensures
        f.ensures((), ()),
{
    f()
}

/// `s[0], s[1], ..., s[n - 1]`, separated by a comma and a space.
pub open spec fn joined(s: Seq<Seq<char>>) -> Seq<char>
    decreases s.len(),
{
    if s.len() == 0 {
        Seq::empty()
    } else if s.len() == 1 {
        s[0]
    } else {
        joined(s.drop_last()) + ", "@ + s.last()
    }
}

/// The greeting of `names`: "Hello a, b and c". The greeting is written
/// name by name and the separator before the last name is cut back to
/// make room for " and ", so a single name loses the end of "Hello ".
pub open spec fn greeting(names: Seq<Seq<char>>) -> Seq<char> {
    if names.len() == 0 {
        "Hello "@
    } else if names.len() == 1 {
        "Hell and "@ + names[0]
    } else {
        "Hello "@ + joined(names.drop_last()) + " and "@ + names.last()
    }
}

pub open spec fn views(names: Seq<&str>) -> Seq<Seq<char>> {
    names.map_values(|s: &str| s@)
}

/// Greets each of `names` in one sentence.
pub fn greet_each(names: &[&str]) -> (r: String)
    ensures
        r@ == greeting(views(names@)),
{
    let n = names.len();
    if n == 0 {
        return String::from_str("Hello ");
    }
    if n == 1 {
        let mut r = String::from_str("Hell and ");
        r.append(names[0]);
        return r;
    }
    let ghost v = views(names@);
    let mut r = String::from_str("Hello ");
    r.append(names[0]);
    assert(v.take(1).drop_last() =~= Seq::<Seq<char>>::empty());
    let mut i: usize = 1;
    while i < n - 1
        invariant
            n == names@.len(),
            n >= 2,
            1 <= i <= n - 1,
            v == views(names@),
            r@ == "Hello "@ + joined(v.take(i as int)),
        decreases n - i,
    {
        r.append(", ");
        r.append(names[i]);
        proof {
            assert(v.take(i + 1).drop_last() =~= v.take(i as int));
            assert(r@ =~= "Hello "@ + joined(v.take(i + 1)));
        }
        i = i + 1;
    }
    r.append(" and ");
    r.append(names[n - 1]);
    proof {
        assert(v.drop_last() =~= v.take(n - 1));
        assert(r@ =~= "Hello "@ + joined(v.drop_last()) + " and "@ + v.last());
    }
    r
}

} // verus!
