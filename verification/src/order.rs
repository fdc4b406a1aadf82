//! The order of texts, character by character as `str` orders them, and
//! the orders of optional texts and of lists of texts built on it.

use core::cmp::Ordering;
use vstd::prelude::*;
use vstd::std_specs::iter::IteratorSpec;

verus! {

/// Whether `a` stands before `b` among the characters.
pub open spec fn char_before(a: char, b: char) -> bool {
    (a as u32) < (b as u32)
}

/// Decides [`char_before`].
pub fn is_char_before(a: char, b: char) -> (before: bool)
    ensures
        before == char_before(a, b),
{
    (a as u32) < (b as u32)
}

/// How `a` stands to `b`: decided by the first character in which they
/// differ, and where one begins the other, the shorter comes first.
pub open spec fn text_order(a: Seq<char>, b: Seq<char>) -> Ordering
    decreases a.len(),
{
    if a.len() == 0 {
        if b.len() == 0 {
            Ordering::Equal
        } else {
            Ordering::Less
        }
    } else if b.len() == 0 {
        Ordering::Greater
    } else if a[0] == b[0] {
        text_order(a.drop_first(), b.drop_first())
    } else if char_before(a[0], b[0]) {
        Ordering::Less
    } else {
        Ordering::Greater
    }
}

/// The order by two keys: `first` decides, and `second` where it is equal.
pub open spec fn then_order(first: Ordering, second: Ordering) -> Ordering {
    if first is Equal {
        second
    } else {
        first
    }
}

/// How an optional text stands to another: a missing one comes first, and
/// two that are present are ordered as texts.
pub open spec fn optional_text_order(a: Option<Seq<char>>, b: Option<Seq<char>>) -> Ordering {
    match (a, b) {
        (None, None) => Ordering::Equal,
        (None, Some(_)) => Ordering::Less,
        (Some(_), None) => Ordering::Greater,
        (Some(mine), Some(theirs)) => text_order(mine, theirs),
    }
}

/// How a list of texts stands to another: decided by the first place in
/// which they differ, and where one begins the other, the shorter comes
/// first.
pub open spec fn texts_order(a: Seq<Seq<char>>, b: Seq<Seq<char>>) -> Ordering
    decreases a.len(),
{
    if a.len() == 0 {
        if b.len() == 0 {
            Ordering::Equal
        } else {
            Ordering::Less
        }
    } else if b.len() == 0 {
        Ordering::Greater
    } else {
        then_order(text_order(a[0], b[0]), texts_order(a.drop_first(), b.drop_first()))
    }
}

/// Compares two texts character by character.
pub fn compare_text(a: &str, b: &str) -> (order: Ordering)
    ensures
        order == text_order(a@, b@),
{
    broadcast use vstd::string::group_string_axioms;

    let mut xs = a.chars();
    let mut ys = b.chars();
    let ghost mut seen: int = 0;
    proof {
        assert(a@.skip(0) =~= a@);
        assert(b@.skip(0) =~= b@);
    }
    loop
        invariant
            0 <= seen <= a@.len(),
            seen <= b@.len(),
            xs.remaining() == a@.skip(seen),
            ys.remaining() == b@.skip(seen),
            text_order(a@, b@) == text_order(a@.skip(seen), b@.skip(seen)),
        decreases a@.len() - seen,
    {
        let x = xs.next();
        let y = ys.next();
        match (x, y) {
            (None, None) => {
                return Ordering::Equal;
            },
            (None, Some(_)) => {
                return Ordering::Less;
            },
            (Some(_), None) => {
                return Ordering::Greater;
            },
            (Some(c), Some(d)) => {
                if c != d {
                    if is_char_before(c, d) {
                        return Ordering::Less;
                    } else {
                        return Ordering::Greater;
                    }
                }
                proof {
                    assert(a@.skip(seen).drop_first() =~= a@.skip(seen + 1));
                    assert(b@.skip(seen).drop_first() =~= b@.skip(seen + 1));
                    seen = seen + 1;
                }
            },
        }
    }
}

/// Two texts stand equal in the order exactly when they are the same text.
pub proof fn lemma_text_order_equal(a: Seq<char>, b: Seq<char>)
    ensures
        text_order(a, b) is Equal <==> a == b,
    decreases a.len(),
{
    if a.len() > 0 && b.len() > 0 {
        lemma_text_order_equal(a.drop_first(), b.drop_first());
        if a[0] == b[0] && a.drop_first() == b.drop_first() {
            assert(a =~= seq![a[0]] + a.drop_first());
            assert(b =~= seq![b[0]] + b.drop_first());
        }
    } else if a.len() == 0 && b.len() == 0 {
        assert(a =~= b);
    }
}

/// Two optional texts stand equal in the order exactly when both are
/// missing or both are the same text.
pub proof fn lemma_optional_text_order_equal(a: Option<Seq<char>>, b: Option<Seq<char>>)
    ensures
        optional_text_order(a, b) is Equal <==> a == b,
{
    if let (Some(mine), Some(theirs)) = (a, b) {
        lemma_text_order_equal(mine, theirs);
    }
}

/// Two lists of texts stand equal in the order exactly when they are the
/// same list.
pub proof fn lemma_texts_order_equal(a: Seq<Seq<char>>, b: Seq<Seq<char>>)
    ensures
        texts_order(a, b) is Equal <==> a == b,
    decreases a.len(),
{
    if a.len() > 0 && b.len() > 0 {
        lemma_text_order_equal(a[0], b[0]);
        lemma_texts_order_equal(a.drop_first(), b.drop_first());
        if a[0] == b[0] && a.drop_first() == b.drop_first() {
            assert(a =~= seq![a[0]] + a.drop_first());
            assert(b =~= seq![b[0]] + b.drop_first());
        }
    } else if a.len() == 0 && b.len() == 0 {
        assert(a =~= b);
    }
}

} // verus!
