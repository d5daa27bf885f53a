//! The order of identifiers.
//!
//! Text is ordered lexicographically by the code points of its characters.

use vstd::prelude::*;
use vstd::std_specs::iter::IteratorSpec;
use vstd::string::*;
use vstd::utf8::char_u32_cast;

verus! {

/// `left` comes strictly before `right`.
pub open spec fn precedes(left: Seq<char>, right: Seq<char>) -> bool
    decreases left.len(),
{
    if right.len() == 0 {
        false
    } else if left.len() == 0 {
        true
    } else if left[0] == right[0] {
        precedes(left.drop_first(), right.drop_first())
    } else {
        (left[0] as u32) < (right[0] as u32)
    }
}

/// How one text stands to another.
#[derive(Debug, Clone, Copy, PartialEq, Eq, Structural)]
pub enum Place {
    Before,
    Same,
    After,
}

pub open spec fn place_of(left: Seq<char>, right: Seq<char>) -> Place {
    if left == right {
        Place::Same
    } else if precedes(left, right) {
        Place::Before
    } else {
        Place::After
    }
}

/// Nothing comes before itself.
pub proof fn precedes_irreflexive(text: Seq<char>)
    ensures
        !precedes(text, text),
    decreases text.len(),
{
    if text.len() > 0 {
        precedes_irreflexive(text.drop_first());
    }
}

pub proof fn precedes_transitive(first: Seq<char>, second: Seq<char>, third: Seq<char>)
    requires
        precedes(first, second),
        precedes(second, third),
    ensures
        precedes(first, third),
    decreases first.len(),
{
    if first.len() > 0 && first[0] == second[0] && second[0] == third[0] {
        precedes_transitive(first.drop_first(), second.drop_first(), third.drop_first());
    }
}

/// Of two different texts exactly one comes before the other.
pub proof fn precedes_total(left: Seq<char>, right: Seq<char>)
    ensures
        left != right ==> (precedes(left, right) <==> !precedes(right, left)),
    decreases left.len(),
{
    if left.len() > 0 && right.len() > 0 && left[0] == right[0] {
        precedes_total(left.drop_first(), right.drop_first());
        if left.drop_first() == right.drop_first() {
            assert(left =~= seq![left[0]] + left.drop_first());
            assert(right =~= seq![right[0]] + right.drop_first());
        }
    } else if left.len() == 0 && right.len() == 0 {
        assert(left =~= right);
    } else if left.len() > 0 && right.len() > 0 {
        char_u32_cast(left[0], left[0] as u32);
        char_u32_cast(right[0], right[0] as u32);
    }
}

/// Compare two texts.
pub fn compare(left: &str, right: &str) -> (place: Place)
    ensures
        place == place_of(left@, right@),
{
    let mut left_rest = left.chars();
    let mut right_rest = right.chars();
    let ghost mut taken: int = 0;
    proof {
        assert(left@.skip(0) =~= left@);
        assert(right@.skip(0) =~= right@);
    }
    loop
        invariant
            left_rest.obeys_prophetic_iter_laws(),
            right_rest.obeys_prophetic_iter_laws(),
            0 <= taken <= left@.len(),
            taken <= right@.len(),
            left_rest.remaining() == left@.skip(taken),
            right_rest.remaining() == right@.skip(taken),
            left@.take(taken) == right@.take(taken),
            precedes(left@, right@) == precedes(left@.skip(taken), right@.skip(taken)),
        decreases left@.len() - taken,
    {
        let ghost left_now = left@.skip(taken);
        let ghost right_now = right@.skip(taken);
        let left_next = left_rest.next();
        let right_next = right_rest.next();
        match (left_next, right_next) {
            (None, None) => {
                proof {
                    assert(left@.take(taken) =~= left@);
                    assert(right@.take(taken) =~= right@);
                }
                return Place::Same;
            },
            (None, Some(_)) => {
                return Place::Before;
            },
            (Some(_), None) => {
                return Place::After;
            },
            (Some(one), Some(other)) => {
                if one != other {
                    proof {
                        assert(left@[taken] == one);
                        assert(right@[taken] == other);
                    }
                    if (one as u32) < (other as u32) {
                        return Place::Before;
                    }
                    return Place::After;
                }
                proof {
                    assert(left_now.drop_first() =~= left@.skip(taken + 1));
                    assert(right_now.drop_first() =~= right@.skip(taken + 1));
                    assert(left@.take(taken + 1) =~= left@.take(taken).push(one));
                    assert(right@.take(taken + 1) =~= right@.take(taken).push(other));
                    taken = taken + 1;
                }
            },
        }
    }
}

/// Whether two texts are the same.
pub fn same_text(left: &str, right: &str) -> (same: bool)
    ensures
        same == (left@ == right@),
{
    matches!(compare(left, right), Place::Same)
}

/// One text comes before another exactly if it is a shorter beginning of it, or has
/// the lower character at the first place where they differ.
pub proof fn texts_are_ordered_by_their_first_difference(
    left: Seq<char>,
    right: Seq<char>,
    place: int,
)
    requires
        0 <= place <= left.len(),
        place <= right.len(),
        left.take(place) == right.take(place),
        place == left.len() || place == right.len() || left[place] != right[place],
    ensures
        precedes(left, right) <==> place < right.len() && (place == left.len() || (
        left[place] as u32) < (right[place] as u32)),
    decreases left.len(),
{
    if place > 0 {
        assert(left.take(place)[0] == left[0]);
        assert(right.take(place)[0] == right[0]);
        let first = left.drop_first();
        let second = right.drop_first();
        assert(first.take(place - 1) =~= left.take(place).drop_first());
        assert(second.take(place - 1) =~= right.take(place).drop_first());
        texts_are_ordered_by_their_first_difference(first, second, place - 1);
    }
}

/// Two texts stand in exactly one order, and in the opposite one the other way round.
pub proof fn places_are_opposite(left: Seq<char>, right: Seq<char>)
    ensures
        place_of(left, right) is Same <==> left == right,
        place_of(left, right) is Before <==> precedes(left, right),
        place_of(left, right) is After <==> precedes(right, left),
        place_of(left, right) is Before <==> place_of(right, left) is After,
{
    precedes_irreflexive(left);
    if left != right {
        precedes_total(left, right);
    }
    if precedes(left, right) && precedes(right, left) {
        precedes_transitive(left, right, left);
    }
}

} // verus!
