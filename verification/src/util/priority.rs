//! Round-robin selection from an ordered list of preferences.

use vstd::prelude::*;

verus! {

/// Why a selection could not be made.
#[derive(Debug, Clone, Copy, PartialEq, Eq)]
pub enum Error {
    /// The list of preferences holds no entry.
    EmptyPriority,
}

/// The texts of a list of strings, in order.
pub open spec fn texts(items: Seq<String>) -> Seq<Seq<char>> {
    Seq::new(items.len(), |i: int| items[i]@)
}

/// `i` is the first position at which `wanted` stands in `items`.
pub open spec fn is_first_position(items: Seq<Seq<char>>, wanted: Seq<char>, i: int) -> bool {
    &&& 0 <= i < items.len()
    &&& items[i] == wanted
    &&& forall|j: int| 0 <= j < i ==> items[j] != wanted
}

/// `wanted` stands somewhere in `items`.
pub open spec fn occurs(items: Seq<Seq<char>>, wanted: Seq<char>) -> bool {
    exists|i: int| 0 <= i < items.len() && items[i] == wanted
}

/// The first position of `wanted` in `items`; meaningful only when it occurs.
pub open spec fn first_position(items: Seq<Seq<char>>, wanted: Seq<char>) -> int {
    choose|i: int| is_first_position(items, wanted, i)
}

/// The position that follows `current` in the rotation over `priority`:
/// the head when nothing is current or `current` is not listed, else the
/// position after the first occurrence of `current`, wrapping to the head.
pub open spec fn successor(current: Option<Seq<char>>, priority: Seq<Seq<char>>) -> int {
    match current {
        None => 0,
        Some(c) => if occurs(priority, c) && first_position(priority, c) + 1 < priority.len() {
            first_position(priority, c) + 1
        } else {
            0
        },
    }
}

/// Whatever occurs has exactly one first position.
pub proof fn lemma_first_position(items: Seq<Seq<char>>, wanted: Seq<char>)
    requires
        occurs(items, wanted),
    ensures
        is_first_position(items, wanted, first_position(items, wanted)),
        forall|i: int| is_first_position(items, wanted, i) ==> i == first_position(items, wanted),
{
    lemma_first_position_below(items, wanted, items.len() as int);
    let f = first_position(items, wanted);
    assert forall|i: int| is_first_position(items, wanted, i) implies i == f by {
        if i < f {
            assert(items[i] != wanted);
        } else if f < i {
            assert(items[f] != wanted);
        }
    }
}

proof fn lemma_first_position_below(items: Seq<Seq<char>>, wanted: Seq<char>, n: int)
    requires
        0 <= n <= items.len(),
        exists|i: int| 0 <= i < n && items[i] == wanted,
    ensures
        exists|i: int| is_first_position(items, wanted, i),
    decreases n,
{
    let k = choose|i: int| 0 <= i < n && items[i] == wanted;
    if exists|j: int| 0 <= j < k && items[j] == wanted {
        lemma_first_position_below(items, wanted, k);
    } else {
        assert(is_first_position(items, wanted, k));
    }
}

/// The selection is an entry of the list. It is the entry after the first
/// occurrence of `current`, the head after the last entry, when `current`
/// is listed; it is the head when nothing is current or `current` is not listed.
pub proof fn lemma_selection(current: Option<Seq<char>>, priority: Seq<Seq<char>>)
    requires
        priority.len() > 0,
    ensures
        0 <= successor(current, priority) < priority.len(),
        current is Some && occurs(priority, current->0) ==> {
            let at = first_position(priority, current->0);
            &&& is_first_position(priority, current->0, at)
            &&& successor(current, priority) == if at + 1 == priority.len() {
                0
            } else {
                at + 1
            }
        },
        current is None || !occurs(priority, current->0) ==> successor(current, priority) == 0,
{
    if let Some(c) = current {
        if occurs(priority, c) {
            lemma_first_position(priority, c);
        }
    }
}

/// Picks the entry of `priority` that follows `current`.
///
/// With nothing current, or with a `current` that is not listed, the head is
/// picked. Otherwise the entry after the first occurrence of `current` is
/// picked, and the last entry is followed by the head.
pub fn select<'a>(current: Option<&'a str>, priority: &'a [String]) -> (picked: Result<&'a str, Error>)
    ensures
        picked is Err <==> priority@.len() == 0,
        picked matches Ok(s) ==> s@ == texts(priority@)[successor(
            match current {
                Some(c) => Some(c@),
                None => None,
            },
            texts(priority@),
        )],
{
    if priority.len() < 1 {
        return Err(Error::EmptyPriority);
    }
    let wanted: String = match current {
        None => {
            return Ok(priority[0].as_str());
        },
        Some(c) => c.to_owned(),
    };
    let ghost items = texts(priority@);
    let last: usize = priority.len() - 1;
    let mut idx: usize = 0;
    while idx < last
        invariant
            idx <= last,
            last + 1 == priority@.len(),
            items == texts(priority@),
            current == Some::<&str>(current->0),
            wanted@ == current->0@,
            forall|j: int| 0 <= j < idx ==> items[j] != wanted@,
        decreases last - idx,
    {
        if wanted == priority[idx] {
            proof {
                assert(items[idx as int] == wanted@);
                assert(is_first_position(items, wanted@, idx as int));
                assert(occurs(items, wanted@));
                lemma_first_position(items, wanted@);
                assert(first_position(items, wanted@) == idx);
                assert(successor(Some(wanted@), items) == idx + 1);
                assert(items[idx + 1] == priority@[idx + 1]@);
            }
            return Ok(priority[idx + 1].as_str());
        }
        idx = idx + 1;
    }
    proof {
        if occurs(items, wanted@) {
            lemma_first_position(items, wanted@);
            let f = first_position(items, wanted@);
            assert(f == last);
        }
        assert(successor(Some(wanted@), items) == 0);
    }
    Ok(priority[0].as_str())
}

} // verus!
