//! The adapters that are present.

use crate::util::priority::texts;
use crate::util::search::{
    any, first, is_first, lemma_first, lemma_first_agrees, lemma_first_is, lemma_first_none,
};
use crate::win::guid;
use crate::win::guid::Guid;
use crate::win::wlan::Interface;
use crate::win::NativeResult;
use vstd::prelude::*;

verus! {

/// The condition of being the adapter identified by `guid`.
pub open spec fn has_guid(guid: Guid) -> spec_fn(Interface) -> bool {
    |interface: Interface| interface.guid == guid
}

/// The condition of being an adapter whose identifier is written `text`.
pub open spec fn has_guid_text(text: Seq<char>) -> spec_fn(Interface) -> bool {
    |interface: Interface| guid::text(interface.guid) == text
}

/// The identifiers of `list`, in order.
pub open spec fn guids(list: Seq<Interface>) -> Seq<Guid> {
    Seq::new(list.len(), |i: int| list[i].guid)
}

/// The identifiers of `list` in their textual form, in order.
pub open spec fn guid_texts(list: Seq<Interface>) -> Seq<Seq<char>> {
    Seq::new(list.len(), |i: int| guid::text(list[i].guid))
}

/// For each entry of `priority` in order, the first adapter of `list` whose
/// identifier is written so; entries that name no adapter give nothing.
pub open spec fn prioritized(list: Seq<Interface>, priority: Seq<Seq<char>>) -> Seq<Interface>
    decreases priority.len(),
{
    if priority.len() == 0 {
        Seq::empty()
    } else {
        let before = prioritized(list, priority.drop_last());
        match first(list, has_guid_text(priority.last())) {
            Some(i) => before.push(list[i]),
            None => before,
        }
    }
}

/// The adapters of `list` whose identifier is not among `taken`, in the order of `list`.
pub open spec fn remaining(list: Seq<Interface>, taken: Seq<Guid>) -> Seq<Interface>
    decreases list.len(),
{
    if list.len() == 0 {
        Seq::empty()
    } else {
        let before = remaining(list.drop_last(), taken);
        if taken.contains(list.last().guid) {
            before
        } else {
            before.push(list.last())
        }
    }
}

/// The adapters in order of preference: those that `priority` names, in the
/// order of `priority`, then all others in the order of `list`.
pub open spec fn sorted(list: Seq<Interface>, priority: Seq<Seq<char>>) -> Seq<Interface> {
    prioritized(list, priority) + remaining(list, guids(prioritized(list, priority)))
}

/// The identifiers of all adapters of `list` but the one identified by `guid`, in order.
pub open spec fn all_except(list: Seq<Interface>, guid: Guid) -> Seq<Guid>
    decreases list.len(),
{
    if list.len() == 0 {
        Seq::empty()
    } else {
        let before = all_except(list.drop_last(), guid);
        if list.last().guid == guid {
            before
        } else {
            before.push(list.last().guid)
        }
    }
}

/// An adapter is found by the text of its identifier exactly where it is
/// found by the identifier.
pub proof fn lemma_lookup_by_text(list: Seq<Interface>, guid: Guid)
    ensures
        first(list, has_guid_text(guid::text(guid))) == first(list, has_guid(guid)),
{
    assert forall|j: int| 0 <= j < list.len() implies has_guid_text(guid::text(guid))(
        #[trigger] list[j],
    ) == has_guid(guid)(list[j]) by {
        guid::lemma_text_tells_apart(list[j].guid, guid);
    }
    lemma_first_agrees(list, has_guid_text(guid::text(guid)), has_guid(guid));
}

/// `sorted` holds an adapter exactly when `list` does.
pub proof fn lemma_sorted_empty(list: Seq<Interface>, priority: Seq<Seq<char>>)
    ensures
        sorted(list, priority).len() == 0 <==> list.len() == 0,
        forall|k: int|
            0 <= k < sorted(list, priority).len() ==> list.contains(
                #[trigger] sorted(list, priority)[k],
            ),
{
    lemma_prioritized_within(list, priority);
    let head = prioritized(list, priority);
    let taken = guids(head);
    lemma_remaining_within(list, taken);
    if list.len() > 0 {
        if head.len() == 0 {
            assert(taken.len() == 0);
            lemma_remaining_of_none(list, taken);
        }
    } else {
        if head.len() > 0 {
            assert(list.contains(head[0]));
        }
        if remaining(list, taken).len() > 0 {
            assert(list.contains(remaining(list, taken)[0]));
        }
    }
    assert forall|k: int| 0 <= k < sorted(list, priority).len() implies list.contains(
        #[trigger] sorted(list, priority)[k],
    ) by {
        if k < head.len() {
            assert(sorted(list, priority)[k] == head[k]);
        } else {
            assert(sorted(list, priority)[k] == remaining(list, taken)[k - head.len()]);
        }
    }
}

proof fn lemma_prioritized_within(list: Seq<Interface>, priority: Seq<Seq<char>>)
    ensures
        forall|k: int|
            0 <= k < prioritized(list, priority).len() ==> list.contains(
                #[trigger] prioritized(list, priority)[k],
            ),
    decreases priority.len(),
{
    if priority.len() > 0 {
        lemma_prioritized_within(list, priority.drop_last());
        lemma_first(list, has_guid_text(priority.last()));
        let before = prioritized(list, priority.drop_last());
        assert forall|k: int| 0 <= k < prioritized(list, priority).len() implies list.contains(
            #[trigger] prioritized(list, priority)[k],
        ) by {
            if k < before.len() {
                assert(prioritized(list, priority)[k] == before[k]);
            } else {
                let i = first(list, has_guid_text(priority.last()))->0;
                assert(prioritized(list, priority)[k] == list[i]);
            }
        }
    }
}

proof fn lemma_remaining_within(list: Seq<Interface>, taken: Seq<Guid>)
    ensures
        forall|k: int|
            0 <= k < remaining(list, taken).len() ==> list.contains(
                #[trigger] remaining(list, taken)[k],
            ),
    decreases list.len(),
{
    if list.len() > 0 {
        lemma_remaining_within(list.drop_last(), taken);
        assert forall|k: int| 0 <= k < remaining(list, taken).len() implies list.contains(
            #[trigger] remaining(list, taken)[k],
        ) by {
            let item = remaining(list, taken)[k];
            if k < remaining(list.drop_last(), taken).len() {
                assert(list.drop_last().contains(item));
                let j = choose|j: int| 0 <= j < list.drop_last().len() && list.drop_last()[j] == item;
                assert(list[j] == item);
            } else {
                assert(list[list.len() - 1] == item);
            }
        }
    }
}

proof fn lemma_remaining_of_none(list: Seq<Interface>, taken: Seq<Guid>)
    requires
        taken.len() == 0,
    ensures
        remaining(list, taken) == list,
    decreases list.len(),
{
    if list.len() > 0 {
        lemma_remaining_of_none(list.drop_last(), taken);
        assert(list.drop_last().push(list.last()) =~= list);
    } else {
        assert(list =~= Seq::empty());
    }
}

/// The list of the adapters that are present, as the service last enumerated them.
#[derive(Debug, PartialEq, Eq)]
pub struct Operator {
    list: Vec<Interface>,
}

impl View for Operator {
    type V = Seq<Interface>;

    closed spec fn view(&self) -> Seq<Interface> {
        self.list@
    }
}

impl Operator {
    /// The adapters, in the order of the enumeration.
    pub fn as_slice(&self) -> (list: &[Interface])
        ensures
            list@ == self@,
    {
        self.list.as_slice()
    }

    /// The identifiers of the adapters, in order.
    pub fn as_guids(&self) -> (found: Vec<Guid>)
        ensures
            found@ == guids(self@),
    {
        let mut found: Vec<Guid> = Vec::new();
        let mut i: usize = 0;
        while i < self.list.len()
            invariant
                i <= self.list@.len(),
                found@ == guids(self.list@.take(i as int)),
            decreases self.list@.len() - i,
        {
            found.push(self.list[i].guid);
            assert(found@ =~= guids(self.list@.take(i + 1)));
            i = i + 1;
        }
        assert(self.list@.take(i as int) =~= self.list@);
        found
    }

    /// The identifiers of the adapters in their textual form, in order.
    pub fn as_guid_strings(&self) -> (found: Vec<String>)
        ensures
            texts(found@) == guid_texts(self@),
    {
        let mut found: Vec<String> = Vec::new();
        let mut i: usize = 0;
        while i < self.list.len()
            invariant
                i <= self.list@.len(),
                found@.len() == i,
                forall|j: int| 0 <= j < i ==> (#[trigger] found@[j])@ == guid::text(self.list@[j].guid),
            decreases self.list@.len() - i,
        {
            found.push(guid::to_string(&self.list[i].guid));
            i = i + 1;
        }
        assert(texts(found@) =~= guid_texts(self@));
        found
    }

    fn position_by_guid(&self, guid: &Guid) -> (found: Option<usize>)
        ensures
            match found {
                Some(i) => first(self@, has_guid(*guid)) == Some(i as int) && i < self@.len(),
                None => first(self@, has_guid(*guid)) is None,
            },
    {
        let mut i: usize = 0;
        while i < self.list.len()
            invariant
                i <= self.list@.len(),
                forall|j: int| 0 <= j < i ==> !has_guid(*guid)(#[trigger] self.list@[j]),
            decreases self.list@.len() - i,
        {
            if self.list[i].guid == *guid {
                proof {
                    assert(is_first(self.list@, has_guid(*guid), i as int));
                    lemma_first_is(self.list@, has_guid(*guid), i as int);
                }
                return Some(i);
            }
            i = i + 1;
        }
        proof {
            lemma_first_none(self.list@, has_guid(*guid));
        }
        None
    }

    fn position_by_text(&self, text: &String) -> (found: Option<usize>)
        ensures
            match found {
                Some(i) => first(self@, has_guid_text(text@)) == Some(i as int) && i < self@.len(),
                None => first(self@, has_guid_text(text@)) is None,
            },
    {
        let mut i: usize = 0;
        while i < self.list.len()
            invariant
                i <= self.list@.len(),
                forall|j: int| 0 <= j < i ==> !has_guid_text(text@)(#[trigger] self.list@[j]),
            decreases self.list@.len() - i,
        {
            let written = guid::to_string(&self.list[i].guid);
            if written == *text {
                proof {
                    assert(is_first(self.list@, has_guid_text(text@), i as int));
                    lemma_first_is(self.list@, has_guid_text(text@), i as int);
                }
                return Some(i);
            }
            i = i + 1;
        }
        proof {
            lemma_first_none(self.list@, has_guid_text(text@));
        }
        None
    }

    /// The first adapter identified by `guid`, if it is present.
    pub fn get_by_guid(&self, guid: &Guid) -> (found: Option<Interface>)
        ensures
            match first(self@, has_guid(*guid)) {
                Some(i) => found == Some(self@[i]),
                None => found is None,
            },
    {
        match self.position_by_guid(guid) {
            Some(i) => Some(self.list[i].clone()),
            None => None,
        }
    }

    /// The first adapter whose identifier is written `guid`, if it is present.
    pub fn get_by_str_guid(&self, guid: &str) -> (found: Option<Interface>)
        ensures
            match first(self@, has_guid_text(guid@)) {
                Some(i) => found == Some(self@[i]),
                None => found is None,
            },
    {
        let text = guid.to_owned();
        match self.position_by_text(&text) {
            Some(i) => Some(self.list[i].clone()),
            None => None,
        }
    }

    /// The description of the first adapter identified by `guid`, if it is present.
    pub fn get_name_by_guid(&self, guid: &Guid) -> (found: Option<String>)
        ensures
            match first(self@, has_guid(*guid)) {
                Some(i) => found == Some(self@[i].description),
                None => found is None,
            },
    {
        match self.position_by_guid(guid) {
            Some(i) => Some(self.list[i].description.clone()),
            None => None,
        }
    }

    /// Tells whether the adapter identified by `guid` is present.
    pub fn contains_guid(&self, guid: &Guid) -> (yes: bool)
        ensures
            yes == any(self@, has_guid(*guid)),
    {
        self.position_by_guid(guid).is_some()
    }

    /// Tells whether an adapter whose identifier is written `guid` is present.
    pub fn contains_str_guid(&self, guid: &str) -> (yes: bool)
        ensures
            yes == any(self@, has_guid_text(guid@)),
    {
        let text = guid.to_owned();
        self.position_by_text(&text).is_some()
    }

    /// Tells whether no adapter is present.
    pub fn is_empty(&self) -> (yes: bool)
        ensures
            yes == (self@.len() == 0),
    {
        self.list.is_empty()
    }

    /// The adapters in order of preference: those that `priority` names by
    /// the textual form of their identifier, in the order of `priority`, then
    /// all others in the order of the enumeration.
    pub fn sorted_priority(&self, priority: &[String]) -> (found: Vec<Interface>)
        ensures
            found@ == sorted(self@, texts(priority@)),
    {
        let ghost wanted = texts(priority@);
        let mut found: Vec<Interface> = Vec::new();
        let mut k: usize = 0;
        while k < priority.len()
            invariant
                k <= priority@.len(),
                wanted == texts(priority@),
                found@ == prioritized(self@, wanted.take(k as int)),
            decreases priority@.len() - k,
        {
            proof {
                assert(wanted.take(k + 1).drop_last() =~= wanted.take(k as int));
                assert(wanted.take(k + 1).last() == priority@[k as int]@);
            }
            match self.position_by_text(&priority[k]) {
                Some(i) => {
                    found.push(self.list[i].clone());
                },
                None => {},
            }
            k = k + 1;
        }
        assert(wanted.take(k as int) =~= wanted);
        let preferred: usize = found.len();
        let ghost head = found@;
        let ghost taken = guids(head);
        let mut i: usize = 0;
        assert(found@ =~= head + remaining(self@.take(0), taken));
        while i < self.list.len()
            invariant
                i <= self.list@.len(),
                preferred == head.len(),
                taken == guids(head),
                found@ == head + remaining(self@.take(i as int), taken),
            decreases self.list@.len() - i,
        {
            proof {
                assert(self@.take(i + 1).drop_last() =~= self@.take(i as int));
                assert(self@.take(i + 1).last() == self@[i as int]);
            }
            let guid = self.list[i].guid;
            let mut seen = false;
            let mut j: usize = 0;
            while j < preferred
                invariant
                    j <= preferred,
                    preferred == head.len(),
                    preferred <= found@.len(),
                    taken == guids(head),
                    forall|m: int| 0 <= m < preferred ==> found@[m] == head[m],
                    seen == exists|m: int| 0 <= m < j && taken[m] == guid,
                decreases preferred - j,
            {
                if found[j].guid == guid {
                    seen = true;
                    assert(taken[j as int] == guid);
                }
                j = j + 1;
            }
            assert(seen == taken.contains(guid));
            if !seen {
                found.push(self.list[i].clone());
            }
            assert(found@ =~= head + remaining(self@.take(i + 1), taken));
            i = i + 1;
        }
        assert(self@.take(i as int) =~= self@);
        found
    }

    /// The identifiers of the adapters, in order of preference.
    pub fn sorted_priority_guids(&self, priority: &[String]) -> (found: Vec<Guid>)
        ensures
            found@ == guids(sorted(self@, texts(priority@))),
    {
        let sorted = self.sorted_priority(priority);
        let mut found: Vec<Guid> = Vec::new();
        let mut i: usize = 0;
        while i < sorted.len()
            invariant
                i <= sorted@.len(),
                found@ == guids(sorted@.take(i as int)),
            decreases sorted@.len() - i,
        {
            found.push(sorted[i].guid);
            assert(found@ =~= guids(sorted@.take(i + 1)));
            i = i + 1;
        }
        assert(sorted@.take(i as int) =~= sorted@);
        found
    }

    /// The identifiers of the adapters in their textual form, in order of preference.
    pub fn sorted_priority_string_guids(&self, priority: &[String]) -> (found: Vec<String>)
        ensures
            texts(found@) == guid_texts(sorted(self@, texts(priority@))),
    {
        let sorted = self.sorted_priority(priority);
        let mut found: Vec<String> = Vec::new();
        let mut i: usize = 0;
        while i < sorted.len()
            invariant
                i <= sorted@.len(),
                found@.len() == i,
                forall|j: int| 0 <= j < i ==> (#[trigger] found@[j])@ == guid::text(sorted@[j].guid),
            decreases sorted@.len() - i,
        {
            found.push(guid::to_string(&sorted[i].guid));
            i = i + 1;
        }
        assert(texts(found@) =~= guid_texts(sorted@));
        found
    }

    /// The adapters to disconnect so that only the one identified by `guid`
    /// stays connected: every other adapter, in order.
    pub fn disconnect_all_except(&self, guid: &Guid) -> (targets: Vec<Guid>)
        ensures
            targets@ == all_except(self@, *guid),
    {
        let mut targets: Vec<Guid> = Vec::new();
        let mut i: usize = 0;
        while i < self.list.len()
            invariant
                i <= self.list@.len(),
                targets@ == all_except(self@.take(i as int), *guid),
            decreases self.list@.len() - i,
        {
            proof {
                assert(self@.take(i + 1).drop_last() =~= self@.take(i as int));
                assert(self@.take(i + 1).last() == self@[i as int]);
            }
            if self.list[i].guid != *guid {
                targets.push(self.list[i].guid);
            }
            i = i + 1;
        }
        assert(self@.take(i as int) =~= self@);
        targets
    }

    /// Takes over a fresh enumeration. A failed enumeration is handed back
    /// and leaves the list as it was.
    pub fn update(&mut self, enumeration: NativeResult<Vec<Interface>>) -> (done: NativeResult<()>)
        ensures
            match enumeration {
                Ok(list) => final(self)@ == list@ && done is Ok,
                Err(e) => final(self)@ == old(self)@ && done == Err::<(), _>(e),
            },
    {
        match enumeration {
            Ok(list) => {
                self.list = list;
                Ok(())
            },
            Err(e) => Err(e),
        }
    }

    /// Takes over a fresh enumeration, as `update` does. The caller logs the
    /// failure that is handed back; no failure is lost.
    pub fn update_warned(&mut self, enumeration: NativeResult<Vec<Interface>>) -> (done:
        NativeResult<()>)
        ensures
            match enumeration {
                Ok(list) => final(self)@ == list@ && done is Ok,
                Err(e) => final(self)@ == old(self)@ && done == Err::<(), _>(e),
            },
    {
        self.update(enumeration)
    }
}

impl Default for Operator {
    fn default() -> (operator: Self)
        ensures
            operator@.len() == 0,
    {
        Operator { list: Vec::new() }
    }
}

} // verus!
