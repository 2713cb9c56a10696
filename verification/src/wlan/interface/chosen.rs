//! The adapter in use.

use crate::util::priority::texts;
use crate::win::guid;
use crate::win::guid::Guid;
use crate::win::{NativeError, NativeResult};
use crate::wlan::interface::list;
use crate::wlan::interface::list::sorted;
use vstd::prelude::*;

verus! {

/// Holds the adapter in use, if one is: its identifier, and the description
/// it had when it was chosen. Both are there or neither is.
#[derive(Debug, PartialEq, Eq)]
pub struct Operator {
    chosen: Option<Guid>,
    name: Option<String>,
}

impl View for Operator {
    type V = Option<Guid>;

    closed spec fn view(&self) -> Option<Guid> {
        self.chosen
    }
}

impl Operator {
    /// The description that the adapter in use had when it was chosen.
    pub closed spec fn described(&self) -> Option<Seq<char>> {
        match self.name {
            Some(name) => Some(name@),
            None => None,
        }
    }

    /// The identifier of the adapter in use.
    pub fn get(&self) -> (chosen: Option<&Guid>)
        ensures
            match self@ {
                Some(guid) => chosen == Some(&guid),
                None => chosen is None,
            },
    {
        self.chosen.as_ref()
    }

    /// The description that the adapter in use had when it was chosen.
    pub fn name(&self) -> (name: Option<&str>)
        ensures
            match self.described() {
                Some(text) => name matches Some(n) && n@ == text,
                None => name is None,
            },
    {
        match &self.name {
            Some(name) => Some(name.as_str()),
            None => None,
        }
    }

    /// The identifier of the adapter in use, in its textual form.
    pub fn as_string(&self) -> (written: Option<String>)
        ensures
            match self@ {
                Some(guid) => written matches Some(w) && w@ == guid::text(guid),
                None => written is None,
            },
    {
        match &self.chosen {
            Some(chosen) => Some(guid::to_string(chosen)),
            None => None,
        }
    }

    /// Tells whether an adapter is in use.
    pub fn is_chosen(&self) -> (yes: bool)
        ensures
            yes == self@ is Some,
    {
        self.chosen.is_some()
    }

    /// Tells whether the adapter identified by `guid` is the one in use.
    pub fn is_guid_chosen(&self, guid: &Guid) -> (yes: bool)
        ensures
            yes == (self@ == Some(*guid)),
    {
        match &self.chosen {
            Some(chosen) => *chosen == *guid,
            None => false,
        }
    }

    /// The adapter on which to scan, connect, or read and write profiles:
    /// the one in use. With none in use the request fails as the service
    /// fails for an adapter it does not know, with `NotFound`.
    pub fn target(&self) -> (target: NativeResult<Guid>)
        ensures
            match self@ {
                Some(guid) => target == Ok::<Guid, NativeError>(guid),
                None => target == Err::<Guid, NativeError>(NativeError::NotFound),
            },
    {
        match &self.chosen {
            Some(chosen) => Ok(*chosen),
            None => Err(NativeError::NotFound),
        }
    }

    /// Takes the most preferred adapter of `list` into use.
    ///
    /// Gives `None`, and changes nothing, when no adapter is present or the
    /// most preferred one is in use already. Otherwise that adapter is in use
    /// from now on, and its identifier is handed back.
    pub fn select(&mut self, list: &list::Operator, priority: &[String]) -> (picked: Option<Guid>)
        ensures
            ({
                let order = sorted(list@, texts(priority@));
                if order.len() == 0 || old(self)@ == Some(order[0].guid) {
                    &&& picked is None
                    &&& final(self)@ == old(self)@
                    &&& final(self).described() == old(self).described()
                } else {
                    &&& picked == Some(order[0].guid)
                    &&& final(self)@ == picked
                    &&& final(self).described() == Some(order[0].description@)
                }
            }),
    {
        let mut order = list.sorted_priority(priority);
        if order.len() == 0 {
            return None;
        }
        let best = order.swap_remove(0);
        if self.is_guid_chosen(&best.guid) {
            return None;
        }
        self.chosen = Some(best.guid);
        self.name = Some(best.description);
        self.chosen
    }

    /// Takes the adapter out of use. Fails, and changes nothing, when none is in use.
    pub fn unchoose(&mut self) -> (done: Result<(), ()>)
        ensures
            done is Ok <==> old(self)@ is Some,
            done is Ok ==> final(self)@ is None && final(self).described() is None,
            done is Err ==> final(self)@ == old(self)@ && final(self).described() == old(
                self,
            ).described(),
    {
        if self.chosen.is_none() {
            return Err(());
        }
        self.chosen = None;
        self.name = None;
        Ok(())
    }
}

impl Default for Operator {
    fn default() -> (operator: Self)
        ensures
            operator@ is None,
            operator.described() is None,
    {
        Operator { chosen: None, name: None }
    }
}

} // verus!
