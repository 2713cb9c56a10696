//! The networks in range of the adapter in use.

use crate::cfg::WiFiNetwork;
use crate::util::priority::texts;
use crate::util::search::{any, first, is_first, lemma_first, lemma_first_is, lemma_first_none};
use crate::win::wlan::Network;
use crate::win::NativeResult;
use crate::wlan::interface;
use crate::wlan::network::UpdateError;
use vstd::prelude::*;

verus! {

/// The condition of being the network in range called `ssid`.
pub open spec fn has_ssid(ssid: Seq<char>) -> spec_fn(Network) -> bool {
    |network: Network| network.ssid@ == ssid
}

/// The condition of being the configured network called `ssid`.
pub open spec fn named(ssid: Seq<char>) -> spec_fn(WiFiNetwork) -> bool {
    |network: WiFiNetwork| network.ssid@ == ssid
}

/// The names of `list`, in order.
pub open spec fn ssids(list: Seq<Network>) -> Seq<Seq<char>> {
    Seq::new(list.len(), |i: int| list[i].ssid@)
}

/// The configured networks that are in range, in the order of the
/// configuration: each as its position in `configured`, with the position in
/// `live` of the first network of that name.
pub open spec fn joined(configured: Seq<WiFiNetwork>, live: Seq<Network>) -> Seq<(int, int)>
    decreases configured.len(),
{
    if configured.len() == 0 {
        Seq::empty()
    } else {
        let before = joined(configured.drop_last(), live);
        match first(live, has_ssid(configured.last().ssid@)) {
            Some(i) => before.push((configured.len() - 1, i)),
            None => before,
        }
    }
}

/// The names of the configured networks that are in range, in the order of
/// the configuration.
pub open spec fn accessible(configured: Seq<WiFiNetwork>, live: Seq<Network>) -> Seq<Seq<char>> {
    Seq::new(
        joined(configured, live).len(),
        |k: int| configured[joined(configured, live)[k].0].ssid@,
    )
}

/// Every pair of the join holds a configured network and the first network in
/// range of the same name.
pub proof fn lemma_joined(configured: Seq<WiFiNetwork>, live: Seq<Network>)
    ensures
        forall|k: int|
            0 <= k < joined(configured, live).len() ==> {
                let pair = #[trigger] joined(configured, live)[k];
                &&& 0 <= pair.0 < configured.len()
                &&& first(live, has_ssid(configured[pair.0].ssid@)) == Some(pair.1)
                &&& 0 <= pair.1 < live.len()
                &&& live[pair.1].ssid@ == configured[pair.0].ssid@
            },
    decreases configured.len(),
{
    if configured.len() > 0 {
        lemma_joined(configured.drop_last(), live);
        lemma_first(live, has_ssid(configured.last().ssid@));
        let before = joined(configured.drop_last(), live);
        assert forall|k: int| 0 <= k < joined(configured, live).len() implies {
            let pair = #[trigger] joined(configured, live)[k];
            &&& 0 <= pair.0 < configured.len()
            &&& first(live, has_ssid(configured[pair.0].ssid@)) == Some(pair.1)
            &&& 0 <= pair.1 < live.len()
            &&& live[pair.1].ssid@ == configured[pair.0].ssid@
        } by {
            if k < before.len() {
                let pair = before[k];
                assert(joined(configured, live)[k] == pair);
                assert(configured.drop_last()[pair.0] == configured[pair.0]);
            }
        }
    }
}

/// Every accessible name is the name of a configured network and of a network in range.
pub proof fn lemma_accessible(configured: Seq<WiFiNetwork>, live: Seq<Network>)
    ensures
        forall|k: int|
            0 <= k < accessible(configured, live).len() ==> {
                let ssid = #[trigger] accessible(configured, live)[k];
                &&& first(configured, named(ssid)) is Some
                &&& first(live, has_ssid(ssid)) is Some
            },
{
    lemma_joined(configured, live);
    assert forall|k: int| 0 <= k < accessible(configured, live).len() implies {
        let ssid = #[trigger] accessible(configured, live)[k];
        &&& first(configured, named(ssid)) is Some
        &&& first(live, has_ssid(ssid)) is Some
    } by {
        let pair = joined(configured, live)[k];
        let ssid = accessible(configured, live)[k];
        assert(named(ssid)(configured[pair.0]));
        assert(any(configured, named(ssid)));
    }
}

/// The list of the networks in range, as the service last reported them.
#[derive(Debug, PartialEq, Eq)]
pub struct Operator {
    list: Vec<Network>,
}

impl View for Operator {
    type V = Seq<Network>;

    closed spec fn view(&self) -> Seq<Network> {
        self.list@
    }
}

impl Operator {
    /// The networks, in the order of the report.
    pub fn as_slice(&self) -> (list: &[Network])
        ensures
            list@ == self@,
    {
        self.list.as_slice()
    }

    /// The names of the networks, in order.
    pub fn as_ssids(&self) -> (found: Vec<&str>)
        ensures
            found@.len() == self@.len(),
            forall|i: int| 0 <= i < found@.len() ==> (#[trigger] found@[i])@ == self@[i].ssid@,
    {
        let mut found: Vec<&str> = Vec::new();
        let mut i: usize = 0;
        while i < self.list.len()
            invariant
                i <= self.list@.len(),
                found@.len() == i,
                forall|j: int| 0 <= j < i ==> (#[trigger] found@[j])@ == self.list@[j].ssid@,
            decreases self.list@.len() - i,
        {
            found.push(self.list[i].ssid.as_str());
            i = i + 1;
        }
        found
    }

    /// Tells whether no network is in range.
    pub fn is_empty(&self) -> (yes: bool)
        ensures
            yes == (self@.len() == 0),
    {
        self.list.is_empty()
    }

    fn position_by_ssid(&self, ssid: &String) -> (found: Option<usize>)
        ensures
            match found {
                Some(i) => first(self@, has_ssid(ssid@)) == Some(i as int) && i < self@.len(),
                None => first(self@, has_ssid(ssid@)) is None,
            },
    {
        let mut i: usize = 0;
        while i < self.list.len()
            invariant
                i <= self.list@.len(),
                forall|j: int| 0 <= j < i ==> !has_ssid(ssid@)(#[trigger] self.list@[j]),
            decreases self.list@.len() - i,
        {
            if self.list[i].ssid == *ssid {
                proof {
                    assert(is_first(self.list@, has_ssid(ssid@), i as int));
                    lemma_first_is(self.list@, has_ssid(ssid@), i as int);
                }
                return Some(i);
            }
            i = i + 1;
        }
        proof {
            lemma_first_none(self.list@, has_ssid(ssid@));
        }
        None
    }

    /// The first network in range called `ssid`, if there is one.
    pub fn get_by_ssid(&self, ssid: &str) -> (found: Option<&Network>)
        ensures
            match first(self@, has_ssid(ssid@)) {
                Some(i) => found == Some(&self@[i]),
                None => found is None,
            },
    {
        let wanted = ssid.to_owned();
        match self.position_by_ssid(&wanted) {
            Some(i) => Some(&self.list[i]),
            None => None,
        }
    }

    /// The configured networks that are in range, in the order of the
    /// configuration, each with the first network in range of its name.
    pub fn map_with_config(&self, configured: &[WiFiNetwork]) -> (found: Vec<(WiFiNetwork, Network)>)
        ensures
            found@.len() == joined(configured@, self@).len(),
            forall|k: int|
                0 <= k < found@.len() ==> {
                    let pair = joined(configured@, self@)[k];
                    &&& (#[trigger] found@[k]).0 == configured@[pair.0]
                    &&& found@[k].1@ == self@[pair.1]@
                },
    {
        let mut found: Vec<(WiFiNetwork, Network)> = Vec::new();
        let mut c: usize = 0;
        while c < configured.len()
            invariant
                c <= configured@.len(),
                found@.len() == joined(configured@.take(c as int), self@).len(),
                forall|k: int|
                    0 <= k < found@.len() ==> {
                        let pair = joined(configured@.take(c as int), self@)[k];
                        &&& (#[trigger] found@[k]).0 == configured@[pair.0]
                        &&& found@[k].1@ == self@[pair.1]@
                    },
            decreases configured@.len() - c,
        {
            proof {
                assert(configured@.take(c + 1).drop_last() =~= configured@.take(c as int));
                assert(configured@.take(c + 1).last() == configured@[c as int]);
                lemma_joined(configured@.take(c as int), self@);
            }
            match self.position_by_ssid(&configured[c].ssid) {
                Some(i) => {
                    found.push((configured[c].clone(), self.list[i].clone()));
                },
                None => {},
            }
            c = c + 1;
        }
        assert(configured@.take(c as int) =~= configured@);
        found
    }

    /// Tells whether some configured network is in range.
    pub fn cfg_networks_available(&self, configured: &[WiFiNetwork]) -> (yes: bool)
        ensures
            yes == (accessible(configured@, self@).len() > 0),
    {
        !self.map_with_config(configured).is_empty()
    }

    /// The names of the configured networks that are in range, in the order
    /// of the configuration.
    pub fn accessable_ssids(&self, configured: &[WiFiNetwork]) -> (found: Vec<String>)
        ensures
            texts(found@) == accessible(configured@, self@),
    {
        let pairs = self.map_with_config(configured);
        let mut found: Vec<String> = Vec::new();
        let mut k: usize = 0;
        while k < pairs.len()
            invariant
                k <= pairs@.len(),
                found@.len() == k,
                forall|j: int| 0 <= j < k ==> #[trigger] found@[j] == pairs@[j].0.ssid,
            decreases pairs@.len() - k,
        {
            found.push(pairs[k].0.ssid.clone());
            k = k + 1;
        }
        assert(texts(found@) =~= accessible(configured@, self@));
        found
    }

    /// Forgets every network.
    pub fn clear(&mut self)
        ensures
            final(self)@.len() == 0,
    {
        self.list = Vec::new();
    }

    /// Takes over a fresh report of the networks in range of the adapter in use.
    ///
    /// With no adapter in use there is nothing to ask: the request fails and
    /// the report, if any, is dropped. A failed report is handed back. Either
    /// way the list stays as it was.
    pub fn update(
        &mut self,
        chosen: &interface::chosen::Operator,
        report: NativeResult<Vec<Network>>,
    ) -> (done: Result<(), UpdateError>)
        ensures
            chosen@ is None ==> final(self)@ == old(self)@ && done == Err::<(), _>(
                UpdateError::Interface(interface::Error::NotChosen),
            ),
            chosen@ is Some ==> match report {
                Ok(list) => final(self)@ == list@ && done is Ok,
                Err(e) => final(self)@ == old(self)@ && done == Err::<(), _>(UpdateError::Win(e)),
            },
    {
        if !chosen.is_chosen() {
            return Err(UpdateError::Interface(interface::Error::NotChosen));
        }
        match report {
            Ok(list) => {
                self.list = list;
                Ok(())
            },
            Err(e) => Err(UpdateError::Win(e)),
        }
    }
}

impl Default for Operator {
    fn default() -> (operator: Self)
        ensures
            operator@.len() == 0,
    {
        Operator { list: Vec::new() }
    }
}

} // verus!
