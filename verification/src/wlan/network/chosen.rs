//! The network joined.

use crate::cfg::WiFiNetwork;
use crate::util::priority;
use crate::util::priority::{lemma_selection, successor};
use crate::util::search::{first, is_first, lemma_first, lemma_first_is, lemma_first_none};
use crate::win::wlan::network::profile::{has_profile_form, plain_key, written_for, Key, KeyView};
use crate::win::wlan::network::{Bss, NetworkView, Profile};
use crate::win::NativeResult;
use crate::wlan::network::list;
use crate::wlan::network::list::{accessible, has_ssid, lemma_accessible, named};
use vstd::prelude::*;

verus! {

/// What to do in order to join a network: connect under the profile named
/// `ssid`, to a service set of kind `bss`, after installing `profile` if the
/// adapter has no profile of that name.
#[derive(Debug, Clone, PartialEq, Eq)]
pub struct Attempt {
    pub ssid: String,
    pub bss: Bss,
    /// The profile to install where none is stored; `None` where the
    /// network's protection has no form that a profile can state.
    pub profile: Option<Profile>,
}

/// The password of a configured network, apart from how its text is stored.
pub open spec fn password_text(network: WiFiNetwork) -> Option<Seq<char>> {
    match network.password {
        Some(password) => Some(password@),
        None => None,
    }
}

/// The key that an optional password makes.
pub open spec fn password_key(password: Option<Seq<char>>) -> Option<KeyView> {
    match password {
        Some(password) => Some(plain_key(password)),
        None => None,
    }
}

impl Attempt {
    /// The attempt is the one that joins `network` with `password`.
    pub open spec fn plans(&self, network: NetworkView, password: Option<Seq<char>>) -> bool {
        &&& self.ssid@ == network.ssid
        &&& self.bss == network.bss
        &&& match self.profile {
            Some(profile) => has_profile_form(network) && profile@ == written_for(
                network,
                password_key(password),
            ),
            None => !has_profile_form(network),
        }
    }

    /// The profile to install before connecting, given whether the adapter
    /// stores a profile of this name already: the attempt's own where none is
    /// stored, and none otherwise.
    pub fn install(&self, exists: bool) -> (profile: Option<&Profile>)
        ensures
            exists ==> profile is None,
            !exists ==> match self.profile {
                Some(own) => profile == Some(&own),
                None => profile is None,
            },
    {
        if exists {
            None
        } else {
            self.profile.as_ref()
        }
    }
}

/// Where a round of choosing leads from `current` when the first attempt
/// connects: to the network that follows `current` among the reachable ones,
/// or nowhere new when none is reachable.
pub open spec fn rotated(current: Option<Seq<char>>, reachable: Seq<Seq<char>>) -> Option<Seq<char>> {
    if reachable.len() == 0 {
        current
    } else {
        Some(reachable[successor(current, reachable)])
    }
}

/// The service reports the connection made.
pub open spec fn connects(outcome: NativeResult<bool>) -> bool {
    outcome matches Ok(made) && made
}

/// Where a round of choosing leads from `current` when its attempts to
/// connect end as `outcomes` say, one after the other: to the first network
/// in the rotation whose attempt connects, or, when no attempt connects, as
/// far in the rotation as there are outcomes.
pub open spec fn round(
    current: Option<Seq<char>>,
    reachable: Seq<Seq<char>>,
    outcomes: Seq<NativeResult<bool>>,
) -> Option<Seq<char>>
    decreases outcomes.len(),
{
    if outcomes.len() == 0 {
        current
    } else if connects(outcomes[0]) {
        rotated(current, reachable)
    } else {
        round(rotated(current, reachable), reachable, outcomes.drop_first())
    }
}

/// One of the attempts of a round of choosing connects.
pub open spec fn round_joins(reachable: Seq<Seq<char>>, outcomes: Seq<NativeResult<bool>>) -> bool {
    reachable.len() > 0 && exists|i: int| 0 <= i < outcomes.len() && connects(#[trigger] outcomes[i])
}

/// Holds the network joined or being joined, if any, and whether a round of
/// choosing is under way.
#[derive(Debug, PartialEq, Eq)]
pub struct Operator {
    choosing: bool,
    chosen: Option<String>,
}

impl View for Operator {
    type V = Option<Seq<char>>;

    closed spec fn view(&self) -> Option<Seq<char>> {
        match self.chosen {
            Some(ssid) => Some(ssid@),
            None => None,
        }
    }
}

impl Operator {
    /// A round of choosing is under way.
    pub closed spec fn choosing(&self) -> bool {
        self.choosing
    }

    /// The name of the network joined or being joined.
    pub fn get(&self) -> (chosen: Option<&str>)
        ensures
            match self@ {
                Some(ssid) => chosen matches Some(c) && c@ == ssid,
                None => chosen is None,
            },
    {
        match &self.chosen {
            Some(ssid) => Some(ssid.as_str()),
            None => None,
        }
    }

    /// Tells whether a network is joined or being joined.
    pub fn is_chosen(&self) -> (yes: bool)
        ensures
            yes == self@ is Some,
    {
        self.chosen.is_some()
    }

    /// Tells whether a round of choosing is under way.
    pub fn is_choosing(&self) -> (yes: bool)
        ensures
            yes == self.choosing(),
    {
        self.choosing
    }

    /// Tells whether the network called `ssid` is the one joined or being joined.
    pub fn is_ssid_chosen(&self, ssid: &str) -> (yes: bool)
        ensures
            yes == (self@ == Some(ssid@)),
    {
        match &self.chosen {
            Some(chosen) => {
                let wanted = ssid.to_owned();
                *chosen == wanted
            },
            None => false,
        }
    }

    /// The first configured network that has the name of the one joined or being joined.
    pub fn configs_network<'a>(&self, configured: &'a [WiFiNetwork]) -> (found: Option<
        &'a WiFiNetwork,
    >)
        ensures
            match self@ {
                Some(ssid) => match first(configured@, named(ssid)) {
                    Some(i) => found == Some(&configured@[i]),
                    None => found is None,
                },
                None => found is None,
            },
    {
        match &self.chosen {
            Some(chosen) => {
                let mut i: usize = 0;
                while i < configured.len()
                    invariant
                        i <= configured@.len(),
                        self@ == Some(chosen@),
                        forall|j: int| 0 <= j < i ==> !named(chosen@)(#[trigger] configured@[j]),
                    decreases configured@.len() - i,
                {
                    if configured[i].ssid == *chosen {
                        proof {
                            assert(is_first(configured@, named(chosen@), i as int));
                            lemma_first_is(configured@, named(chosen@), i as int);
                        }
                        return Some(&configured[i]);
                    }
                    i = i + 1;
                }
                proof {
                    lemma_first_none(configured@, named(chosen@));
                }
                None
            },
            None => None,
        }
    }

    /// Plans the attempt to join the network that is chosen.
    ///
    /// Gives `None` when that network is no longer in range: the attempt has
    /// failed before it began. Otherwise the attempt is for the first network
    /// in range of that name, with the configured password.
    pub fn connect(&self, list: &list::Operator, configured: &[WiFiNetwork]) -> (attempt: Option<
        Attempt,
    >)
        requires
            self@ matches Some(ssid) && first(configured@, named(ssid)) is Some,
        ensures
            match first(list@, has_ssid(self@->0)) {
                Some(i) => attempt matches Some(a) && a.plans(
                    list@[i]@,
                    password_text(configured@[first(configured@, named(self@->0))->0]),
                ),
                None => attempt is None,
            },
    {
        let configured_network = match self.configs_network(configured) {
            Some(network) => network,
            None => {
                return None;
            },
        };
        proof {
            lemma_first(configured@, named(self@->0));
            lemma_first(list@, has_ssid(self@->0));
            assert(configured_network.ssid@ == self@->0);
        }
        let live = match list.get_by_ssid(configured_network.ssid.as_str()) {
            Some(network) => network,
            None => {
                return None;
            },
        };
        assert(*live == list@[first(list@, has_ssid(self@->0))->0]);
        let profile = if live.profile_supported() {
            let key = match &configured_network.password {
                Some(password) => Some(Key::from_plain(password.as_str())),
                None => None,
            };
            Some(live.clone().to_profile(key))
        } else {
            None
        };
        Some(Attempt { ssid: configured_network.ssid.clone(), bss: live.bss, profile })
    }

    /// Begins an attempt to join the next network.
    ///
    /// A round of choosing is under way from now on. The network that follows
    /// the current one among the configured networks in range becomes the
    /// chosen one, and the attempt to join it is handed back. With no
    /// configured network in range nothing is chosen anew and there is
    /// nothing to attempt.
    pub fn select(&mut self, list: &list::Operator, configured: &[WiFiNetwork]) -> (attempt:
        Option<Attempt>)
        ensures
            final(self).choosing(),
            final(self)@ == rotated(old(self)@, accessible(configured@, list@)),
            attempt is None <==> accessible(configured@, list@).len() == 0,
            attempt matches Some(a) ==> {
                let ssid = final(self)@->0;
                a.plans(
                    list@[first(list@, has_ssid(ssid))->0]@,
                    password_text(configured@[first(configured@, named(ssid))->0]),
                )
            },
    {
        self.choosing = true;
        let reachable = list.accessable_ssids(configured);
        let picked: String = match priority::select(self.get(), reachable.as_slice()) {
            Ok(picked) => picked.to_owned(),
            Err(_) => {
                return None;
            },
        };
        proof {
            let names = accessible(configured@, list@);
            let at = successor(old(self)@, names);
            lemma_selection(old(self)@, names);
            assert(picked@ == names[at]);
            lemma_accessible(configured@, list@);
        }
        self.chosen = Some(picked);
        self.connect(list, configured)
    }

    /// Ends an attempt with what connecting gave.
    ///
    /// The attempt succeeded when the service reports the connection made:
    /// the round of choosing is then over. After a failure or a refusal the
    /// round goes on, and the next attempt is to be begun.
    pub fn conclude(&mut self, outcome: NativeResult<bool>) -> (connected: bool)
        ensures
            connected == (outcome matches Ok(made) && made),
            final(self)@ == old(self)@,
            final(self).choosing() == (old(self).choosing() && !connected),
    {
        match outcome {
            Ok(true) => {
                self.choosing = false;
                true
            },
            _ => false,
        }
    }

    /// Runs a whole round of choosing on recorded outcomes of the attempts to
    /// connect, and tells whether a network was joined.
    ///
    /// Attempt follows attempt, each for the next network in the rotation,
    /// until one connects, no configured network is in range, or the
    /// recorded outcomes are used up.
    pub fn replay(
        &mut self,
        list: &list::Operator,
        configured: &[WiFiNetwork],
        outcomes: &[NativeResult<bool>],
    ) -> (joined: bool)
        ensures
            final(self)@ == round(old(self)@, accessible(configured@, list@), outcomes@),
            joined == round_joins(accessible(configured@, list@), outcomes@),
            final(self).choosing() == if outcomes@.len() == 0 {
                old(self).choosing()
            } else {
                !joined
            },
    {
        let ghost reachable = accessible(configured@, list@);
        let mut i: usize = 0;
        assert(outcomes@.skip(0) =~= outcomes@);
        while i < outcomes.len()
            invariant
                i <= outcomes@.len(),
                reachable == accessible(configured@, list@),
                round(self@, reachable, outcomes@.skip(i as int)) == round(
                    old(self)@,
                    reachable,
                    outcomes@,
                ),
                reachable.len() > 0 ==> forall|j: int| 0 <= j < i ==> !connects(outcomes@[j]),
                i > 0 ==> self.choosing(),
                i == 0 ==> self.choosing() == old(self).choosing(),
            decreases outcomes@.len() - i,
        {
            proof {
                assert(outcomes@.skip(i as int)[0] == outcomes@[i as int]);
                assert(outcomes@.skip(i as int).drop_first() =~= outcomes@.skip(i + 1));
            }
            let ghost before = self@;
            match self.select(list, configured) {
                Some(_attempt) => {},
                None => {
                    proof {
                        lemma_round_nowhere(before, reachable, outcomes@.skip(i as int));
                    }
                    return false;
                },
            }
            if self.conclude(outcomes[i]) {
                return true;
            }
            i = i + 1;
        }
        false
    }

    /// Forgets the network joined, and any round of choosing under way.
    /// Fails, and changes nothing, when no network is chosen.
    pub fn unchoose(&mut self) -> (done: Result<(), ()>)
        ensures
            done is Ok <==> old(self)@ is Some,
            done is Ok ==> final(self)@ is None && !final(self).choosing(),
            done is Err ==> final(self)@ is None && final(self).choosing() == old(self).choosing(),
    {
        if self.chosen.is_none() {
            return Err(());
        }
        self.chosen = None;
        self.choosing = false;
        Ok(())
    }
}

impl Default for Operator {
    fn default() -> (operator: Self)
        ensures
            operator@ is None,
            !operator.choosing(),
    {
        Operator { chosen: None, choosing: false }
    }
}

/// With no configured network in range a round of choosing leads nowhere.
pub proof fn lemma_round_nowhere(
    current: Option<Seq<char>>,
    reachable: Seq<Seq<char>>,
    outcomes: Seq<NativeResult<bool>>,
)
    requires
        reachable.len() == 0,
    ensures
        round(current, reachable, outcomes) == current,
    decreases outcomes.len(),
{
    if outcomes.len() > 0 && !connects(outcomes[0]) {
        lemma_round_nowhere(current, reachable, outcomes.drop_first());
    }
}

} // verus!
