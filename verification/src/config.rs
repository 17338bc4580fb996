//! The registry of adopted devices.

use vstd::prelude::*;
use crate::candidate::{
    candidate_views, discovered, first_seen, first_sightings, lemma_discovered_fresh,
    lemma_first_sightings, AnnouncementView, Candidate, CandidateView,
};
use crate::member::{is_known, known_hosts, member_views, Member, MemberView};
use crate::text::optional_text;
use crate::time::Timestamp;

verus! {

/// The adopted devices, in the order of their adoption.
#[derive(Debug, PartialEq, Eq)]
pub struct Config {
    pub members: Vec<Member>,
}

impl View for Config {
    type V = Seq<MemberView>;

    open spec fn view(&self) -> Seq<MemberView> {
        member_views(self.members@)
    }
}

/// What stands at the path of the registry file.
#[derive(Debug, PartialEq, Eq)]
pub enum Stored {
    /// No file.
    Missing,
    /// A file that does not read as a registry.
    Malformed,
    /// A file with these members, in the order in which it lists them.
    Members(Vec<Member>),
}

/// Why the registry could not be loaded or changed.
#[derive(Debug, PartialEq, Eq)]
pub enum ConfigError {
    /// The registry file does not read as a registry.
    Malformed,
    /// No member of the registry has the hostname `hostname`.
    UnknownMember { hostname: String },
}

/// True when no two members of `registry` share a hostname.
pub open spec fn unique_hosts(registry: Seq<MemberView>) -> bool {
    forall|i: int, j: int|
        0 <= i < j < registry.len() ==> #[trigger] registry[i].hostname
            != #[trigger] registry[j].hostname
}

/// `registry` without the members whose hostname is in `names`.
pub open spec fn forgotten(registry: Seq<MemberView>, names: Set<Seq<char>>) -> Seq<MemberView> {
    registry.filter(|member: MemberView| !names.contains(member.hostname))
}

/// The members of `registry` that a status listing is about: all of them
/// when no hostname is asked for, else those with the hostname asked for.
pub open spec fn selected(registry: Seq<MemberView>, wanted: Option<Seq<char>>) -> Seq<MemberView> {
    registry.filter(
        |member: MemberView|
            match wanted {
                Some(host) => member.hostname == host,
                None => true,
            },
    )
}

/// True when `at` is the position of the first member of `registry` with the
/// hostname `host`.
pub open spec fn first_with_host(registry: Seq<MemberView>, host: Seq<char>, at: int) -> bool {
    &&& 0 <= at < registry.len()
    &&& registry[at].hostname == host
    &&& forall|k: int| 0 <= k < at ==> (#[trigger] registry[k]).hostname != host
}

/// `member` with the version `version` in place of its own.
pub open spec fn with_version(member: MemberView, version: Seq<char>) -> MemberView {
    MemberView { hostname: member.hostname, version, adopted_at: member.adopted_at }
}

/// The member that stands for `candidate` when it is adopted at `at`.
pub open spec fn enrolled(candidate: CandidateView, at: Timestamp) -> MemberView {
    MemberView { hostname: candidate.hostname, version: candidate.version, adopted_at: at }
}

/// The members that stand for `candidates` when all are adopted at `at`.
pub open spec fn enrolled_all(candidates: Seq<CandidateView>, at: Timestamp) -> Seq<MemberView> {
    candidates.map_values(|candidate: CandidateView| enrolled(candidate, at))
}

/// True when the registry has no member with the hostname of any of
/// `candidates`.
pub open spec fn strangers(registry: Seq<MemberView>, candidates: Seq<CandidateView>) -> bool {
    forall|i: int|
        0 <= i < candidates.len() ==> !known_hosts(registry).contains(
            (#[trigger] candidates[i]).hostname,
        )
}

/// True when `after` is `before` with one new member behind it for each first
/// sighting among `candidates`, in their order, each with the hostname and the
/// version of its candidate.
pub open spec fn adopts(
    before: Seq<MemberView>,
    after: Seq<MemberView>,
    candidates: Seq<CandidateView>,
) -> bool {
    let firsts = first_sightings(candidates);
    &&& after.len() == before.len() + firsts.len()
    &&& after.take(before.len() as int) == before
    &&& forall|i: int|
        #![trigger firsts[i]]
        0 <= i < firsts.len() ==> after[before.len() + i].hostname == firsts[i].hostname
            && after[before.len() + i].version == firsts[i].version
}

/// Forgetting the same hostnames a second time changes nothing.
pub proof fn lemma_forget_idempotent(registry: Seq<MemberView>, names: Set<Seq<char>>)
    ensures
        forgotten(forgotten(registry, names), names) == forgotten(registry, names),
    decreases registry.len(),
{
    reveal(Seq::filter);
    if registry.len() == 0 {
    } else {
        let front = registry.drop_last();
        lemma_forget_idempotent(front, names);
        let earlier = forgotten(front, names);
        if !names.contains(registry.last().hostname) {
            assert(earlier.push(registry.last()).drop_last() =~= earlier);
        }
    }
}

/// What forgetting leaves: no member with a forgotten hostname, every member
/// with another hostname, each as it was and in the old order; a registry
/// without hostnames in `names` stays as it is, and hostnames stay unique.
pub proof fn lemma_forgotten(registry: Seq<MemberView>, names: Set<Seq<char>>)
    ensures
        forgotten(registry, names).len() <= registry.len(),
        forall|i: int|
            #![trigger forgotten(registry, names)[i]]
            0 <= i < forgotten(registry, names).len() ==> !names.contains(
                forgotten(registry, names)[i].hostname,
            ) && registry.contains(forgotten(registry, names)[i]),
        forall|i: int|
            #![trigger registry[i]]
            0 <= i < registry.len() && !names.contains(registry[i].hostname) ==> forgotten(
                registry,
                names,
            ).contains(registry[i]),
        (forall|i: int| 0 <= i < registry.len() ==> !names.contains((#[trigger] registry[i]).hostname))
            ==> forgotten(registry, names) == registry,
        unique_hosts(registry) ==> unique_hosts(forgotten(registry, names)),
    decreases registry.len(),
{
    reveal(Seq::filter);
    let kept = forgotten(registry, names);
    if registry.len() == 0 {
    } else {
        let front = registry.drop_last();
        let earlier = forgotten(front, names);
        lemma_forgotten(front, names);
        assert forall|i: int| 0 <= i < kept.len() implies !names.contains(
            (#[trigger] kept[i]).hostname,
        ) && registry.contains(kept[i]) by {
            if i < earlier.len() {
                assert(front.contains(earlier[i]));
                let k = choose|k: int| 0 <= k < front.len() && front[k] == earlier[i];
                assert(registry[k] == kept[i]);
            } else {
                assert(registry[registry.len() - 1] == kept[i]);
            }
        }
        assert forall|i: int|
            0 <= i < registry.len() && !names.contains(
                (#[trigger] registry[i]).hostname,
            ) implies kept.contains(registry[i]) by {
            if i < front.len() {
                assert(front[i] == registry[i]);
                assert(earlier.contains(front[i]));
                let k = choose|k: int| 0 <= k < earlier.len() && earlier[k] == front[i];
                assert(kept[k] == registry[i]);
            } else {
                assert(kept[kept.len() - 1] == registry[i]);
            }
        }
        if forall|i: int| 0 <= i < registry.len() ==> !names.contains((#[trigger] registry[i]).hostname) {
            assert forall|i: int| 0 <= i < front.len() implies !names.contains(
                (#[trigger] front[i]).hostname,
            ) by {
                assert(front[i] == registry[i]);
            }
            assert(!names.contains(registry[registry.len() - 1].hostname));
            assert(kept =~= registry);
        }
        if unique_hosts(registry) {
            assert forall|i: int, j: int| 0 <= i < j < front.len() implies #[trigger] front[i].hostname
                != #[trigger] front[j].hostname by {
                assert(registry[i].hostname != registry[j].hostname);
            }
            assert forall|i: int, j: int| 0 <= i < j < kept.len() implies #[trigger] kept[i].hostname
                != #[trigger] kept[j].hostname by {
                if j < earlier.len() {
                    assert(earlier[i].hostname != earlier[j].hostname);
                } else {
                    assert(front.contains(earlier[i]));
                    let k = choose|k: int| 0 <= k < front.len() && front[k] == earlier[i];
                    assert(registry[k].hostname != registry[registry.len() - 1].hostname);
                }
            }
        }
    }
}

/// A new version for the first member with a hostname touches that member's
/// version and nothing else; where hostnames are unique they stay so, and no
/// other member has the hostname.
pub proof fn lemma_update_touches_one(
    registry: Seq<MemberView>,
    host: Seq<char>,
    version: Seq<char>,
    at: int,
)
    requires
        first_with_host(registry, host, at),
    ensures
        registry.update(at, with_version(registry[at], version)).len() == registry.len(),
        registry.update(at, with_version(registry[at], version))[at].version == version,
        registry.update(at, with_version(registry[at], version))[at].hostname == host,
        registry.update(at, with_version(registry[at], version))[at].adopted_at
            == registry[at].adopted_at,
        forall|k: int|
            #![trigger registry[k]]
            0 <= k < registry.len() && k != at ==> registry.update(
                at,
                with_version(registry[at], version),
            )[k] == registry[k],
        unique_hosts(registry) ==> unique_hosts(
            registry.update(at, with_version(registry[at], version)),
        ) && forall|k: int|
            #![trigger registry[k]]
            0 <= k < registry.len() && k != at ==> registry[k].hostname != host,
{
    let after = registry.update(at, with_version(registry[at], version));
    if unique_hosts(registry) {
        assert forall|i: int, j: int| 0 <= i < j < after.len() implies #[trigger] after[i].hostname
            != #[trigger] after[j].hostname by {
            assert(registry[i].hostname != registry[j].hostname);
        }
        assert forall|k: int| 0 <= k < registry.len() && k != at implies (#[trigger] registry[k]).hostname
            != host by {
            if k < at {
                assert(registry[k].hostname != registry[at].hostname);
            } else {
                assert(registry[at].hostname != registry[k].hostname);
            }
        }
    }
}

/// The first member with a hostname is the only first one: two positions that
/// both qualify are the same.
pub proof fn lemma_first_with_host_unique(registry: Seq<MemberView>, host: Seq<char>, a: int, b: int)
    requires
        first_with_host(registry, host, a),
        first_with_host(registry, host, b),
    ensures
        a == b,
{
    if a < b {
        assert(registry[a].hostname != host);
    } else if b < a {
        assert(registry[b].hostname != host);
    }
}

/// Adopting candidates of which the registry knows none keeps the hostnames
/// of the registry unique.
pub proof fn lemma_adopts_unique(
    before: Seq<MemberView>,
    after: Seq<MemberView>,
    candidates: Seq<CandidateView>,
)
    requires
        adopts(before, after, candidates),
        unique_hosts(before),
        strangers(before, candidates),
    ensures
        unique_hosts(after),
{
    let firsts = first_sightings(candidates);
    lemma_first_sightings(candidates);
    assert forall|i: int, j: int| 0 <= i < j < after.len() implies #[trigger] after[i].hostname
        != #[trigger] after[j].hostname by {
        let n = before.len() as int;
        if j < n {
            assert(after.take(n)[i] == after[i]);
            assert(after.take(n)[j] == after[j]);
            assert(before[i].hostname != before[j].hostname);
        } else if i < n {
            assert(after.take(n)[i] == after[i]);
            let late = firsts[j - n];
            assert(after[n + (j - n)].hostname == late.hostname);
            assert(candidates.contains(late));
            let k = choose|k: int| 0 <= k < candidates.len() && candidates[k] == late;
            assert(!known_hosts(before).contains(candidates[k].hostname));
            assert(before[i].hostname == after[i].hostname);
        } else {
            let early = firsts[i - n];
            let late = firsts[j - n];
            assert(after[n + (i - n)].hostname == early.hostname);
            assert(after[n + (j - n)].hostname == late.hostname);
            assert(firsts[i - n].hostname != firsts[j - n].hostname);
        }
    }
}

/// A registry with unique hostnames keeps them unique when it adopts what a
/// discovery window yielded against its own members.
pub proof fn lemma_adopt_discovered_unique(
    before: Seq<MemberView>,
    after: Seq<MemberView>,
    announcements: Seq<AnnouncementView>,
)
    requires
        unique_hosts(before),
        adopts(before, after, discovered(announcements, known_hosts(before))),
    ensures
        unique_hosts(after),
{
    lemma_discovered_fresh(announcements, known_hosts(before));
    lemma_adopts_unique(before, after, discovered(announcements, known_hosts(before)));
}

impl Clone for Config {
    fn clone(&self) -> (copy: Self)
        ensures
            copy.members@ == self.members@,
            copy@ == self@,
    {
        let mut members: Vec<Member> = Vec::new();
        let mut i: usize = 0;
        while i < self.members.len()
            invariant
                i <= self.members.len(),
                members@ == self.members@.take(i as int),
            decreases self.members.len() - i,
        {
            members.push(self.members[i].clone());
            i = i + 1;
        }
        assert(self.members@.take(self.members.len() as int) =~= self.members@);
        Config { members }
    }
}

impl Default for Config {
    fn default() -> (config: Self)
        ensures
            config.members@ == Seq::<Member>::empty(),
            config@ == Seq::<MemberView>::empty(),
    {
        Config::new()
    }
}

impl Config {
    /// A registry without members: what a missing registry file stands for.
    pub fn new() -> (config: Self)
        ensures
            config.members@ == Seq::<Member>::empty(),
            config@ == Seq::<MemberView>::empty(),
    {
        let config = Config { members: Vec::new() };
        assert(config@ =~= Seq::<MemberView>::empty());
        config
    }

    /// The registry that stands at the registry's path: an empty one where
    /// there is no file, the listed members in their order where there is
    /// one, and an error where the file cannot be read as a registry.
    /// Members that share a hostname are taken as they are.
    pub fn load(stored: Stored) -> (loaded: Result<Self, ConfigError>)
        ensures
            match stored {
                Stored::Missing => loaded matches Ok(config) && config.members@
                    == Seq::<Member>::empty(),
                Stored::Malformed => loaded == Err::<Self, ConfigError>(ConfigError::Malformed),
                Stored::Members(members) => loaded == Ok::<Self, ConfigError>(Config { members }),
            },
    {
        match stored {
            Stored::Missing => Ok(Config::new()),
            Stored::Malformed => Err(ConfigError::Malformed),
            Stored::Members(members) => Ok(Config { members }),
        }
    }

    /// What is to be written to the registry's path: every member, in the
    /// order of the registry.  Loading it gives this registry again.
    pub fn save(&self) -> (stored: Stored)
        ensures
            stored matches Stored::Members(members) && members@ == self.members@,
    {
        let copy = self.clone();
        Stored::Members(copy.members)
    }

    /// The members that a status listing is about, in the order of the
    /// registry: all of them when `wanted` is absent, else those with the
    /// hostname `wanted`.
    pub fn select(&self, wanted: &Option<String>) -> (chosen: Vec<Member>)
        ensures
            member_views(chosen@) == selected(self@, optional_text(*wanted)),
    {
        let ghost asked = optional_text(*wanted);
        let ghost all = self@;
        let mut chosen: Vec<Member> = Vec::new();
        let mut i: usize = 0;
        proof {
            reveal(Seq::filter);
        }
        while i < self.members.len()
            invariant
                i <= self.members.len(),
                all == self@,
                asked == optional_text(*wanted),
                member_views(chosen@) == selected(all.take(i as int), asked),
            decreases self.members.len() - i,
        {
            proof {
                reveal(Seq::filter);
            }
            assert(all.take(i + 1).drop_last() =~= all.take(i as int));
            assert(all.take(i + 1).last() == self.members@[i as int]@);
            let wanted_here = match wanted {
                Some(host) => self.members[i].hostname == *host,
                None => true,
            };
            if wanted_here {
                let member = self.members[i].clone();
                assert(member_views(chosen@.push(member)) =~= member_views(chosen@).push(member@));
                chosen.push(member);
            }
            i = i + 1;
        }
        assert(all.take(self.members.len() as int) =~= all);
        chosen
    }

    /// Tells whether the registry has no member.
    pub fn is_empty(&self) -> (empty: bool)
        ensures
            empty == (self@.len() == 0),
    {
        self.members.len() == 0
    }

    /// Tells whether a member of the registry has the hostname `host`.
    pub fn has_member(&self, host: &String) -> (known: bool)
        ensures
            known == known_hosts(self@).contains(host@),
    {
        is_known(&self.members, host)
    }

    /// Adopts `candidates` at the moment `at`: puts one member behind the
    /// members of the registry for each first sighting among them.  Later
    /// candidates with a hostname seen before in the list are passed over;
    /// the members that the registry has are not looked at.
    pub fn adopt(&mut self, candidates: &Vec<Candidate>, at: Timestamp)
        ensures
            final(self)@ == old(self)@ + enrolled_all(
                first_sightings(candidate_views(candidates@)),
                at,
            ),
            adopts(old(self)@, final(self)@, candidate_views(candidates@)),
            unique_hosts(old(self)@) && strangers(old(self)@, candidate_views(candidates@))
                ==> unique_hosts(final(self)@),
    {
        let firsts = first_seen(candidates);
        let ghost added = candidate_views(firsts@);
        let ghost before = self@;
        let mut i: usize = 0;
        while i < firsts.len()
            invariant
                i <= firsts.len(),
                added == candidate_views(firsts@),
                self@ == before + enrolled_all(added.take(i as int), at),
            decreases firsts.len() - i,
        {
            let member = Member::from_candidate(&firsts[i], at);
            assert(member@ == enrolled(added[i as int], at));
            assert(member_views(self.members@.push(member)) =~= self@.push(member@));
            assert(enrolled_all(added.take(i + 1), at) =~= enrolled_all(added.take(i as int), at).push(
                member@,
            ));
            assert(self@.push(member@) =~= before + enrolled_all(added.take(i + 1), at));
            self.members.push(member);
            i = i + 1;
        }
        assert(added.take(firsts.len() as int) =~= added);
        assert(self@.take(before.len() as int) =~= before);
        proof {
            if unique_hosts(before) && strangers(before, candidate_views(candidates@)) {
                lemma_adopts_unique(before, self@, candidate_views(candidates@));
            }
        }
    }

    /// Forgets every member whose hostname one of `members_to_remove` has.
    /// A hostname that the registry does not know is passed over.
    pub fn forget(&mut self, members_to_remove: &Vec<Member>)
        ensures
            final(self)@ == forgotten(old(self)@, known_hosts(member_views(members_to_remove@))),
            unique_hosts(old(self)@) ==> unique_hosts(final(self)@),
    {
        let ghost before = self@;
        let ghost names = known_hosts(member_views(members_to_remove@));
        let mut kept: Vec<Member> = Vec::new();
        let mut i: usize = 0;
        proof {
            reveal(Seq::filter);
        }
        while i < self.members.len()
            invariant
                i <= self.members.len(),
                before == self@,
                names == known_hosts(member_views(members_to_remove@)),
                member_views(kept@) == forgotten(before.take(i as int), names),
            decreases self.members.len() - i,
        {
            proof {
                reveal(Seq::filter);
            }
            assert(before.take(i + 1).drop_last() =~= before.take(i as int));
            assert(before.take(i + 1).last() == self.members@[i as int]@);
            if !is_known(members_to_remove, &self.members[i].hostname) {
                let member = self.members[i].clone();
                assert(member_views(kept@.push(member)) =~= member_views(kept@).push(member@));
                kept.push(member);
            }
            i = i + 1;
        }
        assert(before.take(self.members.len() as int) =~= before);
        proof {
            lemma_forgotten(before, names);
        }
        self.members = kept;
    }

    /// Position of the first member with the hostname `host`, if there is one.
    pub fn position(&self, host: &String) -> (found: Option<usize>)
        ensures
            match found {
                Some(at) => first_with_host(self@, host@, at as int),
                None => !known_hosts(self@).contains(host@),
            },
    {
        let mut i: usize = 0;
        while i < self.members.len()
            invariant
                i <= self.members.len(),
                forall|k: int| 0 <= k < i ==> (#[trigger] self@[k]).hostname != host@,
            decreases self.members.len() - i,
        {
            if self.members[i].hostname == *host {
                assert(self@[i as int].hostname == host@);
                return Some(i);
            }
            i = i + 1;
        }
        None
    }

    /// Records that the device of `member_to_update` now runs `version`: the
    /// first member with its hostname gets the version, and nothing else
    /// changes.  A hostname that the registry does not know is an error and
    /// leaves the registry as it was.
    pub fn update(&mut self, member_to_update: Member, version: String) -> (done: Result<
        (),
        ConfigError,
    >)
        ensures
            match done {
                Ok(()) => exists|at: int|
                    #![trigger old(self)@[at]]
                    first_with_host(old(self)@, member_to_update@.hostname, at) && final(self)@
                        == old(self)@.update(at, with_version(old(self)@[at], version@)),
                Err(ConfigError::UnknownMember { hostname }) => {
                    &&& !known_hosts(old(self)@).contains(member_to_update@.hostname)
                    &&& hostname@ == member_to_update@.hostname
                    &&& final(self)@ == old(self)@
                },
                Err(ConfigError::Malformed) => false,
            },
            final(self)@.len() == old(self)@.len(),
            unique_hosts(old(self)@) ==> unique_hosts(final(self)@),
    {
        match self.position(&member_to_update.hostname) {
            None => Err(ConfigError::UnknownMember { hostname: member_to_update.hostname }),
            Some(at) => {
                let ghost before = self@;
                let renewed = Member {
                    hostname: self.members[at].hostname.clone(),
                    version,
                    adopted_at: self.members[at].adopted_at,
                };
                assert(renewed@ == with_version(before[at as int], version@));
                self.members.set(at, renewed);
                assert(self@ =~= before.update(at as int, with_version(before[at as int], version@)));
                proof {
                    lemma_update_touches_one(
                        before,
                        member_to_update@.hostname,
                        version@,
                        at as int,
                    );
                }
                Ok(())
            },
        }
    }
}

} // verus!
