//! Devices seen on the network during one discovery window.

use vstd::prelude::*;
use crate::member::{is_known, known_hosts, member_views, Member};
use crate::text::{optional_text, strip_suffix, without_suffix};

verus! {

/// Service type that the devices announce.
pub const SERVICE_NAME: &'static str = "_efm._tcp.local.";

/// Length of the discovery window, in seconds.
pub const SERVICE_BROWSE_DURATION_SEC: u64 = 1;

/// Domain suffix that an announced host name carries and a hostname does not.
pub const LOCAL_DOMAIN: &'static str = ".local.";

/// Key of the text record in which a device announces its firmware version.
pub const VERSION_PROPERTY: &'static str = "version";

/// A device seen on the network and not adopted yet.
#[derive(Debug, PartialEq, Eq)]
pub struct Candidate {
    /// Announced host name without the domain suffix.
    pub hostname: String,
    /// Firmware version that the device announces.
    pub version: String,
}

/// What a `Candidate` stands for in contracts.
pub struct CandidateView {
    pub hostname: Seq<char>,
    pub version: Seq<char>,
}

impl View for Candidate {
    type V = CandidateView;

    open spec fn view(&self) -> CandidateView {
        CandidateView { hostname: self.hostname@, version: self.version@ }
    }
}

impl Clone for Candidate {
    fn clone(&self) -> (copy: Self)
        ensures
            copy == *self,
    {
        Candidate { hostname: self.hostname.clone(), version: self.version.clone() }
    }
}

impl Default for Candidate {
    fn default() -> (candidate: Self)
        ensures
            candidate@.hostname.len() == 0,
            candidate@.version.len() == 0,
    {
        Candidate { hostname: String::new(), version: String::new() }
    }
}

/// One resolved service announcement, as far as discovery reads it.
#[derive(Debug, PartialEq, Eq)]
pub struct Announcement {
    /// Host name as announced, domain suffix included.
    pub hostname: String,
    /// Value of the version text record, if the announcement has one.
    pub version: Option<String>,
}

impl Clone for Announcement {
    fn clone(&self) -> (copy: Self)
        ensures
            copy@ == self@,
    {
        Announcement {
            hostname: self.hostname.clone(),
            version: match &self.version {
                Some(version) => Some(version.clone()),
                None => None,
            },
        }
    }
}

/// What an `Announcement` stands for in contracts.
pub struct AnnouncementView {
    pub hostname: Seq<char>,
    pub version: Option<Seq<char>>,
}

impl View for Announcement {
    type V = AnnouncementView;

    open spec fn view(&self) -> AnnouncementView {
        AnnouncementView { hostname: self.hostname@, version: optional_text(self.version) }
    }
}

/// Why a discovery window gave no candidate list.
#[derive(Debug, PartialEq, Eq)]
pub enum DiscoveryError {
    /// The device `hostname` announced itself without a version record.
    MissingVersion { hostname: String },
}

/// The views of `candidates`, in order.
pub open spec fn candidate_views(candidates: Seq<Candidate>) -> Seq<CandidateView> {
    candidates.map_values(|candidate: Candidate| candidate@)
}

/// The views of `announcements`, in order.
pub open spec fn announcement_views(announcements: Seq<Announcement>) -> Seq<AnnouncementView> {
    announcements.map_values(|announcement: Announcement| announcement@)
}

/// The hostname of an announced host name: the name without the local domain.
pub open spec fn hostname_of(announced: Seq<char>) -> Seq<char> {
    without_suffix(announced, LOCAL_DOMAIN@)
}

/// True when some candidate of `list` has the hostname `host`.
pub open spec fn lists_host(list: Seq<CandidateView>, host: Seq<char>) -> bool {
    exists|i: int| 0 <= i < list.len() && #[trigger] list[i].hostname == host
}

/// True when no two candidates of `list` share a hostname.
pub open spec fn distinct_hosts(list: Seq<CandidateView>) -> bool {
    forall|i: int, j: int|
        0 <= i < j < list.len() ==> #[trigger] list[i].hostname != #[trigger] list[j].hostname
}

/// `list` with only the first candidate of each hostname, in the order of
/// `list`.
pub open spec fn first_sightings(list: Seq<CandidateView>) -> Seq<CandidateView>
    decreases list.len(),
{
    if list.len() == 0 {
        list
    } else {
        let earlier = first_sightings(list.drop_last());
        if lists_host(earlier, list.last().hostname) {
            earlier
        } else {
            earlier.push(list.last())
        }
    }
}

/// `list` without the candidates whose hostname is in `known`.
pub open spec fn unknown_to(list: Seq<CandidateView>, known: Set<Seq<char>>) -> Seq<CandidateView> {
    list.filter(|candidate: CandidateView| !known.contains(candidate.hostname))
}

/// True when each of `announcements` has a version record.
pub open spec fn all_versioned(announcements: Seq<AnnouncementView>) -> bool {
    forall|i: int| 0 <= i < announcements.len() ==> (#[trigger] announcements[i]).version is Some
}

/// True when `at` is the position of the first of `announcements` that has no
/// version record.
pub open spec fn first_unversioned(announcements: Seq<AnnouncementView>, at: int) -> bool {
    &&& 0 <= at < announcements.len()
    &&& announcements[at].version is None
    &&& forall|k: int| 0 <= k < at ==> (#[trigger] announcements[k]).version is Some
}

/// The candidate that an announcement with a version record stands for.
pub open spec fn sighting(announcement: AnnouncementView) -> CandidateView {
    CandidateView {
        hostname: hostname_of(announcement.hostname),
        version: match announcement.version {
            Some(version) => version,
            None => Seq::empty(),
        },
    }
}

/// The candidates that `announcements` stand for, one each, in order.
pub open spec fn sightings(announcements: Seq<AnnouncementView>) -> Seq<CandidateView> {
    announcements.map_values(|announcement: AnnouncementView| sighting(announcement))
}

/// What one discovery window yields: each announced device once, in the order
/// of its first announcement, without the devices whose hostname is known.
pub open spec fn discovered(announcements: Seq<AnnouncementView>, known: Set<Seq<char>>) -> Seq<
    CandidateView,
> {
    unknown_to(first_sightings(sightings(announcements)), known)
}

/// The first sightings of a list hold each hostname of the list, and each
/// only once.
pub proof fn lemma_first_sightings(list: Seq<CandidateView>)
    ensures
        distinct_hosts(first_sightings(list)),
        forall|host: Seq<char>| lists_host(first_sightings(list), host) <==> lists_host(list, host),
        forall|i: int|
            #![trigger first_sightings(list)[i]]
            0 <= i < first_sightings(list).len() ==> list.contains(first_sightings(list)[i]),
    decreases list.len(),
{
    let firsts = first_sightings(list);
    if list.len() == 0 {
    } else {
        let front = list.drop_last();
        let earlier = first_sightings(front);
        lemma_first_sightings(front);
        assert forall|host: Seq<char>| lists_host(firsts, host) <==> lists_host(list, host) by {
            if lists_host(list, host) {
                let i = choose|i: int| 0 <= i < list.len() && #[trigger] list[i].hostname == host;
                if i < front.len() {
                    assert(front[i].hostname == host);
                    assert(lists_host(front, host));
                    assert(lists_host(earlier, host));
                    let k = choose|k: int|
                        0 <= k < earlier.len() && #[trigger] earlier[k].hostname == host;
                    assert(firsts[k].hostname == host);
                } else if lists_host(earlier, host) {
                } else {
                    assert(firsts[firsts.len() - 1].hostname == host);
                }
            }
            if lists_host(firsts, host) {
                let k = choose|k: int| 0 <= k < firsts.len() && #[trigger] firsts[k].hostname == host;
                if k < earlier.len() {
                    assert(earlier[k].hostname == host);
                    assert(lists_host(earlier, host));
                    assert(lists_host(front, host));
                    let i = choose|i: int| 0 <= i < front.len() && #[trigger] front[i].hostname == host;
                    assert(list[i].hostname == host);
                } else {
                    assert(list[list.len() - 1].hostname == host);
                }
            }
        }
        assert forall|i: int| 0 <= i < firsts.len() implies list.contains(#[trigger] firsts[i]) by {
            if i < earlier.len() {
                assert(front.contains(earlier[i]));
                let k = choose|k: int| 0 <= k < front.len() && front[k] == earlier[i];
                assert(list[k] == firsts[i]);
            } else {
                assert(list[list.len() - 1] == firsts[i]);
            }
        }
        assert forall|i: int, j: int| 0 <= i < j < firsts.len() implies #[trigger] firsts[i].hostname
            != #[trigger] firsts[j].hostname by {
            if j < earlier.len() {
                assert(earlier[i].hostname != earlier[j].hostname);
            } else {
                assert(earlier[i].hostname == firsts[i].hostname);
            }
        }
    }
}

/// Dropping the known candidates keeps hostnames apart and leaves no known
/// hostname behind.
pub proof fn lemma_unknown_to(list: Seq<CandidateView>, known: Set<Seq<char>>)
    ensures
        forall|i: int|
            #![trigger unknown_to(list, known)[i]]
            0 <= i < unknown_to(list, known).len() ==> !known.contains(
                unknown_to(list, known)[i].hostname,
            ) && list.contains(unknown_to(list, known)[i]),
        distinct_hosts(list) ==> distinct_hosts(unknown_to(list, known)),
        forall|host: Seq<char>|
            lists_host(unknown_to(list, known), host) <==> lists_host(list, host) && !known.contains(
                host,
            ),
    decreases list.len(),
{
    reveal(Seq::filter);
    let kept = unknown_to(list, known);
    if list.len() == 0 {
    } else {
        let front = list.drop_last();
        let earlier = unknown_to(front, known);
        lemma_unknown_to(front, known);
        assert forall|i: int| 0 <= i < kept.len() implies !known.contains(
            (#[trigger] kept[i]).hostname,
        ) && list.contains(kept[i]) by {
            if i < earlier.len() {
                assert(front.contains(earlier[i]));
                let k = choose|k: int| 0 <= k < front.len() && front[k] == earlier[i];
                assert(list[k] == kept[i]);
            } else {
                assert(list[list.len() - 1] == kept[i]);
            }
        }
        assert forall|host: Seq<char>|
            lists_host(kept, host) <==> lists_host(list, host) && !known.contains(host) by {
            if lists_host(kept, host) {
                let k = choose|k: int| 0 <= k < kept.len() && #[trigger] kept[k].hostname == host;
                if k < earlier.len() {
                    assert(earlier[k].hostname == host);
                    assert(lists_host(earlier, host));
                    assert(lists_host(front, host));
                    let i = choose|i: int| 0 <= i < front.len() && #[trigger] front[i].hostname == host;
                    assert(list[i].hostname == host);
                } else {
                    assert(list[list.len() - 1].hostname == host);
                }
            }
            if lists_host(list, host) && !known.contains(host) {
                let i = choose|i: int| 0 <= i < list.len() && #[trigger] list[i].hostname == host;
                if i < front.len() {
                    assert(front[i].hostname == host);
                    assert(lists_host(front, host));
                    assert(lists_host(earlier, host));
                    let k = choose|k: int|
                        0 <= k < earlier.len() && #[trigger] earlier[k].hostname == host;
                    assert(kept[k].hostname == host);
                } else {
                    assert(kept[kept.len() - 1].hostname == host);
                }
            }
        }
        if distinct_hosts(list) {
            assert forall|i: int, j: int| 0 <= i < j < front.len() implies #[trigger] front[i].hostname
                != #[trigger] front[j].hostname by {
                assert(list[i].hostname != list[j].hostname);
            }
            assert forall|i: int, j: int| 0 <= i < j < kept.len() implies #[trigger] kept[i].hostname
                != #[trigger] kept[j].hostname by {
                if j < earlier.len() {
                    assert(earlier[i].hostname != earlier[j].hostname);
                } else {
                    assert(lists_host(earlier, kept[i].hostname)) by {
                        assert(earlier[i].hostname == kept[i].hostname);
                    }
                    let k = choose|k: int|
                        0 <= k < front.len() && #[trigger] front[k].hostname == kept[i].hostname;
                    assert(list[k].hostname != list[list.len() - 1].hostname);
                }
            }
        }
    }
}

/// Whatever was announced and whichever hostnames are known, a discovery
/// window names no hostname twice and no known hostname at all.
pub proof fn lemma_discovered_fresh(announcements: Seq<AnnouncementView>, known: Set<Seq<char>>)
    ensures
        distinct_hosts(discovered(announcements, known)),
        forall|i: int|
            #![trigger discovered(announcements, known)[i]]
            0 <= i < discovered(announcements, known).len() ==> !known.contains(
                discovered(announcements, known)[i].hostname,
            ),
{
    lemma_first_sightings(sightings(announcements));
    lemma_unknown_to(first_sightings(sightings(announcements)), known);
}

/// Tells whether some candidate of `list` has the hostname `host`.
pub fn has_host(list: &Vec<Candidate>, host: &String) -> (found: bool)
    ensures
        found == lists_host(candidate_views(list@), host@),
{
    let mut i: usize = 0;
    while i < list.len()
        invariant
            i <= list.len(),
            forall|k: int| 0 <= k < i ==> (#[trigger] candidate_views(list@)[k]).hostname != host@,
        decreases list.len() - i,
    {
        if list[i].hostname == *host {
            assert(candidate_views(list@)[i as int].hostname == host@);
            return true;
        }
        i = i + 1;
    }
    false
}

/// Turns each announcement into the candidate it stands for.  Fails on the
/// first announcement that has no version record.
pub fn resolve(announcements: &Vec<Announcement>) -> (resolved: Result<
    Vec<Candidate>,
    DiscoveryError,
>)
    ensures
        match resolved {
            Ok(list) => {
                &&& all_versioned(announcement_views(announcements@))
                &&& candidate_views(list@) == sightings(announcement_views(announcements@))
            },
            Err(DiscoveryError::MissingVersion { hostname }) => exists|at: int|
                #![trigger announcement_views(announcements@)[at]]
                first_unversioned(announcement_views(announcements@), at) && hostname@
                    == hostname_of(announcement_views(announcements@)[at].hostname),
        },
{
    let ghost heard = announcement_views(announcements@);
    let mut list: Vec<Candidate> = Vec::new();
    let mut i: usize = 0;
    while i < announcements.len()
        invariant
            i <= announcements.len(),
            heard == announcement_views(announcements@),
            forall|k: int| 0 <= k < i ==> (#[trigger] heard[k]).version is Some,
            candidate_views(list@) == sightings(heard.take(i as int)),
        decreases announcements.len() - i,
    {
        let announcement = &announcements[i];
        assert(heard[i as int] == announcement@);
        let hostname = strip_suffix(announcement.hostname.as_str(), LOCAL_DOMAIN);
        match &announcement.version {
            None => {
                assert(first_unversioned(heard, i as int));
                return Err(DiscoveryError::MissingVersion { hostname });
            },
            Some(version) => {
                let candidate = Candidate { hostname, version: version.clone() };
                assert(candidate@ == sighting(heard[i as int]));
                assert(candidate_views(list@.push(candidate)) =~= candidate_views(list@).push(
                    candidate@,
                ));
                assert(sightings(heard.take(i + 1)) =~= sightings(heard.take(i as int)).push(
                    sighting(heard[i as int]),
                ));
                list.push(candidate);
            },
        }
        i = i + 1;
    }
    assert(heard.take(announcements.len() as int) =~= heard);
    Ok(list)
}

/// Keeps the first candidate of each hostname and drops the later ones.
pub fn first_seen(candidates: &Vec<Candidate>) -> (firsts: Vec<Candidate>)
    ensures
        candidate_views(firsts@) == first_sightings(candidate_views(candidates@)),
        distinct_hosts(candidate_views(firsts@)),
{
    let ghost all = candidate_views(candidates@);
    let mut firsts: Vec<Candidate> = Vec::new();
    let mut i: usize = 0;
    while i < candidates.len()
        invariant
            i <= candidates.len(),
            all == candidate_views(candidates@),
            candidate_views(firsts@) == first_sightings(all.take(i as int)),
        decreases candidates.len() - i,
    {
        assert(all.take(i + 1).drop_last() =~= all.take(i as int));
        assert(all.take(i + 1).last() == candidates@[i as int]@);
        if !has_host(&firsts, &candidates[i].hostname) {
            let candidate = candidates[i].clone();
            assert(candidate_views(firsts@.push(candidate)) =~= candidate_views(firsts@).push(
                candidate@,
            ));
            firsts.push(candidate);
        }
        i = i + 1;
    }
    proof {
        assert(all.take(candidates.len() as int) =~= all);
        lemma_first_sightings(all);
    }
    firsts
}

/// Drops the candidates whose hostname one of `members` has.
pub fn drop_known(candidates: &Vec<Candidate>, members: &Vec<Member>) -> (fresh: Vec<Candidate>)
    ensures
        candidate_views(fresh@) == unknown_to(
            candidate_views(candidates@),
            known_hosts(member_views(members@)),
        ),
{
    let ghost all = candidate_views(candidates@);
    let ghost known = known_hosts(member_views(members@));
    let mut fresh: Vec<Candidate> = Vec::new();
    let mut i: usize = 0;
    proof {
        reveal(Seq::filter);
    }
    while i < candidates.len()
        invariant
            i <= candidates.len(),
            all == candidate_views(candidates@),
            known == known_hosts(member_views(members@)),
            candidate_views(fresh@) == unknown_to(all.take(i as int), known),
        decreases candidates.len() - i,
    {
        proof {
            reveal(Seq::filter);
        }
        assert(all.take(i + 1).drop_last() =~= all.take(i as int));
        assert(all.take(i + 1).last() == candidates@[i as int]@);
        if !is_known(members, &candidates[i].hostname) {
            let candidate = candidates[i].clone();
            assert(candidate_views(fresh@.push(candidate)) =~= candidate_views(fresh@).push(
                candidate@,
            ));
            fresh.push(candidate);
        }
        i = i + 1;
    }
    assert(all.take(candidates.len() as int) =~= all);
    fresh
}

/// The candidates of one discovery window: each announced device once, in
/// the order in which it was first resolved, unless one of `members` already
/// has its hostname.  No announcement is an empty list, not an error; an
/// announcement without a version record is one.
pub fn get_candidates(announcements: &Vec<Announcement>, members: &Vec<Member>) -> (found: Result<
    Vec<Candidate>,
    DiscoveryError,
>)
    ensures
        match found {
            Ok(list) => {
                &&& all_versioned(announcement_views(announcements@))
                &&& candidate_views(list@) == discovered(
                    announcement_views(announcements@),
                    known_hosts(member_views(members@)),
                )
                &&& distinct_hosts(candidate_views(list@))
                &&& forall|i: int|
                    #![trigger candidate_views(list@)[i]]
                    0 <= i < list.len() ==> !known_hosts(member_views(members@)).contains(
                        candidate_views(list@)[i].hostname,
                    )
            },
            Err(DiscoveryError::MissingVersion { hostname }) => exists|at: int|
                #![trigger announcement_views(announcements@)[at]]
                first_unversioned(announcement_views(announcements@), at) && hostname@
                    == hostname_of(announcement_views(announcements@)[at].hostname),
        },
{
    match resolve(announcements) {
        Err(error) => Err(error),
        Ok(resolved) => {
            let firsts = first_seen(&resolved);
            let fresh = drop_known(&firsts, members);
            proof {
                lemma_discovered_fresh(
                    announcement_views(announcements@),
                    known_hosts(member_views(members@)),
                );
            }
            Ok(fresh)
        },
    }
}

/// What the network reports during a discovery window.
#[derive(Debug, PartialEq, Eq)]
pub enum DiscoveryEvent {
    /// A device was resolved: its announcement is complete.
    Resolved(Announcement),
    /// Anything else: a search that started or stopped, a service that was
    /// found but not resolved yet, or one that went away.
    Other,
}

/// Gathers the announcements resolved during one discovery window.
pub struct Collector {
    resolved: Vec<Announcement>,
}

impl View for Collector {
    type V = Seq<AnnouncementView>;

    closed spec fn view(&self) -> Seq<AnnouncementView> {
        announcement_views(self.resolved@)
    }
}

impl Collector {
    /// A collector that has seen nothing yet.
    pub fn new() -> (collector: Self)
        ensures
            collector@ == Seq::<AnnouncementView>::empty(),
    {
        let collector = Collector { resolved: Vec::new() };
        assert(collector@ =~= Seq::<AnnouncementView>::empty());
        collector
    }

    /// Takes note of one event: a resolved announcement is kept behind those
    /// kept before, any other event leaves the collector as it was.
    pub fn observe(&mut self, event: DiscoveryEvent)
        ensures
            final(self)@ == match event {
                DiscoveryEvent::Resolved(announcement) => old(self)@.push(announcement@),
                DiscoveryEvent::Other => old(self)@,
            },
    {
        match event {
            DiscoveryEvent::Resolved(announcement) => {
                assert(announcement_views(self.resolved@.push(announcement)) =~= announcement_views(
                    self.resolved@,
                ).push(announcement@));
                self.resolved.push(announcement);
            },
            DiscoveryEvent::Other => {},
        }
    }

    /// The announcements kept so far, in the order in which they came.
    pub fn announcements(&self) -> (kept: &Vec<Announcement>)
        ensures
            announcement_views(kept@) == self@,
    {
        &self.resolved
    }

    /// The candidates that the window has yielded so far, see
    /// `get_candidates`.
    pub fn candidates(&self, members: &Vec<Member>) -> (found: Result<Vec<Candidate>, DiscoveryError>)
        ensures
            match found {
                Ok(list) => {
                    &&& all_versioned(self@)
                    &&& candidate_views(list@) == discovered(
                        self@,
                        known_hosts(member_views(members@)),
                    )
                },
                Err(DiscoveryError::MissingVersion { hostname }) => exists|at: int|
                    #![trigger self@[at]]
                    first_unversioned(self@, at) && hostname@ == hostname_of(self@[at].hostname),
            },
    {
        let found = get_candidates(&self.resolved, members);
        proof {
            if let Err(DiscoveryError::MissingVersion { hostname }) = &found {
                let heard = announcement_views(self.resolved@);
                let at = choose|at: int|
                    #![trigger heard[at]]
                    first_unversioned(heard, at) && hostname@ == hostname_of(heard[at].hostname);
                assert(first_unversioned(self@, at) && hostname@ == hostname_of(self@[at].hostname));
            }
        }
        found
    }
}

} // verus!
