//! Adopted devices.

use vstd::prelude::*;
use crate::candidate::Candidate;
use crate::time::Timestamp;

verus! {

/// A device adopted into the fleet.
#[derive(Debug, PartialEq, Eq)]
pub struct Member {
    /// Name of the device on the network; the key of the registry.
    pub hostname: String,
    /// Firmware version last known to run on the device.
    pub version: String,
    /// When the device was adopted.
    pub adopted_at: Timestamp,
}

/// What a `Member` stands for in contracts.
pub struct MemberView {
    pub hostname: Seq<char>,
    pub version: Seq<char>,
    pub adopted_at: Timestamp,
}

impl View for Member {
    type V = MemberView;

    open spec fn view(&self) -> MemberView {
        MemberView { hostname: self.hostname@, version: self.version@, adopted_at: self.adopted_at }
    }
}

impl Clone for Member {
    fn clone(&self) -> (copy: Self)
        ensures
            copy == *self,
    {
        Member {
            hostname: self.hostname.clone(),
            version: self.version.clone(),
            adopted_at: self.adopted_at,
        }
    }
}

impl Default for Member {
    fn default() -> (member: Self)
        ensures
            member@.hostname.len() == 0,
            member@.version.len() == 0,
            member@.adopted_at == (Timestamp { secs: 0, nanos: 0 }),
    {
        Member {
            hostname: String::new(),
            version: String::new(),
            adopted_at: Timestamp { secs: 0, nanos: 0 },
        }
    }
}

/// The views of `members`, in order.
pub open spec fn member_views(members: Seq<Member>) -> Seq<MemberView> {
    members.map_values(|member: Member| member@)
}

/// The hostnames that the members `members` have.
pub open spec fn known_hosts(members: Seq<MemberView>) -> Set<Seq<char>> {
    Set::new(
        |host: Seq<char>|
            exists|i: int| 0 <= i < members.len() && #[trigger] members[i].hostname == host,
    )
}

/// Tells whether one of `members` has the hostname `host`.
pub fn is_known(members: &Vec<Member>, host: &String) -> (known: bool)
    ensures
        known == known_hosts(member_views(members@)).contains(host@),
{
    let mut i: usize = 0;
    while i < members.len()
        invariant
            i <= members.len(),
            forall|k: int| 0 <= k < i ==> (#[trigger] member_views(members@)[k]).hostname != host@,
        decreases members.len() - i,
    {
        if members[i].hostname == *host {
            assert(member_views(members@)[i as int].hostname == host@);
            return true;
        }
        i = i + 1;
    }
    false
}

/// What a device answers to a status query.
#[derive(Debug, PartialEq, Eq)]
pub struct Status {
    pub hostname: String,
    pub version: String,
}

impl Clone for Status {
    fn clone(&self) -> (copy: Self)
        ensures
            copy == *self,
    {
        Status { hostname: self.hostname.clone(), version: self.version.clone() }
    }
}

impl Default for Status {
    fn default() -> (status: Self)
        ensures
            status.hostname@.len() == 0,
            status.version@.len() == 0,
    {
        Status { hostname: String::new(), version: String::new() }
    }
}

/// A member together with the outcome of its last status query.
#[derive(Debug, PartialEq, Eq)]
pub enum MemberStatus {
    /// The device answered.
    Online(Member),
    /// The device did not answer, or not in a form that could be read.
    Offline(Member),
}

impl Clone for MemberStatus {
    fn clone(&self) -> (copy: Self)
        ensures
            copy == *self,
    {
        match self {
            MemberStatus::Online(member) => MemberStatus::Online(member.clone()),
            MemberStatus::Offline(member) => MemberStatus::Offline(member.clone()),
        }
    }
}

impl MemberStatus {
    /// The member that the status is about.
    pub open spec fn member(&self) -> Member {
        match self {
            MemberStatus::Online(member) => *member,
            MemberStatus::Offline(member) => *member,
        }
    }
}

impl Member {
    /// A member with the given name and version, adopted at the moment
    /// `adopted_at`.
    pub fn new(hostname: &str, version: &str, adopted_at: Timestamp) -> (member: Self)
        ensures
            member@ == (MemberView { hostname: hostname@, version: version@, adopted_at }),
    {
        Member {
            hostname: String::from_str(hostname),
            version: String::from_str(version),
            adopted_at,
        }
    }

    /// The member that adopting `candidate` at the moment `adopted_at` gives.
    pub fn from_candidate(candidate: &Candidate, adopted_at: Timestamp) -> (member: Self)
        ensures
            member@ == (MemberView {
                hostname: candidate@.hostname,
                version: candidate@.version,
                adopted_at,
            }),
    {
        Member::new(candidate.hostname.as_str(), candidate.version.as_str(), adopted_at)
    }

    /// Tells whether `self` and `other` are the same device: members are told
    /// apart by host name alone.
    pub fn same_host(&self, other: &Member) -> (same: bool)
        ensures
            same == (self@.hostname == other@.hostname),
    {
        self.hostname == other.hostname
    }
}

} // verus!
