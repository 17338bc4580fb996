//! What a listing shows of the fleet: the cells of its header and rows.
//! Drawing the table is the caller's part.

use vstd::prelude::*;
use crate::candidate::{candidate_views, Candidate, CandidateView};
use crate::config::Config;
use crate::member::{member_views, Member, MemberStatus, MemberView};
use crate::text::{join, joined, texts};
use crate::time::time_text;

verus! {

/// Header of the column of hostnames.
pub const TABLE_HEADER_HOST: &'static str = "Host";

/// Header of the column that tells online from offline.
pub const TABLE_HEADER_STATE: &'static str = "State";

/// Header of the column of firmware versions.
pub const TABLE_HEADER_VERSION: &'static str = "Version";

/// Header of the column of adoption times.
pub const TABLE_HEADER_TIME: &'static str = "Time";

/// State cell of a device that answered its status query.
pub const STATE_ONLINE: &'static str = "Online";

/// State cell of a device that did not.
pub const STATE_OFFLINE: &'static str = "Offline";

/// A value that a table can list: one row of cells under a fixed header.
pub trait Tableable {
    /// The cells of the header.
    spec fn header_cells() -> Seq<Seq<char>>;

    /// The cells of the row for `self`.
    spec fn row_cells(&self) -> Seq<Seq<char>>;

    /// Builds the header.
    fn header() -> (cells: Vec<String>)
        ensures
            texts(cells@) == Self::header_cells(),
    ;

    /// Builds the row for `self`.
    fn row(&self) -> (cells: Vec<String>)
        ensures
            texts(cells@) == self.row_cells(),
    ;
}

/// The cells that a listing shows for `member`: hostname, version and the
/// time of adoption.
pub open spec fn member_cells(member: MemberView) -> Seq<Seq<char>> {
    seq![member.hostname, member.version, time_text(member.adopted_at)]
}

/// The cells that a status listing shows for `member`: hostname, state,
/// version and the time of adoption.
pub open spec fn status_cells(member: MemberView, online: bool) -> Seq<Seq<char>> {
    seq![
        member.hostname,
        if online { STATE_ONLINE@ } else { STATE_OFFLINE@ },
        member.version,
        time_text(member.adopted_at),
    ]
}

impl Tableable for Member {
    open spec fn header_cells() -> Seq<Seq<char>> {
        seq![TABLE_HEADER_HOST@, TABLE_HEADER_VERSION@, TABLE_HEADER_TIME@]
    }

    open spec fn row_cells(&self) -> Seq<Seq<char>> {
        member_cells(self@)
    }

    fn header() -> (cells: Vec<String>) {
        let mut cells: Vec<String> = Vec::new();
        cells.push(String::from_str(TABLE_HEADER_HOST));
        cells.push(String::from_str(TABLE_HEADER_VERSION));
        cells.push(String::from_str(TABLE_HEADER_TIME));
        assert(texts(cells@) =~= Self::header_cells());
        cells
    }

    fn row(&self) -> (cells: Vec<String>) {
        let mut cells: Vec<String> = Vec::new();
        cells.push(self.hostname.clone());
        cells.push(self.version.clone());
        cells.push(self.adopted_at.to_text());
        assert(texts(cells@) =~= self.row_cells());
        cells
    }
}

impl Tableable for MemberStatus {
    open spec fn header_cells() -> Seq<Seq<char>> {
        seq![TABLE_HEADER_HOST@, TABLE_HEADER_STATE@, TABLE_HEADER_VERSION@, TABLE_HEADER_TIME@]
    }

    open spec fn row_cells(&self) -> Seq<Seq<char>> {
        status_cells(self.member()@, self is Online)
    }

    fn header() -> (cells: Vec<String>) {
        let mut cells: Vec<String> = Vec::new();
        cells.push(String::from_str(TABLE_HEADER_HOST));
        cells.push(String::from_str(TABLE_HEADER_STATE));
        cells.push(String::from_str(TABLE_HEADER_VERSION));
        cells.push(String::from_str(TABLE_HEADER_TIME));
        assert(texts(cells@) =~= Self::header_cells());
        cells
    }

    fn row(&self) -> (cells: Vec<String>) {
        let mut cells: Vec<String> = Vec::new();
        match self {
            MemberStatus::Online(member) => {
                cells.push(member.hostname.clone());
                cells.push(String::from_str(STATE_ONLINE));
                cells.push(member.version.clone());
                cells.push(member.adopted_at.to_text());
            },
            MemberStatus::Offline(member) => {
                cells.push(member.hostname.clone());
                cells.push(String::from_str(STATE_OFFLINE));
                cells.push(member.version.clone());
                cells.push(member.adopted_at.to_text());
            },
        }
        assert(texts(cells@) =~= self.row_cells());
        cells
    }
}

/// The rows of `members`, one each, in order.
pub open spec fn member_rows(members: Seq<MemberView>) -> Seq<Seq<Seq<char>>> {
    members.map_values(|member: MemberView| member_cells(member))
}

/// The cells of each row of `rows`.
pub open spec fn row_texts(rows: Seq<Vec<String>>) -> Seq<Seq<Seq<char>>> {
    rows.map_values(|row: Vec<String>| texts(row@))
}

/// The hostnames of `members`, in order.
pub open spec fn hostnames(members: Seq<MemberView>) -> Seq<Seq<char>> {
    members.map_values(|member: MemberView| member.hostname)
}

/// The hostnames of `candidates`, in order.
pub open spec fn candidate_hostnames(candidates: Seq<CandidateView>) -> Seq<Seq<char>> {
    candidates.map_values(|candidate: CandidateView| candidate.hostname)
}

/// Builds the rows that list the registry: one per member, in the order of
/// adoption.
pub fn rows(config: &Config) -> (rows: Vec<Vec<String>>)
    ensures
        row_texts(rows@) == member_rows(config@),
{
    let mut rows: Vec<Vec<String>> = Vec::new();
    let mut i: usize = 0;
    while i < config.members.len()
        invariant
            i <= config.members.len(),
            row_texts(rows@) == member_rows(config@.take(i as int)),
        decreases config.members.len() - i,
    {
        let row = config.members[i].row();
        assert(config@[i as int] == config.members@[i as int]@);
        assert(row_texts(rows@.push(row)) =~= row_texts(rows@).push(texts(row@)));
        assert(member_rows(config@.take(i + 1)) =~= member_rows(config@.take(i as int)).push(
            member_cells(config@[i as int]),
        ));
        rows.push(row);
        i = i + 1;
    }
    assert(config@.take(config.members.len() as int) =~= config@);
    rows
}

/// The hostnames of `members` in one line, with commas between them.
pub fn hostname_list(members: &Vec<Member>) -> (line: String)
    ensures
        line@ == joined(hostnames(member_views(members@)), ","@),
{
    let mut names: Vec<String> = Vec::new();
    let mut i: usize = 0;
    while i < members.len()
        invariant
            i <= members.len(),
            texts(names@) == hostnames(member_views(members@).take(i as int)),
        decreases members.len() - i,
    {
        let name = members[i].hostname.clone();
        assert(texts(names@.push(name)) =~= texts(names@).push(name@));
        assert(hostnames(member_views(members@).take(i + 1)) =~= hostnames(
            member_views(members@).take(i as int),
        ).push(members@[i as int]@.hostname));
        names.push(name);
        i = i + 1;
    }
    assert(member_views(members@).take(members.len() as int) =~= member_views(members@));
    join(&names, ",")
}

/// The hostnames of `candidates` in one line, with commas between them.
pub fn candidate_list(candidates: &Vec<Candidate>) -> (line: String)
    ensures
        line@ == joined(candidate_hostnames(candidate_views(candidates@)), ","@),
{
    let mut names: Vec<String> = Vec::new();
    let mut i: usize = 0;
    while i < candidates.len()
        invariant
            i <= candidates.len(),
            texts(names@) == candidate_hostnames(candidate_views(candidates@).take(i as int)),
        decreases candidates.len() - i,
    {
        let name = candidates[i].hostname.clone();
        assert(texts(names@.push(name)) =~= texts(names@).push(name@));
        assert(candidate_hostnames(candidate_views(candidates@).take(i + 1)) =~= candidate_hostnames(
            candidate_views(candidates@).take(i as int),
        ).push(candidates@[i as int]@.hostname));
        names.push(name);
        i = i + 1;
    }
    assert(candidate_views(candidates@).take(candidates.len() as int) =~= candidate_views(
        candidates@,
    ));
    join(&names, ",")
}

} // verus!
