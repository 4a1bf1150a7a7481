use vstd::prelude::*;

verus! {

/// Largest number of mastery records kept for one teammate.
pub const TOP_MASTERIES: usize = 10;

/// A player's account record as the statistics service returns it.
#[derive(Clone, Debug)]
pub struct ProfileRef {
    pub id: String,
    pub name: String,
    pub level: i64,
}

/// One member of a team roster: whom to look up and which position they play.
#[derive(Clone, Debug)]
pub struct RosterEntry {
    pub player_id: String,
    pub position: String,
}

/// Mastery of one champion; the service sorts these by points, descending.
#[derive(Clone, Copy, PartialEq, Eq, Structural, Debug)]
pub struct MasteryRecord {
    pub champion_id: i32,
    pub points: i32,
    pub level: i32,
}

/// What is shown for one teammate.
#[derive(Clone, Debug)]
pub struct TeammateView {
    pub profile: ProfileRef,
    pub role: String,
    pub masteries: Vec<MasteryRecord>,
}

/// The assembled outcome of one successful request.
#[derive(Clone, Debug)]
pub struct AggregateResult {
    pub requester: ProfileRef,
    pub teammates: Vec<TeammateView>,
}

/// Why a request failed.
#[derive(Clone, Debug)]
pub enum LookupError {
    /// A name or an identifier does not resolve.
    NotFound,
    /// The player is not registered to a competitive team.
    NoActiveTeam,
    /// Transport, authentication or decoding failure, with its cause.
    RemoteFailure(String),
    /// No access credential was supplied at startup.
    StartupConfigMissing,
}

/// The first `TOP_MASTERIES` records of `s`, or all of them when there are fewer.
pub open spec fn top_of(s: Seq<MasteryRecord>) -> Seq<MasteryRecord> {
    if s.len() > TOP_MASTERIES {
        s.subrange(0, TOP_MASTERIES as int)
    } else {
        s
    }
}

/// Keeps the leading records of the service's ordering, at most `TOP_MASTERIES`.
pub fn top_masteries(records: &Vec<MasteryRecord>) -> (r: Vec<MasteryRecord>)
    ensures
        r@ == top_of(records@),
{
    let n: usize = if records.len() > TOP_MASTERIES {
        TOP_MASTERIES
    } else {
        records.len()
    };
    let mut r: Vec<MasteryRecord> = Vec::new();
    let mut i: usize = 0;
    while i < n
        invariant
            n <= records@.len(),
            n == top_of(records@).len(),
            i <= n,
            r@ == records@.subrange(0, i as int),
        decreases n - i,
    {
        r.push(records[i]);
        i = i + 1;
        assert(r@ =~= records@.subrange(0, i as int));
    }
    assert(r@ =~= top_of(records@));
    r
}

} // verus!
