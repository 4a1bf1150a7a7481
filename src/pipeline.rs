use vstd::prelude::*;
use crate::model::{
    top_masteries, top_of, AggregateResult, LookupError, MasteryRecord, ProfileRef, RosterEntry,
    TeammateView, TOP_MASTERIES,
};

verus! {

/// Which answer the pipeline waits for next.
#[derive(PartialEq, Eq, Structural, Debug, Clone, Copy)]
pub enum Stage {
    /// The requesting player's profile, looked up by name.
    AwaitProfile,
    /// The team identifier of each of the requester's registrations.
    AwaitRegistrations,
    /// The roster of the team, or `None` when the team does not resolve.
    AwaitTeam,
    /// The profile of the next teammate, looked up by identifier.
    AwaitTeammate,
    /// The mastery records of that teammate.
    AwaitMasteries,
    /// Nothing: the outcome has been handed out.
    Done,
}

/// An answer of the statistics service, handed back by whoever performed the lookup.
#[derive(Debug)]
pub enum Event {
    ProfileFound(ProfileRef),
    RegistrationsFound(Vec<Option<String>>),
    TeamFound(Option<Vec<RosterEntry>>),
    MasteriesFound(Vec<MasteryRecord>),
    Failed(LookupError),
}

/// What the driver of the pipeline is to do next.
#[derive(Debug)]
pub enum Action {
    LookupProfileByName(String),
    LookupRegistrations(String),
    LookupTeam(String),
    LookupProfileById(String),
    LookupMasteries(String),
    Finish(Result<AggregateResult, LookupError>),
}

/// One aggregation in progress: profile, then roster, then each teammate in
/// roster order, with an abort on the first failure.
pub struct Pipeline {
    pub stage: Stage,
    pub requester: Option<ProfileRef>,
    pub roster: Vec<RosterEntry>,
    pub views: Vec<TeammateView>,
    pub pending: Option<ProfileRef>,
}

/// The team that a list of registrations resolves to: the first registration's
/// team, if there is a first registration and it names a team.
pub open spec fn team_of(regs: Seq<Option<String>>) -> Option<String> {
    if regs.len() == 0 {
        None
    } else {
        regs[0]
    }
}

/// The views built so far stand for the leading roster entries, in order.
pub open spec fn views_follow_roster(views: Seq<TeammateView>, roster: Seq<RosterEntry>) -> bool {
    &&& views.len() <= roster.len()
    &&& forall|j: int|
        0 <= j < views.len() ==> (#[trigger] views[j]).role@ == roster[j].position@
            && views[j].masteries@.len() <= TOP_MASTERIES
}

/// `after` is `before` with one more view, for the given profile and role and
/// the leading records of `ms`.
pub open spec fn appends_view(
    before: Seq<TeammateView>,
    after: Seq<TeammateView>,
    profile: ProfileRef,
    role: Seq<char>,
    ms: Seq<MasteryRecord>,
) -> bool {
    &&& after.len() == before.len() + 1
    &&& after.subrange(0, before.len() as int) == before
    &&& after[before.len() as int].profile == profile
    &&& after[before.len() as int].role@ == role
    &&& after[before.len() as int].masteries@ == top_of(ms)
}

/// Whether an event answers the lookup that the stage waits for.
pub open spec fn answers(stage: Stage, e: Event) -> bool {
    match e {
        Event::Failed(_) => stage != Stage::Done,
        Event::ProfileFound(_) => stage == Stage::AwaitProfile || stage == Stage::AwaitTeammate,
        Event::RegistrationsFound(_) => stage == Stage::AwaitRegistrations,
        Event::TeamFound(_) => stage == Stage::AwaitTeam,
        Event::MasteriesFound(_) => stage == Stage::AwaitMasteries,
    }
}

impl Pipeline {
    pub open spec fn wf(&self) -> bool {
        &&& views_follow_roster(self.views@, self.roster@)
        &&& match self.stage {
            Stage::AwaitProfile => self.requester.is_none() && self.views@.len() == 0,
            Stage::AwaitRegistrations | Stage::AwaitTeam => self.requester.is_some()
                && self.views@.len() == 0,
            Stage::AwaitTeammate => self.requester.is_some() && self.views@.len()
                < self.roster@.len(),
            Stage::AwaitMasteries => self.requester.is_some() && self.pending.is_some()
                && self.views@.len() < self.roster@.len(),
            Stage::Done => true,
        }
    }

    /// Starts an aggregation for `name`; the first lookup is the profile by name.
    pub fn start(name: String) -> (r: (Pipeline, Action))
        ensures
            r.0.wf(),
            r.0.stage == Stage::AwaitProfile,
            r.1 matches Action::LookupProfileByName(n) && n@ == name@,
    {
        let p = Pipeline {
            stage: Stage::AwaitProfile,
            requester: None,
            roster: Vec::new(),
            views: Vec::new(),
            pending: None,
        };
        (p, Action::LookupProfileByName(name))
    }

    /// Whether `e` answers the lookup that this pipeline waits for.
    pub fn accepts(&self, e: &Event) -> (r: bool)
        ensures
            r == answers(self.stage, *e),
    {
        match e {
            Event::Failed(_) => self.stage != Stage::Done,
            Event::ProfileFound(_) => self.stage == Stage::AwaitProfile || self.stage
                == Stage::AwaitTeammate,
            Event::RegistrationsFound(_) => self.stage == Stage::AwaitRegistrations,
            Event::TeamFound(_) => self.stage == Stage::AwaitTeam,
            Event::MasteriesFound(_) => self.stage == Stage::AwaitMasteries,
        }
    }

    /// Advances the pipeline by the answer to its last lookup.
    pub fn step(self, e: Event) -> (r: (Pipeline, Action))
        requires
            self.wf(),
            answers(self.stage, e),
        ensures
            r.0.wf(),
            // a failure ends the aggregation with that very error
            e matches Event::Failed(err) ==> r.0.stage == Stage::Done && r.1 == Action::Finish(
                Err(err),
            ),
            // the requester's profile leads to the registrations of that player
            self.stage == Stage::AwaitProfile ==> (e matches Event::ProfileFound(p) ==> {
                &&& r.0.stage == Stage::AwaitRegistrations
                &&& r.0.requester == Some(p)
                &&& r.1 matches Action::LookupRegistrations(id) && id@ == p.id@
            }),
            // no registered team: the request fails with NoActiveTeam
            e matches Event::RegistrationsFound(regs) ==> match team_of(regs@) {
                None => r.0.stage == Stage::Done && r.1 == Action::Finish(
                    Err(LookupError::NoActiveTeam),
                ),
                Some(t) => r.0.stage == Stage::AwaitTeam && r.0.requester == self.requester
                    && (r.1 matches Action::LookupTeam(id) && id@ == t@),
            },
            // a team that does not resolve: NotFound; else its roster is walked in order
            e matches Event::TeamFound(team) ==> match team {
                None => r.0.stage == Stage::Done && r.1 == Action::Finish(
                    Err(LookupError::NotFound),
                ),
                Some(members) => {
                    &&& r.0.roster@ == members@
                    &&& r.0.views@.len() == 0
                    &&& members@.len() == 0 ==> r.0.stage == Stage::Done && (r.1 matches Action::Finish(Ok(res))
                        && res.requester == self.requester.unwrap() && res.teammates@.len() == members@.len())
                    &&& members@.len() > 0 ==> r.0.stage == Stage::AwaitTeammate && (r.1 matches Action::LookupProfileById(id)
                        && id@ == members@[0].player_id@)
                },
            },
            // a teammate's profile leads to that teammate's masteries
            self.stage == Stage::AwaitTeammate ==> (e matches Event::ProfileFound(p) ==> {
                &&& r.0.stage == Stage::AwaitMasteries
                &&& r.0.pending == Some(p)
                &&& r.0.requester == self.requester
                &&& r.0.roster == self.roster
                &&& r.0.views == self.views
                &&& r.1 matches Action::LookupMasteries(id) && id@ == p.id@
            }),
            // masteries complete one view: the next teammate, or the assembled result
            e matches Event::MasteriesFound(ms) ==> {
                let k = self.views@.len();
                let role = self.roster@[k as int].position@;
                &&& r.0.roster == self.roster
                &&& k + 1 < self.roster@.len() ==> {
                    &&& r.0.stage == Stage::AwaitTeammate
                    &&& r.0.requester == self.requester
                    &&& appends_view(self.views@, r.0.views@, self.pending.unwrap(), role, ms@)
                    &&& r.1 matches Action::LookupProfileById(id) && id@ == self.roster@[k + 1 as int].player_id@
                }
                &&& k + 1 == self.roster@.len() ==> {
                    &&& r.0.stage == Stage::Done
                    &&& r.1 matches Action::Finish(Ok(res))
                    &&& res.requester == self.requester.unwrap()
                    &&& res.teammates@.len() == self.roster@.len()
                    &&& views_follow_roster(res.teammates@, self.roster@)
                    &&& appends_view(self.views@, res.teammates@, self.pending.unwrap(), role, ms@)
                }
            },
    {
        let Pipeline { stage, requester, roster, views, pending } = self;
        match e {
            Event::Failed(err) => {
                let p = Pipeline { stage: Stage::Done, requester, roster, views, pending };
                (p, Action::Finish(Err(err)))
            },
            Event::ProfileFound(prof) => {
                if stage == Stage::AwaitProfile {
                    let id = prof.id.clone();
                    let p = Pipeline {
                        stage: Stage::AwaitRegistrations,
                        requester: Some(prof),
                        roster,
                        views,
                        pending,
                    };
                    (p, Action::LookupRegistrations(id))
                } else {
                    let id = prof.id.clone();
                    let p = Pipeline {
                        stage: Stage::AwaitMasteries,
                        requester,
                        roster,
                        views,
                        pending: Some(prof),
                    };
                    (p, Action::LookupMasteries(id))
                }
            },
            Event::RegistrationsFound(regs) => {
                if regs.len() == 0 {
                    let p = Pipeline { stage: Stage::Done, requester, roster, views, pending };
                    (p, Action::Finish(Err(LookupError::NoActiveTeam)))
                } else {
                    match &regs[0] {
                        None => {
                            let p = Pipeline {
                                stage: Stage::Done,
                                requester,
                                roster,
                                views,
                                pending,
                            };
                            (p, Action::Finish(Err(LookupError::NoActiveTeam)))
                        },
                        Some(t) => {
                            let id = t.clone();
                            let p = Pipeline {
                                stage: Stage::AwaitTeam,
                                requester,
                                roster,
                                views,
                                pending,
                            };
                            (p, Action::LookupTeam(id))
                        },
                    }
                }
            },
            Event::TeamFound(team) => {
                match team {
                    None => {
                        let p = Pipeline { stage: Stage::Done, requester, roster, views, pending };
                        (p, Action::Finish(Err(LookupError::NotFound)))
                    },
                    Some(members) => {
                        if members.len() == 0 {
                            let res = AggregateResult {
                                requester: requester.unwrap(),
                                teammates: views,
                            };
                            let p = Pipeline {
                                stage: Stage::Done,
                                requester: None,
                                roster: members,
                                views: Vec::new(),
                                pending,
                            };
                            (p, Action::Finish(Ok(res)))
                        } else {
                            let id = members[0].player_id.clone();
                            let p = Pipeline {
                                stage: Stage::AwaitTeammate,
                                requester,
                                roster: members,
                                views,
                                pending: None,
                            };
                            (p, Action::LookupProfileById(id))
                        }
                    },
                }
            },
            Event::MasteriesFound(ms) => {
                let k = views.len();
                let top = top_masteries(&ms);
                let role = roster[k].position.clone();
                let view = TeammateView { profile: pending.unwrap(), role, masteries: top };
                let ghost before = views@;
                let mut views = views;
                views.push(view);
                proof {
                    assert(views@.subrange(0, k as int) =~= before);
                }
                if k < roster.len() - 1 {
                    let id = roster[k + 1].player_id.clone();
                    let p = Pipeline {
                        stage: Stage::AwaitTeammate,
                        requester,
                        roster,
                        views,
                        pending: None,
                    };
                    (p, Action::LookupProfileById(id))
                } else {
                    let res = AggregateResult { requester: requester.unwrap(), teammates: views };
                    let p = Pipeline {
                        stage: Stage::Done,
                        requester: None,
                        roster,
                        views: Vec::new(),
                        pending: None,
                    };
                    (p, Action::Finish(Ok(res)))
                }
            },
        }
    }
}

} // verus!
