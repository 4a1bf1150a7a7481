use summoner_requester::model::{
    top_masteries, AggregateResult, LookupError, MasteryRecord, ProfileRef, RosterEntry,
};
use summoner_requester::pipeline::{Action, Event, Pipeline, Stage};
use summoner_requester::render::render;
use summoner_requester::request::RequestState;

fn profile(id: &str, name: &str, level: i64) -> ProfileRef {
    ProfileRef { id: id.to_string(), name: name.to_string(), level }
}

fn records(n: usize) -> Vec<MasteryRecord> {
    (0..n)
        .map(|i| MasteryRecord {
            champion_id: 103,
            points: 100_000 - i as i32,
            level: 7,
        })
        .collect()
}

fn roster(ids: &[(&str, &str)]) -> Vec<RosterEntry> {
    ids.iter()
        .map(|(id, pos)| RosterEntry { player_id: id.to_string(), position: pos.to_string() })
        .collect()
}

fn expect_lookup_team(action: &Action, team: &str) {
    match action {
        Action::LookupTeam(id) => assert_eq!(id, team),
        other => panic!("unexpected action {:?}", other),
    }
}

/// Runs the pipeline for the requester, through a team of the given members,
/// answering each teammate's masteries with `count(i)` records.
fn run_team(members: Vec<RosterEntry>, count: impl Fn(usize) -> usize) -> AggregateResult {
    let (p, a) = Pipeline::start("Faker".to_string());
    assert!(matches!(a, Action::LookupProfileByName(ref n) if n == "Faker"));
    let (p, a) = p.step(Event::ProfileFound(profile("faker-id", "Faker", 500)));
    assert!(matches!(a, Action::LookupRegistrations(ref id) if id == "faker-id"));
    let (p, a) = p.step(Event::RegistrationsFound(vec![Some("team-1".to_string())]));
    expect_lookup_team(&a, "team-1");
    let ids: Vec<String> = members.iter().map(|m| m.player_id.clone()).collect();
    let (mut p, mut a) = p.step(Event::TeamFound(Some(members)));
    for (i, id) in ids.iter().enumerate() {
        match &a {
            Action::LookupProfileById(got) => assert_eq!(got, id),
            other => panic!("unexpected action {:?}", other),
        }
        let (q, b) = p.step(Event::ProfileFound(profile(id, &format!("Mate{}", i), 30 + i as i64)));
        match &b {
            Action::LookupMasteries(got) => assert_eq!(got, id),
            other => panic!("unexpected action {:?}", other),
        }
        let (q, b) = q.step(Event::MasteriesFound(records(count(i))));
        p = q;
        a = b;
    }
    assert_eq!(p.stage, Stage::Done);
    match a {
        Action::Finish(Ok(res)) => res,
        other => panic!("unexpected action {:?}", other),
    }
}

#[test]
fn faker_team_of_four_renders_all_lines() {
    let members = roster(&[("a", "TOP"), ("b", "JUNGLE"), ("c", "MIDDLE"), ("d", "BOTTOM")]);
    let res = run_team(members, |_| 12);
    assert_eq!(res.requester.name, "Faker");
    assert_eq!(res.teammates.len(), 4);
    for v in &res.teammates {
        assert_eq!(v.masteries.len(), 10);
    }
    let lines = render(&RequestState::Completed(res));
    // the status line, then per teammate a separator, its line and ten records
    assert_eq!(lines.len(), 1 + 4 * 12);
    assert_eq!(lines[0], "Name 'Faker', Level 500");
    assert_eq!(lines[1], "----------------------------------------");
    assert_eq!(lines[2], "Name 'Mate0', Level 30, Position TOP");
    assert_eq!(lines[3], format!("{: >2}) {: <9}    {: >7} ({})", 1, "Ahri", 100000, 7));
    assert_eq!(lines[12], format!("{: >2}) {: <9}    {: >7} ({})", 10, "Ahri", 99991, 7));
    assert_eq!(lines[14], "Name 'Mate1', Level 31, Position JUNGLE");
}

#[test]
fn teammates_keep_roster_order_and_size() {
    let members = roster(&[("x", "UTILITY"), ("y", "TOP"), ("x", "FILL")]);
    let res = run_team(members, |i| i);
    assert_eq!(res.teammates.len(), 3);
    let roles: Vec<&str> = res.teammates.iter().map(|v| v.role.as_str()).collect();
    assert_eq!(roles, vec!["UTILITY", "TOP", "FILL"]);
    assert_eq!(res.teammates[0].profile.id, "x");
    assert_eq!(res.teammates[2].profile.id, "x");
}

#[test]
fn masteries_are_truncated_to_ten() {
    let res = run_team(roster(&[("a", "TOP"), ("b", "MID"), ("c", "BOT")]), |i| [15, 10, 3][i]);
    assert_eq!(res.teammates[0].masteries, records(15)[..10].to_vec());
    assert_eq!(res.teammates[1].masteries, records(10));
    assert_eq!(res.teammates[2].masteries, records(3));
}

#[test]
fn top_masteries_keeps_leading_records() {
    assert_eq!(top_masteries(&records(11)), records(11)[..10].to_vec());
    assert_eq!(top_masteries(&records(4)), records(4));
    assert!(top_masteries(&Vec::new()).is_empty());
}

#[test]
fn empty_team_gives_no_teammates() {
    let res = run_team(Vec::new(), |_| 0);
    assert!(res.teammates.is_empty());
    let lines = render(&RequestState::Completed(res));
    assert_eq!(lines, vec!["Name 'Faker', Level 500".to_string()]);
}

#[test]
fn unknown_player_ends_before_any_roster_lookup() {
    let (p, a) = Pipeline::start("UnknownPlayer123".to_string());
    assert!(matches!(a, Action::LookupProfileByName(ref n) if n == "UnknownPlayer123"));
    let (p, a) = p.step(Event::Failed(LookupError::NotFound));
    assert_eq!(p.stage, Stage::Done);
    assert!(matches!(a, Action::Finish(Err(LookupError::NotFound))));
    assert!(!p.accepts(&Event::RegistrationsFound(Vec::new())));
    assert!(!p.accepts(&Event::Failed(LookupError::NotFound)));
}

fn after_profile() -> Pipeline {
    let (p, _) = Pipeline::start("Faker".to_string());
    let (p, _) = p.step(Event::ProfileFound(profile("faker-id", "Faker", 500)));
    p
}

#[test]
fn no_registration_is_no_active_team() {
    let (p, a) = after_profile().step(Event::RegistrationsFound(Vec::new()));
    assert_eq!(p.stage, Stage::Done);
    assert!(matches!(a, Action::Finish(Err(LookupError::NoActiveTeam))));
}

#[test]
fn registration_without_team_is_no_active_team() {
    let regs = vec![None, Some("team-2".to_string())];
    let (_, a) = after_profile().step(Event::RegistrationsFound(regs));
    assert!(matches!(a, Action::Finish(Err(LookupError::NoActiveTeam))));
}

#[test]
fn unresolved_team_is_not_found() {
    let (p, a) = after_profile().step(Event::RegistrationsFound(vec![Some("t".to_string())]));
    expect_lookup_team(&a, "t");
    let (_, a) = p.step(Event::TeamFound(None));
    assert!(matches!(a, Action::Finish(Err(LookupError::NotFound))));
}

#[test]
fn teammate_failure_aborts_whole_request() {
    let (p, _) = after_profile().step(Event::RegistrationsFound(vec![Some("t".to_string())]));
    let (p, _) = p.step(Event::TeamFound(Some(roster(&[("a", "TOP"), ("b", "MID")]))));
    let (p, _) = p.step(Event::ProfileFound(profile("a", "A", 1)));
    let (p, _) = p.step(Event::MasteriesFound(records(2)));
    let (p, a) = p.step(Event::Failed(LookupError::RemoteFailure("timeout".to_string())));
    assert_eq!(p.stage, Stage::Done);
    match a {
        Action::Finish(Err(LookupError::RemoteFailure(c))) => assert_eq!(c, "timeout"),
        other => panic!("unexpected action {:?}", other),
    }
}

#[test]
fn accepts_only_the_awaited_answer() {
    let (p, _) = Pipeline::start("Faker".to_string());
    assert!(p.accepts(&Event::ProfileFound(profile("i", "n", 1))));
    assert!(p.accepts(&Event::Failed(LookupError::NotFound)));
    assert!(!p.accepts(&Event::MasteriesFound(Vec::new())));
    assert!(!p.accepts(&Event::TeamFound(None)));
    let p = after_profile();
    assert!(p.accepts(&Event::RegistrationsFound(Vec::new())));
    assert!(!p.accepts(&Event::ProfileFound(profile("i", "n", 1))));
}
