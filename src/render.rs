use vstd::prelude::*;
use vstd::string::*;
use crate::champion::{champion_label, champion_label_of};
use crate::model::{AggregateResult, LookupError, MasteryRecord, ProfileRef, TeammateView};
use crate::request::RequestState;
use crate::text::{align_left, align_right, digits, int_text, int_to_text, pad_left, pad_right, push_digits};

verus! {

/// The line that separates one teammate from the next.
pub open spec fn separator_line() -> Seq<char> {
    "----------------------------------------"@
}

/// `Name '<name>', Level <level>`
pub open spec fn status_line(p: ProfileRef) -> Seq<char> {
    "Name '"@ + p.name@ + "', Level "@ + int_text(p.level as int)
}

/// `Name '<name>', Level <level>, Position <role>`
pub open spec fn teammate_line(v: TeammateView) -> Seq<char> {
    status_line(v.profile) + ", Position "@ + v.role@
}

/// `<rank>) <name>    <points> (<level>)`, the rank right-aligned to two
/// characters, the name left-aligned to nine, the points right-aligned to seven.
pub open spec fn mastery_text(rank: nat, name: Seq<char>, points: int, level: int) -> Seq<char> {
    pad_left(digits(rank), 2) + ") "@ + pad_right(name, 9) + "    "@ + pad_left(int_text(points), 7)
        + " ("@ + int_text(level) + ")"@
}

/// The line of the mastery record at 0-based position `i`.
pub open spec fn mastery_line_of(i: int, m: MasteryRecord) -> Seq<char> {
    mastery_text((i + 1) as nat, champion_label_of(m.champion_id), m.points as int, m.level as int)
}

/// The lines of one teammate: separator, teammate line, one line per mastery record.
pub open spec fn teammate_lines(v: TeammateView) -> Seq<Seq<char>> {
    seq![separator_line(), teammate_line(v)] + Seq::new(
        v.masteries@.len(),
        |i: int| mastery_line_of(i, v.masteries@[i]),
    )
}

/// The lines of a sequence of teammates, in order.
pub open spec fn teammates_lines(ts: Seq<TeammateView>) -> Seq<Seq<char>>
    decreases ts.len(),
{
    if ts.len() == 0 {
        Seq::empty()
    } else {
        teammates_lines(ts.drop_last()) + teammate_lines(ts.last())
    }
}

/// The lines of a completed request: the requester's status line, then each teammate.
pub open spec fn result_lines(r: AggregateResult) -> Seq<Seq<char>> {
    seq![status_line(r.requester)] + teammates_lines(r.teammates@)
}

/// The single status line of a failed request.
pub open spec fn error_line(e: LookupError) -> Seq<char> {
    match e {
        LookupError::NotFound => "Error: player or team not found"@,
        LookupError::NoActiveTeam => "Error: player has no active team"@,
        LookupError::RemoteFailure(cause) => "Error: remote failure: "@ + cause@,
        LookupError::StartupConfigMissing => "Error: no access credential supplied"@,
    }
}

/// What is displayed for each state of the request machine.
pub open spec fn render_lines(s: RequestState) -> Seq<Seq<char>> {
    match s {
        RequestState::Idle => Seq::empty(),
        RequestState::InFlight { name, .. } => seq!["Requesting '"@ + name@ + "'"@],
        RequestState::Completed(r) => result_lines(r),
        RequestState::Failed(e) => seq![error_line(e)],
    }
}

/// The text of a sequence of strings.
pub open spec fn texts(v: Seq<String>) -> Seq<Seq<char>> {
    v.map_values(|s: String| s@)
}

/// One mastery line, given the champion's label.
pub fn mastery_line(rank: u64, name: &str, points: i32, level: i32) -> (r: String)
    ensures
        r@ == mastery_text(rank as nat, name@, points as int, level as int),
{
    let mut rank_text = String::new();
    push_digits(&mut rank_text, rank);
    let mut out = align_right(rank_text.as_str(), 2);
    out.append(") ");
    let name_text = align_left(name, 9);
    out.append(name_text.as_str());
    out.append("    ");
    let points_text = align_right(int_to_text(points as i64).as_str(), 7);
    out.append(points_text.as_str());
    out.append(" (");
    out.append(int_to_text(level as i64).as_str());
    out.append(")");
    out
}

/// `Name '<name>', Level <level>`
pub fn profile_status(p: &ProfileRef) -> (r: String)
    ensures
        r@ == status_line(*p),
{
    let mut out = String::from_str("Name '");
    out.append(p.name.as_str());
    out.append("', Level ");
    out.append(int_to_text(p.level).as_str());
    out
}

fn push_teammate(lines: &mut Vec<String>, v: &TeammateView)
    requires
        v.masteries@.len() < u64::MAX,
    ensures
        texts(final(lines)@) == texts(old(lines)@) + teammate_lines(*v),
{
    let ghost start = texts(lines@);
    lines.push(String::from_str("----------------------------------------"));
    let mut line = profile_status(&v.profile);
    line.append(", Position ");
    line.append(v.role.as_str());
    lines.push(line);
    let ghost head = start + seq![separator_line(), teammate_line(*v)];
    assert(texts(lines@) =~= head);
    let n = v.masteries.len();
    let mut i: usize = 0;
    while i < n
        invariant
            n == v.masteries@.len(),
            n < u64::MAX,
            i <= n,
            texts(lines@) == head + Seq::new(i as nat, |j: int| mastery_line_of(j, v.masteries@[j])),
        decreases n - i,
    {
        let m = v.masteries[i];
        let label = champion_label(m.champion_id);
        let line = mastery_line((i + 1) as u64, label.as_str(), m.points, m.level);
        assert(line@ == mastery_line_of(i as int, v.masteries@[i as int]));
        let ghost before = lines@;
        lines.push(line);
        assert(texts(lines@) =~= texts(before).push(line@));
        i = i + 1;
        assert(texts(lines@) =~= head + Seq::new(
            i as nat,
            |j: int| mastery_line_of(j, v.masteries@[j]),
        ));
    }
    assert(head + Seq::new(n as nat, |j: int| mastery_line_of(j, v.masteries@[j]))
        =~= start + teammate_lines(*v));
}

/// The lines of a completed request.
pub fn render_result(r: &AggregateResult) -> (lines: Vec<String>)
    requires
        forall|j: int| 0 <= j < r.teammates@.len() ==> (#[trigger] r.teammates@[j]).masteries@.len() < u64::MAX,
    ensures
        texts(lines@) == result_lines(*r),
{
    let mut lines: Vec<String> = Vec::new();
    lines.push(profile_status(&r.requester));
    let n = r.teammates.len();
    let mut i: usize = 0;
    assert(r.teammates@.subrange(0, 0) =~= Seq::<TeammateView>::empty());
    assert(texts(lines@) =~= seq![status_line(r.requester)] + teammates_lines(
        r.teammates@.subrange(0, 0),
    ));
    while i < n
        invariant
            n == r.teammates@.len(),
            i <= n,
            forall|j: int| 0 <= j < r.teammates@.len() ==> (#[trigger] r.teammates@[j]).masteries@.len() < u64::MAX,
            texts(lines@) == seq![status_line(r.requester)] + teammates_lines(
                r.teammates@.subrange(0, i as int),
            ),
        decreases n - i,
    {
        push_teammate(&mut lines, &r.teammates[i]);
        proof {
            let s = r.teammates@.subrange(0, i + 1);
            assert(s.drop_last() =~= r.teammates@.subrange(0, i as int));
        }
        i = i + 1;
    }
    assert(r.teammates@.subrange(0, n as int) =~= r.teammates@);
    lines
}

/// The status line of a failed request.
pub fn error_text(e: &LookupError) -> (r: String)
    ensures
        r@ == error_line(*e),
{
    match e {
        LookupError::NotFound => String::from_str("Error: player or team not found"),
        LookupError::NoActiveTeam => String::from_str("Error: player has no active team"),
        LookupError::RemoteFailure(cause) => {
            let mut out = String::from_str("Error: remote failure: ");
            out.append(cause.as_str());
            out
        },
        LookupError::StartupConfigMissing => String::from_str(
            "Error: no access credential supplied",
        ),
    }
}

/// Whether every teammate of a completed request has a countable number of records.
pub open spec fn renderable(s: RequestState) -> bool {
    s matches RequestState::Completed(r) ==> forall|j: int|
        0 <= j < r.teammates@.len() ==> (#[trigger] r.teammates@[j]).masteries@.len() < u64::MAX
}

/// The lines displayed for the current state; reads the state and changes nothing.
pub fn render(s: &RequestState) -> (lines: Vec<String>)
    requires
        renderable(*s),
    ensures
        texts(lines@) == render_lines(*s),
{
    match s {
        RequestState::Idle => {
            let lines: Vec<String> = Vec::new();
            assert(texts(lines@) =~= render_lines(*s));
            lines
        },
        RequestState::InFlight { name, .. } => {
            let mut line = String::from_str("Requesting '");
            line.append(name.as_str());
            line.append("'");
            let mut lines: Vec<String> = Vec::new();
            lines.push(line);
            assert(texts(lines@) =~= render_lines(*s));
            lines
        },
        RequestState::Completed(r) => render_result(r),
        RequestState::Failed(e) => {
            let mut lines: Vec<String> = Vec::new();
            lines.push(error_text(e));
            assert(texts(lines@) =~= render_lines(*s));
            lines
        },
    }
}

/// Rendering is a function of the state alone: two renderings of one state
/// display the same lines.
pub proof fn law_render_idempotent(s: RequestState, first: Seq<String>, second: Seq<String>)
    requires
        texts(first) == render_lines(s),
        texts(second) == render_lines(s),
    ensures
        texts(first) == texts(second),
{
}

} // verus!
