use crate::spl::{same_team_info, RoboCupGameControlData, TeamInfo};
use crate::state::interrupt::{
    new_competition_phase, new_competition_type, new_first_half, new_game_phase,
    new_kicking_team, new_packet_number, new_players_per_team, new_secondary_time,
    new_secs_remaining, new_set_play, new_state, new_teams, Notice,
};
use vstd::prelude::*;

verus! {

/// The game state last heard from the GameController.
pub struct GCHandler {
    pub current: RoboCupGameControlData,
}

/// Two pairs of team records describe the same teams.
pub open spec fn same_teams(a: [TeamInfo; 2], b: [TeamInfo; 2]) -> bool {
    same_team_info(a@[0], b@[0]) && same_team_info(a@[1], b@[1])
}

/// The state after taking in `new`: every field follows `new`, except the
/// header and version, which are not tracked, and the team records, which are
/// replaced only where they differ by more than their player slots.
pub open spec fn merged(cur: RoboCupGameControlData, new: RoboCupGameControlData) -> RoboCupGameControlData {
    RoboCupGameControlData {
        header: cur.header,
        version: cur.version,
        packetNumber: new.packetNumber,
        playersPerTeam: new.playersPerTeam,
        competitionPhase: new.competitionPhase,
        competitionType: new.competitionType,
        gamePhase: new.gamePhase,
        state: new.state,
        setPlay: new.setPlay,
        firstHalf: new.firstHalf,
        kickingTeam: new.kickingTeam,
        secsRemaining: new.secsRemaining,
        secondaryTime: new.secondaryTime,
        teams: if same_teams(cur.teams, new.teams) {
            cur.teams
        } else {
            new.teams
        },
    }
}

/// The one-element report `n` if `changed` holds, else nothing.
pub open spec fn report_if(changed: bool, n: Notice) -> Seq<Notice> {
    if changed {
        seq![n]
    } else {
        seq![]
    }
}

/// The reports of the competition fields (packet number, players per team,
/// competition phase and type); a new packet number is never reported.
pub open spec fn notices_competition(cur: RoboCupGameControlData, new: RoboCupGameControlData) -> Seq<Notice> {
    report_if(cur.playersPerTeam != new.playersPerTeam, Notice::PlayersPerTeam(new.playersPerTeam))
        + report_if(
        cur.competitionPhase != new.competitionPhase,
        Notice::CompetitionPhase(new.competitionPhase),
    ) + report_if(
        cur.competitionType != new.competitionType,
        Notice::CompetitionType(new.competitionType),
    )
}

/// The reports of the game fields (game phase, state, set play, half).
pub open spec fn notices_game(cur: RoboCupGameControlData, new: RoboCupGameControlData) -> Seq<Notice> {
    report_if(cur.gamePhase != new.gamePhase, Notice::GamePhase(new.gamePhase)) + report_if(
        cur.state != new.state,
        Notice::State(new.state),
    ) + report_if(cur.setPlay != new.setPlay, Notice::SetPlay(new.setPlay)) + report_if(
        cur.firstHalf != new.firstHalf,
        Notice::FirstHalf(new.firstHalf),
    )
}

/// The reports of the remaining fields (kicking team, times, teams).
pub open spec fn notices_play(cur: RoboCupGameControlData, new: RoboCupGameControlData) -> Seq<Notice> {
    report_if(cur.kickingTeam != new.kickingTeam, Notice::KickingTeam(new.kickingTeam))
        + report_if(
        cur.secsRemaining != new.secsRemaining,
        Notice::SecsRemaining(new.secsRemaining),
    ) + report_if(
        cur.secondaryTime != new.secondaryTime,
        Notice::SecondaryTime(new.secondaryTime),
    ) + report_if(!same_teams(cur.teams, new.teams), Notice::Teams(new.teams))
}

/// What taking in `new` reports, field by field in the packet's order: each
/// tracked field whose value changes, with its new value. A new packet number
/// is never reported.
pub open spec fn notices_between(cur: RoboCupGameControlData, new: RoboCupGameControlData) -> Seq<Notice> {
    notices_competition(cur, new) + notices_game(cur, new) + notices_play(cur, new)
}

/// `cur` already agrees with `new` on every reported field.
pub open spec fn in_sync(cur: RoboCupGameControlData, new: RoboCupGameControlData) -> bool {
    &&& cur.playersPerTeam == new.playersPerTeam
    &&& cur.competitionPhase == new.competitionPhase
    &&& cur.competitionType == new.competitionType
    &&& cur.gamePhase == new.gamePhase
    &&& cur.state == new.state
    &&& cur.setPlay == new.setPlay
    &&& cur.firstHalf == new.firstHalf
    &&& cur.kickingTeam == new.kickingTeam
    &&& cur.secsRemaining == new.secsRemaining
    &&& cur.secondaryTime == new.secondaryTime
    &&& same_teams(cur.teams, new.teams)
}

/// After taking in a game state the handler agrees with it on every tracked
/// field, and keeps its own header and version.
pub proof fn lemma_update_follows_new(cur: RoboCupGameControlData, new: RoboCupGameControlData)
    ensures
        in_sync(merged(cur, new), new),
        merged(cur, new).packetNumber == new.packetNumber,
        merged(cur, new).playersPerTeam == new.playersPerTeam,
        merged(cur, new).competitionPhase == new.competitionPhase,
        merged(cur, new).competitionType == new.competitionType,
        merged(cur, new).gamePhase == new.gamePhase,
        merged(cur, new).state == new.state,
        merged(cur, new).setPlay == new.setPlay,
        merged(cur, new).firstHalf == new.firstHalf,
        merged(cur, new).kickingTeam == new.kickingTeam,
        merged(cur, new).secsRemaining == new.secsRemaining,
        merged(cur, new).secondaryTime == new.secondaryTime,
        team_record_changed(cur.teams@[0], new.teams@[0]) || team_record_changed(
            cur.teams@[1],
            new.teams@[1],
        ) ==> merged(cur, new).teams == new.teams,
        !team_record_changed(cur.teams@[0], new.teams@[0]) && !team_record_changed(
            cur.teams@[1],
            new.teams@[1],
        ) ==> merged(cur, new).teams == cur.teams,
        merged(cur, new).header == cur.header,
        merged(cur, new).version == cur.version,
{
}

/// Taking in the same game state twice changes nothing the second time and
/// reports nothing.
pub proof fn lemma_update_idempotent(cur: RoboCupGameControlData, new: RoboCupGameControlData)
    ensures
        merged(merged(cur, new), new) == merged(cur, new),
        notices_between(merged(cur, new), new) == Seq::<Notice>::empty(),
{
    assert(notices_between(merged(cur, new), new) =~= Seq::<Notice>::empty());
}

/// Taking in a game state reports nothing exactly when the handler already
/// agrees with it on every tracked field.
pub proof fn lemma_quiet_iff_in_sync(cur: RoboCupGameControlData, new: RoboCupGameControlData)
    ensures
        notices_between(cur, new).len() == 0 <==> in_sync(cur, new),
{
    lemma_one_report_per_changed_field(cur, new);
    assert(same_teams(cur.teams, new.teams) == !(team_record_changed(cur.teams@[0], new.teams@[0])
        || team_record_changed(cur.teams@[1], new.teams@[1])));
}

/// Two team records differ in a field other than their player slots.
pub open spec fn team_record_changed(a: TeamInfo, b: TeamInfo) -> bool {
    ||| a.teamNumber != b.teamNumber
    ||| a.fieldPlayerColour != b.fieldPlayerColour
    ||| a.goalkeeperColour != b.goalkeeperColour
    ||| a.goalkeeper != b.goalkeeper
    ||| a.score != b.score
    ||| a.penaltyShot != b.penaltyShot
    ||| a.singleShots != b.singleShots
    ||| a.messageBudget != b.messageBudget
}

/// 1 for a field that changes, 0 otherwise.
pub open spec fn count_if(changed: bool) -> int {
    if changed {
        1
    } else {
        0
    }
}

/// The number of reported fields whose value changes from `cur` to `new`,
/// the pair of team records counting as one field.
pub open spec fn changed_field_count(cur: RoboCupGameControlData, new: RoboCupGameControlData) -> int {
    count_if(cur.playersPerTeam != new.playersPerTeam) + count_if(
        cur.competitionPhase != new.competitionPhase,
    ) + count_if(cur.competitionType != new.competitionType) + count_if(
        cur.gamePhase != new.gamePhase,
    ) + count_if(cur.state != new.state) + count_if(cur.setPlay != new.setPlay) + count_if(
        cur.firstHalf != new.firstHalf,
    ) + count_if(cur.kickingTeam != new.kickingTeam) + count_if(
        cur.secsRemaining != new.secsRemaining,
    ) + count_if(cur.secondaryTime != new.secondaryTime) + count_if(
        team_record_changed(cur.teams@[0], new.teams@[0]) || team_record_changed(
            cur.teams@[1],
            new.teams@[1],
        ),
    )
}

/// No report in `ns` is a report of the teams.
pub open spec fn no_teams_notice(ns: Seq<Notice>) -> bool {
    forall|i: int| 0 <= i < ns.len() ==> !(#[trigger] ns[i] is Teams)
}

proof fn lemma_no_teams_notice_concat(a: Seq<Notice>, b: Seq<Notice>)
    requires
        no_teams_notice(a),
        no_teams_notice(b),
    ensures
        no_teams_notice(a + b),
{
    assert forall|i: int| 0 <= i < (a + b).len() implies !(#[trigger] (a + b)[i] is Teams) by {
        if i < a.len() {
            assert((a + b)[i] == a[i]);
        } else {
            assert((a + b)[i] == b[i - a.len()]);
        }
    }
}

proof fn lemma_competition_reports(cur: RoboCupGameControlData, new: RoboCupGameControlData)
    ensures
        no_teams_notice(notices_competition(cur, new)),
        notices_competition(cur, new).len() == count_if(cur.playersPerTeam != new.playersPerTeam)
            + count_if(cur.competitionPhase != new.competitionPhase) + count_if(
            cur.competitionType != new.competitionType,
        ),
{
    let r1 = report_if(cur.playersPerTeam != new.playersPerTeam, Notice::PlayersPerTeam(new.playersPerTeam));
    let r2 = report_if(cur.competitionPhase != new.competitionPhase, Notice::CompetitionPhase(new.competitionPhase));
    let r3 = report_if(cur.competitionType != new.competitionType, Notice::CompetitionType(new.competitionType));
    assert(no_teams_notice(r1) && no_teams_notice(r2) && no_teams_notice(r3));
    lemma_no_teams_notice_concat(r1, r2);
    lemma_no_teams_notice_concat(r1 + r2, r3);
}

proof fn lemma_game_reports(cur: RoboCupGameControlData, new: RoboCupGameControlData)
    ensures
        no_teams_notice(notices_game(cur, new)),
        notices_game(cur, new).len() == count_if(cur.gamePhase != new.gamePhase) + count_if(
            cur.state != new.state,
        ) + count_if(cur.setPlay != new.setPlay) + count_if(cur.firstHalf != new.firstHalf),
{
    let r4 = report_if(cur.gamePhase != new.gamePhase, Notice::GamePhase(new.gamePhase));
    let r5 = report_if(cur.state != new.state, Notice::State(new.state));
    let r6 = report_if(cur.setPlay != new.setPlay, Notice::SetPlay(new.setPlay));
    let r7 = report_if(cur.firstHalf != new.firstHalf, Notice::FirstHalf(new.firstHalf));
    assert(no_teams_notice(r4) && no_teams_notice(r5) && no_teams_notice(r6) && no_teams_notice(r7));
    lemma_no_teams_notice_concat(r4, r5);
    lemma_no_teams_notice_concat(r4 + r5, r6);
    lemma_no_teams_notice_concat(r4 + r5 + r6, r7);
}

/// The reports of the play fields before the team records.
pub open spec fn notices_play_times(cur: RoboCupGameControlData, new: RoboCupGameControlData) -> Seq<Notice> {
    report_if(cur.kickingTeam != new.kickingTeam, Notice::KickingTeam(new.kickingTeam))
        + report_if(
        cur.secsRemaining != new.secsRemaining,
        Notice::SecsRemaining(new.secsRemaining),
    ) + report_if(
        cur.secondaryTime != new.secondaryTime,
        Notice::SecondaryTime(new.secondaryTime),
    )
}

proof fn lemma_play_reports(cur: RoboCupGameControlData, new: RoboCupGameControlData)
    ensures
        no_teams_notice(notices_play_times(cur, new)),
        notices_play_times(cur, new).len() == count_if(cur.kickingTeam != new.kickingTeam)
            + count_if(cur.secsRemaining != new.secsRemaining) + count_if(
            cur.secondaryTime != new.secondaryTime,
        ),
{
    let r8 = report_if(cur.kickingTeam != new.kickingTeam, Notice::KickingTeam(new.kickingTeam));
    let r9 = report_if(cur.secsRemaining != new.secsRemaining, Notice::SecsRemaining(new.secsRemaining));
    let r10 = report_if(cur.secondaryTime != new.secondaryTime, Notice::SecondaryTime(new.secondaryTime));
    assert(no_teams_notice(r8) && no_teams_notice(r9) && no_teams_notice(r10));
    lemma_no_teams_notice_concat(r8, r9);
    lemma_no_teams_notice_concat(r8 + r9, r10);
}

/// Each changed field is reported once: there are as many reports as
/// changed fields, the team records are reported at most once, as the last
/// report, and only when one of them changes in a field other than its player
/// slots.
pub proof fn lemma_one_report_per_changed_field(cur: RoboCupGameControlData, new: RoboCupGameControlData)
    ensures
        notices_between(cur, new).len() == changed_field_count(cur, new),
        forall|i: int|
            0 <= i < notices_between(cur, new).len() - 1 ==> !(
            #[trigger] notices_between(cur, new)[i] is Teams),
        notices_between(cur, new).len() > 0 && notices_between(cur, new).last() is Teams
            <==> (team_record_changed(cur.teams@[0], new.teams@[0]) || team_record_changed(
            cur.teams@[1],
            new.teams@[1],
        )),
{
    let teams_changed = team_record_changed(cur.teams@[0], new.teams@[0]) || team_record_changed(
        cur.teams@[1],
        new.teams@[1],
    );
    assert(teams_changed == !same_teams(cur.teams, new.teams));
    let rt = report_if(!same_teams(cur.teams, new.teams), Notice::Teams(new.teams));
    lemma_competition_reports(cur, new);
    lemma_game_reports(cur, new);
    lemma_play_reports(cur, new);
    let prefix = notices_competition(cur, new) + notices_game(cur, new) + notices_play_times(cur, new);
    lemma_no_teams_notice_concat(notices_competition(cur, new), notices_game(cur, new));
    lemma_no_teams_notice_concat(
        notices_competition(cur, new) + notices_game(cur, new),
        notices_play_times(cur, new),
    );
    let ns = notices_between(cur, new);
    assert(notices_play(cur, new) == notices_play_times(cur, new) + rt);
    assert(ns =~= prefix + rt);
    assert(prefix.len() + count_if(teams_changed) == changed_field_count(cur, new));
    assert forall|i: int| 0 <= i < ns.len() - 1 implies !(#[trigger] ns[i] is Teams) by {
        assert(ns[i] == prefix[i]);
    }
    if ns.len() > 0 && ns.last() is Teams {
        if !teams_changed {
            assert(ns =~= prefix);
            assert(ns.last() == prefix[prefix.len() - 1]);
        }
    }
    if teams_changed {
        assert(ns.last() == Notice::Teams(new.teams));
    }
}

/// The position of a report's field in the packet.
pub open spec fn field_rank(n: Notice) -> int {
    match n {
        Notice::PlayersPerTeam(_) => 0,
        Notice::CompetitionPhase(_) => 1,
        Notice::CompetitionType(_) => 2,
        Notice::GamePhase(_) => 3,
        Notice::State(_) => 4,
        Notice::SetPlay(_) => 5,
        Notice::FirstHalf(_) => 6,
        Notice::KickingTeam(_) => 7,
        Notice::SecsRemaining(_) => 8,
        Notice::SecondaryTime(_) => 9,
        Notice::Teams(_) => 10,
    }
}

/// The report `n` is due between `cur` and `new`: its field changes, and it
/// carries the field's value in `new`.
pub open spec fn is_due(cur: RoboCupGameControlData, new: RoboCupGameControlData, n: Notice) -> bool {
    match n {
        Notice::PlayersPerTeam(v) => v == new.playersPerTeam && cur.playersPerTeam != v,
        Notice::CompetitionPhase(v) => v == new.competitionPhase && cur.competitionPhase != v,
        Notice::CompetitionType(v) => v == new.competitionType && cur.competitionType != v,
        Notice::GamePhase(v) => v == new.gamePhase && cur.gamePhase != v,
        Notice::State(v) => v == new.state && cur.state != v,
        Notice::SetPlay(v) => v == new.setPlay && cur.setPlay != v,
        Notice::FirstHalf(v) => v == new.firstHalf && cur.firstHalf != v,
        Notice::KickingTeam(v) => v == new.kickingTeam && cur.kickingTeam != v,
        Notice::SecsRemaining(v) => v == new.secsRemaining && cur.secsRemaining != v,
        Notice::SecondaryTime(v) => v == new.secondaryTime && cur.secondaryTime != v,
        Notice::Teams(t) => t == new.teams && (team_record_changed(cur.teams@[0], new.teams@[0])
            || team_record_changed(cur.teams@[1], new.teams@[1])),
    }
}

/// Every report in `ns` is due, its field lies in positions `lo..hi`, and the
/// reports come in strictly increasing field position.
pub open spec fn due_in_order(
    cur: RoboCupGameControlData,
    new: RoboCupGameControlData,
    ns: Seq<Notice>,
    lo: int,
    hi: int,
) -> bool {
    &&& forall|i: int|
        0 <= i < ns.len() ==> is_due(cur, new, #[trigger] ns[i]) && lo <= field_rank(ns[i]) < hi
    &&& forall|i: int, j: int|
        0 <= i < j < ns.len() ==> field_rank(#[trigger] ns[i]) < field_rank(#[trigger] ns[j])
}

proof fn lemma_due_in_order_concat(
    cur: RoboCupGameControlData,
    new: RoboCupGameControlData,
    a: Seq<Notice>,
    b: Seq<Notice>,
    lo: int,
    mid: int,
    hi: int,
)
    requires
        lo <= mid <= hi,
        due_in_order(cur, new, a, lo, mid),
        due_in_order(cur, new, b, mid, hi),
    ensures
        due_in_order(cur, new, a + b, lo, hi),
{
    let c = a + b;
    assert forall|i: int| 0 <= i < c.len() implies is_due(cur, new, #[trigger] c[i]) && lo
        <= field_rank(c[i]) < hi by {
        if i < a.len() {
            assert(c[i] == a[i]);
        } else {
            assert(c[i] == b[i - a.len()]);
        }
    }
    assert forall|i: int, j: int| 0 <= i < j < c.len() implies field_rank(#[trigger] c[i])
        < field_rank(#[trigger] c[j]) by {
        if j < a.len() {
            assert(c[i] == a[i] && c[j] == a[j]);
        } else if i >= a.len() {
            assert(c[i] == b[i - a.len()] && c[j] == b[j - a.len()]);
        } else {
            assert(c[i] == a[i] && c[j] == b[j - a.len()]);
        }
    }
}

proof fn lemma_report_if_due(
    cur: RoboCupGameControlData,
    new: RoboCupGameControlData,
    changed: bool,
    n: Notice,
)
    requires
        changed ==> is_due(cur, new, n),
    ensures
        due_in_order(cur, new, report_if(changed, n), field_rank(n), field_rank(n) + 1),
{
}

proof fn lemma_competition_due(cur: RoboCupGameControlData, new: RoboCupGameControlData)
    ensures
        due_in_order(cur, new, notices_competition(cur, new), 0, 3),
{
    let r1 = report_if(cur.playersPerTeam != new.playersPerTeam, Notice::PlayersPerTeam(new.playersPerTeam));
    let r2 = report_if(cur.competitionPhase != new.competitionPhase, Notice::CompetitionPhase(new.competitionPhase));
    let r3 = report_if(cur.competitionType != new.competitionType, Notice::CompetitionType(new.competitionType));
    lemma_report_if_due(cur, new, cur.playersPerTeam != new.playersPerTeam, Notice::PlayersPerTeam(new.playersPerTeam));
    lemma_report_if_due(cur, new, cur.competitionPhase != new.competitionPhase, Notice::CompetitionPhase(new.competitionPhase));
    lemma_report_if_due(cur, new, cur.competitionType != new.competitionType, Notice::CompetitionType(new.competitionType));
    lemma_due_in_order_concat(cur, new, r1, r2, 0, 1, 2);
    lemma_due_in_order_concat(cur, new, r1 + r2, r3, 0, 2, 3);
}

proof fn lemma_game_due(cur: RoboCupGameControlData, new: RoboCupGameControlData)
    ensures
        due_in_order(cur, new, notices_game(cur, new), 3, 7),
{
    let r4 = report_if(cur.gamePhase != new.gamePhase, Notice::GamePhase(new.gamePhase));
    let r5 = report_if(cur.state != new.state, Notice::State(new.state));
    let r6 = report_if(cur.setPlay != new.setPlay, Notice::SetPlay(new.setPlay));
    let r7 = report_if(cur.firstHalf != new.firstHalf, Notice::FirstHalf(new.firstHalf));
    lemma_report_if_due(cur, new, cur.gamePhase != new.gamePhase, Notice::GamePhase(new.gamePhase));
    lemma_report_if_due(cur, new, cur.state != new.state, Notice::State(new.state));
    lemma_report_if_due(cur, new, cur.setPlay != new.setPlay, Notice::SetPlay(new.setPlay));
    lemma_report_if_due(cur, new, cur.firstHalf != new.firstHalf, Notice::FirstHalf(new.firstHalf));
    lemma_due_in_order_concat(cur, new, r4, r5, 3, 4, 5);
    lemma_due_in_order_concat(cur, new, r4 + r5, r6, 3, 5, 6);
    lemma_due_in_order_concat(cur, new, r4 + r5 + r6, r7, 3, 6, 7);
}

proof fn lemma_play_due(cur: RoboCupGameControlData, new: RoboCupGameControlData)
    ensures
        due_in_order(cur, new, notices_play(cur, new), 7, 11),
{
    let r8 = report_if(cur.kickingTeam != new.kickingTeam, Notice::KickingTeam(new.kickingTeam));
    let r9 = report_if(cur.secsRemaining != new.secsRemaining, Notice::SecsRemaining(new.secsRemaining));
    let r10 = report_if(cur.secondaryTime != new.secondaryTime, Notice::SecondaryTime(new.secondaryTime));
    let rt = report_if(!same_teams(cur.teams, new.teams), Notice::Teams(new.teams));
    lemma_report_if_due(cur, new, cur.kickingTeam != new.kickingTeam, Notice::KickingTeam(new.kickingTeam));
    lemma_report_if_due(cur, new, cur.secsRemaining != new.secsRemaining, Notice::SecsRemaining(new.secsRemaining));
    lemma_report_if_due(cur, new, cur.secondaryTime != new.secondaryTime, Notice::SecondaryTime(new.secondaryTime));
    lemma_report_if_due(cur, new, !same_teams(cur.teams, new.teams), Notice::Teams(new.teams));
    lemma_due_in_order_concat(cur, new, r8, r9, 7, 8, 9);
    lemma_due_in_order_concat(cur, new, r8 + r9, r10, 7, 9, 10);
    lemma_due_in_order_concat(cur, new, r8 + r9 + r10, rt, 7, 10, 11);
}

/// Every report is due: its field changes, and it carries the field's new
/// value. The reports come in the order of the packet's fields, so no field
/// is reported twice.
pub proof fn lemma_reports_due_in_packet_order(cur: RoboCupGameControlData, new: RoboCupGameControlData)
    ensures
        forall|i: int|
            0 <= i < notices_between(cur, new).len() ==> is_due(
                cur,
                new,
                #[trigger] notices_between(cur, new)[i],
            ),
        forall|i: int, j: int|
            0 <= i < j < notices_between(cur, new).len() ==> field_rank(
                #[trigger] notices_between(cur, new)[i],
            ) < field_rank(#[trigger] notices_between(cur, new)[j]),
{
    lemma_competition_due(cur, new);
    lemma_game_due(cur, new);
    lemma_play_due(cur, new);
    lemma_due_in_order_concat(cur, new, notices_competition(cur, new), notices_game(cur, new), 0, 3, 7);
    lemma_due_in_order_concat(
        cur,
        new,
        notices_competition(cur, new) + notices_game(cur, new),
        notices_play(cur, new),
        0,
        7,
        11,
    );
}

fn report(notices: &mut Vec<Notice>, n: Option<Notice>)
    ensures
        final(notices)@ == match n {
            Some(x) => old(notices)@.push(x),
            None => old(notices)@,
        },
{
    if let Some(x) = n {
        notices.push(x);
    }
}

impl GCHandler {
    /// Starts from the first game state heard.
    pub fn new(init: RoboCupGameControlData) -> (h: GCHandler)
        ensures
            h.current == init,
    {
        GCHandler { current: init }
    }

    /// A change of the packet number is not reported.
    #[allow(non_snake_case)]
    pub fn interrupt_packetNumber(&self) -> (r: Option<Notice>)
        ensures
            r is None,
    {
        new_packet_number(self.current.packetNumber)
    }

    /// Reports the current number of players per team.
    #[allow(non_snake_case)]
    pub fn interrupt_playersPerTeam(&self) -> (r: Option<Notice>)
        ensures
            r == Some(Notice::PlayersPerTeam(self.current.playersPerTeam)),
    {
        new_players_per_team(self.current.playersPerTeam)
    }

    /// Reports the current competition phase.
    #[allow(non_snake_case)]
    pub fn interrupt_competitionPhase(&self) -> (r: Option<Notice>)
        ensures
            r == Some(Notice::CompetitionPhase(self.current.competitionPhase)),
    {
        new_competition_phase(self.current.competitionPhase)
    }

    /// Reports the current competition type.
    #[allow(non_snake_case)]
    pub fn interrupt_competitionType(&self) -> (r: Option<Notice>)
        ensures
            r == Some(Notice::CompetitionType(self.current.competitionType)),
    {
        new_competition_type(self.current.competitionType)
    }

    /// Reports the current game phase.
    #[allow(non_snake_case)]
    pub fn interrupt_gamePhase(&self) -> (r: Option<Notice>)
        ensures
            r == Some(Notice::GamePhase(self.current.gamePhase)),
    {
        new_game_phase(self.current.gamePhase)
    }

    /// Reports the current game state.
    #[allow(non_snake_case)]
    pub fn interrupt_state(&self) -> (r: Option<Notice>)
        ensures
            r == Some(Notice::State(self.current.state)),
    {
        new_state(self.current.state)
    }

    /// Reports the current set play.
    #[allow(non_snake_case)]
    pub fn interrupt_setPlay(&self) -> (r: Option<Notice>)
        ensures
            r == Some(Notice::SetPlay(self.current.setPlay)),
    {
        new_set_play(self.current.setPlay)
    }

    /// Reports the current half.
    #[allow(non_snake_case)]
    pub fn interrupt_firstHalf(&self) -> (r: Option<Notice>)
        ensures
            r == Some(Notice::FirstHalf(self.current.firstHalf)),
    {
        new_first_half(self.current.firstHalf)
    }

    /// Reports the current kicking team.
    #[allow(non_snake_case)]
    pub fn interrupt_kickingTeam(&self) -> (r: Option<Notice>)
        ensures
            r == Some(Notice::KickingTeam(self.current.kickingTeam)),
    {
        new_kicking_team(self.current.kickingTeam)
    }

    /// Reports the current estimate of the seconds remaining.
    #[allow(non_snake_case)]
    pub fn interrupt_secsRemaining(&self) -> (r: Option<Notice>)
        ensures
            r == Some(Notice::SecsRemaining(self.current.secsRemaining)),
    {
        new_secs_remaining(self.current.secsRemaining)
    }

    /// Reports the current secondary time.
    #[allow(non_snake_case)]
    pub fn interrupt_secondaryTime(&self) -> (r: Option<Notice>)
        ensures
            r == Some(Notice::SecondaryTime(self.current.secondaryTime)),
    {
        new_secondary_time(self.current.secondaryTime)
    }

    /// Reports the current team records.
    #[allow(non_snake_case)]
    pub fn interrupt_teams(&self) -> (r: Option<Notice>)
        ensures
            r == Some(Notice::Teams(self.current.teams)),
    {
        new_teams(self.current.teams)
    }

    fn update_competition(&mut self, new: &RoboCupGameControlData, notices: &mut Vec<Notice>)
        ensures
            final(notices)@ == old(notices)@ + notices_competition(old(self).current, *new),
            final(self).current == (RoboCupGameControlData {
                packetNumber: new.packetNumber,
                playersPerTeam: new.playersPerTeam,
                competitionPhase: new.competitionPhase,
                competitionType: new.competitionType,
                ..old(self).current
            }),
    {
        let ghost n0 = notices@;
        if self.current.packetNumber != new.packetNumber {
            self.current.packetNumber = new.packetNumber;
            report(notices, self.interrupt_packetNumber());
        }
        assert(notices@ =~= n0);
        if self.current.playersPerTeam != new.playersPerTeam {
            self.current.playersPerTeam = new.playersPerTeam;
            report(notices, self.interrupt_playersPerTeam());
        }
        if self.current.competitionPhase != new.competitionPhase {
            self.current.competitionPhase = new.competitionPhase;
            report(notices, self.interrupt_competitionPhase());
        }
        if self.current.competitionType != new.competitionType {
            self.current.competitionType = new.competitionType;
            report(notices, self.interrupt_competitionType());
        }
        assert(notices@ =~= n0 + notices_competition(old(self).current, *new));
    }

    fn update_game(&mut self, new: &RoboCupGameControlData, notices: &mut Vec<Notice>)
        ensures
            final(notices)@ == old(notices)@ + notices_game(old(self).current, *new),
            final(self).current == (RoboCupGameControlData {
                gamePhase: new.gamePhase,
                state: new.state,
                setPlay: new.setPlay,
                firstHalf: new.firstHalf,
                ..old(self).current
            }),
    {
        let ghost n0 = notices@;
        if self.current.gamePhase != new.gamePhase {
            self.current.gamePhase = new.gamePhase;
            report(notices, self.interrupt_gamePhase());
        }
        if self.current.state != new.state {
            self.current.state = new.state;
            report(notices, self.interrupt_state());
        }
        if self.current.setPlay != new.setPlay {
            self.current.setPlay = new.setPlay;
            report(notices, self.interrupt_setPlay());
        }
        if self.current.firstHalf != new.firstHalf {
            self.current.firstHalf = new.firstHalf;
            report(notices, self.interrupt_firstHalf());
        }
        assert(notices@ =~= n0 + notices_game(old(self).current, *new));
    }

    fn update_play(&mut self, new: &RoboCupGameControlData, notices: &mut Vec<Notice>)
        ensures
            final(notices)@ == old(notices)@ + notices_play(old(self).current, *new),
            final(self).current == (RoboCupGameControlData {
                kickingTeam: new.kickingTeam,
                secsRemaining: new.secsRemaining,
                secondaryTime: new.secondaryTime,
                teams: if same_teams(old(self).current.teams, new.teams) {
                    old(self).current.teams
                } else {
                    new.teams
                },
                ..old(self).current
            }),
    {
        let ghost n0 = notices@;
        if self.current.kickingTeam != new.kickingTeam {
            self.current.kickingTeam = new.kickingTeam;
            report(notices, self.interrupt_kickingTeam());
        }
        if self.current.secsRemaining != new.secsRemaining {
            self.current.secsRemaining = new.secsRemaining;
            report(notices, self.interrupt_secsRemaining());
        }
        if self.current.secondaryTime != new.secondaryTime {
            self.current.secondaryTime = new.secondaryTime;
            report(notices, self.interrupt_secondaryTime());
        }
        if !(self.current.teams[0] == new.teams[0]) || !(self.current.teams[1] == new.teams[1]) {
            self.current.teams = new.teams;
            report(notices, self.interrupt_teams());
        }
        assert(notices@ =~= n0 + notices_play(old(self).current, *new));
    }

    /// Takes in a new game state: each tracked field that differs is set to
    /// its new value and reported, in the order of the packet's fields. The
    /// header and version are not tracked; team records are compared without
    /// their player slots.
    pub fn update(&mut self, new: RoboCupGameControlData) -> (notices: Vec<Notice>)
        ensures
            final(self).current == merged(old(self).current, new),
            notices@ == notices_between(old(self).current, new),
    {
        let mut notices: Vec<Notice> = Vec::new();
        self.update_competition(&new, &mut notices);
        self.update_game(&new, &mut notices);
        self.update_play(&new, &mut notices);
        assert(notices@ =~= notices_between(old(self).current, new));
        notices
    }
}

} // verus!
