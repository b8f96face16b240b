use robocup_gc::spl::{RoboCupGameControlData, RobotInfo, TeamInfo, GC_DATA_HEADER};
use robocup_gc::state::game::GCHandler;
use robocup_gc::state::interrupt::{
    new_competition_phase, new_competition_type, new_first_half, new_game_phase,
    new_kicking_team, new_packet_number, new_players_per_team, new_secondary_time,
    new_secs_remaining, new_set_play, new_state, new_teams, Notice,
};

fn team(number: u8) -> TeamInfo {
    TeamInfo {
        teamNumber: number,
        fieldPlayerColour: 0,
        goalkeeperColour: 1,
        goalkeeper: 1,
        score: 0,
        penaltyShot: 0,
        singleShots: 0,
        messageBudget: 1200,
        players: [RobotInfo { penalty: 0, secsTillUnpenalised: 0 }; 20],
    }
}

fn initial() -> RoboCupGameControlData {
    RoboCupGameControlData {
        header: GC_DATA_HEADER,
        version: 15,
        packetNumber: 0,
        playersPerTeam: 7,
        competitionPhase: 0,
        competitionType: 0,
        gamePhase: 0,
        state: 0,
        setPlay: 0,
        firstHalf: 1,
        kickingTeam: 22,
        secsRemaining: 600,
        secondaryTime: 0,
        teams: [team(22), team(5)],
    }
}

fn describe(n: &Notice) -> String {
    format!("{:?}", n)
}

#[test]
fn new_handler_keeps_initial_state() {
    let h = GCHandler::new(initial());
    assert_eq!(h.current.packetNumber, 0);
    assert_eq!(h.current.secsRemaining, 600);
}

#[test]
fn packet_number_change_is_silent_but_tracked() {
    let mut h = GCHandler::new(initial());
    let mut next = initial();
    next.packetNumber = 1;
    let notices = h.update(next);
    assert!(notices.is_empty());
    assert_eq!(h.current.packetNumber, 1);
}

#[test]
fn each_changed_field_is_reported_in_order() {
    let mut h = GCHandler::new(initial());
    let mut next = initial();
    next.state = 3;
    next.playersPerTeam = 5;
    next.secsRemaining = -2;
    let notices = h.update(next);
    let got: Vec<String> = notices.iter().map(describe).collect();
    assert_eq!(got, vec!["PlayersPerTeam(5)", "State(3)", "SecsRemaining(-2)"]);
    assert_eq!(h.current.state, 3);
    assert_eq!(h.current.playersPerTeam, 5);
    assert_eq!(h.current.secsRemaining, -2);
}

#[test]
fn every_field_reported_when_all_change() {
    let mut h = GCHandler::new(initial());
    let mut next = initial();
    next.packetNumber = 9;
    next.playersPerTeam = 6;
    next.competitionPhase = 1;
    next.competitionType = 1;
    next.gamePhase = 2;
    next.state = 1;
    next.setPlay = 3;
    next.firstHalf = 0;
    next.kickingTeam = 5;
    next.secsRemaining = 10;
    next.secondaryTime = 45;
    next.teams[1].score = 2;
    let notices = h.update(next);
    assert_eq!(notices.len(), 11);
    assert!(matches!(notices[0], Notice::PlayersPerTeam(6)));
    assert!(matches!(notices[1], Notice::CompetitionPhase(1)));
    assert!(matches!(notices[2], Notice::CompetitionType(1)));
    assert!(matches!(notices[3], Notice::GamePhase(2)));
    assert!(matches!(notices[4], Notice::State(1)));
    assert!(matches!(notices[5], Notice::SetPlay(3)));
    assert!(matches!(notices[6], Notice::FirstHalf(0)));
    assert!(matches!(notices[7], Notice::KickingTeam(5)));
    assert!(matches!(notices[8], Notice::SecsRemaining(10)));
    assert!(matches!(notices[9], Notice::SecondaryTime(45)));
    match notices[10] {
        Notice::Teams(t) => assert_eq!(t[1].score, 2),
        _ => panic!("expected a teams notice"),
    }
    assert_eq!(h.current.teams[1].score, 2);
}

#[test]
fn update_is_idempotent() {
    let mut h = GCHandler::new(initial());
    let mut next = initial();
    next.gamePhase = 1;
    next.teams[0].score = 1;
    assert_eq!(h.update(next).len(), 2);
    assert!(h.update(next).is_empty());
    assert_eq!(h.current.gamePhase, 1);
    assert_eq!(h.current.teams[0].score, 1);
}

#[test]
fn header_and_version_are_not_tracked() {
    let mut h = GCHandler::new(initial());
    let mut next = initial();
    next.version = 14;
    next.header = [0, 0, 0, 0];
    assert!(h.update(next).is_empty());
    assert_eq!(h.current.version, 15);
    assert_eq!(h.current.header, GC_DATA_HEADER);
}

#[test]
fn players_only_change_is_neither_reported_nor_adopted() {
    let mut h = GCHandler::new(initial());
    let mut next = initial();
    next.teams[0].players[2].penalty = 5;
    assert!(h.update(next).is_empty());
    assert_eq!(h.current.teams[0].players[2].penalty, 0);
    next.teams[0].goalkeeper = 2;
    let notices = h.update(next);
    assert_eq!(notices.len(), 1);
    assert_eq!(h.current.teams[0].players[2].penalty, 5);
    assert_eq!(h.current.teams[0].goalkeeper, 2);
}

#[test]
fn interrupts_report_current_values() {
    let h = GCHandler::new(initial());
    assert!(h.interrupt_packetNumber().is_none());
    assert!(matches!(h.interrupt_playersPerTeam(), Some(Notice::PlayersPerTeam(7))));
    assert!(matches!(h.interrupt_competitionPhase(), Some(Notice::CompetitionPhase(0))));
    assert!(matches!(h.interrupt_competitionType(), Some(Notice::CompetitionType(0))));
    assert!(matches!(h.interrupt_gamePhase(), Some(Notice::GamePhase(0))));
    assert!(matches!(h.interrupt_state(), Some(Notice::State(0))));
    assert!(matches!(h.interrupt_setPlay(), Some(Notice::SetPlay(0))));
    assert!(matches!(h.interrupt_firstHalf(), Some(Notice::FirstHalf(1))));
    assert!(matches!(h.interrupt_kickingTeam(), Some(Notice::KickingTeam(22))));
    assert!(matches!(h.interrupt_secsRemaining(), Some(Notice::SecsRemaining(600))));
    assert!(matches!(h.interrupt_secondaryTime(), Some(Notice::SecondaryTime(0))));
    match h.interrupt_teams() {
        Some(Notice::Teams(t)) => assert_eq!(t[0].teamNumber, 22),
        _ => panic!("expected a teams notice"),
    }
}

#[test]
fn value_notices_carry_their_value() {
    assert!(new_packet_number(7).is_none());
    assert!(matches!(new_players_per_team(5), Some(Notice::PlayersPerTeam(5))));
    assert!(matches!(new_competition_phase(1), Some(Notice::CompetitionPhase(1))));
    assert!(matches!(new_competition_type(1), Some(Notice::CompetitionType(1))));
    assert!(matches!(new_game_phase(3), Some(Notice::GamePhase(3))));
    assert!(matches!(new_state(4), Some(Notice::State(4))));
    assert!(matches!(new_set_play(5), Some(Notice::SetPlay(5))));
    assert!(matches!(new_first_half(0), Some(Notice::FirstHalf(0))));
    assert!(matches!(new_kicking_team(22), Some(Notice::KickingTeam(22))));
    assert!(matches!(new_secs_remaining(-30), Some(Notice::SecsRemaining(-30))));
    assert!(matches!(new_secondary_time(15), Some(Notice::SecondaryTime(15))));
    match new_teams([team(1), team(2)]) {
        Some(Notice::Teams(t)) => assert_eq!(t[1].teamNumber, 2),
        _ => panic!("expected a teams notice"),
    }
}
