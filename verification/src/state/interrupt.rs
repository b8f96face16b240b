use crate::spl::TeamInfo;
use vstd::prelude::*;

verus! {

/// A report that a field of the game state took a new value, carrying that
/// value. The caller decides how to show it.
#[derive(Clone, Copy, Debug)]
pub enum Notice {
    PlayersPerTeam(u8),
    CompetitionPhase(u8),
    CompetitionType(u8),
    GamePhase(u8),
    State(u8),
    SetPlay(u8),
    FirstHalf(u8),
    KickingTeam(u8),
    SecsRemaining(i16),
    SecondaryTime(i16),
    Teams([TeamInfo; 2]),
}

/// A new packet number is not reported: it changes with every packet.
pub fn new_packet_number(_value: u8) -> (r: Option<Notice>)
    ensures
        r is None,
{
    None
}

/// Reports a new number of players per team.
pub fn new_players_per_team(value: u8) -> (r: Option<Notice>)
    ensures
        r == Some(Notice::PlayersPerTeam(value)),
{
    Some(Notice::PlayersPerTeam(value))
}

/// Reports a new competition phase.
pub fn new_competition_phase(value: u8) -> (r: Option<Notice>)
    ensures
        r == Some(Notice::CompetitionPhase(value)),
{
    Some(Notice::CompetitionPhase(value))
}

/// Reports a new competition type.
pub fn new_competition_type(value: u8) -> (r: Option<Notice>)
    ensures
        r == Some(Notice::CompetitionType(value)),
{
    Some(Notice::CompetitionType(value))
}

/// Reports a new game phase.
pub fn new_game_phase(value: u8) -> (r: Option<Notice>)
    ensures
        r == Some(Notice::GamePhase(value)),
{
    Some(Notice::GamePhase(value))
}

/// Reports a new game state.
pub fn new_state(value: u8) -> (r: Option<Notice>)
    ensures
        r == Some(Notice::State(value)),
{
    Some(Notice::State(value))
}

/// Reports a new set play.
pub fn new_set_play(value: u8) -> (r: Option<Notice>)
    ensures
        r == Some(Notice::SetPlay(value)),
{
    Some(Notice::SetPlay(value))
}

/// Reports a change of half.
pub fn new_first_half(value: u8) -> (r: Option<Notice>)
    ensures
        r == Some(Notice::FirstHalf(value)),
{
    Some(Notice::FirstHalf(value))
}

/// Reports a new kicking team.
pub fn new_kicking_team(value: u8) -> (r: Option<Notice>)
    ensures
        r == Some(Notice::KickingTeam(value)),
{
    Some(Notice::KickingTeam(value))
}

/// Reports a new estimate of the seconds remaining.
pub fn new_secs_remaining(value: i16) -> (r: Option<Notice>)
    ensures
        r == Some(Notice::SecsRemaining(value)),
{
    Some(Notice::SecsRemaining(value))
}

/// Reports a new secondary time.
pub fn new_secondary_time(value: i16) -> (r: Option<Notice>)
    ensures
        r == Some(Notice::SecondaryTime(value)),
{
    Some(Notice::SecondaryTime(value))
}

/// Reports new team records.
pub fn new_teams(value: [TeamInfo; 2]) -> (r: Option<Notice>)
    ensures
        r == Some(Notice::Teams(value)),
{
    Some(Notice::Teams(value))
}

} // verus!
