use crate::spl::{
    is_decoding_of, RoboCupGameControlData, RoboCupGameControlReturnData,
    GAMECONTROLLER_DATA_PORT, GAMECONTROLLER_RETURN_PORT, GC_DATA_HEADER, GC_DATA_SIZE,
    GC_RETURN_HEADER, GC_RETURN_VERSION, TEAM_NUMBER,
};
use vstd::prelude::*;

verus! {

/// Port on which the game state is received.
pub const GC_DATA_PORT: u16 = 3838;

/// Port of the GameController to which replies are sent.
pub const GC_RETURN_PORT: u16 = 3939;

/// The port numbers fit the 16 bits of a UDP port.
pub proof fn lemma_ports_fit()
    ensures
        GC_DATA_PORT as u32 == GAMECONTROLLER_DATA_PORT,
        GC_RETURN_PORT as u32 == GAMECONTROLLER_RETURN_PORT,
{
}

/// A game state is meant for `team`: it carries the game-state header, and
/// one of its two teams has that number.
pub open spec fn is_for_team(data: RoboCupGameControlData, team: u8) -> bool {
    &&& data.header@ == GC_DATA_HEADER@
    &&& exists|i: int| 0 <= i < 2 && (#[trigger] data.teams@[i]).teamNumber == team
}

/// A game state is for `team` exactly when its header is "RGme" and the
/// first or the second team record carries `team`'s number; nothing else in
/// the state matters.
pub proof fn lemma_for_team_reads_header_and_team_numbers(data: RoboCupGameControlData, team: u8)
    ensures
        is_for_team(data, team) <==> (data.header@ == seq![82i8, 71i8, 109i8, 101i8] && (
        data.teams@[0].teamNumber == team || data.teams@[1].teamNumber == team)),
{
    assert(GC_DATA_HEADER@ =~= seq![82i8, 71i8, 109i8, 101i8]);
    if data.teams@[0].teamNumber == team {
        assert(exists|i: int| 0 <= i < 2 && (#[trigger] data.teams@[i]).teamNumber == team);
    }
    if data.teams@[1].teamNumber == team {
        assert(exists|i: int| 0 <= i < 2 && (#[trigger] data.teams@[i]).teamNumber == team);
    }
}

/// Whether a game state carries the game-state header and names `team` as
/// one of its two teams. The layout version is not checked.
pub fn packet_is_for_team(data: &RoboCupGameControlData, team: u8) -> (r: bool)
    ensures
        r == is_for_team(*data, team),
{
    let header_ok = data.header[0] == GC_DATA_HEADER[0] && data.header[1] == GC_DATA_HEADER[1]
        && data.header[2] == GC_DATA_HEADER[2] && data.header[3] == GC_DATA_HEADER[3];
    proof {
        if header_ok {
            assert(data.header@ =~= GC_DATA_HEADER@);
        }
    }
    let team_ok = data.teams[0].teamNumber == team || data.teams[1].teamNumber == team;
    proof {
        if team_ok {
            if data.teams[0].teamNumber == team {
                assert(data.teams@[0].teamNumber == team);
            } else {
                assert(data.teams@[1].teamNumber == team);
            }
        }
    }
    header_ok && team_ok
}

/// What a read from the socket gave.
pub enum RecvEvent {
    /// A datagram arrived with these bytes.
    Datagram(Vec<u8>),
    /// Nothing is waiting on a non-blocking socket.
    WouldBlock,
    /// The read failed for another reason.
    Failed,
}

/// What to do after a read from the socket.
pub enum RecvStep {
    /// A game state for this team arrived: hand it out.
    Accept(RoboCupGameControlData),
    /// A game state arrived that is not for this team: drop it and read on.
    Reject(RoboCupGameControlData),
    /// Nothing is waiting, and the caller waits for a game state: read again.
    Retry,
    /// Nothing is waiting, and the caller does not wait: give up.
    Nothing,
    /// The socket failed: stop.
    Fail,
}

/// The receive buffer after a datagram of `bytes` is read into `buf`: the
/// datagram's bytes overwrite the start of the buffer, bytes past its end are
/// cut off, and the rest of the buffer keeps what it held.
pub open spec fn received_into(buf: Seq<u8>, bytes: Seq<u8>) -> Seq<u8> {
    Seq::new(buf.len(), |j: int| if j < bytes.len() { bytes[j] } else { buf[j] })
}

/// Decides, for one read from the socket, what receiving a game state for
/// `team` does next; `block` tells whether the caller waits for one. A
/// datagram is read into the receive buffer `buf`, which the caller keeps
/// across the reads of one receive, and the game state is the whole buffer
/// read as a packet: a datagram shorter than a packet leaves the buffer's
/// tail as an earlier read left it.
pub fn recv_step(event: RecvEvent, buf: &mut [u8; 118], block: bool, team: u8) -> (step: RecvStep)
    ensures
        match event {
            RecvEvent::Datagram(bytes) => {
                &&& final(buf)@ == received_into(old(buf)@, bytes@)
                &&& match step {
                    RecvStep::Accept(d) => is_decoding_of(d, final(buf)@) && is_for_team(d, team),
                    RecvStep::Reject(d) => is_decoding_of(d, final(buf)@) && !is_for_team(d, team),
                    _ => false,
                }
            },
            RecvEvent::WouldBlock => {
                &&& *final(buf) == *old(buf)
                &&& step == if block {
                    RecvStep::Retry
                } else {
                    RecvStep::Nothing
                }
            },
            RecvEvent::Failed => *final(buf) == *old(buf) && step == RecvStep::Fail,
        },
{
    match event {
        RecvEvent::Datagram(bytes) => {
            let ghost start = buf@;
            let n: usize = if bytes.len() < GC_DATA_SIZE {
                bytes.len()
            } else {
                GC_DATA_SIZE
            };
            let mut i: usize = 0;
            while i < n
                invariant
                    i <= n,
                    n <= GC_DATA_SIZE,
                    n <= bytes@.len(),
                    n == bytes@.len() || n == GC_DATA_SIZE,
                    start.len() == GC_DATA_SIZE,
                    buf@.len() == GC_DATA_SIZE,
                    forall|j: int|
                        0 <= j < GC_DATA_SIZE ==> #[trigger] buf@[j] == if j < i {
                            bytes@[j]
                        } else {
                            start[j]
                        },
                decreases n - i,
            {
                buf[i] = bytes[i];
                i = i + 1;
            }
            assert(buf@ =~= received_into(start, bytes@));
            match RoboCupGameControlData::from_bytes(buf.as_slice()) {
                None => RecvStep::Fail,
                Some(d) => {
                    if packet_is_for_team(&d, team) {
                        RecvStep::Accept(d)
                    } else {
                        RecvStep::Reject(d)
                    }
                },
            }
        },
        RecvEvent::WouldBlock => {
            if block {
                RecvStep::Retry
            } else {
                RecvStep::Nothing
            }
        },
        RecvEvent::Failed => RecvStep::Fail,
    }
}

/// The reply that this robot sends after each game state it takes in:
/// player 1 of this team, not fallen, with pose, ball age and ball position
/// all zero.
pub fn status_reply() -> (r: RoboCupGameControlReturnData)
    ensures
        r.header == GC_RETURN_HEADER,
        r.version == GC_RETURN_VERSION,
        r.playerNum == 1,
        r.teamNum == TEAM_NUMBER,
        r.fallen == 0,
        r.pose_bits@ == seq![0u32, 0u32, 0u32],
        r.ball_age_bits == 0,
        r.ball_bits@ == seq![0u32, 0u32],
{
    let r = RoboCupGameControlReturnData {
        header: GC_RETURN_HEADER,
        version: GC_RETURN_VERSION,
        playerNum: 1,
        teamNum: TEAM_NUMBER,
        fallen: 0,
        pose_bits: [0, 0, 0],
        ball_age_bits: 0,
        ball_bits: [0, 0],
    };
    assert(r.pose_bits@ =~= seq![0u32, 0u32, 0u32]);
    assert(r.ball_bits@ =~= seq![0u32, 0u32]);
    r
}

} // verus!
