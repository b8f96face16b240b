use vstd::prelude::*;

verus! {

/// UDP port on which the GameController broadcasts its game state.
pub const GAMECONTROLLER_DATA_PORT: u32 = 3838;

/// UDP port on which the GameController listens for the robots' replies.
pub const GAMECONTROLLER_RETURN_PORT: u32 = 3939;

/// NUL-terminated magic of a game-state packet ("RGme").
pub const GAMECONTROLLER_STRUCT_HEADER: [u8; 5] = [82, 71, 109, 101, 0];

/// Version of the game-state packet layout that this client reads.
pub const GAMECONTROLLER_STRUCT_VERSION: u32 = 15;

/// NUL-terminated magic of a robot's reply packet ("RGrt").
pub const GAMECONTROLLER_RETURN_STRUCT_HEADER: [u8; 5] = [82, 71, 114, 116, 0];

/// Version of the reply packet layout that this client writes.
pub const GAMECONTROLLER_RETURN_STRUCT_VERSION: u32 = 4;

/// Number of player slots per team in a game-state packet.
pub const MAX_NUM_PLAYERS: usize = 20;

/// The header of a game-state packet, as the packet holds it.
pub const GC_DATA_HEADER: [i8; 4] = [82, 71, 109, 101];

/// The layout version of a game-state packet, as the packet holds it.
pub const GC_DATA_VERSION: u8 = 15;

/// The header of a reply packet, as the packet holds it.
pub const GC_RETURN_HEADER: [i8; 4] = [82, 71, 114, 116];

/// The layout version of a reply packet, as the packet holds it.
pub const GC_RETURN_VERSION: u8 = 4;

/// The team number of the UPennalizers in the GameController's team list.
pub const TEAM_NUMBER: u8 = 22;

/// The header that a NUL-terminated four-letter C string stands for: its first
/// four bytes, each read as a C `char`.
pub open spec fn header_of(cstr: Seq<u8>) -> Seq<i8> {
    Seq::new(4, |i: int| cstr[i] as i8)
}

/// The packet headers and versions are those of the GameController's C
/// definitions: each header is the four letters of its C string, and each
/// version fits the byte that carries it.
pub proof fn lemma_headers_match_definitions()
    ensures
        GC_DATA_HEADER@ == header_of(GAMECONTROLLER_STRUCT_HEADER@),
        GC_RETURN_HEADER@ == header_of(GAMECONTROLLER_RETURN_STRUCT_HEADER@),
        GC_DATA_VERSION as u32 == GAMECONTROLLER_STRUCT_VERSION,
        GC_RETURN_VERSION as u32 == GAMECONTROLLER_RETURN_STRUCT_VERSION,
{
    assert(GC_DATA_HEADER@ =~= header_of(GAMECONTROLLER_STRUCT_HEADER@));
    assert(GC_RETURN_HEADER@ =~= header_of(GAMECONTROLLER_RETURN_STRUCT_HEADER@));
}

/// Turns a NUL-terminated four-letter C string into a packet header.
pub fn cstr_to_header(cstr: &[u8; 5]) -> (header: [i8; 4])
    ensures
        header@ == header_of(cstr@),
{
    let header: [i8; 4] = [cstr[0] as i8, cstr[1] as i8, cstr[2] as i8, cstr[3] as i8];
    assert(header@ =~= header_of(cstr@));
    header
}


/// Size in bytes of a game-state packet on the wire.
pub const GC_DATA_SIZE: usize = 118;

/// Size in bytes of a reply packet on the wire.
pub const GC_RETURN_SIZE: usize = 32;

/// Offset of the first of the two team records in a game-state packet.
pub const TEAMS_OFFSET: usize = 18;

/// Size in bytes of one team record in a game-state packet.
pub const TEAM_INFO_SIZE: usize = 50;

/// Offset of the player records inside a team record.
pub const PLAYERS_OFFSET: usize = 10;

/// The state of one player slot of a team.
#[allow(non_snake_case)]
#[derive(Clone, Copy, Debug)]
pub struct RobotInfo {
    /// Penalty state of the player.
    pub penalty: u8,
    /// Estimate of the seconds until the player is unpenalised.
    pub secsTillUnpenalised: u8,
}

/// The state of one team.
#[allow(non_snake_case)]
#[derive(Clone, Copy, Debug)]
pub struct TeamInfo {
    /// Unique team number.
    pub teamNumber: u8,
    /// Colour of the field players.
    pub fieldPlayerColour: u8,
    /// Colour of the goalkeeper.
    pub goalkeeperColour: u8,
    /// Player number of the goalkeeper.
    pub goalkeeper: u8,
    /// The team's score.
    pub score: u8,
    /// Penalty shot counter.
    pub penaltyShot: u8,
    /// One bit per penalty shot: whether it succeeded.
    pub singleShots: u16,
    /// Number of team messages the team may still send in this game.
    pub messageBudget: u16,
    /// The team's player slots.
    pub players: [RobotInfo; 20],
}

/// The game state that the GameController broadcasts.
#[allow(non_snake_case)]
#[derive(Clone, Copy, Debug)]
pub struct RoboCupGameControlData {
    /// Header that identifies the packet.
    pub header: [i8; 4],
    /// Version of the packet layout.
    pub version: u8,
    /// Number incremented with each packet sent (with wraparound).
    pub packetNumber: u8,
    /// The number of players on a team.
    pub playersPerTeam: u8,
    /// Phase of the competition (round robin, playoff).
    pub competitionPhase: u8,
    /// Type of the competition.
    pub competitionType: u8,
    /// Phase of the game (normal, penalty shoot-out, overtime, timeout).
    pub gamePhase: u8,
    /// State of the game (initial, ready, set, playing, finished).
    pub state: u8,
    /// Active set play.
    pub setPlay: u8,
    /// 1 while the game is in its first half, 0 otherwise.
    pub firstHalf: u8,
    /// Team number of the team that kicks next.
    pub kickingTeam: u8,
    /// Estimate of the seconds remaining in the half.
    pub secsRemaining: i16,
    /// Seconds shown as secondary time.
    pub secondaryTime: i16,
    /// The two teams.
    pub teams: [TeamInfo; 2],
}

/// The reply that a robot sends to the GameController. The floating-point
/// fields of the wire format are held as their IEEE 754 bit patterns.
#[allow(non_snake_case)]
#[derive(Clone, Copy, Debug)]
pub struct RoboCupGameControlReturnData {
    /// Header that identifies the packet.
    pub header: [i8; 4],
    /// Version of the packet layout.
    pub version: u8,
    /// Number of the sending player.
    pub playerNum: u8,
    /// Team number of the sending player.
    pub teamNum: u8,
    /// 1 if the robot has fallen, 0 otherwise.
    pub fallen: u8,
    /// Bit patterns of the robot's pose (x, y, rotation).
    pub pose_bits: [u32; 3],
    /// Bit pattern of the seconds since the robot last saw the ball.
    pub ball_age_bits: u32,
    /// Bit patterns of the ball position relative to the robot.
    pub ball_bits: [u32; 2],
}

/// Two team records are the same team state: every field but the players
/// agrees.
pub open spec fn same_team_info(a: TeamInfo, b: TeamInfo) -> bool {
    &&& a.teamNumber == b.teamNumber
    &&& a.fieldPlayerColour == b.fieldPlayerColour
    &&& a.goalkeeperColour == b.goalkeeperColour
    &&& a.goalkeeper == b.goalkeeper
    &&& a.score == b.score
    &&& a.penaltyShot == b.penaltyShot
    &&& a.singleShots == b.singleShots
    &&& a.messageBudget == b.messageBudget
}

impl PartialEq for TeamInfo {
    fn eq(&self, other: &TeamInfo) -> (r: bool) {
        self.teamNumber == other.teamNumber && self.fieldPlayerColour == other.fieldPlayerColour
            && self.goalkeeperColour == other.goalkeeperColour && self.goalkeeper
            == other.goalkeeper && self.score == other.score && self.penaltyShot
            == other.penaltyShot && self.singleShots == other.singleShots && self.messageBudget
            == other.messageBudget
    }
}

impl vstd::std_specs::cmp::PartialEqSpecImpl for TeamInfo {
    open spec fn obeys_eq_spec() -> bool {
        true
    }

    open spec fn eq_spec(&self, other: &TeamInfo) -> bool {
        same_team_info(*self, *other)
    }
}

/// Equality of team records is an equivalence relation.
pub proof fn lemma_same_team_info_is_equivalence(a: TeamInfo, b: TeamInfo, c: TeamInfo)
    ensures
        same_team_info(a, a),
        same_team_info(a, b) ==> same_team_info(b, a),
        same_team_info(a, b) && same_team_info(b, c) ==> same_team_info(a, c),
{
}

/// Two team records are the same team state exactly when they agree on
/// every field but the player slots; a change in any one of those fields
/// makes them differ.
pub proof fn lemma_team_equality_compares_every_field(a: TeamInfo, b: TeamInfo)
    ensures
        same_team_info(a, b) <==> (a.teamNumber == b.teamNumber && a.fieldPlayerColour
            == b.fieldPlayerColour && a.goalkeeperColour == b.goalkeeperColour && a.goalkeeper
            == b.goalkeeper && a.score == b.score && a.penaltyShot == b.penaltyShot
            && a.singleShots == b.singleShots && a.messageBudget == b.messageBudget),
        a.players != b.players && a.teamNumber == b.teamNumber && a.fieldPlayerColour
            == b.fieldPlayerColour && a.goalkeeperColour == b.goalkeeperColour && a.goalkeeper
            == b.goalkeeper && a.score == b.score && a.penaltyShot == b.penaltyShot
            && a.singleShots == b.singleShots && a.messageBudget == b.messageBudget ==> same_team_info(
            a,
            b,
        ),
{
}

/// The little-endian 16-bit word at `off` in `s`.
pub open spec fn u16_le(s: Seq<u8>, off: int) -> u16 {
    (s[off] + 256 * s[off + 1]) as u16
}

/// The little-endian two's-complement 16-bit word at `off` in `s`.
pub open spec fn i16_le(s: Seq<u8>, off: int) -> i16 {
    u16_le(s, off) as i16
}

/// The player record at `off` in `s`.
pub open spec fn robot_at(s: Seq<u8>, off: int) -> RobotInfo {
    RobotInfo { penalty: s[off], secsTillUnpenalised: s[off + 1] }
}

/// `t` is the team record that starts at `off` in `s`.
pub open spec fn team_at(t: TeamInfo, s: Seq<u8>, off: int) -> bool {
    &&& t.teamNumber == s[off]
    &&& t.fieldPlayerColour == s[off + 1]
    &&& t.goalkeeperColour == s[off + 2]
    &&& t.goalkeeper == s[off + 3]
    &&& t.score == s[off + 4]
    &&& t.penaltyShot == s[off + 5]
    &&& t.singleShots == u16_le(s, off + 6)
    &&& t.messageBudget == u16_le(s, off + 8)
    &&& forall|i: int|
        0 <= i < MAX_NUM_PLAYERS ==> #[trigger] t.players@[i] == robot_at(
            s,
            off + PLAYERS_OFFSET + 2 * i,
        )
}

/// `d` is the game state that the first `GC_DATA_SIZE` bytes of `s` encode,
/// little-endian, in the C layout of the GameController.
pub open spec fn is_decoding_of(d: RoboCupGameControlData, s: Seq<u8>) -> bool {
    &&& d.header@ == header_of(s)
    &&& d.version == s[4]
    &&& d.packetNumber == s[5]
    &&& d.playersPerTeam == s[6]
    &&& d.competitionPhase == s[7]
    &&& d.competitionType == s[8]
    &&& d.gamePhase == s[9]
    &&& d.state == s[10]
    &&& d.setPlay == s[11]
    &&& d.firstHalf == s[12]
    &&& d.kickingTeam == s[13]
    &&& d.secsRemaining == i16_le(s, 14)
    &&& d.secondaryTime == i16_le(s, 16)
    &&& team_at(d.teams@[0], s, TEAMS_OFFSET as int)
    &&& team_at(d.teams@[1], s, TEAMS_OFFSET + TEAM_INFO_SIZE)
}

/// A decoded game state holds, field by field, the bytes at the field's C
/// offset: single bytes as they are, 16-bit fields as the little-endian word
/// `low + 256 * high` (signed ones in two's complement), the header as the
/// four bytes read as C `char`s, and each team's players as byte pairs.
pub proof fn lemma_decoding_reads_c_offsets(d: RoboCupGameControlData, s: Seq<u8>)
    requires
        is_decoding_of(d, s),
        s.len() >= GC_DATA_SIZE,
    ensures
        forall|i: int| 0 <= i < 4 ==> (#[trigger] d.header@[i]) as u8 == s[i],
        d.version == s[4],
        d.packetNumber == s[5],
        d.playersPerTeam == s[6],
        d.competitionPhase == s[7],
        d.competitionType == s[8],
        d.gamePhase == s[9],
        d.state == s[10],
        d.setPlay == s[11],
        d.firstHalf == s[12],
        d.kickingTeam == s[13],
        d.secsRemaining as u16 == s[14] + 256 * s[15],
        d.secondaryTime as u16 == s[16] + 256 * s[17],
        forall|t: int|
            0 <= t < 2 ==> {
                &&& (#[trigger] d.teams@[t]).teamNumber == s[18 + 50 * t]
                &&& d.teams@[t].fieldPlayerColour == s[19 + 50 * t]
                &&& d.teams@[t].goalkeeperColour == s[20 + 50 * t]
                &&& d.teams@[t].goalkeeper == s[21 + 50 * t]
                &&& d.teams@[t].score == s[22 + 50 * t]
                &&& d.teams@[t].penaltyShot == s[23 + 50 * t]
                &&& d.teams@[t].singleShots == s[24 + 50 * t] + 256 * s[25 + 50 * t]
                &&& d.teams@[t].messageBudget == s[26 + 50 * t] + 256 * s[27 + 50 * t]
            },
        forall|t: int, i: int|
            0 <= t < 2 && 0 <= i < MAX_NUM_PLAYERS ==> {
                &&& (#[trigger] d.teams@[t].players@[i]).penalty == s[28 + 50 * t + 2 * i]
                &&& d.teams@[t].players@[i].secsTillUnpenalised == s[29 + 50 * t + 2 * i]
            },
{
    assert forall|i: int| 0 <= i < 4 implies (#[trigger] d.header@[i]) as u8 == s[i] by {
        let b = s[i];
        assert(d.header@[i] == b as i8);
        assert((b as i8) as u8 == b) by (bit_vector);
    }
    let w14 = u16_le(s, 14);
    let w16 = u16_le(s, 16);
    assert((w14 as i16) as u16 == w14) by (bit_vector);
    assert((w16 as i16) as u16 == w16) by (bit_vector);
    assert forall|t: int, i: int| 0 <= t < 2 && 0 <= i < MAX_NUM_PLAYERS implies {
        &&& (#[trigger] d.teams@[t].players@[i]).penalty == s[28 + 50 * t + 2 * i]
        &&& d.teams@[t].players@[i].secsTillUnpenalised == s[29 + 50 * t + 2 * i]
    } by {
        if t == 0 {
            assert(d.teams@[0].players@[i] == robot_at(s, 18 + 10 + 2 * i));
        } else {
            assert(d.teams@[1].players@[i] == robot_at(s, 68 + 10 + 2 * i));
        }
    }
}

fn read_u16_le(bytes: &[u8], off: usize) -> (r: u16)
    requires
        off + 2 <= bytes@.len(),
    ensures
        r == u16_le(bytes@, off as int),
{
    bytes[off] as u16 + (bytes[off + 1] as u16) * 256
}

fn decode_team(bytes: &[u8], off: usize) -> (t: TeamInfo)
    requires
        off + TEAM_INFO_SIZE <= bytes@.len(),
    ensures
        team_at(t, bytes@, off as int),
{
    let mut players = [RobotInfo { penalty: 0, secsTillUnpenalised: 0 }; 20];
    let mut i: usize = 0;
    while i < MAX_NUM_PLAYERS
        invariant
            i <= MAX_NUM_PLAYERS,
            off + TEAM_INFO_SIZE <= bytes@.len(),
            bytes@.len() == bytes.len(),
            forall|j: int|
                0 <= j < i ==> #[trigger] players@[j] == robot_at(
                    bytes@,
                    off + PLAYERS_OFFSET + 2 * j,
                ),
        decreases MAX_NUM_PLAYERS - i,
    {
        let p = off + PLAYERS_OFFSET + 2 * i;
        players[i] = RobotInfo { penalty: bytes[p], secsTillUnpenalised: bytes[p + 1] };
        i = i + 1;
    }
    TeamInfo {
        teamNumber: bytes[off],
        fieldPlayerColour: bytes[off + 1],
        goalkeeperColour: bytes[off + 2],
        goalkeeper: bytes[off + 3],
        score: bytes[off + 4],
        penaltyShot: bytes[off + 5],
        singleShots: read_u16_le(bytes, off + 6),
        messageBudget: read_u16_le(bytes, off + 8),
        players,
    }
}

impl RoboCupGameControlData {
    /// Reads a game-state packet from the first `GC_DATA_SIZE` bytes of
    /// `bytes`; gives nothing when there are fewer, and ignores bytes past
    /// the packet.
    pub fn from_bytes(bytes: &[u8]) -> (r: Option<RoboCupGameControlData>)
        ensures
            r is None <==> bytes@.len() < GC_DATA_SIZE,
            r matches Some(d) ==> is_decoding_of(d, bytes@),
    {
        if bytes.len() < GC_DATA_SIZE {
            return None;
        }
        let header: [i8; 4] = [bytes[0] as i8, bytes[1] as i8, bytes[2] as i8, bytes[3] as i8];
        let d = RoboCupGameControlData {
            header,
            version: bytes[4],
            packetNumber: bytes[5],
            playersPerTeam: bytes[6],
            competitionPhase: bytes[7],
            competitionType: bytes[8],
            gamePhase: bytes[9],
            state: bytes[10],
            setPlay: bytes[11],
            firstHalf: bytes[12],
            kickingTeam: bytes[13],
            secsRemaining: read_u16_le(bytes, 14) as i16,
            secondaryTime: read_u16_le(bytes, 16) as i16,
            teams: [decode_team(bytes, TEAMS_OFFSET), decode_team(bytes, TEAMS_OFFSET + TEAM_INFO_SIZE)],
        };
        assert(d.header@ =~= header_of(bytes@));
        Some(d)
    }
}

/// The four little-endian bytes of `x`.
pub open spec fn le32(x: u32) -> Seq<u8> {
    seq![
        (x % 256) as u8,
        ((x / 256) % 256) as u8,
        ((x / 65536) % 256) as u8,
        (x / 16777216) as u8,
    ]
}

/// The bytes of a packet header, each C `char` read as a byte.
pub open spec fn header_bytes(h: [i8; 4]) -> Seq<u8> {
    Seq::new(4, |i: int| h@[i] as u8)
}

/// `le32(x)` is the little-endian encoding of `x`: four bytes whose weighted
/// sum is `x`.
pub proof fn lemma_le32_encodes(x: u32)
    ensures
        le32(x).len() == 4,
        le32(x)[0] + 256 * le32(x)[1] + 65536 * le32(x)[2] + 16777216 * le32(x)[3] == x,
{
    assert(((x % 256) as u8) as int + 256 * (((x / 256) % 256) as u8) as int + 65536 * (((x / 65536)
        % 256) as u8) as int + 16777216 * ((x / 16777216) as u8) as int == x) by (bit_vector);
}

fn push_le32(out: &mut Vec<u8>, x: u32)
    ensures
        final(out)@ == old(out)@ + le32(x),
{
    out.push((x % 256) as u8);
    out.push(((x / 256) % 256) as u8);
    out.push(((x / 65536) % 256) as u8);
    out.push((x / 16777216) as u8);
    assert(final(out)@ =~= old(out)@ + le32(x));
}

impl RoboCupGameControlReturnData {
    /// The reply as it goes on the wire: the C layout of the GameController,
    /// little-endian, `GC_RETURN_SIZE` bytes.
    pub open spec fn wire(self) -> Seq<u8> {
        header_bytes(self.header) + seq![self.version, self.playerNum, self.teamNum, self.fallen]
            + le32(self.pose_bits[0]) + le32(self.pose_bits[1]) + le32(self.pose_bits[2]) + le32(
            self.ball_age_bits,
        ) + le32(self.ball_bits[0]) + le32(self.ball_bits[1])
    }

    /// Writes the reply in its wire format.
    pub fn to_bytes(&self) -> (r: Vec<u8>)
        ensures
            r@ == self.wire(),
            r@.len() == GC_RETURN_SIZE,
    {
        let mut out: Vec<u8> = Vec::new();
        out.push(self.header[0] as u8);
        out.push(self.header[1] as u8);
        out.push(self.header[2] as u8);
        out.push(self.header[3] as u8);
        assert(out@ =~= header_bytes(self.header));
        out.push(self.version);
        out.push(self.playerNum);
        out.push(self.teamNum);
        out.push(self.fallen);
        push_le32(&mut out, self.pose_bits[0]);
        push_le32(&mut out, self.pose_bits[1]);
        push_le32(&mut out, self.pose_bits[2]);
        push_le32(&mut out, self.ball_age_bits);
        push_le32(&mut out, self.ball_bits[0]);
        push_le32(&mut out, self.ball_bits[1]);
        assert(out@ =~= self.wire());
        out
    }
}

/// Every field of a reply sits at its C offset on the wire: the header
/// bytes at 0..4, then version, player number, team number and fallen flag,
/// then the little-endian words of pose x, y and rotation at 8, 12 and 16,
/// the ball age at 20 and the ball position at 24 and 28.
pub proof fn lemma_reply_c_offsets(r: RoboCupGameControlReturnData)
    ensures
        r.wire().len() == GC_RETURN_SIZE,
        forall|i: int| 0 <= i < 4 ==> #[trigger] r.wire()[i] == r.header@[i] as u8,
        r.wire()[4] == r.version,
        r.wire()[5] == r.playerNum,
        r.wire()[6] == r.teamNum,
        r.wire()[7] == r.fallen,
        r.wire().subrange(8, 12) == le32(r.pose_bits@[0]),
        r.wire().subrange(12, 16) == le32(r.pose_bits@[1]),
        r.wire().subrange(16, 20) == le32(r.pose_bits@[2]),
        r.wire().subrange(20, 24) == le32(r.ball_age_bits),
        r.wire().subrange(24, 28) == le32(r.ball_bits@[0]),
        r.wire().subrange(28, 32) == le32(r.ball_bits@[1]),
{
    let w = r.wire();
    assert(w.subrange(8, 12) =~= le32(r.pose_bits@[0]));
    assert(w.subrange(12, 16) =~= le32(r.pose_bits@[1]));
    assert(w.subrange(16, 20) =~= le32(r.pose_bits@[2]));
    assert(w.subrange(20, 24) =~= le32(r.ball_age_bits));
    assert(w.subrange(24, 28) =~= le32(r.ball_bits@[0]));
    assert(w.subrange(28, 32) =~= le32(r.ball_bits@[1]));
}

} // verus!
