use robocup_gc::comm::udp::{
    packet_is_for_team, recv_step, status_reply, RecvEvent, RecvStep, GC_DATA_PORT,
    GC_RETURN_PORT,
};
use robocup_gc::spl::{
    cstr_to_header, RoboCupGameControlData, RobotInfo, TeamInfo, GAMECONTROLLER_DATA_PORT,
    GAMECONTROLLER_RETURN_PORT, GAMECONTROLLER_RETURN_STRUCT_HEADER,
    GAMECONTROLLER_STRUCT_HEADER, GC_DATA_HEADER, GC_DATA_SIZE, GC_DATA_VERSION,
    GC_RETURN_HEADER, GC_RETURN_SIZE, GC_RETURN_VERSION, TEAM_NUMBER,
};

/// A game-state packet with distinct values in every field, teams 22 and 5.
fn sample_packet() -> Vec<u8> {
    let mut b = vec![0u8; GC_DATA_SIZE];
    b[0..4].copy_from_slice(b"RGme");
    b[4] = 15; // version
    b[5] = 200; // packet number
    b[6] = 7; // players per team
    b[7] = 1; // competition phase
    b[8] = 0; // competition type
    b[9] = 2; // game phase
    b[10] = 3; // state
    b[11] = 4; // set play
    b[12] = 1; // first half
    b[13] = 22; // kicking team
    b[14] = 0xfb; // secs remaining: -5
    b[15] = 0xff;
    b[16] = 0x2c; // secondary time: 300
    b[17] = 0x01;
    // team 0 at 18
    b[18] = 22;
    b[19] = 1;
    b[20] = 2;
    b[21] = 1;
    b[22] = 3;
    b[23] = 0;
    b[24] = 0x05; // single shots 0x0105
    b[25] = 0x01;
    b[26] = 0xb0; // message budget 1200
    b[27] = 0x04;
    for i in 0..20 {
        b[28 + 2 * i] = i as u8;
        b[29 + 2 * i] = 100 + i as u8;
    }
    // team 1 at 68
    b[68] = 5;
    b[72] = 9;
    b
}

#[test]
fn headers_come_from_the_c_strings() {
    assert_eq!(cstr_to_header(&GAMECONTROLLER_STRUCT_HEADER), GC_DATA_HEADER);
    assert_eq!(cstr_to_header(&GAMECONTROLLER_RETURN_STRUCT_HEADER), GC_RETURN_HEADER);
    assert_eq!(cstr_to_header(b"RGme\0"), [82, 71, 109, 101]);
    assert_eq!(cstr_to_header(&[0xff, 0x80, 0x7f, 0, 0]), [-1, -128, 127, 0]);
    assert_eq!(GC_DATA_VERSION, 15);
    assert_eq!(GC_RETURN_VERSION, 4);
}

#[test]
fn ports_match_the_definitions() {
    assert_eq!(GC_DATA_PORT as u32, GAMECONTROLLER_DATA_PORT);
    assert_eq!(GC_RETURN_PORT as u32, GAMECONTROLLER_RETURN_PORT);
    assert_eq!(GC_DATA_PORT, 3838);
    assert_eq!(GC_RETURN_PORT, 3939);
}

#[test]
fn decode_reads_every_field() {
    let d = RoboCupGameControlData::from_bytes(&sample_packet()).unwrap();
    assert_eq!(d.header, GC_DATA_HEADER);
    assert_eq!(d.version, 15);
    assert_eq!(d.packetNumber, 200);
    assert_eq!(d.playersPerTeam, 7);
    assert_eq!(d.competitionPhase, 1);
    assert_eq!(d.competitionType, 0);
    assert_eq!(d.gamePhase, 2);
    assert_eq!(d.state, 3);
    assert_eq!(d.setPlay, 4);
    assert_eq!(d.firstHalf, 1);
    assert_eq!(d.kickingTeam, 22);
    assert_eq!(d.secsRemaining, -5);
    assert_eq!(d.secondaryTime, 300);
    let t = &d.teams[0];
    assert_eq!(t.teamNumber, 22);
    assert_eq!(t.fieldPlayerColour, 1);
    assert_eq!(t.goalkeeperColour, 2);
    assert_eq!(t.goalkeeper, 1);
    assert_eq!(t.score, 3);
    assert_eq!(t.penaltyShot, 0);
    assert_eq!(t.singleShots, 0x0105);
    assert_eq!(t.messageBudget, 1200);
    for i in 0..20 {
        assert_eq!(t.players[i].penalty, i as u8);
        assert_eq!(t.players[i].secsTillUnpenalised, 100 + i as u8);
    }
    assert_eq!(d.teams[1].teamNumber, 5);
    assert_eq!(d.teams[1].score, 9);
    assert_eq!(d.teams[1].players[19].penalty, 0);
}

#[test]
fn decode_needs_a_whole_packet_and_ignores_trailing_bytes() {
    let p = sample_packet();
    assert!(RoboCupGameControlData::from_bytes(&p[..GC_DATA_SIZE - 1]).is_none());
    assert!(RoboCupGameControlData::from_bytes(&[]).is_none());
    let mut longer = p.clone();
    longer.extend_from_slice(&[1, 2, 3]);
    let a = RoboCupGameControlData::from_bytes(&longer).unwrap();
    assert_eq!(a.packetNumber, 200);
    assert_eq!(a.teams[1].teamNumber, 5);
}

#[test]
fn team_equality_ignores_players() {
    let d = RoboCupGameControlData::from_bytes(&sample_packet()).unwrap();
    let a = d.teams[0];
    let mut b = a;
    b.players[3] = RobotInfo { penalty: 9, secsTillUnpenalised: 45 };
    assert!(a == b);
    let mut c = a;
    c.score = 4;
    assert!(a != c);
    let mut e = a;
    e.messageBudget = 0;
    assert!(a != e);
}

#[test]
fn packet_for_team_needs_header_and_team() {
    let d = RoboCupGameControlData::from_bytes(&sample_packet()).unwrap();
    assert!(packet_is_for_team(&d, 22));
    assert!(packet_is_for_team(&d, 5));
    assert!(!packet_is_for_team(&d, 6));
    let mut wrong = d;
    wrong.header = GC_RETURN_HEADER;
    assert!(!packet_is_for_team(&wrong, 22));
    let mut old_version = d;
    old_version.version = 14;
    assert!(packet_is_for_team(&old_version, 22));
}

#[test]
fn recv_step_covers_every_event() {
    let mut buf = [0u8; GC_DATA_SIZE];
    match recv_step(RecvEvent::Datagram(sample_packet()), &mut buf, false, TEAM_NUMBER) {
        RecvStep::Accept(d) => assert_eq!(d.packetNumber, 200),
        _ => panic!("expected the packet to be accepted"),
    }
    assert_eq!(buf.to_vec(), sample_packet());
    match recv_step(RecvEvent::Datagram(sample_packet()), &mut buf, true, 6) {
        RecvStep::Reject(d) => assert_eq!(d.teams[1].teamNumber, 5),
        _ => panic!("expected the packet to be rejected"),
    }
    let mut bad = sample_packet();
    bad[3] = b'x';
    assert!(matches!(recv_step(RecvEvent::Datagram(bad), &mut buf, true, 22), RecvStep::Reject(_)));
    let before = buf;
    assert!(matches!(recv_step(RecvEvent::WouldBlock, &mut buf, true, 22), RecvStep::Retry));
    assert!(matches!(recv_step(RecvEvent::WouldBlock, &mut buf, false, 22), RecvStep::Nothing));
    assert!(matches!(recv_step(RecvEvent::Failed, &mut buf, false, 22), RecvStep::Fail));
    assert!(matches!(recv_step(RecvEvent::Failed, &mut buf, true, 22), RecvStep::Fail));
    assert_eq!(buf, before);
}

#[test]
fn short_datagram_keeps_the_buffer_tail() {
    let mut buf = [0u8; GC_DATA_SIZE];
    // Into an empty buffer a short datagram leaves a zero header: rejected.
    assert!(matches!(
        recv_step(RecvEvent::Datagram(vec![1, 2, 3]), &mut buf, true, 22),
        RecvStep::Reject(_)
    ));
    assert_eq!(&buf[..4], &[1, 2, 3, 0]);
    // After a full packet, a short one overwrites only its own bytes.
    recv_step(RecvEvent::Datagram(sample_packet()), &mut buf, true, 22);
    match recv_step(RecvEvent::Datagram(vec![b'R', b'G', b'm', b'e', 15, 201]), &mut buf, true, 22) {
        RecvStep::Accept(d) => {
            assert_eq!(d.packetNumber, 201);
            assert_eq!(d.playersPerTeam, 7);
            assert_eq!(d.teams[0].teamNumber, 22);
        }
        _ => panic!("expected the packet to be accepted"),
    }
    // A datagram longer than a packet is cut off at the packet's size.
    let mut longer = sample_packet();
    longer.extend_from_slice(&[9, 9, 9]);
    assert!(matches!(
        recv_step(RecvEvent::Datagram(longer), &mut buf, true, 22),
        RecvStep::Accept(_)
    ));
    assert_eq!(buf.to_vec(), sample_packet());
}

#[test]
fn status_reply_wire_bytes() {
    let r = status_reply();
    assert_eq!(r.playerNum, 1);
    assert_eq!(r.teamNum, TEAM_NUMBER);
    let bytes = r.to_bytes();
    assert_eq!(bytes.len(), GC_RETURN_SIZE);
    let mut expected = vec![b'R', b'G', b'r', b't', 4, 1, 22, 0];
    expected.extend_from_slice(&[0u8; 24]);
    assert_eq!(bytes, expected);
}

#[test]
fn reply_floats_are_little_endian_bit_patterns() {
    let mut r = status_reply();
    r.pose_bits = [1.0f32.to_bits(), 0x11223344, 0];
    r.ball_age_bits = (-2.5f32).to_bits();
    r.ball_bits = [0, 0xdeadbeef];
    r.fallen = 1;
    let bytes = r.to_bytes();
    assert_eq!(bytes[7], 1);
    assert_eq!(&bytes[8..12], &1.0f32.to_le_bytes());
    assert_eq!(&bytes[12..16], &[0x44, 0x33, 0x22, 0x11]);
    assert_eq!(&bytes[20..24], &(-2.5f32).to_le_bytes());
    assert_eq!(&bytes[28..32], &[0xef, 0xbe, 0xad, 0xde]);
}

#[test]
fn sample_team_record_layout() {
    let t: TeamInfo = RoboCupGameControlData::from_bytes(&sample_packet()).unwrap().teams[0];
    assert_eq!(t.players[0].secsTillUnpenalised, 100);
    assert_eq!(t.players[19].secsTillUnpenalised, 119);
}
