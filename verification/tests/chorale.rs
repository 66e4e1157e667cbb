use duck_robot::ChoraleBeacon;

#[test]
fn a_roster_of_the_wrong_length_is_not_a_beacon() {
    let good = ChoraleBeacon {
        piece: 1,
        beat: 0,
        register: 56,
        id: 1,
        roster: vec![(56, 1), (140, 2)],
    };
    let bytes = good.to_bytes();
    assert!(ChoraleBeacon::from_bytes(&bytes).is_some());
    // One byte short, one byte long, and a count that disagrees with what follows.
    assert_eq!(ChoraleBeacon::from_bytes(&bytes[..bytes.len() - 1]), None);
    let mut long = bytes.clone();
    long.push(0);
    assert_eq!(ChoraleBeacon::from_bytes(&long), None);
    let mut lying = bytes.clone();
    // The count byte sits after tag, piece, beat, register and the two id bytes.
    lying[6] = 4;
    assert_eq!(ChoraleBeacon::from_bytes(&lying), None);
    // More ducks than there are parts is not a chorale.
    let crowd = ChoraleBeacon {
        roster: vec![(1, 1), (2, 2), (3, 3), (4, 4), (5, 5), (6, 6)],
        ..good
    };
    let bytes = crowd.to_bytes();
    let back = ChoraleBeacon::from_bytes(&bytes).expect("truncated to four, not refused");
    assert_eq!(back.roster.len(), ChoraleBeacon::MAX_ROSTER);
}

#[test]
fn an_address_payload_is_not_mistaken_for_a_beacon() {
    // 192.168.1.42, as `btd::adv` would broadcast it.
    assert_eq!(ChoraleBeacon::from_bytes(&[192, 168, 1, 42]), None);
    // Nor is anything else of the wrong length, or the right length with the wrong tag.
    for length in [0usize, 1, 4, 6, 16] {
        assert_eq!(
            ChoraleBeacon::from_bytes(&vec![ChoraleBeacon::TAG; length]),
            None,
            "{length} bytes"
        );
    }
    assert_eq!(ChoraleBeacon::from_bytes(&[0x00, 1, 2, 3, 4, 0]), None);
}

#[test]
fn a_beacon_round_trips_and_seats_its_singers() {
    let beacon = ChoraleBeacon {
        piece: 3,
        beat: 217,
        register: 56,
        id: 0x9F,
        roster: vec![(56, 0x9F), (140, 0x02), (200, 0x71)],
    };
    let bytes = beacon.to_bytes();
    assert_eq!(ChoraleBeacon::from_bytes(&bytes), Some(beacon.clone()));
    assert!(beacon.singing());
    assert!(bytes.len() <= 20, "{} bytes: {bytes:?}", bytes.len());

    let idle = ChoraleBeacon {
        piece: ChoraleBeacon::IDLE,
        roster: Vec::new(),
        ..beacon.clone()
    };
    assert!(!idle.singing());
    assert_eq!(ChoraleBeacon::from_bytes(&idle.to_bytes()), Some(idle));

    assert_eq!(beacon.seat_of(56, 0x9F), Some(0));
    assert_eq!(beacon.seat_of(200, 0x71), Some(2));
    assert_eq!(beacon.seat_of(56, 0x00), None, "same register, different duck");
}

#[test]
fn the_payload_layout_is_byte_exact() {
    let beacon = ChoraleBeacon {
        piece: 2,
        beat: 9,
        register: 77,
        id: 0xBEEF,
        roster: vec![(77, 0xBEEF), (10, 0x0102)],
    };
    assert_eq!(
        beacon.to_bytes(),
        vec![0xC0, 2, 9, 77, 0xBE, 0xEF, 2, 77, 0xBE, 0xEF, 10, 0x01, 0x02]
    );
    // An id's high byte matters as much as its low one.
    let back = ChoraleBeacon::from_bytes(&[0xC0, 0, 0, 0, 0x12, 0x34, 1, 5, 0xAB, 0xCD]).unwrap();
    assert_eq!(back.id, 0x1234);
    assert_eq!(back.roster, vec![(5, 0xABCD)]);
    assert!(!back.singing());
}

#[test]
fn the_first_seat_is_the_one_reported() {
    let beacon = ChoraleBeacon {
        piece: 1,
        beat: 0,
        register: 1,
        id: 1,
        roster: vec![(1, 1), (1, 1)],
    };
    assert_eq!(beacon.seat_of(1, 1), Some(0));
}
