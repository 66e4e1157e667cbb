//! The duck chorale: the switch a client flips, what `robotd` and `btd` say to each other, and
//! the four-byte beacon one duck puts on the air so others can sing with it.
use vstd::prelude::*;

verus! {

/// See [`crate::method::ROBOT_CHORALE`].
#[derive(Debug, Clone, Copy, PartialEq, Eq)]
pub struct ChoraleParams {
    /// True starts listening for other ducks, false stops and falls silent. Idempotent both ways.
    pub active: bool,
    /// Pin which piece this robot picks when *it* conducts. `None` lets it choose.
    pub piece: Option<u8>,
}

/// Answer to a `robot.chorale` call.
#[derive(Debug, Clone, PartialEq, Eq)]
pub struct ChoraleResult {
    pub accepted: bool,
    /// Why not — no voice, no radio, or the robot has not opted in.
    pub reason: Option<String>,
}

impl Default for ChoraleResult {
    /// Accepted, with nothing to explain.
    fn default() -> (r: Self)
        ensures
            r.accepted,
            r.reason is None,
    {
        ChoraleResult { accepted: true, reason: None }
    }
}

/// What `robotd` wants on the air — a [`crate::method::CHORALE_BEACON`] notification.
#[derive(Debug, Clone, PartialEq, Eq)]
pub struct ChoraleAdvertise {
    /// The beacon to broadcast, or `None` to take the advertisement down.
    pub beacon: Option<ChoraleBeacon>,
    /// Whether to be listening for other ducks' beacons at all.
    pub listening: bool,
}

impl Default for ChoraleAdvertise {
    /// Nothing on the air, and not listening.
    fn default() -> (r: Self)
        ensures
            r.beacon is None,
            !r.listening,
    {
        ChoraleAdvertise { beacon: None, listening: false }
    }
}

/// A beacon `btd` heard — a [`crate::method::CHORALE_HEARD`] notification.
#[derive(Debug, Clone, PartialEq, Eq)]
pub struct ChoraleHeard {
    pub beacon: ChoraleBeacon,
    /// Which radio it came from, as `btd` renders an address. An identity for de-duplication only.
    pub from: String,
    /// How long ago `btd` saw it, in microseconds: an age survives the trip between two
    /// processes' clocks, where a timestamp would not.
    pub age_us: u64,
}

/// The duck chorale's beacon: what one duck puts on the air so others can sing with it.
///
/// A wire contract, and the only one that is not JSON: it rides a BLE advertisement's
/// manufacturer data. Layout: the tag, piece, beat, register, the id big-endian, the roster's
/// length, then each roster entry as its register and its id big-endian.
#[derive(Debug, Clone, PartialEq, Eq)]
pub struct ChoraleBeacon {
    /// Which piece is being sung. Zero ([`ChoraleBeacon::IDLE`]) means "willing, but nothing is
    /// being sung".
    pub piece: u8,
    /// The beat the conductor is on, wrapping.
    pub beat: u8,
    /// The advertiser's own register — its pitch centre, quantised.
    pub register: u8,
    /// Tie-break and identity, derived from the seed rather than being it.
    pub id: u16,
    /// Who is singing, in seating order — `(register, id)` per duck. Empty from a duck that is
    /// only listening.
    pub roster: Vec<(u8, u16)>,
}

/// A beacon as the mathematics sees it.
pub struct BeaconView {
    pub piece: u8,
    pub beat: u8,
    pub register: u8,
    pub id: u16,
    pub roster: Seq<(u8, u16)>,
}

impl View for ChoraleBeacon {
    type V = BeaconView;

    open spec fn view(&self) -> BeaconView {
        BeaconView {
            piece: self.piece,
            beat: self.beat,
            register: self.register,
            id: self.id,
            roster: self.roster@,
        }
    }
}

/// The high byte of a big-endian `u16`.
pub open spec fn high_byte(v: u16) -> u8 {
    (v / 256) as u8
}

/// The low byte of a big-endian `u16`.
pub open spec fn low_byte(v: u16) -> u8 {
    (v % 256) as u8
}

/// The `u16` whose big-endian bytes are `hi`, `lo`.
pub open spec fn from_be(hi: u8, lo: u8) -> u16 {
    (hi * 256 + lo) as u16
}

/// The roster entries, three bytes each, in order.
pub open spec fn roster_bytes(roster: Seq<(u8, u16)>) -> Seq<u8>
    decreases roster.len(),
{
    if roster.len() == 0 {
        Seq::empty()
    } else {
        let (register, id) = roster.last();
        roster_bytes(roster.drop_last()) + seq![register, high_byte(id), low_byte(id)]
    }
}

/// The part of a roster a beacon carries: at most [`ChoraleBeacon::MAX_ROSTER`] ducks.
pub open spec fn carried_roster(roster: Seq<(u8, u16)>) -> Seq<(u8, u16)> {
    if roster.len() <= 4 {
        roster
    } else {
        roster.take(4)
    }
}

/// The manufacturer-data payload for a beacon.
pub open spec fn encode_beacon(b: BeaconView) -> Seq<u8> {
    let roster = carried_roster(b.roster);
    seq![0xC0u8, b.piece, b.beat, b.register, high_byte(b.id), low_byte(b.id), roster.len() as u8]
        + roster_bytes(roster)
}

/// Whether a payload has exactly the beacon's layout, length included.
pub open spec fn beacon_layout(bytes: Seq<u8>) -> bool {
    &&& bytes.len() >= 7
    &&& bytes[0] == 0xC0u8
    &&& bytes[6] <= 4
    &&& bytes.len() == 7 + 3 * bytes[6]
}

/// The beacon a payload carries, or `None` for anything that is not exactly this layout.
pub open spec fn decode_beacon(bytes: Seq<u8>) -> Option<BeaconView> {
    if beacon_layout(bytes) {
        Some(
            BeaconView {
                piece: bytes[1],
                beat: bytes[2],
                register: bytes[3],
                id: from_be(bytes[4], bytes[5]),
                roster: Seq::new(
                    bytes[6] as nat,
                    |i: int| (bytes[7 + 3 * i], from_be(bytes[8 + 3 * i], bytes[9 + 3 * i])),
                ),
            },
        )
    } else {
        None
    }
}

/// The big-endian bytes of a `u16`, as `u16::to_be_bytes` gives them.
fn be_bytes(v: u16) -> (r: (u8, u8))
    ensures
        r == (high_byte(v), low_byte(v)),
{
    ((v / 256) as u8, (v % 256) as u8)
}

proof fn lemma_be_round_trip(v: u16)
    ensures
        from_be(high_byte(v), low_byte(v)) == v,
{
}

proof fn lemma_roster_bytes(roster: Seq<(u8, u16)>)
    ensures
        roster_bytes(roster).len() == 3 * roster.len(),
        forall|i: int|
            0 <= i < roster.len() ==> {
                &&& #[trigger] roster_bytes(roster)[3 * i] == roster[i].0
                &&& roster_bytes(roster)[3 * i + 1] == high_byte(roster[i].1)
                &&& roster_bytes(roster)[3 * i + 2] == low_byte(roster[i].1)
            },
    decreases roster.len(),
{
    if roster.len() > 0 {
        let prefix = roster.drop_last();
        lemma_roster_bytes(prefix);
        assert forall|i: int| 0 <= i < roster.len() implies {
            &&& #[trigger] roster_bytes(roster)[3 * i] == roster[i].0
            &&& roster_bytes(roster)[3 * i + 1] == high_byte(roster[i].1)
            &&& roster_bytes(roster)[3 * i + 2] == low_byte(roster[i].1)
        } by {
            if i < roster.len() - 1 {
                assert(prefix[i] == roster[i]);
            }
        }
    }
}

/// A beacon survives the advertisement: reading back the payload of a beacon gives that beacon,
/// its roster cut to the ducks a beacon carries.
pub proof fn beacon_round_trip(b: BeaconView)
    ensures
        decode_beacon(encode_beacon(b)) == Some(
            BeaconView { roster: carried_roster(b.roster), ..b },
        ),
{
    let roster = carried_roster(b.roster);
    let bytes = encode_beacon(b);
    lemma_roster_bytes(roster);
    lemma_be_round_trip(b.id);
    assert(bytes[6] == roster.len());
    assert forall|i: int| 0 <= i < roster.len() implies (bytes[7 + 3 * i], from_be(
        bytes[8 + 3 * i],
        bytes[9 + 3 * i],
    )) == #[trigger] roster[i] by {
        lemma_be_round_trip(roster[i].1);
        assert(bytes[7 + 3 * i] == roster_bytes(roster)[3 * i]);
        assert(bytes[8 + 3 * i] == roster_bytes(roster)[3 * i + 1]);
        assert(bytes[9 + 3 * i] == roster_bytes(roster)[3 * i + 2]);
    }
    let decoded = decode_beacon(bytes).unwrap();
    assert(decoded.roster =~= roster);
}

/// A payload that reads as a beacon is exactly that beacon's payload: nothing in it is ignored.
pub proof fn beacon_payload_is_canonical(bytes: Seq<u8>)
    requires
        decode_beacon(bytes) is Some,
    ensures
        encode_beacon(decode_beacon(bytes).unwrap()) == bytes,
{
    let b = decode_beacon(bytes).unwrap();
    let roster = b.roster;
    assert(carried_roster(roster) == roster);
    lemma_roster_bytes(roster);
    let out = encode_beacon(b);
    assert forall|j: int| 0 <= j < bytes.len() implies #[trigger] out[j] == bytes[j] by {
        if j >= 7 {
            let i = (j - 7) / 3;
            let hi = bytes[8 + 3 * i];
            let lo = bytes[9 + 3 * i];
            assert(high_byte(from_be(hi, lo)) == hi);
            assert(low_byte(from_be(hi, lo)) == lo);
            assert(out[j] == roster_bytes(roster)[j - 7]);
            assert(0 <= i < roster.len());
            assert(roster_bytes(roster)[3 * i] == roster[i].0);
            if (j - 7) % 3 == 0 {
                assert(roster_bytes(roster)[3 * i] == roster[i].0);
            } else if (j - 7) % 3 == 1 {
                assert(roster_bytes(roster)[3 * i + 1] == high_byte(roster[i].1));
            } else {
                assert(roster_bytes(roster)[3 * i + 2] == low_byte(roster[i].1));
            }
        } else {
            assert(high_byte(from_be(bytes[4], bytes[5])) == bytes[4]);
            assert(low_byte(from_be(bytes[4], bytes[5])) == bytes[5]);
        }
    }
    assert(out =~= bytes);
}

impl ChoraleBeacon {
    /// The piece number that means "willing, but not singing".
    pub const IDLE: u8 = 0;

    /// Marks the payload as a chorale beacon rather than some other four bytes — an IPv4 address
    /// on the other advertising instance would otherwise read as a beat.
    pub const TAG: u8 = 0xC0;

    /// The most ducks a roster carries, and so the most that can sing together: the piece has
    /// four parts.
    pub const MAX_ROSTER: usize = 4;

    /// Whether this beacon says a piece is under way.
    pub fn singing(&self) -> (r: bool)
        ensures
            r == (self.piece != Self::IDLE),
    {
        self.piece != Self::IDLE
    }

    /// The manufacturer-data payload: tag, the fixed fields, then the roster length and its
    /// entries. A roster longer than [`Self::MAX_ROSTER`] is truncated, not refused.
    pub fn to_bytes(&self) -> (r: Vec<u8>)
        ensures
            r@ == encode_beacon(self@),
    {
        let count: usize = if self.roster.len() < Self::MAX_ROSTER {
            self.roster.len()
        } else {
            Self::MAX_ROSTER
        };
        let roster = Ghost(carried_roster(self.roster@));
        let (id_hi, id_lo) = be_bytes(self.id);
        let mut bytes: Vec<u8> = vec![Self::TAG, self.piece, self.beat, self.register];
        bytes.push(id_hi);
        bytes.push(id_lo);
        bytes.push(count as u8);
        let header = Ghost(bytes@);
        let mut i: usize = 0;
        while i < count
            invariant
                0 <= i <= count,
                count == roster@.len(),
                count <= self.roster.len(),
                roster@ == carried_roster(self.roster@),
                bytes@ == header@ + roster_bytes(roster@.take(i as int)),
            decreases count - i,
        {
            let (register, id) = self.roster[i];
            let (hi, lo) = be_bytes(id);
            proof {
                assert(roster@[i as int] == self.roster@[i as int]);
                assert(roster@.take(i + 1).drop_last() =~= roster@.take(i as int));
            }
            bytes.push(register);
            bytes.push(hi);
            bytes.push(lo);
            i += 1;
            proof {
                assert(bytes@ =~= header@ + roster_bytes(roster@.take(i as int)));
            }
        }
        proof {
            assert(roster@.take(count as int) =~= roster@);
            assert(bytes@ =~= encode_beacon(self@));
        }
        bytes
    }

    /// Read a beacon out of a manufacturer-data payload.
    ///
    /// `None` for anything that is not exactly this layout, length included: a longer payload is
    /// somebody else's advertisement, not a lenient read of ours.
    pub fn from_bytes(bytes: &[u8]) -> (r: Option<ChoraleBeacon>)
        ensures
            match r {
                Some(b) => decode_beacon(bytes@) == Some(b@),
                None => decode_beacon(bytes@) is None,
            },
    {
        if bytes.len() < 7 || bytes[0] != Self::TAG {
            return None;
        }
        let count = bytes[6] as usize;
        if count > Self::MAX_ROSTER || bytes.len() - 7 != count * 3 {
            return None;
        }
        let mut roster: Vec<(u8, u16)> = Vec::new();
        let mut i: usize = 0;
        while i < count
            invariant
                0 <= i <= count,
                count <= 4,
                count == bytes@[6],
                bytes.len() == 7 + 3 * count,
                roster@.len() == i,
                forall|j: int|
                    0 <= j < i ==> #[trigger] roster@[j] == (
                        bytes@[7 + 3 * j],
                        from_be(bytes@[8 + 3 * j], bytes@[9 + 3 * j]),
                    ),
            decreases count - i,
        {
            let at = 7 + 3 * i;
            let id = (bytes[at + 1] as u16) * 256 + (bytes[at + 2] as u16);
            roster.push((bytes[at], id));
            i += 1;
        }
        let beacon = ChoraleBeacon {
            piece: bytes[1],
            beat: bytes[2],
            register: bytes[3],
            id: (bytes[4] as u16) * 256 + (bytes[5] as u16),
            roster,
        };
        proof {
            let expected = decode_beacon(bytes@).unwrap();
            assert(beacon@.roster =~= expected.roster);
        }
        Some(beacon)
    }

    /// This duck's index in the roster, if it is in there — which is how it learns its part. The
    /// first such seat, should the roster name a duck twice.
    pub fn seat_of(&self, register: u8, id: u16) -> (r: Option<usize>)
        ensures
            match r {
                Some(i) => {
                    &&& i < self.roster@.len()
                    &&& self.roster@[i as int] == (register, id)
                    &&& forall|j: int| 0 <= j < i ==> self.roster@[j] != (register, id)
                },
                None => forall|j: int| 0 <= j < self.roster@.len() ==> self.roster@[j] != (register, id),
            },
    {
        let mut i: usize = 0;
        while i < self.roster.len()
            invariant
                0 <= i <= self.roster.len(),
                forall|j: int| 0 <= j < i ==> self.roster@[j] != (register, id),
            decreases self.roster.len() - i,
        {
            let (r, d) = self.roster[i];
            if r == register && d == id {
                return Some(i);
            }
            i += 1;
        }
        None
    }
}

} // verus!
