//! Time-ordered 64-bit identifiers.
//!
//! An identifier packs four fields, most significant first:
//!
//! | field            | bits | shift |
//! |------------------|------|-------|
//! | timestamp offset | 41   | 22    |
//! | datacenter id    | 5    | 17    |
//! | machine id       | 5    | 12    |
//! | sequence         | 12   | 0     |
//!
//! The timestamp offset is the number of milliseconds between the
//! generator's epoch and the moment of issue.

use crate::common::clock::unix_millis;
use vstd::prelude::*;
use vstd::rwlock::RwLock;

verus! {

/// Width of the timestamp offset field.
pub const TIMESTAMP_BITS: i64 = 41;

/// Width of the datacenter field.
pub const DATACENTER_ID_BITS: i64 = 5;

/// Width of the machine field.
pub const MACHINE_ID_BITS: i64 = 5;

/// Width of the sequence field.
pub const SEQUENCE_BITS: i64 = 12;

/// Largest datacenter id.
pub const MAX_DATACENTER_ID: i64 = 31;

/// Largest machine id.
pub const MAX_MACHINE_ID: i64 = 31;

/// Largest sequence number within one millisecond.
pub const MAX_SEQUENCE: i64 = 4095;

/// Position of the machine field.
pub const MACHINE_ID_SHIFT: i64 = 12;

/// Position of the datacenter field.
pub const DATACENTER_ID_SHIFT: i64 = 17;

/// Position of the timestamp offset field.
pub const TIMESTAMP_SHIFT: i64 = 22;

/// Time zero of the timestamp offset unless another epoch is given:
/// 2020-01-01T00:00:00Z in Unix milliseconds.
pub const DEFAULT_EPOCH: i64 = 1577836800000;

/// How often the clock is read while waiting for the next millisecond before
/// the wait is given up.
pub const MAX_CLOCK_READS: u64 = 0xffff_ffff_ffff_ffff;

/// Why no generator, or no identifier, could be produced.
#[derive(Debug, Clone, Copy, PartialEq, Eq, Structural)]
pub enum SnowflakeError {
    ClockMovedBackwards,
    InvalidMachineId,
    InvalidDatacenterId,
}

impl SnowflakeError {
    /// The message shown for this error.
    pub open spec fn message(self) -> Seq<char> {
        match self {
            SnowflakeError::ClockMovedBackwards => "Clock moved backwards"@,
            SnowflakeError::InvalidMachineId => "Invalid machine ID"@,
            SnowflakeError::InvalidDatacenterId => "Invalid datacenter ID"@,
        }
    }

    /// Renders the error as text.
    pub fn to_string(&self) -> (text: String)
        ensures
            text@ == self.message(),
    {
        match self {
            SnowflakeError::ClockMovedBackwards => "Clock moved backwards".to_owned(),
            SnowflakeError::InvalidMachineId => "Invalid machine ID".to_owned(),
            SnowflakeError::InvalidDatacenterId => "Invalid datacenter ID".to_owned(),
        }
    }
}

/// The two's-complement reading of `x` as a signed 64-bit number.
pub open spec fn wrap64(x: int) -> int {
    let low = x % 0x1_0000_0000_0000_0000;
    if low >= 0x8000_0000_0000_0000 {
        low - 0x1_0000_0000_0000_0000
    } else {
        low
    }
}

/// The four fields laid side by side, with no regard for their widths.
pub open spec fn pack(offset: int, datacenter_id: int, machine_id: int, sequence: int) -> int {
    offset * 0x40_0000 + datacenter_id * 0x2_0000 + machine_id * 0x1000 + sequence
}

/// The identifier that carries the given fields. Only the low 42 bits of the
/// offset fit; the topmost of them lands on the sign bit.
pub open spec fn id_value(offset: int, datacenter_id: int, machine_id: int, sequence: int) -> int {
    wrap64(pack(offset % 0x400_0000_0000, datacenter_id, machine_id, sequence))
}

/// Whether an offset fits the 41-bit timestamp field.
pub open spec fn offset_fits(offset: int) -> bool {
    0 <= offset < 0x200_0000_0000
}

/// The timestamp read back from an identifier, always relative to
/// [`DEFAULT_EPOCH`], whatever epoch the issuing generator used.
pub open spec fn timestamp_of(id: int) -> int {
    id / 0x40_0000 + DEFAULT_EPOCH
}

/// The datacenter field of an identifier.
pub open spec fn datacenter_of(id: int) -> int {
    (id / 0x2_0000) % 32
}

/// The machine field of an identifier.
pub open spec fn machine_of(id: int) -> int {
    (id / 0x1000) % 32
}

/// The sequence field of an identifier.
pub open spec fn sequence_of(id: int) -> int {
    id % 4096
}

/// What a generator is, as plain numbers.
pub struct GeneratorState {
    pub datacenter_id: int,
    pub machine_id: int,
    pub sequence: int,
    pub last_timestamp: int,
    pub epoch: int,
}

impl GeneratorState {
    /// The state of a generator that has issued nothing yet.
    pub open spec fn initial(datacenter_id: int, machine_id: int, epoch: int) -> GeneratorState {
        GeneratorState { datacenter_id, machine_id, sequence: 0, last_timestamp: -1, epoch }
    }

    /// The bounds every generator keeps.
    pub open spec fn valid(self) -> bool {
        &&& 0 <= self.datacenter_id <= MAX_DATACENTER_ID
        &&& 0 <= self.machine_id <= MAX_MACHINE_ID
        &&& 0 <= self.sequence <= MAX_SEQUENCE
        &&& -1 <= self.last_timestamp <= i64::MAX
        &&& i64::MIN <= self.epoch <= i64::MAX
    }

    /// Two states belong to the same generator configuration.
    pub open spec fn same_identity(self, other: GeneratorState) -> bool {
        &&& self.datacenter_id == other.datacenter_id
        &&& self.machine_id == other.machine_id
        &&& self.epoch == other.epoch
    }

    /// All 4096 sequence numbers of the millisecond `now` are used up.
    pub open spec fn exhausted_at(self, now: int) -> bool {
        now == self.last_timestamp && self.sequence == MAX_SEQUENCE
    }

    /// A clock reading of `now` yields an identifier.
    pub open spec fn issues_at(self, now: int) -> bool {
        now >= self.last_timestamp && !self.exhausted_at(now)
    }

    /// The state after an identifier was issued at `now`.
    pub open spec fn advance(self, now: int) -> GeneratorState {
        if now == self.last_timestamp {
            GeneratorState { sequence: self.sequence + 1, ..self }
        } else {
            GeneratorState { sequence: 0, last_timestamp: now, ..self }
        }
    }

    /// The identifier that stands for the current timestamp and sequence.
    pub open spec fn current_id(self) -> int {
        id_value(
            self.last_timestamp - self.epoch,
            self.datacenter_id,
            self.machine_id,
            self.sequence,
        )
    }

    /// The timestamp of the current state lies within the 41-bit window that
    /// starts at the epoch.
    pub open spec fn in_window(self) -> bool {
        offset_fits(self.last_timestamp - self.epoch)
    }
}

/// Single-threaded identifier generator.
pub struct SnowflakeIdGenerator {
    datacenter_id: i64,
    machine_id: i64,
    sequence: i64,
    last_timestamp: i64,
    epoch: i64,
}

impl View for SnowflakeIdGenerator {
    type V = GeneratorState;

    closed spec fn view(&self) -> GeneratorState {
        GeneratorState {
            datacenter_id: self.datacenter_id as int,
            machine_id: self.machine_id as int,
            sequence: self.sequence as int,
            last_timestamp: self.last_timestamp as int,
            epoch: self.epoch as int,
        }
    }
}

/// The packed fields of an in-range offset are the identifier itself.
pub proof fn lemma_id_in_window(offset: int, datacenter_id: int, machine_id: int, sequence: int)
    requires
        offset_fits(offset),
        0 <= datacenter_id <= MAX_DATACENTER_ID,
        0 <= machine_id <= MAX_MACHINE_ID,
        0 <= sequence <= MAX_SEQUENCE,
    ensures
        id_value(offset, datacenter_id, machine_id, sequence) == pack(
            offset,
            datacenter_id,
            machine_id,
            sequence,
        ),
        0 <= id_value(offset, datacenter_id, machine_id, sequence) <= i64::MAX,
{
}

/// What the shifts and ors of the machine compute is the identifier of the
/// model, for every 64-bit offset.
proof fn lemma_bits_are_id_value(offset: i64, datacenter_id: i64, machine_id: i64, sequence: i64)
    requires
        0 <= datacenter_id <= MAX_DATACENTER_ID,
        0 <= machine_id <= MAX_MACHINE_ID,
        0 <= sequence <= MAX_SEQUENCE,
    ensures
        ((offset << TIMESTAMP_SHIFT) | (datacenter_id << DATACENTER_ID_SHIFT) | (machine_id
            << MACHINE_ID_SHIFT) | sequence) as int == id_value(
            offset as int,
            datacenter_id as int,
            machine_id as int,
            sequence as int,
        ),
{
    assert(((offset << 22) | (datacenter_id << 17) | (machine_id << 12) | sequence) as int
        == wrap64(
        (offset as int % 0x400_0000_0000) * 0x40_0000 + datacenter_id * 0x2_0000 + machine_id
            * 0x1000 + sequence,
    )) by (bit_vector)
        requires
            0 <= datacenter_id <= 31,
            0 <= machine_id <= 31,
            0 <= sequence <= 4095,
    ;
}

/// Wrapping the difference of two 64-bit numbers leaves its low 42 bits alone.
proof fn lemma_wrapped_offset(timestamp: i64, epoch: i64)
    ensures
        (timestamp.wrapping_sub(epoch) as int) % 0x400_0000_0000 == (timestamp - epoch)
            % 0x400_0000_0000,
{
    let exact = timestamp - epoch;
    let wrapped = timestamp.wrapping_sub(epoch) as int;
    assert(wrapped == exact || wrapped == exact - 0x1_0000_0000_0000_0000 || wrapped == exact
        + 0x1_0000_0000_0000_0000);
    assert(0x1_0000_0000_0000_0000 == 0x400_0000_0000 * 0x40_0000int);
    vstd::arithmetic::div_mod::lemma_mod_multiples_vanish(0x40_0000, exact, 0x400_0000_0000);
    vstd::arithmetic::div_mod::lemma_mod_multiples_vanish(-0x40_0000, exact, 0x400_0000_0000);
}

impl SnowflakeIdGenerator {
    #[verifier::type_invariant]
    closed spec fn well_formed(&self) -> bool {
        self@.valid()
    }

    /// A generator for the given site, counting time from [`DEFAULT_EPOCH`].
    pub fn new(datacenter_id: i64, machine_id: i64) -> (made: Result<Self, SnowflakeError>)
        ensures
            !(0 <= datacenter_id <= MAX_DATACENTER_ID) ==> made
                == Err::<Self, SnowflakeError>(SnowflakeError::InvalidDatacenterId),
            0 <= datacenter_id <= MAX_DATACENTER_ID && !(0 <= machine_id <= MAX_MACHINE_ID)
                ==> made == Err::<Self, SnowflakeError>(SnowflakeError::InvalidMachineId),
            0 <= datacenter_id <= MAX_DATACENTER_ID && 0 <= machine_id <= MAX_MACHINE_ID ==> (
            made matches Ok(generator) && generator@ == GeneratorState::initial(
                datacenter_id as int,
                machine_id as int,
                DEFAULT_EPOCH as int,
            )),
    {
        if datacenter_id > MAX_DATACENTER_ID || datacenter_id < 0 {
            return Err(SnowflakeError::InvalidDatacenterId);
        }
        if machine_id > MAX_MACHINE_ID || machine_id < 0 {
            return Err(SnowflakeError::InvalidMachineId);
        }
        Ok(
            Self { datacenter_id, machine_id, sequence: 0, last_timestamp: -1, epoch: DEFAULT_EPOCH },
        )
    }

    /// A generator for the given site, counting time from `epoch`.
    pub fn with_epoch(datacenter_id: i64, machine_id: i64, epoch: i64) -> (made: Result<
        Self,
        SnowflakeError,
    >)
        ensures
            !(0 <= datacenter_id <= MAX_DATACENTER_ID) ==> made
                == Err::<Self, SnowflakeError>(SnowflakeError::InvalidDatacenterId),
            0 <= datacenter_id <= MAX_DATACENTER_ID && !(0 <= machine_id <= MAX_MACHINE_ID)
                ==> made == Err::<Self, SnowflakeError>(SnowflakeError::InvalidMachineId),
            0 <= datacenter_id <= MAX_DATACENTER_ID && 0 <= machine_id <= MAX_MACHINE_ID ==> (
            made matches Ok(generator) && generator@ == GeneratorState::initial(
                datacenter_id as int,
                machine_id as int,
                epoch as int,
            )),
    {
        match Self::new(datacenter_id, machine_id) {
            Ok(mut generator) => {
                generator.epoch = epoch;
                Ok(generator)
            },
            Err(error) => Err(error),
        }
    }

    /// One generation against a given clock reading.
    ///
    /// A reading behind the last one issues nothing and fails. A reading equal
    /// to the last one takes the next sequence number, unless all 4096 of that
    /// millisecond are spent: then nothing is issued and `None` asks for a
    /// later reading. A reading ahead of the last one starts over at sequence
    /// 0. Where nothing is issued the generator is left as it was.
    pub fn generate_at(&mut self, now: i64) -> (outcome: Result<Option<i64>, SnowflakeError>)
        ensures
            final(self)@.valid(),
            now < old(self)@.last_timestamp ==> outcome == Err::<Option<i64>, SnowflakeError>(
                SnowflakeError::ClockMovedBackwards,
            ) && final(self)@ == old(self)@,
            old(self)@.exhausted_at(now as int) ==> outcome == Ok::<Option<i64>, SnowflakeError>(
                None,
            ) && final(self)@ == old(self)@,
            old(self)@.issues_at(now as int) ==> final(self)@ == old(self)@.advance(now as int) && (
            outcome matches Ok(Some(id)) && id == final(self)@.current_id()),
    {
        proof {
            use_type_invariant(&*self);
        }
        if now < self.last_timestamp {
            return Err(SnowflakeError::ClockMovedBackwards);
        }
        if now == self.last_timestamp {
            if self.sequence == MAX_SEQUENCE {
                return Ok(None);
            }
            self.sequence = self.sequence + 1;
        } else {
            self.sequence = 0;
            self.last_timestamp = now;
        }
        let offset: i64 = self.last_timestamp.wrapping_sub(self.epoch);
        let id: i64 = (offset << TIMESTAMP_SHIFT) | (self.datacenter_id << DATACENTER_ID_SHIFT) | (
        self.machine_id << MACHINE_ID_SHIFT) | self.sequence;
        proof {
            lemma_bits_are_id_value(offset, self.datacenter_id, self.machine_id, self.sequence);
            lemma_wrapped_offset(self.last_timestamp, self.epoch);
        }
        Ok(Some(id))
    }

    /// The clock in milliseconds since the Unix epoch, or `None` where it
    /// reads a time before the epoch.
    pub fn current_timestamp(&self) -> Option<i64> {
        unix_millis()
    }

    /// Whether a clock reading ends the wait for a time after
    /// `last_timestamp`: the reading itself where it shows such a time, and
    /// `None` for a reading at or behind `last_timestamp` and for a clock
    /// that stands before the Unix epoch.
    pub open spec fn later_reading(reading: Option<i64>, last_timestamp: i64) -> Option<i64> {
        match reading {
            Some(timestamp) => if timestamp > last_timestamp {
                Some(timestamp)
            } else {
                None
            },
            None => None,
        }
    }

    /// What one clock reading means to a caller that waits for a time after
    /// `last_timestamp`.
    pub fn accept_later(reading: Option<i64>, last_timestamp: i64) -> (accepted: Option<i64>)
        ensures
            accepted == Self::later_reading(reading, last_timestamp),
    {
        match reading {
            Some(timestamp) => {
                if timestamp > last_timestamp {
                    Some(timestamp)
                } else {
                    None
                }
            },
            None => None,
        }
    }

    /// Reads the clock again and again until it shows a time after
    /// `last_timestamp`, and returns that reading. Readings at or behind
    /// `last_timestamp`, and readings before the Unix epoch, are passed over.
    /// After [`MAX_CLOCK_READS`] readings the wait is given up with `None`.
    pub fn wait_next_millis(&self, last_timestamp: i64) -> (later: Option<i64>)
        ensures
            later matches Some(timestamp) ==> timestamp > last_timestamp,
    {
        let mut reads: u64 = 0;
        while reads < MAX_CLOCK_READS
            invariant
                reads <= MAX_CLOCK_READS,
            decreases MAX_CLOCK_READS - reads,
        {
            reads = reads + 1;
            match Self::accept_later(self.current_timestamp(), last_timestamp) {
                Some(timestamp) => {
                    return Some(timestamp);
                },
                None => {},
            }
        }
        None
    }

    /// What [`real_time_generate`](Self::real_time_generate) makes of a clock
    /// reading, and of the reading that a wait for the next millisecond
    /// brought, if one was needed.
    pub open spec fn outcome_of(
        before: GeneratorState,
        after: GeneratorState,
        outcome: Result<i64, SnowflakeError>,
    ) -> bool {
        match outcome {
            Ok(id) => exists|now: int|
                {
                    &&& #[trigger] before.advance(now) == after
                    &&& now >= before.last_timestamp
                    &&& now <= i64::MAX
                    &&& (now == before.last_timestamp ==> before.sequence < MAX_SEQUENCE)
                    &&& id == after.current_id()
                },
            Err(error) => error == SnowflakeError::ClockMovedBackwards && after == before,
        }
    }

    /// One generation against what the clock gave: a reading, or `None` for
    /// a clock that stands before the Unix epoch or, after a wait, never
    /// moved on. No reading counts as a clock gone backwards: it fails and
    /// leaves the generator as it was. A reading is answered as
    /// [`generate_at`](Self::generate_at) answers it.
    pub fn generate_from(&mut self, reading: Option<i64>) -> (outcome: Result<
        Option<i64>,
        SnowflakeError,
    >)
        ensures
            final(self)@.valid(),
            reading is None ==> outcome == Err::<Option<i64>, SnowflakeError>(
                SnowflakeError::ClockMovedBackwards,
            ) && final(self)@ == old(self)@,
            reading matches Some(now) ==> {
                &&& now < old(self)@.last_timestamp ==> outcome == Err::<
                    Option<i64>,
                    SnowflakeError,
                >(SnowflakeError::ClockMovedBackwards) && final(self)@ == old(self)@
                &&& old(self)@.exhausted_at(now as int) ==> outcome == Ok::<
                    Option<i64>,
                    SnowflakeError,
                >(None) && final(self)@ == old(self)@
                &&& old(self)@.issues_at(now as int) ==> final(self)@ == old(self)@.advance(
                    now as int,
                ) && (outcome matches Ok(Some(id)) && id == final(self)@.current_id())
            },
    {
        proof {
            use_type_invariant(&*self);
        }
        match reading {
            Some(now) => self.generate_at(now),
            None => Err(SnowflakeError::ClockMovedBackwards),
        }
    }

    /// Issues the next identifier by the system clock.
    ///
    /// The clock is read once and the reading answered as
    /// [`generate_from`](Self::generate_from) answers it. Where the sequence
    /// numbers of that millisecond are spent, the clock is waited for, and
    /// what the wait brought is answered in the same way. So the call fails
    /// with `ClockMovedBackwards`, and changes nothing, where the clock reads
    /// a time before the last issue or before the Unix epoch, or where the
    /// wait is given up.
    pub fn real_time_generate(&mut self) -> (outcome: Result<i64, SnowflakeError>)
        ensures
            final(self)@.valid(),
            Self::outcome_of(old(self)@, final(self)@, outcome),
    {
        proof {
            use_type_invariant(&*self);
        }
        let first = self.current_timestamp();
        match self.generate_from(first) {
            Ok(Some(id)) => Ok(id),
            Ok(None) => {
                let later = self.wait_next_millis(self.last_timestamp);
                match self.generate_from(later) {
                    Ok(Some(id)) => Ok(id),
                    Ok(None) => unreached(),
                    Err(error) => Err(error),
                }
            },
            Err(error) => Err(error),
        }
    }

    /// Takes an identifier apart into timestamp, datacenter id, machine id
    /// and sequence. The timestamp is counted from [`DEFAULT_EPOCH`] even
    /// where the identifier was issued against another epoch.
    pub fn parse_id(id: i64) -> (fields: (i64, i64, i64, i64))
        ensures
            fields.0 == timestamp_of(id as int),
            fields.1 == datacenter_of(id as int),
            fields.2 == machine_of(id as int),
            fields.3 == sequence_of(id as int),
    {
        assert((id >> 22) == id / 0x40_0000 && -0x200_0000_0000 <= (id >> 22) < 0x200_0000_0000)
            by (bit_vector);
        assert(((id >> 17) & 31) == (id / 0x2_0000) % 32) by (bit_vector);
        assert(((id >> 12) & 31) == (id / 0x1000) % 32) by (bit_vector);
        assert((id & 4095) == id % 4096) by (bit_vector);
        let timestamp: i64 = (id >> TIMESTAMP_SHIFT) + DEFAULT_EPOCH;
        let datacenter_id: i64 = (id >> DATACENTER_ID_SHIFT) & MAX_DATACENTER_ID;
        let machine_id: i64 = (id >> MACHINE_ID_SHIFT) & MAX_MACHINE_ID;
        let sequence: i64 = id & MAX_SEQUENCE;
        (timestamp, datacenter_id, machine_id, sequence)
    }
}

/// Issuing moves the pair of timestamp and sequence strictly forward, so no
/// pair is ever used twice: within one millisecond the sequence counts up by
/// one, and it never counts past [`MAX_SEQUENCE`]; in a later millisecond it
/// starts again at 0.
pub proof fn lemma_issue_moves_forward(before: GeneratorState, now: int)
    requires
        before.valid(),
        before.issues_at(now),
        now <= i64::MAX,
    ensures
        before.advance(now).valid(),
        before.advance(now).same_identity(before),
        before.advance(now).last_timestamp == now,
        now == before.last_timestamp ==> before.advance(now).sequence == before.sequence + 1,
        now > before.last_timestamp ==> before.advance(now).sequence == 0,
{
}

/// A generator whose 4096 sequence numbers of a millisecond are spent issues
/// nothing more for that millisecond; the next identifier carries a later
/// timestamp and sequence 0.
pub proof fn lemma_overflow_waits_for_next_millis(before: GeneratorState, now: int)
    requires
        before.valid(),
        before.sequence == MAX_SEQUENCE,
        before.issues_at(now),
    ensures
        now > before.last_timestamp,
        before.advance(now).sequence == 0,
        before.advance(now).last_timestamp > before.last_timestamp,
{
}

/// Each identifier is greater than the one issued before it by the same
/// generator, as long as both timestamps lie in the 41-bit window that starts
/// at the generator's epoch.
pub proof fn lemma_ids_strictly_increase(before: GeneratorState, now: int)
    requires
        before.valid(),
        before.in_window(),
        before.issues_at(now),
        before.advance(now).in_window(),
    ensures
        before.advance(now).current_id() > before.current_id(),
{
    let after = before.advance(now);
    lemma_id_in_window(
        before.last_timestamp - before.epoch,
        before.datacenter_id,
        before.machine_id,
        before.sequence,
    );
    lemma_id_in_window(
        after.last_timestamp - after.epoch,
        after.datacenter_id,
        after.machine_id,
        after.sequence,
    );
}

/// Of two identifiers that one generator issues one after the other by the
/// system clock, the second is the greater, as long as both were issued
/// within the 41-bit window that starts at the generator's epoch.
pub proof fn lemma_successive_ids_increase(
    before: GeneratorState,
    between: GeneratorState,
    after: GeneratorState,
    first: i64,
    second: i64,
)
    requires
        before.valid(),
        SnowflakeIdGenerator::outcome_of(before, between, Ok(first)),
        SnowflakeIdGenerator::outcome_of(between, after, Ok(second)),
        between.in_window(),
        after.in_window(),
    ensures
        second > first,
{
    let now = choose|now: int|
        {
            &&& #[trigger] before.advance(now) == between
            &&& now >= before.last_timestamp
            &&& now <= i64::MAX
            &&& (now == before.last_timestamp ==> before.sequence < MAX_SEQUENCE)
        };
    lemma_issue_moves_forward(before, now);
    let later = choose|later: int|
        {
            &&& #[trigger] between.advance(later) == after
            &&& later >= between.last_timestamp
            &&& later <= i64::MAX
            &&& (later == between.last_timestamp ==> between.sequence < MAX_SEQUENCE)
        };
    lemma_ids_strictly_increase(between, later);
}

/// The state of a generator that started in `start` and issued one
/// identifier at each of the clock readings, in order.
pub open spec fn state_after(start: GeneratorState, readings: Seq<int>) -> GeneratorState
    decreases readings.len(),
{
    if readings.len() == 0 {
        start
    } else {
        state_after(start, readings.drop_last()).advance(readings.last())
    }
}

/// Whether a generator that starts in `start` issues an identifier at each
/// of the clock readings in turn, each within the 41-bit window that starts
/// at its epoch.
pub open spec fn issues_all(start: GeneratorState, readings: Seq<int>) -> bool {
    forall|k: int|
        0 <= k < readings.len() ==> {
            &&& (#[trigger] state_after(start, readings.take(k))).issues_at(readings[k])
            &&& readings[k] <= i64::MAX
            &&& offset_fits(readings[k] - start.epoch)
        }
}

/// The identifier issued at the reading of the given position.
pub open spec fn id_at(start: GeneratorState, readings: Seq<int>, position: int) -> int {
    state_after(start, readings.take(position + 1)).current_id()
}

proof fn lemma_state_after_issues(start: GeneratorState, readings: Seq<int>, count: int)
    requires
        start.valid(),
        issues_all(start, readings),
        0 <= count <= readings.len(),
    ensures
        state_after(start, readings.take(count)).valid(),
        state_after(start, readings.take(count)).same_identity(start),
        count > 0 ==> state_after(start, readings.take(count)).last_timestamp == readings[count
            - 1],
    decreases count,
{
    if count > 0 {
        lemma_state_after_issues(start, readings, count - 1);
        assert(readings.take(count).drop_last() =~= readings.take(count - 1));
        assert(readings.take(count).last() == readings[count - 1]);
        let before = state_after(start, readings.take(count - 1));
        assert(before.issues_at(readings[count - 1]));
        lemma_issue_moves_forward(before, readings[count - 1]);
    }
}

/// However many identifiers one generator issues, and whoever asks for them,
/// a later one is greater than every earlier one, and so no two are the
/// same, as long as all are issued within the 41-bit window that starts at
/// the generator's epoch.
pub proof fn lemma_later_ids_are_greater(
    start: GeneratorState,
    readings: Seq<int>,
    earlier: int,
    later: int,
)
    requires
        start.valid(),
        issues_all(start, readings),
        0 <= earlier < later < readings.len(),
    ensures
        id_at(start, readings, earlier) < id_at(start, readings, later),
    decreases later - earlier,
{
    let before = state_after(start, readings.take(later));
    lemma_state_after_issues(start, readings, later);
    lemma_state_after_issues(start, readings, later + 1);
    assert(readings.take(later + 1).drop_last() =~= readings.take(later));
    assert(readings.take(later + 1).last() == readings[later]);
    assert(before.issues_at(readings[later]));
    assert(before.in_window()) by {
        assert(before.last_timestamp == readings[later - 1]);
        assert(state_after(start, readings.take(later - 1)).issues_at(readings[later - 1]));
    }
    lemma_ids_strictly_increase(before, readings[later]);
    if earlier + 1 < later {
        lemma_later_ids_are_greater(start, readings, earlier, later - 1);
    }
}

/// The clock readings of 4097 calls in a row against a clock that stands at
/// `held`: each of the first 4096 calls reads `held`; so does the last call,
/// which gets no identifier for it and waits until the clock shows `moved`.
pub open spec fn held_clock_readings(held: int, moved: int) -> Seq<int> {
    Seq::new(4096, |i: int| held).push(moved)
}

proof fn lemma_held_clock_states(start: GeneratorState, held: int, moved: int, count: int)
    requires
        start.valid(),
        start.last_timestamp < held < moved <= i64::MAX,
        1 <= count <= 4096,
    ensures
        state_after(start, held_clock_readings(held, moved).take(count)) == (GeneratorState {
            sequence: count - 1,
            last_timestamp: held,
            ..start
        }),
    decreases count,
{
    let readings = held_clock_readings(held, moved);
    let taken = readings.take(count);
    assert(taken.len() == count);
    assert(taken.drop_last() =~= readings.take(count - 1));
    assert(taken.last() == held);
    assert(state_after(start, taken) == state_after(start, taken.drop_last()).advance(held));
    if count > 1 {
        lemma_held_clock_states(start, held, moved, count - 1);
    } else {
        assert(readings.take(0).len() == 0);
        assert(state_after(start, readings.take(0)) == start);
    }
}

/// Two identifiers with the same timestamp bits come from offsets that agree
/// in their low 42 bits.
proof fn lemma_timestamp_bits_tell_offsets_apart(
    first: int,
    second: int,
    datacenter_id: int,
    machine_id: int,
    sequence: int,
)
    requires
        0 <= datacenter_id <= MAX_DATACENTER_ID,
        0 <= machine_id <= MAX_MACHINE_ID,
        0 <= sequence <= MAX_SEQUENCE,
        timestamp_of(id_value(first, datacenter_id, machine_id, sequence)) == timestamp_of(
            id_value(second, datacenter_id, machine_id, sequence),
        ),
    ensures
        first % 0x400_0000_0000 == second % 0x400_0000_0000,
{
    let low1: i64 = (first % 0x400_0000_0000) as i64;
    let low2: i64 = (second % 0x400_0000_0000) as i64;
    let d: i64 = datacenter_id as i64;
    let m: i64 = machine_id as i64;
    let s: i64 = sequence as i64;
    let bits1: i64 = (low1 << 22) | (d << 17) | (m << 12) | s;
    let bits2: i64 = (low2 << 22) | (d << 17) | (m << 12) | s;
    lemma_bits_are_id_value(low1, d, m, s);
    lemma_bits_are_id_value(low2, d, m, s);
    assert(bits1 == id_value(first, datacenter_id, machine_id, sequence));
    assert(bits2 == id_value(second, datacenter_id, machine_id, sequence));
    assert(bits1 / 0x40_0000 == bits2 / 0x40_0000 ==> low1 == low2) by (bit_vector)
        requires
            bits1 == (low1 << 22) | (d << 17) | (m << 12) | s,
            bits2 == (low2 << 22) | (d << 17) | (m << 12) | s,
            0 <= low1 < 0x400_0000_0000,
            0 <= low2 < 0x400_0000_0000,
            0 <= d <= 31,
            0 <= m <= 31,
            0 <= s <= 4095,
    ;
}

/// A generator that is asked 4097 times in a row while the clock stands at
/// one millisecond answers every call: the first 4096 calls take the sequence
/// numbers 0 to 4095 of that millisecond, after which the millisecond is
/// spent, and the last call takes sequence 0 of the millisecond that the
/// clock moves on to. No two of the identifiers agree in both their
/// timestamp bits and their sequence bits, unless the clock moved on by a
/// whole multiple of 2^42 milliseconds, which the timestamp bits cannot
/// tell from no move at all.
pub proof fn lemma_held_clock_run(start: GeneratorState, held: int, moved: int)
    requires
        start.valid(),
        start.last_timestamp < held < moved <= i64::MAX,
    ensures
        forall|k: int|
            0 <= k <= 4096 ==> (#[trigger] state_after(
                start,
                held_clock_readings(held, moved).take(k),
            )).issues_at(held_clock_readings(held, moved)[k]),
        forall|k: int|
            0 <= k < 4096 ==> sequence_of(
                #[trigger] id_at(start, held_clock_readings(held, moved), k),
            ) == k,
        state_after(start, held_clock_readings(held, moved).take(4096)).exhausted_at(held),
        state_after(start, held_clock_readings(held, moved)) == (GeneratorState {
            sequence: 0,
            last_timestamp: moved,
            ..start
        }),
        (moved - held) % 0x400_0000_0000 != 0 ==> forall|i: int, j: int|
            0 <= i < j <= 4096 ==> {
                ||| timestamp_of(#[trigger] id_at(start, held_clock_readings(held, moved), i))
                    != timestamp_of(#[trigger] id_at(start, held_clock_readings(held, moved), j))
                ||| sequence_of(id_at(start, held_clock_readings(held, moved), i)) != sequence_of(
                    id_at(start, held_clock_readings(held, moved), j),
                )
            },
{
    let readings = held_clock_readings(held, moved);
    assert(readings.take(0) =~= Seq::<int>::empty());
    assert(readings.take(4097) =~= readings);
    assert(readings.drop_last() =~= readings.take(4096));
    lemma_held_clock_states(start, held, moved, 4096);
    assert forall|k: int| 0 <= k <= 4096 implies (#[trigger] state_after(
        start,
        readings.take(k),
    )).issues_at(readings[k]) by {
        if k > 0 {
            lemma_held_clock_states(start, held, moved, k);
        }
    }
    assert forall|k: int| 0 <= k <= 4096 implies sequence_of(
        #[trigger] id_at(start, readings, k),
    ) == (if k < 4096 {
        k
    } else {
        0
    }) by {
        if k < 4096 {
            lemma_held_clock_states(start, held, moved, k + 1);
        }
        let state = state_after(start, readings.take(k + 1));
        lemma_fields_read_back(
            state.last_timestamp - state.epoch,
            state.datacenter_id,
            state.machine_id,
            state.sequence,
        );
    }
    if (moved - held) % 0x400_0000_0000 != 0 {
        assert forall|i: int, j: int| 0 <= i < j <= 4096 implies {
            ||| timestamp_of(#[trigger] id_at(start, readings, i)) != timestamp_of(
                #[trigger] id_at(start, readings, j),
            )
            ||| sequence_of(id_at(start, readings, i)) != sequence_of(id_at(start, readings, j))
        } by {
            if i == 0 && j == 4096 {
                lemma_held_clock_states(start, held, moved, 1);
                if timestamp_of(id_at(start, readings, i)) == timestamp_of(
                    id_at(start, readings, j),
                ) {
                    lemma_timestamp_bits_tell_offsets_apart(
                        held - start.epoch,
                        moved - start.epoch,
                        start.datacenter_id,
                        start.machine_id,
                        0,
                    );
                    let modulus = 0x400_0000_0000int;
                    let a = held - start.epoch;
                    let b = moved - start.epoch;
                    vstd::arithmetic::div_mod::lemma_fundamental_div_mod(a, modulus);
                    vstd::arithmetic::div_mod::lemma_fundamental_div_mod(b, modulus);
                    assert(b - a == modulus * (b / modulus - a / modulus)) by (nonlinear_arith)
                        requires
                            a == modulus * (a / modulus) + a % modulus,
                            b == modulus * (b / modulus) + b % modulus,
                            a % modulus == b % modulus,
                    ;
                    vstd::arithmetic::div_mod::lemma_mod_multiples_basic(
                        b / modulus - a / modulus,
                        modulus,
                    );
                    assert((modulus * (b / modulus - a / modulus)) % modulus == 0) by {
                        vstd::arithmetic::mul::lemma_mul_is_commutative(
                            modulus,
                            b / modulus - a / modulus,
                        );
                    }
                }
            }
        }
    }
}

/// Taking an identifier apart gives back the datacenter id, the machine id
/// and the sequence that went into it, whatever the offset was. The offset
/// comes back too, counted from [`DEFAULT_EPOCH`], where it fits the 41-bit
/// field.
pub proof fn lemma_fields_read_back(offset: int, datacenter_id: int, machine_id: int, sequence: int)
    requires
        0 <= datacenter_id <= MAX_DATACENTER_ID,
        0 <= machine_id <= MAX_MACHINE_ID,
        0 <= sequence <= MAX_SEQUENCE,
    ensures
        datacenter_of(id_value(offset, datacenter_id, machine_id, sequence)) == datacenter_id,
        machine_of(id_value(offset, datacenter_id, machine_id, sequence)) == machine_id,
        sequence_of(id_value(offset, datacenter_id, machine_id, sequence)) == sequence,
        offset_fits(offset) ==> timestamp_of(id_value(offset, datacenter_id, machine_id, sequence))
            == offset + DEFAULT_EPOCH,
{
    let low: i64 = (offset % 0x400_0000_0000) as i64;
    let d: i64 = datacenter_id as i64;
    let m: i64 = machine_id as i64;
    let s: i64 = sequence as i64;
    let bits: i64 = (low << 22) | (d << 17) | (m << 12) | s;
    lemma_bits_are_id_value(low, d, m, s);
    assert(bits == id_value(offset, datacenter_id, machine_id, sequence));
    assert((bits / 0x2_0000) % 32 == d && (bits / 0x1000) % 32 == m && bits % 4096 == s) by (bit_vector)
        requires
            bits == (low << 22) | (d << 17) | (m << 12) | s,
            0 <= d <= 31,
            0 <= m <= 31,
            0 <= s <= 4095,
    ;
    assert(0 <= low < 0x200_0000_0000 ==> bits / 0x40_0000 == low) by (bit_vector)
        requires
            bits == (low << 22) | (d << 17) | (m << 12) | s,
            0 <= d <= 31,
            0 <= m <= 31,
            0 <= s <= 4095,
    ;
}

/// What the lock of an issuer guards: a generator within bounds whose
/// configuration never changes.
pub open spec fn guards(datacenter_id: int, machine_id: int, epoch: int) -> spec_fn(
    SnowflakeIdGenerator,
) -> bool {
    |generator: SnowflakeIdGenerator|
        {
            &&& generator@.valid()
            &&& generator@.datacenter_id == datacenter_id
            &&& generator@.machine_id == machine_id
            &&& generator@.epoch == epoch
        }
}

/// Whether `id` can come from a generator of the given configuration.
pub open spec fn issued_under(id: int, datacenter_id: int, machine_id: int, epoch: int) -> bool {
    exists|timestamp: int, sequence: int|
        {
            &&& 0 <= sequence <= MAX_SEQUENCE
            &&& -1 <= timestamp <= i64::MAX
            &&& id == #[trigger] id_value(timestamp - epoch, datacenter_id, machine_id, sequence)
        }
}

/// Whether `outcome` is what one generation by the system clock comes to on
/// a generator of the given configuration, in whatever state the generator
/// was: an identifier of the state that the generator moved on to, or the
/// failure that left it where it was.
pub open spec fn one_generation(
    outcome: Result<i64, SnowflakeError>,
    datacenter_id: int,
    machine_id: int,
    epoch: int,
) -> bool {
    exists|before: GeneratorState, after: GeneratorState|
        {
            &&& before.valid()
            &&& before.datacenter_id == datacenter_id
            &&& before.machine_id == machine_id
            &&& before.epoch == epoch
            &&& #[trigger] SnowflakeIdGenerator::outcome_of(before, after, outcome)
        }
}

/// The identifiers that an issuer of the given configuration hands out, in
/// the order in which its callers held the lock, are one run of its
/// generator from the state it was made in. However many callers there are
/// and however their calls fall, a later identifier in that order is greater
/// than every earlier one, and so no two are the same, as long as all are
/// issued within the 41-bit window that starts at the issuer's epoch.
pub proof fn lemma_issuer_ids_increase(
    datacenter_id: int,
    machine_id: int,
    epoch: int,
    readings: Seq<int>,
    earlier: int,
    later: int,
)
    requires
        GeneratorState::initial(datacenter_id, machine_id, epoch).valid(),
        issues_all(GeneratorState::initial(datacenter_id, machine_id, epoch), readings),
        0 <= earlier < later < readings.len(),
    ensures
        id_at(GeneratorState::initial(datacenter_id, machine_id, epoch), readings, earlier) < id_at(
            GeneratorState::initial(datacenter_id, machine_id, epoch),
            readings,
            later,
        ),
{
    lemma_later_ids_are_greater(
        GeneratorState::initial(datacenter_id, machine_id, epoch),
        readings,
        earlier,
        later,
    );
}

/// A generator behind a lock, to be shared by every caller in the process.
pub struct SnowflakeIdBucket {
    generator: RwLock<SnowflakeIdGenerator, spec_fn(SnowflakeIdGenerator) -> bool>,
    datacenter_id: Ghost<int>,
    machine_id: Ghost<int>,
    epoch: Ghost<int>,
}

impl SnowflakeIdBucket {
    #[verifier::type_invariant]
    closed spec fn well_formed(&self) -> bool {
        &&& 0 <= self.datacenter_id@ <= MAX_DATACENTER_ID
        &&& 0 <= self.machine_id@ <= MAX_MACHINE_ID
        &&& self.generator.pred() == guards(self.datacenter_id@, self.machine_id@, self.epoch@)
    }

    /// The datacenter id that every identifier of this issuer carries.
    pub closed spec fn datacenter_id(&self) -> int {
        self.datacenter_id@
    }

    /// The machine id that every identifier of this issuer carries.
    pub closed spec fn machine_id(&self) -> int {
        self.machine_id@
    }

    /// The epoch from which this issuer counts time.
    pub closed spec fn epoch(&self) -> int {
        self.epoch@
    }

    fn wrap(generator: SnowflakeIdGenerator) -> (bucket: Self)
        ensures
            bucket.datacenter_id() == generator@.datacenter_id,
            bucket.machine_id() == generator@.machine_id,
            bucket.epoch() == generator@.epoch,
    {
        proof {
            use_type_invariant(&generator);
        }
        let ghost state = generator@;
        let ghost guard = guards(state.datacenter_id, state.machine_id, state.epoch);
        Self {
            generator: RwLock::new(generator, Ghost(guard)),
            datacenter_id: Ghost(state.datacenter_id),
            machine_id: Ghost(state.machine_id),
            epoch: Ghost(state.epoch),
        }
    }

    /// An issuer for the given site, counting time from [`DEFAULT_EPOCH`].
    pub fn new(datacenter_id: i64, machine_id: i64) -> (made: Result<Self, SnowflakeError>)
        ensures
            !(0 <= datacenter_id <= MAX_DATACENTER_ID) ==> (made matches Err(error) && error
                == SnowflakeError::InvalidDatacenterId),
            0 <= datacenter_id <= MAX_DATACENTER_ID && !(0 <= machine_id <= MAX_MACHINE_ID) ==> (
            made matches Err(error) && error == SnowflakeError::InvalidMachineId),
            0 <= datacenter_id <= MAX_DATACENTER_ID && 0 <= machine_id <= MAX_MACHINE_ID ==> (
            made matches Ok(bucket) && bucket.datacenter_id() == datacenter_id
                && bucket.machine_id() == machine_id && bucket.epoch() == DEFAULT_EPOCH),
    {
        match SnowflakeIdGenerator::new(datacenter_id, machine_id) {
            Ok(generator) => Ok(Self::wrap(generator)),
            Err(error) => Err(error),
        }
    }

    /// An issuer for the given site, counting time from `epoch`.
    pub fn with_epoch(datacenter_id: i64, machine_id: i64, epoch: i64) -> (made: Result<
        Self,
        SnowflakeError,
    >)
        ensures
            !(0 <= datacenter_id <= MAX_DATACENTER_ID) ==> (made matches Err(error) && error
                == SnowflakeError::InvalidDatacenterId),
            0 <= datacenter_id <= MAX_DATACENTER_ID && !(0 <= machine_id <= MAX_MACHINE_ID) ==> (
            made matches Err(error) && error == SnowflakeError::InvalidMachineId),
            0 <= datacenter_id <= MAX_DATACENTER_ID && 0 <= machine_id <= MAX_MACHINE_ID ==> (
            made matches Ok(bucket) && bucket.datacenter_id() == datacenter_id
                && bucket.machine_id() == machine_id && bucket.epoch() == epoch),
    {
        match SnowflakeIdGenerator::with_epoch(datacenter_id, machine_id, epoch) {
            Ok(generator) => Ok(Self::wrap(generator)),
            Err(error) => Err(error),
        }
    }

    /// Takes the lock, lets the generator behind it issue one identifier by
    /// the system clock, and gives the lock back. The generator's error
    /// comes through unchanged.
    ///
    /// Which identifier comes out depends on the clock and on the callers
    /// that held the lock before: the state they left the generator in is
    /// the state this call starts from. Whatever they did, the identifier
    /// carries this issuer's datacenter and machine ids.
    pub fn get_id(&self) -> (outcome: Result<i64, SnowflakeError>)
        ensures
            one_generation(outcome, self.datacenter_id(), self.machine_id(), self.epoch()),
            match outcome {
                Ok(id) => {
                    &&& issued_under(
                        id as int,
                        self.datacenter_id(),
                        self.machine_id(),
                        self.epoch(),
                    )
                    &&& datacenter_of(id as int) == self.datacenter_id()
                    &&& machine_of(id as int) == self.machine_id()
                },
                Err(error) => error == SnowflakeError::ClockMovedBackwards,
            },
    {
        proof {
            use_type_invariant(self);
        }
        let (mut generator, handle) = self.generator.acquire_write();
        let ghost before = generator@;
        let outcome = generator.real_time_generate();
        proof {
            assert(SnowflakeIdGenerator::outcome_of(before, generator@, outcome));
            if let Ok(id) = outcome {
                let state = generator@;
                assert(id == id_value(
                    state.last_timestamp - state.epoch,
                    state.datacenter_id,
                    state.machine_id,
                    state.sequence,
                ));
                lemma_fields_read_back(
                    state.last_timestamp - state.epoch,
                    state.datacenter_id,
                    state.machine_id,
                    state.sequence,
                );
            }
        }
        handle.release_write(generator);
        outcome
    }

    /// Issues `count` identifiers one after the other, each as
    /// [`get_id`](Self::get_id) does, and stops at the first failure.
    pub fn get_ids(&self, count: usize) -> (outcome: Result<Vec<i64>, SnowflakeError>)
        ensures
            match outcome {
                Ok(ids) => {
                    &&& ids@.len() == count
                    &&& forall|i: int|
                        0 <= i < count ==> issued_under(
                            #[trigger] ids@[i] as int,
                            self.datacenter_id(),
                            self.machine_id(),
                            self.epoch(),
                        )
                },
                Err(error) => error == SnowflakeError::ClockMovedBackwards,
            },
    {
        let mut ids: Vec<i64> = Vec::new();
        let mut issued: usize = 0;
        while issued < count
            invariant
                issued <= count,
                ids@.len() == issued,
                forall|i: int|
                    0 <= i < issued ==> issued_under(
                        #[trigger] ids@[i] as int,
                        self.datacenter_id(),
                        self.machine_id(),
                        self.epoch(),
                    ),
            decreases count - issued,
        {
            match self.get_id() {
                Ok(id) => {
                    ids.push(id);
                },
                Err(error) => {
                    return Err(error);
                },
            }
            issued = issued + 1;
        }
        Ok(ids)
    }

    /// Takes an identifier apart; see [`SnowflakeIdGenerator::parse_id`].
    pub fn parse_id(id: i64) -> (fields: (i64, i64, i64, i64))
        ensures
            fields.0 == timestamp_of(id as int),
            fields.1 == datacenter_of(id as int),
            fields.2 == machine_of(id as int),
            fields.3 == sequence_of(id as int),
    {
        SnowflakeIdGenerator::parse_id(id)
    }
}

} // verus!
