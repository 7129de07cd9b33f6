//! Distributed unique identifier generation and parsing.
//!
//! An identifier is a 64-bit unsigned integer: bit 63 is always zero, bits
//! 62..=22 hold the milliseconds elapsed since a configurable epoch, bits
//! 21..=12 hold the worker identifier and bits 11..=0 hold a per-millisecond
//! sequence counter.

use vstd::prelude::*;
use vstd::string::StringExecFns;

use crate::error::ClamberError;

verus! {

/// Largest worker identifier that fits the 10-bit worker field.
pub const MAX_WORKER_ID: u64 = 1023;

/// Largest sequence value that fits the 12-bit sequence field.
pub const MAX_SEQUENCE: u64 = 4095;

/// Largest elapsed-milliseconds value that fits the 41-bit timestamp field.
pub const MAX_TIMESTAMP_DELTA: u64 = 0x1FF_FFFF_FFFF;

/// Epoch used when a configuration does not name one (2010-11-04T01:42:54.657Z).
pub const DEFAULT_EPOCH_MILLIS: u64 = 1288834974657;

/// How many clock samples a generation call may spend waiting for the clock
/// to advance past an exhausted millisecond. The bound exists so that the
/// wait provably terminates; at one sample per nanosecond it spans
/// centuries, so a live clock never reaches it.
pub const SPIN_SAMPLE_LIMIT: u64 = 0xFFFF_FFFF_FFFF_FFFF;

/// Timestamp field of an identifier: milliseconds elapsed since the epoch.
pub open spec fn timestamp_part(id: u64) -> u64 {
    (id >> 22u64) & 0x1FF_FFFF_FFFFu64
}

/// Worker field of an identifier.
pub open spec fn worker_part(id: u64) -> u64 {
    (id >> 12u64) & 0x3FFu64
}

/// Sequence field of an identifier.
pub open spec fn sequence_part(id: u64) -> u64 {
    id & 0xFFFu64
}

/// The identifier composed from its three fields.
pub open spec fn compose_parts(ts: u64, worker: u64, seq: u64) -> u64
    recommends
        ts <= MAX_TIMESTAMP_DELTA,
        worker <= MAX_WORKER_ID,
        seq <= MAX_SEQUENCE,
{
    (ts << 22u64) | (worker << 12u64) | seq
}

/// Composing in-range fields and taking an identifier apart are inverse:
/// each field of the composed identifier is the field it was built from,
/// and the sign-guard bit stays clear.
pub proof fn lemma_parts_of_compose(ts: u64, worker: u64, seq: u64)
    requires
        ts <= MAX_TIMESTAMP_DELTA,
        worker <= MAX_WORKER_ID,
        seq <= MAX_SEQUENCE,
    ensures
        timestamp_part(compose_parts(ts, worker, seq)) == ts,
        worker_part(compose_parts(ts, worker, seq)) == worker,
        sequence_part(compose_parts(ts, worker, seq)) == seq,
        compose_parts(ts, worker, seq) >> 63u64 == 0u64,
{
    assert((((ts << 22u64) | (worker << 12u64) | seq) >> 22u64) & 0x1FF_FFFF_FFFFu64 == ts
        && (((ts << 22u64) | (worker << 12u64) | seq) >> 12u64) & 0x3FFu64 == worker
        && (((ts << 22u64) | (worker << 12u64) | seq) & 0xFFFu64) == seq
        && (((ts << 22u64) | (worker << 12u64) | seq) >> 63u64) == 0u64) by (bit_vector)
        requires
            ts <= 0x1FF_FFFF_FFFFu64,
            worker <= 1023u64,
            seq <= 4095u64,
    ;
}

/// Round trip in the other direction: any identifier with a clear
/// sign-guard bit equals the composition of its decoded fields.
pub proof fn lemma_compose_of_parts(id: u64)
    requires
        id >> 63u64 == 0u64,
    ensures
        compose_parts(timestamp_part(id), worker_part(id), sequence_part(id)) == id,
{
    assert(((((id >> 22u64) & 0x1FF_FFFF_FFFFu64) << 22u64)
        | (((id >> 12u64) & 0x3FFu64) << 12u64) | (id & 0xFFFu64)) == id) by (bit_vector)
        requires
            id >> 63u64 == 0u64,
    ;
}

/// The decoded fields of any identifier are in range.
pub proof fn lemma_parts_in_range(id: u64)
    ensures
        timestamp_part(id) <= MAX_TIMESTAMP_DELTA,
        worker_part(id) <= MAX_WORKER_ID,
        sequence_part(id) <= MAX_SEQUENCE,
{
    assert((id >> 22u64) & 0x1FF_FFFF_FFFFu64 <= 0x1FF_FFFF_FFFFu64
        && (id >> 12u64) & 0x3FFu64 <= 1023u64 && id & 0xFFFu64 <= 4095u64) by (bit_vector);
}

/// Identifiers order first by timestamp field, then by sequence field:
/// raising either raises the composed value.
pub proof fn lemma_compose_increases(ts1: u64, seq1: u64, ts2: u64, seq2: u64, worker: u64)
    requires
        ts1 <= MAX_TIMESTAMP_DELTA,
        ts2 <= MAX_TIMESTAMP_DELTA,
        seq1 <= MAX_SEQUENCE,
        seq2 <= MAX_SEQUENCE,
        worker <= MAX_WORKER_ID,
        ts1 <= ts2,
        ts1 == ts2 ==> seq1 < seq2,
    ensures
        compose_parts(ts1, worker, seq1) < compose_parts(ts2, worker, seq2),
{
    assert(((ts1 << 22u64) | (worker << 12u64) | seq1)
        < ((ts2 << 22u64) | (worker << 12u64) | seq2)) by (bit_vector)
        requires
            ts1 <= 0x1FF_FFFF_FFFFu64,
            ts2 <= 0x1FF_FFFF_FFFFu64,
            seq1 <= 4095u64,
            seq2 <= 4095u64,
            worker <= 1023u64,
            ts1 <= ts2,
            ts1 == ts2 ==> seq1 < seq2,
    ;
}

/// Generator configuration: a worker identifier in `[0, MAX_WORKER_ID]` and
/// an optional custom epoch in milliseconds.
#[derive(Debug, Clone)]
pub struct SnowflakeConfig {
    /// Worker identifier, `0..=1023`.
    pub worker_id: u64,
    /// Custom epoch in milliseconds; `None` selects `DEFAULT_EPOCH_MILLIS`.
    pub epoch: Option<u64>,
}

/// The epoch a configuration selects.
pub open spec fn epoch_of(config: SnowflakeConfig) -> u64 {
    match config.epoch {
        Some(e) => e,
        None => DEFAULT_EPOCH_MILLIS,
    }
}

impl Default for SnowflakeConfig {
    /// The default configuration: worker 1 with the default epoch.
    fn default() -> (r: Self)
        ensures
            r.worker_id == 1,
            r.epoch is None,
    {
        SnowflakeConfig { worker_id: 1, epoch: None }
    }
}

impl SnowflakeConfig {
    /// Builds a configuration with the default epoch. Succeeds exactly when
    /// `worker_id` is in range; out-of-range values are rejected here, never
    /// at generation time.
    pub fn new(worker_id: u64) -> (r: Result<Self, ClamberError>)
        ensures
            worker_id <= MAX_WORKER_ID ==> (r matches Ok(c)
                && c == (SnowflakeConfig { worker_id, epoch: None })),
            worker_id > MAX_WORKER_ID ==> (r matches Err(e)
                && e == (ClamberError::InvalidWorkerId { worker_id })),
    {
        match Self::validate_worker_id(worker_id) {
            Ok(()) => Ok(SnowflakeConfig { worker_id, epoch: None }),
            Err(e) => Err(e),
        }
    }

    /// Builds a configuration with a custom epoch. Succeeds exactly when
    /// `worker_id` is in range; the epoch itself is not constrained.
    pub fn with_epoch(worker_id: u64, epoch: u64) -> (r: Result<Self, ClamberError>)
        ensures
            worker_id <= MAX_WORKER_ID ==> (r matches Ok(c)
                && c == (SnowflakeConfig { worker_id, epoch: Some(epoch) })),
            worker_id > MAX_WORKER_ID ==> (r matches Err(e)
                && e == (ClamberError::InvalidWorkerId { worker_id })),
    {
        match Self::validate_worker_id(worker_id) {
            Ok(()) => Ok(SnowflakeConfig { worker_id, epoch: Some(epoch) }),
            Err(e) => Err(e),
        }
    }

    /// Replaces the worker identifier, rejecting out-of-range values.
    pub fn worker_id(self, worker_id: u64) -> (r: Result<Self, ClamberError>)
        ensures
            worker_id <= MAX_WORKER_ID ==> (r matches Ok(c)
                && c == (SnowflakeConfig { worker_id, epoch: self.epoch })),
            worker_id > MAX_WORKER_ID ==> (r matches Err(e)
                && e == (ClamberError::InvalidWorkerId { worker_id })),
    {
        match Self::validate_worker_id(worker_id) {
            Ok(()) => Ok(SnowflakeConfig { worker_id, epoch: self.epoch }),
            Err(e) => Err(e),
        }
    }

    /// Replaces the epoch.
    pub fn epoch(self, epoch: u64) -> (r: Self)
        ensures
            r == (SnowflakeConfig { worker_id: self.worker_id, epoch: Some(epoch) }),
    {
        SnowflakeConfig { worker_id: self.worker_id, epoch: Some(epoch) }
    }

    /// Accepts exactly the worker identifiers that fit the worker field.
    fn validate_worker_id(worker_id: u64) -> (r: Result<(), ClamberError>)
        ensures
            worker_id <= MAX_WORKER_ID ==> r matches Ok(_),
            worker_id > MAX_WORKER_ID ==> (r matches Err(e)
                && e == (ClamberError::InvalidWorkerId { worker_id })),
    {
        if worker_id > MAX_WORKER_ID {
            Err(ClamberError::InvalidWorkerId { worker_id })
        } else {
            Ok(())
        }
    }
}

/// Mutable generation state: the timestamp of the last issued identifier and
/// the sequence value used at that timestamp.
#[derive(Debug, Clone, Copy, PartialEq, Eq, Structural)]
pub struct GeneratorState {
    /// Millisecond timestamp observed by the last successful generation.
    pub last_timestamp_millis: u64,
    /// Sequence counter used within `last_timestamp_millis`.
    pub sequence: u64,
}

/// The clock observation lies before the state's last timestamp.
pub open spec fn step_rolls_back(st: GeneratorState, now_millis: u64) -> bool {
    now_millis < st.last_timestamp_millis
}

/// The elapsed time from the epoch to the observation does not fit the
/// 41-bit timestamp field (also covers observations before the epoch).
pub open spec fn step_overflows(epoch: u64, now_millis: u64) -> bool {
    now_millis < epoch || now_millis - epoch > MAX_TIMESTAMP_DELTA
}

/// The sequence space of the observed millisecond is used up.
pub open spec fn step_exhausted(st: GeneratorState, now_millis: u64) -> bool {
    now_millis == st.last_timestamp_millis && st.sequence >= MAX_SEQUENCE
}

/// A generation step at this observation issues an identifier.
pub open spec fn step_succeeds(epoch: u64, st: GeneratorState, now_millis: u64) -> bool {
    &&& !step_rolls_back(st, now_millis)
    &&& !step_overflows(epoch, now_millis)
    &&& !step_exhausted(st, now_millis)
}

/// The state after a successful generation step: the sequence advances
/// within the same millisecond and restarts at zero in a new one.
pub open spec fn next_state(st: GeneratorState, now_millis: u64) -> GeneratorState {
    if now_millis == st.last_timestamp_millis {
        GeneratorState { last_timestamp_millis: now_millis, sequence: (st.sequence + 1) as u64 }
    } else {
        GeneratorState { last_timestamp_millis: now_millis, sequence: 0 }
    }
}

/// The identifier issued at a state's recorded position.
pub open spec fn issued_id(worker: u64, epoch: u64, st: GeneratorState) -> u64 {
    compose_parts((st.last_timestamp_millis - epoch) as u64, worker, st.sequence)
}

/// The state's recorded timestamp lies at or after the epoch and within the
/// range of the timestamp field, so `issued_id` names a real identifier.
pub open spec fn state_in_range(epoch: u64, st: GeneratorState) -> bool {
    epoch <= st.last_timestamp_millis && st.last_timestamp_millis - epoch <= MAX_TIMESTAMP_DELTA
}

/// Relies on std::time::SystemTime::now, read out as milliseconds since the
/// Unix epoch; a host clock standing before that epoch is reported as 0
/// rather than panicking. Nothing is assumed of the observation; callers
/// cope with every value, including one before the previous observation.
#[verifier::external_body]
fn current_millis() -> u64 {
    match std::time::SystemTime::now().duration_since(std::time::UNIX_EPOCH) {
        Ok(elapsed) => elapsed.as_millis() as u64,
        Err(_) => 0,
    }
}

/// A thread-exclusive identifier generator: a validated configuration and
/// the mutable generation state, which only `generate` steps may change.
#[derive(Debug)]
pub struct SnowflakeManager {
    config: SnowflakeConfig,
    state: GeneratorState,
}

impl SnowflakeManager {
    /// The configuration the generator was built with.
    pub closed spec fn spec_config(&self) -> SnowflakeConfig {
        self.config
    }

    /// The current generation state.
    pub closed spec fn spec_state(&self) -> GeneratorState {
        self.state
    }

    /// The epoch the generator measures timestamps from.
    pub open spec fn spec_epoch(&self) -> u64 {
        epoch_of(self.spec_config())
    }

    /// Well-formedness: the worker identifier and the sequence counter fit
    /// their fields. Established by the constructors, preserved throughout.
    pub open spec fn wf(&self) -> bool {
        &&& self.spec_config().worker_id <= MAX_WORKER_ID
        &&& self.spec_state().sequence <= MAX_SEQUENCE
    }

    /// Builds a generator from a configuration. Succeeds exactly when the
    /// worker identifier is in range; the state starts at `(0, 0)`.
    pub fn new(config: SnowflakeConfig) -> (r: Result<Self, ClamberError>)
        ensures
            config.worker_id <= MAX_WORKER_ID ==> (r matches Ok(m)
                && m.wf()
                && m.spec_config() == config
                && m.spec_state() == (GeneratorState { last_timestamp_millis: 0, sequence: 0 })),
            config.worker_id > MAX_WORKER_ID ==> (r matches Err(e)
                && e == (ClamberError::InvalidWorkerId { worker_id: config.worker_id })),
    {
        if config.worker_id > MAX_WORKER_ID {
            Err(ClamberError::InvalidWorkerId { worker_id: config.worker_id })
        } else {
            Ok(SnowflakeManager {
                config,
                state: GeneratorState { last_timestamp_millis: 0, sequence: 0 },
            })
        }
    }

    /// Builds a generator with the default configuration.
    pub fn default() -> (r: Result<Self, ClamberError>)
        ensures
            r matches Ok(m) && m.wf() && m.spec_config().worker_id == 1
                && m.spec_config().epoch is None
                && m.spec_state() == (GeneratorState { last_timestamp_millis: 0, sequence: 0 }),
    {
        SnowflakeManager::new(SnowflakeConfig::default())
    }

    /// The configuration in use.
    pub fn get_config(&self) -> (r: &SnowflakeConfig)
        ensures
            *r == self.spec_config(),
    {
        &self.config
    }

    /// The worker identifier in use.
    pub fn worker_id(&self) -> (r: u64)
        ensures
            r == self.spec_config().worker_id,
    {
        self.config.worker_id
    }

    /// The epoch in use.
    fn epoch_millis(&self) -> (r: u64)
        ensures
            r == self.spec_epoch(),
    {
        match self.config.epoch {
            Some(e) => e,
            None => DEFAULT_EPOCH_MILLIS,
        }
    }

    /// Runs one transition of the generation state machine against an
    /// injected clock observation, so that callers and tests control time.
    ///
    /// Returns `Ok(Some(id))` when an identifier is issued, `Ok(None)` when
    /// the sequence space of the observed millisecond is exhausted (retry
    /// after the clock advances), and an error when the clock rolled back or
    /// the elapsed time does not fit the timestamp field. The state changes
    /// only when an identifier is issued, and every issued identifier is
    /// strictly greater than the previously issued one.
    pub fn try_generate_at(&mut self, now_millis: u64) -> (r: Result<Option<u64>, ClamberError>)
        requires
            old(self).wf(),
        ensures
            final(self).wf(),
            final(self).spec_config() == old(self).spec_config(),
            step_rolls_back(old(self).spec_state(), now_millis) ==> (r matches Err(e)
                && e == (ClamberError::ClockRollback {
                    now_millis,
                    last_timestamp_millis: old(self).spec_state().last_timestamp_millis,
                })
                && final(self).spec_state() == old(self).spec_state()),
            !step_rolls_back(old(self).spec_state(), now_millis)
                && step_overflows(old(self).spec_epoch(), now_millis) ==> (r matches Err(e)
                && e == (ClamberError::TimestampOverflow {
                    now_millis,
                    epoch_millis: old(self).spec_epoch(),
                })
                && final(self).spec_state() == old(self).spec_state()),
            !step_rolls_back(old(self).spec_state(), now_millis)
                && !step_overflows(old(self).spec_epoch(), now_millis)
                && step_exhausted(old(self).spec_state(), now_millis) ==> (r == Ok::<
                Option<u64>,
                ClamberError,
            >(None) && final(self).spec_state() == old(self).spec_state()),
            step_succeeds(old(self).spec_epoch(), old(self).spec_state(), now_millis) ==> ({
                let epoch = old(self).spec_epoch();
                let worker = old(self).spec_config().worker_id;
                let issued = issued_id(worker, epoch, final(self).spec_state());
                &&& final(self).spec_state() == next_state(old(self).spec_state(), now_millis)
                &&& state_in_range(epoch, final(self).spec_state())
                &&& r == Ok::<Option<u64>, ClamberError>(Some(issued))
                &&& worker_part(issued) == worker
                &&& timestamp_part(issued) == now_millis - epoch
                &&& sequence_part(issued) == final(self).spec_state().sequence
                &&& issued >> 63u64 == 0u64
                &&& state_in_range(epoch, old(self).spec_state()) ==> issued > issued_id(
                    worker,
                    epoch,
                    old(self).spec_state(),
                )
            }),
    {
        let last = self.state.last_timestamp_millis;
        if now_millis < last {
            return Err(ClamberError::ClockRollback { now_millis, last_timestamp_millis: last });
        }
        let epoch = self.epoch_millis();
        if now_millis < epoch {
            return Err(ClamberError::TimestampOverflow { now_millis, epoch_millis: epoch });
        }
        let delta = now_millis - epoch;
        if delta > MAX_TIMESTAMP_DELTA {
            return Err(ClamberError::TimestampOverflow { now_millis, epoch_millis: epoch });
        }
        let worker = self.config.worker_id;
        if now_millis == last {
            if self.state.sequence >= MAX_SEQUENCE {
                return Ok(None);
            }
            let seq = self.state.sequence + 1;
            self.state = GeneratorState { last_timestamp_millis: now_millis, sequence: seq };
            let id = (delta << 22u64) | (worker << 12u64) | seq;
            proof {
                lemma_parts_of_compose(delta, worker, seq);
                if state_in_range(epoch, old(self).spec_state()) {
                    lemma_compose_increases(delta, old(self).spec_state().sequence, delta, seq, worker);
                }
            }
            Ok(Some(id))
        } else {
            let seq: u64 = 0;
            self.state = GeneratorState { last_timestamp_millis: now_millis, sequence: seq };
            let id = (delta << 22u64) | (worker << 12u64) | seq;
            proof {
                lemma_parts_of_compose(delta, worker, seq);
                if state_in_range(epoch, old(self).spec_state()) {
                    lemma_compose_increases(
                        (old(self).spec_state().last_timestamp_millis - epoch) as u64,
                        old(self).spec_state().sequence,
                        delta,
                        seq,
                        worker,
                    );
                }
            }
            Ok(Some(id))
        }
    }

    /// Issues the next identifier, observing the process clock. Spins while
    /// the sequence space of the current millisecond is exhausted, until the
    /// clock advances to the next millisecond (giving up only after
    /// `SPIN_SAMPLE_LIMIT` samples, so that the wait provably terminates).
    pub fn generate_id(&mut self) -> (r: Result<u64, ClamberError>)
        requires
            old(self).wf(),
        ensures
            final(self).wf(),
            final(self).spec_config() == old(self).spec_config(),
            r matches Ok(id) ==> ({
                let epoch = old(self).spec_epoch();
                let worker = old(self).spec_config().worker_id;
                &&& worker_part(id) == worker
                &&& state_in_range(epoch, final(self).spec_state())
                &&& id == issued_id(worker, epoch, final(self).spec_state())
                &&& state_in_range(epoch, old(self).spec_state()) ==> id > issued_id(
                    worker,
                    epoch,
                    old(self).spec_state(),
                )
            }),
            r matches Err(e) ==> (final(self).spec_state() == old(self).spec_state() && (
            e matches ClamberError::ClockRollback { .. } || e matches ClamberError::TimestampOverflow { .. }
                || e matches ClamberError::SnowflakeGenerateError { .. })),
    {
        let mut attempts_left: u64 = SPIN_SAMPLE_LIMIT;
        while attempts_left > 0
            invariant
                self.wf(),
                self.spec_config() == old(self).spec_config(),
                self.spec_state() == old(self).spec_state(),
            decreases attempts_left,
        {
            let now = current_millis();
            match self.try_generate_at(now) {
                Ok(Some(id)) => {
                    return Ok(id);
                },
                Ok(None) => {},
                Err(e) => {
                    return Err(e);
                },
            }
            attempts_left = attempts_left - 1;
        }
        Err(ClamberError::SnowflakeGenerateError {
            details: String::from_str("clock did not advance"),
        })
    }

    /// Issues `count` identifiers in order. Fails on the first error and
    /// discards the partially generated batch; a returned batch is complete,
    /// strictly increasing, and carries the generator's worker identifier.
    /// A batch of zero observes no clock and always succeeds.
    pub fn generate_ids(&mut self, count: usize) -> (r: Result<Vec<u64>, ClamberError>)
        requires
            old(self).wf(),
        ensures
            final(self).wf(),
            final(self).spec_config() == old(self).spec_config(),
            count == 0 ==> (r matches Ok(ids) && ids@.len() == 0),
            r matches Err(e) ==> (e matches ClamberError::ClockRollback { .. }
                || e matches ClamberError::TimestampOverflow { .. }
                || e matches ClamberError::SnowflakeGenerateError { .. }),
            r matches Ok(ids) ==> ({
                &&& ids@.len() == count
                &&& forall|i: int|
                    0 <= i < ids@.len() ==> worker_part(#[trigger] ids@[i]) == old(
                        self,
                    ).spec_config().worker_id
                &&& forall|i: int, j: int| 0 <= i < j < ids@.len() ==> ids@[i] < ids@[j]
            }),
    {
        let ghost epoch = self.spec_epoch();
        let ghost worker = self.spec_config().worker_id;
        let mut ids: Vec<u64> = Vec::new();
        let mut n: usize = 0;
        while n < count
            invariant
                n <= count,
                self.wf(),
                self.spec_config() == old(self).spec_config(),
                epoch == self.spec_epoch(),
                worker == self.spec_config().worker_id,
                ids@.len() == n,
                forall|i: int| 0 <= i < ids@.len() ==> worker_part(#[trigger] ids@[i]) == worker,
                forall|i: int, j: int| 0 <= i < j < ids@.len() ==> ids@[i] < ids@[j],
                ids@.len() > 0 ==> state_in_range(epoch, self.spec_state()) && ids@.last()
                    == issued_id(worker, epoch, self.spec_state()),
            decreases count - n,
        {
            match self.generate_id() {
                Ok(id) => {
                    proof {
                        if ids@.len() > 0 {
                            assert(forall|i: int|
                                0 <= i < ids@.len() - 1 ==> #[trigger] ids@[i] < ids@[ids@.len()
                                    - 1]);
                        }
                    }
                    ids.push(id);
                },
                Err(e) => {
                    return Err(e);
                },
            }
            n = n + 1;
        }
        Ok(ids)
    }

    /// Splits an identifier into its fields. Pure bit-unpacking: any 64-bit
    /// input decodes to some triple, and nothing is re-validated.
    pub fn parse_id(&self, id: u64) -> (r: SnowflakeIdInfo)
        ensures
            r.id == id,
            r.timestamp == timestamp_part(id),
            r.worker_id == worker_part(id),
            r.sequence as u64 == sequence_part(id),
    {
        parse_id_fields(id)
    }
}

/// Composes an identifier from in-range fields: the inverse of parsing, so
/// that composing the parsed fields of a valid identifier yields the
/// identifier back.
pub fn compose_id(timestamp: u64, worker_id: u64, sequence: u64) -> (r: u64)
    requires
        timestamp <= MAX_TIMESTAMP_DELTA,
        worker_id <= MAX_WORKER_ID,
        sequence <= MAX_SEQUENCE,
    ensures
        r == compose_parts(timestamp, worker_id, sequence),
        timestamp_part(r) == timestamp,
        worker_part(r) == worker_id,
        sequence_part(r) == sequence,
{
    proof {
        lemma_parts_of_compose(timestamp, worker_id, sequence);
    }
    (timestamp << 22u64) | (worker_id << 12u64) | sequence
}

/// Splits an identifier into its fields; shared by the method and the
/// module-level convenience functions.
fn parse_id_fields(id: u64) -> (r: SnowflakeIdInfo)
    ensures
        r.id == id,
        r.timestamp == timestamp_part(id),
        r.worker_id == worker_part(id),
        r.sequence as u64 == sequence_part(id),
{
    let timestamp = (id >> 22u64) & 0x1FF_FFFF_FFFF;
    let worker_id = (id >> 12u64) & 0x3FF;
    let sequence = id & 0xFFF;
    proof {
        lemma_parts_in_range(id);
        assert(sequence <= 4095 ==> (sequence as u16) as u64 == sequence) by (bit_vector);
    }
    SnowflakeIdInfo { id, timestamp, worker_id, sequence: sequence as u16 }
}

/// A generation step taken from an in-range state issues an identifier
/// strictly greater than the one the state last issued: under a clock whose
/// observations never decrease, sequential generation yields strictly
/// increasing identifiers.
pub proof fn lemma_issued_id_increases(worker: u64, epoch: u64, st: GeneratorState, now_millis: u64)
    requires
        worker <= MAX_WORKER_ID,
        st.sequence <= MAX_SEQUENCE,
        state_in_range(epoch, st),
        step_succeeds(epoch, st, now_millis),
    ensures
        next_state(st, now_millis).sequence <= MAX_SEQUENCE,
        state_in_range(epoch, next_state(st, now_millis)),
        issued_id(worker, epoch, next_state(st, now_millis)) > issued_id(worker, epoch, st),
{
    let delta = (st.last_timestamp_millis - epoch) as u64;
    let delta2 = (now_millis - epoch) as u64;
    if now_millis == st.last_timestamp_millis {
        lemma_compose_increases(delta, st.sequence, delta2, (st.sequence + 1) as u64, worker);
    } else {
        lemma_compose_increases(delta, st.sequence, delta2, 0, worker);
    }
}

/// An exhausted millisecond issues nothing, and the first step of the next
/// millisecond issues sequence zero with a timestamp field strictly
/// greater than that of every identifier of the exhausted millisecond.
pub proof fn lemma_exhausted_millisecond_wraps(worker: u64, epoch: u64, st: GeneratorState)
    requires
        worker <= MAX_WORKER_ID,
        st.sequence == MAX_SEQUENCE,
        state_in_range(epoch, st),
        st.last_timestamp_millis < u64::MAX,
        st.last_timestamp_millis + 1 - epoch <= MAX_TIMESTAMP_DELTA,
    ensures
        step_exhausted(st, st.last_timestamp_millis),
        ({
            let t1 = (st.last_timestamp_millis + 1) as u64;
            let st1 = next_state(st, t1);
            &&& step_succeeds(epoch, st, t1)
            &&& st1.sequence == 0
            &&& sequence_part(issued_id(worker, epoch, st1)) == 0
            &&& timestamp_part(issued_id(worker, epoch, st1)) == st.last_timestamp_millis + 1
                - epoch
            &&& timestamp_part(issued_id(worker, epoch, st1)) > st.last_timestamp_millis - epoch
        }),
{
    let t1 = (st.last_timestamp_millis + 1) as u64;
    lemma_parts_of_compose((t1 - epoch) as u64, worker, 0);
}

/// The identifiers issued when the generation state machine consumes a
/// sequence of clock readings from an initial state: a successful step
/// contributes its identifier, a failed or exhausted step leaves the state
/// unchanged and contributes nothing.
pub open spec fn run_ids(epoch: u64, worker: u64, st: GeneratorState, readings: Seq<u64>) -> Seq<
    u64,
>
    decreases readings.len(),
{
    if readings.len() == 0 {
        seq![]
    } else {
        let now = readings[0];
        if step_succeeds(epoch, st, now) {
            seq![issued_id(worker, epoch, next_state(st, now))] + run_ids(
                epoch,
                worker,
                next_state(st, now),
                readings.skip(1),
            )
        } else {
            run_ids(epoch, worker, st, readings.skip(1))
        }
    }
}

proof fn lemma_run_ids_lower_bound(epoch: u64, worker: u64, st: GeneratorState, readings: Seq<u64>)
    requires
        worker <= MAX_WORKER_ID,
        st.sequence <= MAX_SEQUENCE,
        state_in_range(epoch, st),
    ensures
        forall|k: int|
            0 <= k < run_ids(epoch, worker, st, readings).len() ==> #[trigger] run_ids(
                epoch,
                worker,
                st,
                readings,
            )[k] > issued_id(worker, epoch, st),
    decreases readings.len(),
{
    if readings.len() > 0 {
        let now = readings[0];
        let ids = run_ids(epoch, worker, st, readings);
        if step_succeeds(epoch, st, now) {
            let st1 = next_state(st, now);
            let rest = run_ids(epoch, worker, st1, readings.skip(1));
            lemma_issued_id_increases(worker, epoch, st, now);
            lemma_run_ids_lower_bound(epoch, worker, st1, readings.skip(1));
            assert(ids == seq![issued_id(worker, epoch, st1)] + rest);
            assert forall|k: int| 0 <= k < ids.len() implies ids[k] > issued_id(
                worker,
                epoch,
                st,
            ) by {
                if k == 0 {
                    assert(ids[0] == issued_id(worker, epoch, st1));
                } else {
                    assert(ids[k] == rest[k - 1]);
                    assert(rest[k - 1] > issued_id(worker, epoch, st1));
                }
            }
        } else {
            lemma_run_ids_lower_bound(epoch, worker, st, readings.skip(1));
            assert(ids == run_ids(epoch, worker, st, readings.skip(1)));
        }
    }
}

/// However the clock behaves, the identifiers one generator issues in a
/// sequential run are strictly increasing (a reading that rolls back or
/// repeats an exhausted millisecond issues nothing, so it cannot break the
/// order).
pub proof fn lemma_sequential_ids_strictly_increase(
    epoch: u64,
    worker: u64,
    st: GeneratorState,
    readings: Seq<u64>,
)
    requires
        worker <= MAX_WORKER_ID,
        st.sequence <= MAX_SEQUENCE,
    ensures
        forall|i: int, j: int|
            0 <= i < j < run_ids(epoch, worker, st, readings).len() ==> #[trigger] run_ids(
                epoch,
                worker,
                st,
                readings,
            )[i] < #[trigger] run_ids(epoch, worker, st, readings)[j],
    decreases readings.len(),
{
    if readings.len() > 0 {
        let now = readings[0];
        let ids = run_ids(epoch, worker, st, readings);
        if step_succeeds(epoch, st, now) {
            let st1 = next_state(st, now);
            let rest = run_ids(epoch, worker, st1, readings.skip(1));
            lemma_sequential_ids_strictly_increase(epoch, worker, st1, readings.skip(1));
            lemma_run_ids_lower_bound(epoch, worker, st1, readings.skip(1));
            assert(ids == seq![issued_id(worker, epoch, st1)] + rest);
            assert forall|i: int, j: int| 0 <= i < j < ids.len() implies ids[i] < ids[j] by {
                assert(ids[j] == rest[j - 1]);
                if i == 0 {
                    assert(ids[0] == issued_id(worker, epoch, st1));
                    assert(rest[j - 1] > issued_id(worker, epoch, st1));
                } else {
                    assert(ids[i] == rest[i - 1]);
                    assert(rest[i - 1] < rest[j - 1]);
                }
            }
        } else {
            lemma_sequential_ids_strictly_increase(epoch, worker, st, readings.skip(1));
            assert(ids == run_ids(epoch, worker, st, readings.skip(1)));
        }
    }
}

/// The fields of one identifier: a pure read-only projection with no
/// independent lifecycle.
#[derive(Debug, Clone)]
pub struct SnowflakeIdInfo {
    /// The identifier itself.
    pub id: u64,
    /// Milliseconds elapsed since the generator's epoch.
    pub timestamp: u64,
    /// Worker identifier that issued the identifier.
    pub worker_id: u64,
    /// Per-millisecond sequence value.
    pub sequence: u16,
}

impl SnowflakeIdInfo {
    /// The absolute generation instant in milliseconds since the Unix
    /// epoch: the timestamp field plus the epoch the identifier was issued
    /// against (`DEFAULT_EPOCH_MILLIS` when none is given).
    pub fn generation_time(&self, epoch: Option<u64>) -> (r: u64)
        requires
            self.timestamp + (match epoch {
                Some(e) => e,
                None => DEFAULT_EPOCH_MILLIS,
            }) <= u64::MAX,
        ensures
            r == self.timestamp + (match epoch {
                Some(e) => e,
                None => DEFAULT_EPOCH_MILLIS,
            }),
    {
        let e = match epoch {
            Some(e) => e,
            None => DEFAULT_EPOCH_MILLIS,
        };
        self.timestamp + e
    }

    /// The generation instant as readable UTC text: the timestamp field
    /// plus the epoch, rendered by the calendar, or a fixed note when the
    /// instant cannot be represented.
    pub fn generation_time_string(&self, epoch: Option<u64>) -> (r: String)
        ensures
            ({
                let instant = self.timestamp + (match epoch {
                    Some(e) => e,
                    None => DEFAULT_EPOCH_MILLIS,
                });
                if instant > i64::MAX {
                    r@ == "Invalid timestamp"@
                } else {
                    r@ == utc_text_of(instant) || r@ == "Invalid timestamp"@
                }
            }),
    {
        let e = match epoch {
            Some(ep) => ep,
            None => DEFAULT_EPOCH_MILLIS,
        };
        let instant = match self.timestamp.checked_add(e) {
            None => {
                return String::from_str("Invalid timestamp");
            },
            Some(s) => s,
        };
        if instant > 0x7FFF_FFFF_FFFF_FFFF {
            return String::from_str("Invalid timestamp");
        }
        match format_utc_millis(instant as i64) {
            Some(s) => s,
            None => String::from_str("Invalid timestamp"),
        }
    }

    /// The identifier as decimal text, the wire format.
    pub fn to_string(&self) -> (r: String)
        ensures
            r@ == crate::decimal::decimal_digits(self.id as nat),
    {
        crate::decimal::u64_to_string(self.id)
    }

    /// Reads an identifier from decimal text. Succeeds exactly when the
    /// text is nonempty, consists of digits only, and its value fits `u64`.
    pub fn from_string(id_str: &str) -> (r: Result<u64, ClamberError>)
        ensures
            id_str@.len() > 0 && crate::decimal::all_digits(id_str@)
                && crate::decimal::decimal_value(id_str@) <= u64::MAX ==> (r matches Ok(v)
                && v as nat == crate::decimal::decimal_value(id_str@)),
            !(id_str@.len() > 0 && crate::decimal::all_digits(id_str@)
                && crate::decimal::decimal_value(id_str@) <= u64::MAX) ==> (r matches Err(e)
                && e matches ClamberError::SnowflakeConfigError { .. }),
    {
        match crate::decimal::parse_u64(id_str) {
            Some(v) => Ok(v),
            None => Err(ClamberError::SnowflakeConfigError {
                details: String::from_str("the identifier string is not an unsigned decimal"),
            }),
        }
    }
}

/// What rendering a millisecond instant as UTC text with second-and-
/// millisecond precision returns; the text depends on the instant alone.
pub uninterp spec fn utc_text_of(timestamp_millis: int) -> Seq<char>;

/// Relies on chrono::DateTime::from_timestamp_millis and formatting with a
/// fixed pattern: the rendered text is a function of the instant alone,
/// named `utc_text_of`; an instant outside the calendar's range yields
/// nothing.
#[verifier::external_body]
fn format_utc_millis(timestamp_millis: i64) -> (r: Option<String>)
    ensures
        r matches Some(s) ==> s@ == utc_text_of(timestamp_millis as int),
{
    chrono::DateTime::from_timestamp_millis(timestamp_millis)
        .map(|dt| dt.format("%Y-%m-%d %H:%M:%S%.3f").to_string())
}

/// Issues one identifier from a generator with the default configuration.
/// Each call builds a fresh generator; a process-wide shared instance is the
/// embedding application's concern.
pub fn generate_id() -> (r: Result<u64, ClamberError>)
    ensures
        r matches Ok(id) ==> worker_part(id) == 1,
{
    let mut manager = match SnowflakeManager::default() {
        Ok(m) => m,
        Err(e) => {
            return Err(e);
        },
    };
    manager.generate_id()
}

/// Issues `count` identifiers from one generator with the default
/// configuration: a returned batch is complete, strictly increasing and
/// duplicate-free. A batch of zero observes no clock and always succeeds.
pub fn generate_ids(count: usize) -> (r: Result<Vec<u64>, ClamberError>)
    ensures
        count == 0 ==> (r matches Ok(ids) && ids@.len() == 0),
        r matches Err(e) ==> (e matches ClamberError::ClockRollback { .. }
            || e matches ClamberError::TimestampOverflow { .. }
            || e matches ClamberError::SnowflakeGenerateError { .. }),
        r matches Ok(ids) ==> ({
            &&& ids@.len() == count
            &&& forall|i: int| 0 <= i < ids@.len() ==> worker_part(#[trigger] ids@[i]) == 1
            &&& forall|i: int, j: int| 0 <= i < j < ids@.len() ==> ids@[i] < ids@[j]
        }),
{
    let mut manager = match SnowflakeManager::default() {
        Ok(m) => m,
        Err(e) => {
            return Err(e);
        },
    };
    manager.generate_ids(count)
}

/// Splits an identifier into its fields.
pub fn parse_id(id: u64) -> (r: Result<SnowflakeIdInfo, ClamberError>)
    ensures
        r matches Ok(info) && info.id == id && info.timestamp == timestamp_part(id)
            && info.worker_id == worker_part(id) && info.sequence as u64 == sequence_part(id),
{
    Ok(parse_id_fields(id))
}

/// Issues one identifier from a generator with the default configuration
/// and renders it as decimal text.
pub fn generate_string_id() -> (r: Result<String, ClamberError>)
    ensures
        r matches Ok(s) ==> (s@.len() > 0 && exists|id: u64|
            s@ == #[trigger] crate::decimal::decimal_digits(id as nat) && worker_part(id) == 1),
{
    match generate_id() {
        Ok(id) => {
            let s = crate::decimal::u64_to_string(id);
            proof {
                crate::decimal::lemma_decimal_digits_wf(id as nat);
            }
            Ok(s)
        },
        Err(e) => Err(e),
    }
}

/// Reads an identifier from decimal text and splits it into its fields.
pub fn parse_string_id(id_str: &str) -> (r: Result<SnowflakeIdInfo, ClamberError>)
    ensures
        id_str@.len() > 0 && crate::decimal::all_digits(id_str@)
            && crate::decimal::decimal_value(id_str@) <= u64::MAX ==> (r matches Ok(info)
            && info.id as nat == crate::decimal::decimal_value(id_str@)
            && info.timestamp == timestamp_part(info.id) && info.worker_id == worker_part(info.id)
            && info.sequence as u64 == sequence_part(info.id)),
        !(id_str@.len() > 0 && crate::decimal::all_digits(id_str@)
            && crate::decimal::decimal_value(id_str@) <= u64::MAX) ==> (r matches Err(e)
            && e matches ClamberError::SnowflakeConfigError { .. }),
{
    match SnowflakeIdInfo::from_string(id_str) {
        Ok(id) => Ok(parse_id_fields(id)),
        Err(e) => Err(e),
    }
}

} // verus!
