//! One request/response exchange for a sensor register, written as a state
//! machine: the caller writes the request, reports whether the write
//! succeeded, then offers the outcome of each non-blocking byte read until
//! the machine says it is done. The wait is bounded by a budget of
//! unsuccessful read attempts, not by a clock.
use vstd::prelude::*;
use crate::codec::{build_read_request, check_crc, request_frame, valid_frame};

verus! {

/// Smallest response that can carry one 16-bit register.
pub const MIN_RESPONSE_LEN: usize = 7;

/// The quantity a register holds.
#[derive(Clone, Copy, Debug, PartialEq, Eq, Structural)]
pub enum SensorKind {
    Humidity,
    Temperature,
}

/// Register address of a sensor quantity.
pub open spec fn register_of(kind: SensorKind) -> u16 {
    match kind {
        SensorKind::Humidity => 0x0002u16,
        SensorKind::Temperature => 0x0001u16,
    }
}

impl SensorKind {
    /// The input register that holds this quantity.
    pub fn register_address(&self) -> (r: u16)
        ensures
            r == register_of(*self),
    {
        match self {
            SensorKind::Humidity => 0x0002,
            SensorKind::Temperature => 0x0001,
        }
    }
}

/// A validated register value, in tenths of the unit (percent or degrees).
#[derive(Clone, Copy, Debug, PartialEq, Eq, Structural)]
pub struct SensorReading {
    pub kind: SensorKind,
    pub raw: u16,
}

/// The outcome of one poll attempt.
#[derive(Clone, Copy, Debug, PartialEq, Eq, Structural)]
pub enum PollResult {
    Reading(SensorReading),
    Timeout,
    FrameError,
    ChecksumError,
    IoError,
}

/// What a response of the given bytes means. Fewer than seven bytes is a
/// response that never completed.
pub open spec fn response_result(kind: SensorKind, r: Seq<u8>) -> PollResult {
    if r.len() < MIN_RESPONSE_LEN {
        PollResult::Timeout
    } else if r[1] & 0x80u8 != 0 || r[2] != 2 {
        PollResult::FrameError
    } else if !valid_frame(r) {
        PollResult::ChecksumError
    } else {
        PollResult::Reading(SensorReading { kind, raw: (r[3] as int * 256 + r[4] as int) as u16 })
    }
}

/// Interprets the bytes received for a register of `kind`: an exception
/// flag or a byte count other than two is a frame error, a checksum
/// mismatch a checksum error, and otherwise the big-endian register value
/// is the reading.
pub fn parse_response(kind: SensorKind, rx: &[u8]) -> (r: PollResult)
    ensures
        r == response_result(kind, rx@),
{
    if rx.len() < MIN_RESPONSE_LEN {
        return PollResult::Timeout;
    }
    if (rx[1] & 0x80) != 0 || rx[2] != 2 {
        return PollResult::FrameError;
    }
    if !check_crc(rx) {
        return PollResult::ChecksumError;
    }
    let raw: u16 = (rx[3] as u16) * 256 + (rx[4] as u16);
    PollResult::Reading(SensorReading { kind, raw })
}

/// What the caller does next.
#[derive(Clone, Copy, Debug, PartialEq, Eq, Structural)]
pub enum PollStep {
    /// Try to read one more byte.
    Read,
    /// The exchange is over.
    Done(PollResult),
}

/// The abstract state of an exchange.
pub struct PollState {
    pub station_id: u8,
    pub kind: SensorKind,
    pub budget: nat,
    pub misses: nat,
    pub rx: Seq<u8>,
    pub outcome: Option<PollResult>,
}

/// A fresh exchange, before the request is written.
pub open spec fn poll_start(station_id: u8, kind: SensorKind, budget: nat) -> PollState {
    PollState { station_id, kind, budget, misses: 0, rx: Seq::empty(), outcome: None }
}

/// The state once the write of the request has been reported.
pub open spec fn after_write(s: PollState, ok: bool) -> PollState {
    if s.outcome is Some {
        s
    } else if !ok {
        PollState { outcome: Some(PollResult::IoError), ..s }
    } else if s.misses >= s.budget {
        PollState { outcome: Some(PollResult::Timeout), ..s }
    } else {
        s
    }
}

/// The state once the outcome of one read attempt has been reported.
pub open spec fn after_read(s: PollState, byte: Option<u8>) -> PollState {
    if s.outcome is Some {
        s
    } else {
        match byte {
            Some(b) => {
                let rx = s.rx.push(b);
                if rx.len() >= MIN_RESPONSE_LEN {
                    PollState { rx, outcome: Some(response_result(s.kind, rx)), ..s }
                } else {
                    PollState { rx, ..s }
                }
            },
            None => {
                let misses = s.misses + 1;
                if misses >= s.budget {
                    PollState { misses, outcome: Some(PollResult::Timeout), ..s }
                } else {
                    PollState { misses, ..s }
                }
            },
        }
    }
}

/// The step a caller is told to take in state `s`.
pub open spec fn step_of(s: PollState) -> PollStep {
    match s.outcome {
        Some(r) => PollStep::Done(r),
        None => PollStep::Read,
    }
}

/// The state after a sequence of read attempts, in order.
pub open spec fn run_reads(s: PollState, evs: Seq<Option<u8>>) -> PollState
    decreases evs.len(),
{
    if evs.len() == 0 {
        s
    } else {
        after_read(run_reads(s, evs.drop_last()), evs.last())
    }
}

/// Number of unsuccessful read attempts in `evs`.
pub open spec fn count_misses(evs: Seq<Option<u8>>) -> nat
    decreases evs.len(),
{
    if evs.len() == 0 {
        0
    } else {
        count_misses(evs.drop_last()) + if evs.last() is None {
            1nat
        } else {
            0nat
        }
    }
}

/// Number of bytes that arrived in `evs`.
pub open spec fn count_bytes(evs: Seq<Option<u8>>) -> nat
    decreases evs.len(),
{
    if evs.len() == 0 {
        0
    } else {
        count_bytes(evs.drop_last()) + if evs.last() is Some {
            1nat
        } else {
            0nat
        }
    }
}

/// One exchange with the sensor for one register.
pub struct PollCycle {
    station_id: u8,
    kind: SensorKind,
    budget: u32,
    misses: u32,
    rx: Vec<u8>,
    outcome: Option<PollResult>,
}

impl View for PollCycle {
    type V = PollState;

    closed spec fn view(&self) -> PollState {
        PollState {
            station_id: self.station_id,
            kind: self.kind,
            budget: self.budget as nat,
            misses: self.misses as nat,
            rx: self.rx@,
            outcome: self.outcome,
        }
    }
}

impl PollCycle {
    /// The machine's own bounds: while the exchange runs, fewer than seven
    /// bytes are held and the budget is not spent.
    pub closed spec fn wf(&self) -> bool {
        self.outcome is None ==> {
            &&& self.rx@.len() < MIN_RESPONSE_LEN
            &&& (self.misses < self.budget || self.misses == 0)
        }
    }

    /// A new exchange with `station_id` for the register of `kind`, allowed
    /// `budget` unsuccessful read attempts.
    pub fn new(station_id: u8, kind: SensorKind, budget: u32) -> (r: PollCycle)
        ensures
            r.wf(),
            r@ == poll_start(station_id, kind, budget as nat),
    {
        let r = PollCycle { station_id, kind, budget, misses: 0, rx: Vec::new(), outcome: None };
        assert(r@.rx =~= Seq::<u8>::empty());
        r
    }

    /// The request frame to write.
    pub fn request(&self) -> (r: Vec<u8>)
        ensures
            r@ == request_frame(self@.station_id, register_of(self@.kind)),
    {
        build_read_request(self.station_id, self.kind.register_address())
    }

    /// The result, once the exchange is over.
    pub fn outcome(&self) -> (r: Option<PollResult>)
        ensures
            r == self@.outcome,
    {
        self.outcome
    }

    /// Reports whether writing the request succeeded. A failed write ends the
    /// exchange with an I/O error; with no budget at all it ends in a timeout.
    pub fn on_write(&mut self, ok: bool) -> (r: PollStep)
        requires
            old(self).wf(),
        ensures
            final(self).wf(),
            final(self)@ == after_write(old(self)@, ok),
            r == step_of(final(self)@),
    {
        if self.outcome.is_none() {
            if !ok {
                self.outcome = Some(PollResult::IoError);
            } else if self.misses >= self.budget {
                self.outcome = Some(PollResult::Timeout);
            }
        }
        self.step()
    }

    /// Reports the outcome of one non-blocking read attempt: `Some(b)` when
    /// byte `b` arrived, `None` when nothing was available.
    pub fn on_read(&mut self, byte: Option<u8>) -> (r: PollStep)
        requires
            old(self).wf(),
        ensures
            final(self).wf(),
            final(self)@ == after_read(old(self)@, byte),
            r == step_of(final(self)@),
    {
        if self.outcome.is_none() {
            match byte {
                Some(b) => {
                    self.rx.push(b);
                    if self.rx.len() >= MIN_RESPONSE_LEN {
                        self.outcome = Some(parse_response(self.kind, self.rx.as_slice()));
                    }
                },
                None => {
                    self.misses = self.misses + 1;
                    if self.misses >= self.budget {
                        self.outcome = Some(PollResult::Timeout);
                    }
                },
            }
        }
        self.step()
    }

    fn step(&self) -> (r: PollStep)
        ensures
            r == step_of(self@),
    {
        match self.outcome {
            Some(res) => PollStep::Done(res),
            None => PollStep::Read,
        }
    }
}

/// Once the request is written, an exchange is still running exactly while
/// fewer read attempts than the budget have failed and fewer than seven bytes
/// have arrived; while it runs, it has counted each of them.
pub proof fn lemma_reads_progress(
    station_id: u8,
    kind: SensorKind,
    budget: nat,
    evs: Seq<Option<u8>>,
)
    ensures
        ({
            let s = run_reads(after_write(poll_start(station_id, kind, budget), true), evs);
            &&& s.budget == budget
            &&& s.outcome is None <==> (count_misses(evs) < budget && count_bytes(evs)
                < MIN_RESPONSE_LEN)
            &&& s.outcome is None ==> s.misses == count_misses(evs) && s.rx.len()
                == count_bytes(evs)
        }),
    decreases evs.len(),
{
    let w = after_write(poll_start(station_id, kind, budget), true);
    if evs.len() > 0 {
        let p = evs.drop_last();
        lemma_reads_progress(station_id, kind, budget, p);
        let s0 = run_reads(w, p);
        let s1 = run_reads(w, evs);
        assert(s1 == after_read(s0, evs.last()));
        match evs.last() {
            Some(b) => {
                assert(count_misses(evs) == count_misses(p));
                assert(count_bytes(evs) == count_bytes(p) + 1);
                if s0.outcome is None {
                    assert(s1.rx == s0.rx.push(b));
                }
            },
            None => {
                assert(count_misses(evs) == count_misses(p) + 1);
                assert(count_bytes(evs) == count_bytes(p));
            },
        }
    } else {
        assert(w.rx.len() == 0);
    }
}

/// If fewer than seven bytes arrive, the exchange ends in a timeout on the
/// unsuccessful read attempt that spends the budget, and not one attempt
/// earlier.
pub proof fn lemma_timeout_after_budget(
    station_id: u8,
    kind: SensorKind,
    budget: nat,
    evs: Seq<Option<u8>>,
)
    requires
        evs.len() > 0,
        evs.last() is None,
        count_misses(evs) == budget,
        count_bytes(evs) < MIN_RESPONSE_LEN,
    ensures
        run_reads(after_write(poll_start(station_id, kind, budget), true), evs).outcome
            == Some(PollResult::Timeout),
        run_reads(
            after_write(poll_start(station_id, kind, budget), true),
            evs.drop_last(),
        ).outcome is None,
{
    let w = after_write(poll_start(station_id, kind, budget), true);
    let p = evs.drop_last();
    lemma_reads_progress(station_id, kind, budget, p);
    assert(run_reads(w, evs) == after_read(run_reads(w, p), evs.last()));
    assert(count_misses(evs) == count_misses(p) + 1);
    assert(count_bytes(evs) == count_bytes(p));
}

/// Whatever the line does, an exchange ends after at most `budget + 6` read
/// attempts.
pub proof fn lemma_reads_bounded(
    station_id: u8,
    kind: SensorKind,
    budget: nat,
    evs: Seq<Option<u8>>,
)
    requires
        evs.len() >= budget + MIN_RESPONSE_LEN - 1,
    ensures
        run_reads(after_write(poll_start(station_id, kind, budget), true), evs).outcome is Some,
{
    lemma_reads_progress(station_id, kind, budget, evs);
    lemma_counts_add_up(evs);
}

proof fn lemma_counts_add_up(evs: Seq<Option<u8>>)
    ensures
        count_misses(evs) + count_bytes(evs) == evs.len(),
    decreases evs.len(),
{
    if evs.len() > 0 {
        lemma_counts_add_up(evs.drop_last());
    }
}

} // verus!
