//! Probe orchestrator: a bounded-retry state machine per discovered
//! device.  The outside world (transport query, persistence, delays) is
//! driven by the caller; each answer is handed back as an event and the
//! machine decides the next state and action.
use vstd::prelude::*;
use crate::body::Measurement;
use crate::body::Person;
use crate::calendar::epoch_seconds;
use crate::calendar::spec_epoch_seconds;
use crate::codec::decode;
use crate::codec::spec_calendar_ok;
use crate::codec::spec_reading;
use crate::gate::PLAUSIBILITY_TOLERANCE_SECS;
use crate::gate::in_range;

verus! {

/// Retry budget: at most ten query attempts per probe.
pub const MAX_ATTEMPTS: u8 = 10;

/// Fixed delay between two query attempts, in milliseconds.
pub const RETRY_DELAY_MS: u64 = 1500;

/// Quiet period after a device is noticed, before the first query, in
/// seconds.
pub const QUIET_PERIOD_SECS: u64 = 10;

/// A failure of one query attempt; every kind but persistence failure is
/// retried.
#[derive(Clone, Copy, Debug)]
pub enum QueryFailure {
    /// Decode failure, an unstabilized or date-invalid reading, or a
    /// weight of zero.
    InvalidScaleData,
    /// The claimed timestamp fell outside the plausibility window.
    ImplausibleTimestamp,
    /// A valid decode without impedance cannot produce metrics.
    NoImpedance,
    /// The transport returned no payload.
    TransportQueryError,
}

/// Final outcome of one probe cycle.
#[derive(Clone, Copy, Debug)]
pub enum ProbeOutcome {
    Success,
    Exhausted,
    PersistenceFailure,
}

/// State of the probe machine.
#[derive(Clone, Copy, Debug)]
pub enum ProbeState {
    Querying { attempt: u8 },
    AwaitingPersist { attempt: u8 },
    Done { outcome: ProbeOutcome },
}

/// An answer from the outside world.
#[derive(Debug)]
pub enum ProbeEvent {
    /// The transport's answer to a query: the service-data payload, or
    /// nothing on a transport error or a missing service-data block.
    QueryResult { payload: Option<Vec<u8>> },
    /// The persistence collaborator's answer to a dispatched measurement.
    PersistResult { ok: bool },
}

/// What the caller must do next.
#[derive(Clone, Copy, Debug)]
pub enum ProbeAction {
    /// Wait the fixed inter-attempt delay, then query again.
    RetryAfterDelay,
    /// Hand the measurement to the persistence collaborator.
    Persist { m: Measurement },
    /// Emit the success notification; the probe is over.
    NotifySuccess,
    /// Nothing left to do for this probe.
    Halt,
}

impl ProbeState {
    pub open spec fn wf(self) -> bool {
        match self {
            ProbeState::Querying { attempt } => 1 <= attempt <= MAX_ATTEMPTS,
            ProbeState::AwaitingPersist { attempt } => 1 <= attempt <= MAX_ATTEMPTS,
            ProbeState::Done { outcome } => true,
        }
    }
}

/// The state every probe cycle starts in.
pub fn initial_probe_state() -> (s: ProbeState)
    ensures
        s == (ProbeState::Querying { attempt: 1u8 }),
        s.wf(),
{
    ProbeState::Querying { attempt: 1 }
}

/// What one query attempt yields for a payload: the two-stage validation
/// (decode and flag preconditions, then the plausibility gate, then the
/// impedance requirement) followed by the calculator.
pub open spec fn spec_evaluate(p: Person, s: Seq<u8>, now: i64) -> Result<
    Measurement,
    QueryFailure,
> {
    if s.len() < 13 || !spec_calendar_ok(s) {
        Err(QueryFailure::InvalidScaleData)
    } else {
        let r = spec_reading(s);
        let ts = spec_epoch_seconds(
            r.year as int,
            r.month as int,
            r.day as int,
            r.hours as int,
            r.min as int,
            r.sec as int,
        );
        if !(r.stabilized && !r.date_invalid) {
            Err(QueryFailure::InvalidScaleData)
        } else if !(now - PLAUSIBILITY_TOLERANCE_SECS <= ts <= now + PLAUSIBILITY_TOLERANCE_SECS) {
            Err(QueryFailure::ImplausibleTimestamp)
        } else if r.spec_impedance_fx() == 0 {
            Err(QueryFailure::NoImpedance)
        } else if r.spec_weight_fx() == 0 {
            Err(QueryFailure::InvalidScaleData)
        } else {
            Ok(
                crate::body::spec_measurement(
                    p,
                    ts as i64,
                    r.spec_weight_fx(),
                    r.spec_impedance_fx(),
                ),
            )
        }
    }
}

/// Evaluates one query answer: decode, flag preconditions, plausibility
/// gate, impedance requirement, then the calculator.
pub fn evaluate_payload(p: &Person, data: &Vec<u8>, now: i64) -> (r: Result<
    Measurement,
    QueryFailure,
>)
    requires
        p.wf(),
        p.computable(),
    ensures
        r == spec_evaluate(*p, data@, now),
{
    let reading = match decode(data) {
        Ok(rr) => rr,
        Err(_) => {
            return Err(QueryFailure::InvalidScaleData);
        },
    };
    if !(reading.stabilized && !reading.date_invalid) {
        return Err(QueryFailure::InvalidScaleData);
    }
    let ts: i64 = epoch_seconds(
        reading.year,
        reading.month,
        reading.day,
        reading.hours,
        reading.min,
        reading.sec,
    );
    if !in_range(ts, now, PLAUSIBILITY_TOLERANCE_SECS) {
        return Err(QueryFailure::ImplausibleTimestamp);
    }
    let imp: i128 = reading.impedance_fx();
    if imp == 0 {
        return Err(QueryFailure::NoImpedance);
    }
    let w: i128 = reading.weight_fx();
    if w == 0 {
        return Err(QueryFailure::InvalidScaleData);
    }
    match Measurement::compute(p, ts, w, imp) {
        Ok(m) => Ok(m),
        Err(_) => Err(QueryFailure::InvalidScaleData),
    }
}

/// Hard-precondition law: a measurement is never produced from a reading
/// that is not stabilized, whose date-invalid flag is set, whose claimed
/// timestamp falls outside the plausibility window, or that lacks an
/// impedance or a nonzero weight.
pub proof fn lemma_measurement_preconditions(p: Person, s: Seq<u8>, now: i64)
    requires
        spec_evaluate(p, s, now) is Ok,
    ensures
        s.len() >= 13,
        spec_calendar_ok(s),
        spec_reading(s).stabilized,
        !spec_reading(s).date_invalid,
        now - PLAUSIBILITY_TOLERANCE_SECS <= spec_epoch_seconds(
            spec_reading(s).year as int,
            spec_reading(s).month as int,
            spec_reading(s).day as int,
            spec_reading(s).hours as int,
            spec_reading(s).min as int,
            spec_reading(s).sec as int,
        ) <= now + PLAUSIBILITY_TOLERANCE_SECS,
        spec_reading(s).spec_impedance_fx() != 0,
        spec_reading(s).spec_weight_fx() != 0,
{
}

/// One transition of the probe machine.
pub open spec fn spec_probe_step(p: Person, now: i64, state: ProbeState, event: ProbeEvent) -> (
    ProbeState,
    ProbeAction,
) {
    match (state, event) {
        (ProbeState::Querying { attempt }, ProbeEvent::QueryResult { payload }) => {
            let outcome = match payload {
                Some(d) => spec_evaluate(p, d@, now),
                None => Err(QueryFailure::TransportQueryError),
            };
            match outcome {
                Ok(m) => (ProbeState::AwaitingPersist { attempt }, ProbeAction::Persist { m }),
                Err(f) => if attempt < MAX_ATTEMPTS {
                    (
                        ProbeState::Querying { attempt: (attempt + 1) as u8 },
                        ProbeAction::RetryAfterDelay,
                    )
                } else {
                    (ProbeState::Done { outcome: ProbeOutcome::Exhausted }, ProbeAction::Halt)
                },
            }
        },
        (ProbeState::AwaitingPersist { attempt }, ProbeEvent::PersistResult { ok }) => {
            if ok {
                (ProbeState::Done { outcome: ProbeOutcome::Success }, ProbeAction::NotifySuccess)
            } else {
                (ProbeState::Done { outcome: ProbeOutcome::PersistenceFailure }, ProbeAction::Halt)
            }
        },
        _ => (state, ProbeAction::Halt),
    }
}

/// Performs one transition of the probe machine: evaluates the event in
/// the current state and returns the next state and the action owed.
pub fn probe_step(p: &Person, now: i64, state: ProbeState, event: ProbeEvent) -> (res: (
    ProbeState,
    ProbeAction,
))
    requires
        p.wf(),
        p.computable(),
        state.wf(),
    ensures
        res == spec_probe_step(*p, now, state, event),
        res.0.wf(),
{
    match (state, event) {
        (ProbeState::Querying { attempt }, ProbeEvent::QueryResult { payload }) => {
            let outcome: Result<Measurement, QueryFailure> = match payload {
                Some(d) => evaluate_payload(p, &d, now),
                None => Err(QueryFailure::TransportQueryError),
            };
            match outcome {
                Ok(m) => (ProbeState::AwaitingPersist { attempt }, ProbeAction::Persist { m }),
                Err(_) => {
                    if attempt < MAX_ATTEMPTS {
                        (
                            ProbeState::Querying { attempt: attempt + 1 },
                            ProbeAction::RetryAfterDelay,
                        )
                    } else {
                        (ProbeState::Done { outcome: ProbeOutcome::Exhausted }, ProbeAction::Halt)
                    }
                },
            }
        },
        (ProbeState::AwaitingPersist { attempt }, ProbeEvent::PersistResult { ok }) => {
            if ok {
                (ProbeState::Done { outcome: ProbeOutcome::Success }, ProbeAction::NotifySuccess)
            } else {
                (ProbeState::Done { outcome: ProbeOutcome::PersistenceFailure }, ProbeAction::Halt)
            }
        },
        (s, _) => (s, ProbeAction::Halt),
    }
}

/// The state after feeding a sequence of events, one step per event.
pub open spec fn spec_probe_run(
    p: Person,
    now: i64,
    state: ProbeState,
    events: Seq<ProbeEvent>,
) -> ProbeState
    decreases events.len(),
{
    if events.len() == 0 {
        state
    } else {
        spec_probe_run(p, now, spec_probe_step(p, now, state, events[0]).0, events.drop_first())
    }
}

/// The actions answered while feeding a sequence of events.
pub open spec fn spec_probe_actions(
    p: Person,
    now: i64,
    state: ProbeState,
    events: Seq<ProbeEvent>,
) -> Seq<ProbeAction>
    decreases events.len(),
{
    if events.len() == 0 {
        Seq::empty()
    } else {
        seq![spec_probe_step(p, now, state, events[0]).1] + spec_probe_actions(
            p,
            now,
            spec_probe_step(p, now, state, events[0]).0,
            events.drop_first(),
        )
    }
}

proof fn lemma_retry_helper(p: Person, now: i64, attempt: u8, events: Seq<ProbeEvent>)
    requires
        1 <= attempt <= MAX_ATTEMPTS,
        events.len() == MAX_ATTEMPTS - attempt + 1,
        forall|i: int|
            0 <= i < events.len() ==> events[i] == (ProbeEvent::QueryResult {
                payload: Option::<Vec<u8>>::None,
            }),
    ensures
        spec_probe_run(p, now, ProbeState::Querying { attempt }, events) == (ProbeState::Done {
            outcome: ProbeOutcome::Exhausted,
        }),
        spec_probe_actions(p, now, ProbeState::Querying { attempt }, events).len() == events.len(),
        forall|i: int|
            0 <= i < events.len() - 1 ==> spec_probe_actions(
                p,
                now,
                ProbeState::Querying { attempt },
                events,
            )[i] == ProbeAction::RetryAfterDelay,
        spec_probe_actions(p, now, ProbeState::Querying { attempt }, events)[events.len() - 1]
            == ProbeAction::Halt,
    decreases events.len(),
{
    let s0 = ProbeState::Querying { attempt };
    let step = spec_probe_step(p, now, s0, events[0]);
    let rest = events.drop_first();
    assert(events[0] == (ProbeEvent::QueryResult { payload: Option::<Vec<u8>>::None }));
    assert(spec_probe_run(p, now, s0, events) == spec_probe_run(p, now, step.0, rest));
    assert(spec_probe_actions(p, now, s0, events) == seq![step.1] + spec_probe_actions(
        p,
        now,
        step.0,
        rest,
    ));
    assert(forall|i: int| 0 <= i < rest.len() ==> rest[i] == events[i + 1]);
    if attempt < MAX_ATTEMPTS {
        assert(step.0 == (ProbeState::Querying { attempt: (attempt + 1) as u8 }));
        assert(step.1 == ProbeAction::RetryAfterDelay);
        lemma_retry_helper(p, now, (attempt + 1) as u8, rest);
        let acts = spec_probe_actions(p, now, s0, events);
        let racts = spec_probe_actions(p, now, step.0, rest);
        assert(forall|i: int| 1 <= i < acts.len() ==> acts[i] == racts[i - 1]);
        assert(acts[0] == ProbeAction::RetryAfterDelay);
    } else {
        assert(rest.len() == 0);
        assert(step.0 == (ProbeState::Done { outcome: ProbeOutcome::Exhausted }));
        assert(step.1 == ProbeAction::Halt);
        assert(spec_probe_run(p, now, step.0, rest) == step.0);
        assert(spec_probe_actions(p, now, step.0, rest) =~= Seq::<ProbeAction>::empty());
        assert(spec_probe_actions(p, now, s0, events) =~= seq![ProbeAction::Halt]);
    }
}

/// Retry-bound law: a transport that fails every query drives the probe
/// from its initial state through exactly ten attempts to `Exhausted`; the
/// first nine answers are retry delays, the last is a halt, and
/// persistence is never invoked.
pub proof fn lemma_retry_bound(p: Person, now: i64, events: Seq<ProbeEvent>)
    requires
        events.len() == MAX_ATTEMPTS,
        forall|i: int|
            0 <= i < events.len() ==> events[i] == (ProbeEvent::QueryResult {
                payload: Option::<Vec<u8>>::None,
            }),
    ensures
        spec_probe_run(p, now, ProbeState::Querying { attempt: 1u8 }, events) == (ProbeState::Done {
            outcome: ProbeOutcome::Exhausted,
        }),
        spec_probe_actions(p, now, ProbeState::Querying { attempt: 1u8 }, events).len()
            == MAX_ATTEMPTS,
        forall|i: int|
            0 <= i < MAX_ATTEMPTS ==> !(spec_probe_actions(
                p,
                now,
                ProbeState::Querying { attempt: 1u8 },
                events,
            )[i] is Persist),
        forall|i: int|
            0 <= i < MAX_ATTEMPTS - 1 ==> spec_probe_actions(
                p,
                now,
                ProbeState::Querying { attempt: 1u8 },
                events,
            )[i] == ProbeAction::RetryAfterDelay,
{
    lemma_retry_helper(p, now, 1u8, events);
}

/// Success-path law: two failed queries, then a payload that evaluates to
/// a measurement, then a successful persistence answer, end in `Success`
/// after exactly three query attempts with exactly one persistence
/// dispatch.
#[verifier::rlimit(100)]
#[verifier::spinoff_prover]
pub proof fn lemma_success_path(p: Person, now: i64, d: Vec<u8>, m: Measurement)
    requires
        spec_evaluate(p, d@, now) == Ok::<Measurement, QueryFailure>(m),
    ensures
        ({
            let none_ev = ProbeEvent::QueryResult { payload: Option::<Vec<u8>>::None };
            let events = seq![
                none_ev,
                none_ev,
                ProbeEvent::QueryResult { payload: Option::<Vec<u8>>::Some(d) },
                ProbeEvent::PersistResult { ok: true },
            ];
            let acts = spec_probe_actions(p, now, ProbeState::Querying { attempt: 1u8 }, events);
            spec_probe_run(p, now, ProbeState::Querying { attempt: 1u8 }, events)
                == (ProbeState::Done { outcome: ProbeOutcome::Success }) && acts.len() == 4
                && acts[0] == ProbeAction::RetryAfterDelay && acts[1]
                == ProbeAction::RetryAfterDelay && acts[2] == (ProbeAction::Persist { m })
                && acts[3] == ProbeAction::NotifySuccess
        }),
{
    let none_ev = ProbeEvent::QueryResult { payload: Option::<Vec<u8>>::None };
    let events = seq![
        none_ev,
        none_ev,
        ProbeEvent::QueryResult { payload: Option::<Vec<u8>>::Some(d) },
        ProbeEvent::PersistResult { ok: true },
    ];
    let s0 = ProbeState::Querying { attempt: 1u8 };
    assert(events[0] == none_ev && events[1] == none_ev && events[2]
        == (ProbeEvent::QueryResult { payload: Option::<Vec<u8>>::Some(d) }) && events[3]
        == (ProbeEvent::PersistResult { ok: true }));
    let st1 = spec_probe_step(p, now, s0, events[0]);
    assert(st1.0 == (ProbeState::Querying { attempt: 2u8 }) && st1.1
        == ProbeAction::RetryAfterDelay);
    let e1 = events.drop_first();
    assert(e1.len() == 3 && e1[0] == events[1] && e1[1] == events[2] && e1[2] == events[3]);
    let st2 = spec_probe_step(p, now, st1.0, e1[0]);
    assert(st2.0 == (ProbeState::Querying { attempt: 3u8 }) && st2.1
        == ProbeAction::RetryAfterDelay);
    let e2 = e1.drop_first();
    assert(e2.len() == 2 && e2[0] == events[2] && e2[1] == events[3]);
    let st3 = spec_probe_step(p, now, st2.0, e2[0]);
    assert(st3.0 == (ProbeState::AwaitingPersist { attempt: 3u8 }) && st3.1
        == (ProbeAction::Persist { m }));
    let e3 = e2.drop_first();
    assert(e3.len() == 1 && e3[0] == events[3]);
    let st4 = spec_probe_step(p, now, st3.0, e3[0]);
    assert(st4.0 == (ProbeState::Done { outcome: ProbeOutcome::Success }) && st4.1
        == ProbeAction::NotifySuccess);
    let e4 = e3.drop_first();
    assert(e4.len() == 0);
    assert(spec_probe_run(p, now, st4.0, e4) == st4.0);
    assert(spec_probe_run(p, now, st3.0, e3) == st4.0);
    assert(spec_probe_run(p, now, st2.0, e2) == st4.0);
    assert(spec_probe_run(p, now, st1.0, e1) == st4.0);
    assert(spec_probe_run(p, now, s0, events) == st4.0);
    let acts3 = spec_probe_actions(p, now, st3.0, e3);
    assert(acts3 == seq![st4.1] + spec_probe_actions(p, now, st4.0, e4));
    assert(spec_probe_actions(p, now, st4.0, e4) == Seq::<ProbeAction>::empty());
    let acts2 = spec_probe_actions(p, now, st2.0, e2);
    assert(acts2 == seq![st3.1] + acts3);
    let acts1 = spec_probe_actions(p, now, st1.0, e1);
    assert(acts1 == seq![st2.1] + acts2);
    let acts = spec_probe_actions(p, now, s0, events);
    assert(acts == seq![st1.1] + acts1);
    assert(acts.len() == 4);
    assert(acts[0] == st1.1 && acts[1] == st2.1 && acts[2] == st3.1 && acts[3] == st4.1);
}

} // verus!
