use vstd::prelude::*;
use vstd::string::StringExecFns;

use crate::session::{topic_for, topic_text};

verus! {

/// Time from one sampling cycle to the next, in milliseconds.
pub const CYCLE_MILLIS: u64 = 1000;

/// The publish body for a reading whose values are written `temperature` and
/// `humidity`.
pub open spec fn payload_text(temperature: Seq<char>, humidity: Seq<char>) -> Seq<char> {
    "field1="@ + temperature + "&field2="@ + humidity + "&status=MQTTPUBLISH"@
}

/// Builds the publish body from the decimal text of the two values.
pub fn format_payload(temperature: &str, humidity: &str) -> (r: String)
    ensures
        r@ == payload_text(temperature@, humidity@),
{
    let mut message = "field1=".to_owned();
    message.append(temperature);
    message.append("&field2=");
    message.append(humidity);
    message.append("&status=MQTTPUBLISH");
    message
}

/// Two readings whose temperature text holds no `&` give the same payload only
/// when both values are written the same: the payload can be read back.
pub proof fn lemma_payload_determines_reading(
    t1: Seq<char>,
    h1: Seq<char>,
    t2: Seq<char>,
    h2: Seq<char>,
)
    requires
        !t1.contains('&'),
        !t2.contains('&'),
        payload_text(t1, h1) == payload_text(t2, h2),
    ensures
        t1 == t2,
        h1 == h2,
{
    reveal_strlit("field1=");
    reveal_strlit("&field2=");
    reveal_strlit("&status=MQTTPUBLISH");
    let p = payload_text(t1, h1);
    let q = payload_text(t2, h2);
    let n1: int = t1.len() as int;
    let n2: int = t2.len() as int;
    assert(p[7 + n1] == '&');
    assert(q[7 + n2] == '&');
    if n1 < n2 {
        assert(q[7 + n1] == t2[n1]);
        assert(t2.contains(t2[n1]));
    } else if n2 < n1 {
        assert(p[7 + n2] == t1[n2]);
        assert(t1.contains(t1[n2]));
    }
    assert(n1 == n2);
    assert(t1 =~= p.subrange(7, 7 + n1));
    assert(t2 =~= q.subrange(7, 7 + n2));
    assert("field1="@.len() == 7);
    assert("&field2="@.len() == 8);
    assert("&status=MQTTPUBLISH"@.len() == 19);
    assert(p.len() == 34 + n1 + h1.len());
    assert(q.len() == 34 + n2 + h2.len());
    let m: int = h1.len() as int;
    assert(m == h2.len());
    assert(h1 =~= p.subrange(15 + n1, 15 + n1 + m));
    assert(h2 =~= q.subrange(15 + n2, 15 + n2 + m));
}

/// One measurement, each value in the decimal text it is published as.
#[derive(Clone, Debug)]
pub struct Reading {
    pub temperature: String,
    pub humidity: String,
}

/// Where the sampling loop stands within a cycle.
#[derive(Clone, Copy, Debug, PartialEq, Eq, Structural)]
pub enum LoopPhase {
    /// Waiting for the result of the measurement in flight.
    Collecting,
    /// Waiting for the publish call to return.
    Publishing,
    /// Waiting for the next measurement to be started.
    Starting,
    /// Waiting out the rest of the cycle.
    Sleeping,
    /// The loop has ended.
    Stopped,
}

/// Outcome of the last action.
#[derive(Clone, Debug)]
pub enum LoopEvent {
    Measured(Reading),
    SensorFault,
    Published,
    PublishFailed,
    MeasurementStarted,
    Woke,
}

/// Why the loop ended.
#[derive(Clone, Copy, Debug, PartialEq, Eq, Structural)]
pub enum LoopFault {
    Sensor,
    Publish,
    OutOfOrder,
}

/// What the caller is asked to do next.
#[derive(Clone, Debug)]
pub enum LoopAction {
    /// Collect the result of the measurement in flight.
    Collect,
    /// Publish this body to the loop's topic, at most once and not retained.
    Publish(String),
    /// Start the next measurement.
    StartMeasurement,
    /// Sleep this many milliseconds.
    Sleep(u64),
    /// End the loop.
    Stop(LoopFault),
}

/// The decisions of the sampling loop; the caller talks to the sensor and the
/// broker, and reports each outcome as an event.
#[derive(Clone, Debug)]
pub struct Sampler {
    pub topic: String,
    pub phase: LoopPhase,
}

pub open spec fn loop_next_phase(phase: LoopPhase, ev: LoopEvent) -> LoopPhase {
    match (phase, ev) {
        (LoopPhase::Collecting, LoopEvent::Measured(_)) => LoopPhase::Publishing,
        (LoopPhase::Publishing, LoopEvent::Published) => LoopPhase::Starting,
        (LoopPhase::Starting, LoopEvent::MeasurementStarted) => LoopPhase::Sleeping,
        (LoopPhase::Sleeping, LoopEvent::Woke) => LoopPhase::Collecting,
        _ => LoopPhase::Stopped,
    }
}

/// The action that follows `ev` in `phase`, where a publish body is given by
/// its text.
pub open spec fn loop_next_action(phase: LoopPhase, ev: LoopEvent, a: LoopAction) -> bool {
    match (phase, ev) {
        (LoopPhase::Collecting, LoopEvent::Measured(m)) => a matches LoopAction::Publish(body)
            && body@ == payload_text(m.temperature@, m.humidity@),
        (LoopPhase::Collecting, LoopEvent::SensorFault) => a == LoopAction::Stop(LoopFault::Sensor),
        (LoopPhase::Publishing, LoopEvent::Published) => a is StartMeasurement,
        (LoopPhase::Publishing, LoopEvent::PublishFailed) => a == LoopAction::Stop(
            LoopFault::Publish,
        ),
        (LoopPhase::Starting, LoopEvent::MeasurementStarted) => a == LoopAction::Sleep(
            CYCLE_MILLIS,
        ),
        (LoopPhase::Starting, LoopEvent::SensorFault) => a == LoopAction::Stop(LoopFault::Sensor),
        (LoopPhase::Sleeping, LoopEvent::Woke) => a is Collect,
        _ => a == LoopAction::Stop(LoopFault::OutOfOrder),
    }
}

impl Sampler {
    /// A loop publishing to the topic of `channel_id`, with a measurement
    /// already in flight.
    pub fn new(channel_id: &str) -> (r: Sampler)
        ensures
            r.topic@ == topic_text(channel_id@),
            r.phase == LoopPhase::Collecting,
    {
        Sampler { topic: topic_for(channel_id), phase: LoopPhase::Collecting }
    }

    /// Takes the outcome of the last action and decides the next one.
    pub fn step(&mut self, ev: LoopEvent) -> (r: LoopAction)
        ensures
            loop_next_action(old(self).phase, ev, r),
            final(self).phase == loop_next_phase(old(self).phase, ev),
            final(self).topic == old(self).topic,
    {
        let phase = self.phase;
        match (phase, ev) {
            (LoopPhase::Collecting, LoopEvent::Measured(m)) => {
                self.phase = LoopPhase::Publishing;
                LoopAction::Publish(format_payload(m.temperature.as_str(), m.humidity.as_str()))
            },
            (LoopPhase::Publishing, LoopEvent::Published) => {
                self.phase = LoopPhase::Starting;
                LoopAction::StartMeasurement
            },
            (LoopPhase::Starting, LoopEvent::MeasurementStarted) => {
                self.phase = LoopPhase::Sleeping;
                LoopAction::Sleep(CYCLE_MILLIS)
            },
            (LoopPhase::Sleeping, LoopEvent::Woke) => {
                self.phase = LoopPhase::Collecting;
                LoopAction::Collect
            },
            (LoopPhase::Collecting, LoopEvent::SensorFault) => {
                self.phase = LoopPhase::Stopped;
                LoopAction::Stop(LoopFault::Sensor)
            },
            (LoopPhase::Starting, LoopEvent::SensorFault) => {
                self.phase = LoopPhase::Stopped;
                LoopAction::Stop(LoopFault::Sensor)
            },
            (LoopPhase::Publishing, LoopEvent::PublishFailed) => {
                self.phase = LoopPhase::Stopped;
                LoopAction::Stop(LoopFault::Publish)
            },
            _ => {
                self.phase = LoopPhase::Stopped;
                LoopAction::Stop(LoopFault::OutOfOrder)
            },
        }
    }
}

/// The phases the loop passes through on `events`, starting in `phase`.
pub open spec fn phases_after(phase: LoopPhase, events: Seq<LoopEvent>) -> Seq<LoopPhase>
    decreases events.len(),
{
    if events.len() == 0 {
        seq![]
    } else {
        let next = loop_next_phase(phase, events[0]);
        seq![next] + phases_after(next, events.drop_first())
    }
}

/// A failed publish ends the loop: whatever events come after it, the loop
/// stays stopped and never again starts a measurement.
pub proof fn lemma_publish_failure_ends_loop(later: Seq<LoopEvent>, a: LoopAction)
    requires
        loop_next_action(LoopPhase::Publishing, LoopEvent::PublishFailed, a),
    ensures
        a == LoopAction::Stop(LoopFault::Publish),
        loop_next_phase(LoopPhase::Publishing, LoopEvent::PublishFailed) == LoopPhase::Stopped,
        phases_after(LoopPhase::Stopped, later).len() == later.len(),
        forall|i: int| 0 <= i < later.len() ==> #[trigger] phases_after(LoopPhase::Stopped, later)[i]
            == LoopPhase::Stopped,
        forall|ev: LoopEvent, b: LoopAction| #[trigger]
            loop_next_action(LoopPhase::Stopped, ev, b) ==> b == LoopAction::Stop(
                LoopFault::OutOfOrder,
            ),
    decreases later.len(),
{
    if later.len() > 0 {
        lemma_publish_failure_ends_loop(later.drop_first(), a);
        let rest = phases_after(LoopPhase::Stopped, later.drop_first());
        assert(phases_after(LoopPhase::Stopped, later) == seq![LoopPhase::Stopped] + rest);
        assert forall|i: int| 0 <= i < later.len() implies #[trigger] phases_after(
            LoopPhase::Stopped,
            later,
        )[i] == LoopPhase::Stopped by {
            if i > 0 {
                assert(phases_after(LoopPhase::Stopped, later)[i] == rest[i - 1]);
            }
        }
    }
}

/// The loop sleeps only right after the next measurement was started, so the
/// sensor converts while the loop waits.
pub proof fn lemma_sleep_follows_start(phase: LoopPhase, ev: LoopEvent, a: LoopAction)
    requires
        loop_next_action(phase, ev, a),
        a is Sleep,
    ensures
        phase == LoopPhase::Starting,
        ev is MeasurementStarted,
        loop_next_phase(phase, ev) == LoopPhase::Sleeping,
{
}

} // verus!
