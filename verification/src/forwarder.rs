//! Per-topic forwarder: the state machine of one topic's long-running
//! forwarding loop. The runtime owns the bus subscription and the
//! visualization channel; it hands every received sample (with a capture of
//! the current time) to [`Forwarder::on_sample`] and performs the returned
//! action. All decisions — payload extraction, per-message isolation, the
//! message counter and its log cadence — are made here and verified.

use vstd::prelude::*;
use crate::encoding::{
    MessageKind,
    PayloadEncoding,
    Sample,
    extract_payload,
    spec_extract_payload,
    spec_extract_error,
};
use crate::errors::ForwardError;

verus! {

/// Every how many processed messages the forwarder asks for one informational
/// log line with the running count.
pub const CADENCE_INTERVAL: u64 = 20;

/// The state of one topic's forwarding loop. A forwarder starts `Running`;
/// it leaves that state only on process shutdown (`Stopped`) or when the bus
/// subscription itself fails (`Crashed`) — never because of a bad message.
#[derive(Debug, Clone, Copy, PartialEq, Eq, Structural)]
pub enum ForwarderState {
    Running,
    Stopped,
    Crashed,
}

/// One message to hand to the topic's visualization channel: the capture time
/// in nanoseconds since the Unix epoch, and the payload bytes.
pub struct ForwardedMessage {
    pub timestamp_nanos: u64,
    pub payload: Vec<u8>,
}

/// What the runtime must do after handing one sample to the forwarder.
pub enum ForwardAction {
    /// Send the message on the channel; when `log_count` is set, also emit the
    /// cadence log line with that running message count.
    Forward { message: ForwardedMessage, log_count: Option<u64> },
    /// Drop the sample, log the reason with topic context, and continue the
    /// loop with the next sample.
    DropMessage { reason: ForwardError },
}

/// The per-topic forwarding state machine: the topic's message kind, the
/// running message counter, and the loop state.
pub struct Forwarder {
    pub kind: MessageKind,
    pub counter: u64,
    pub state: ForwarderState,
}

/// One received sample as the specification sees it: its transport encoding
/// tag, its payload bytes, and the time it was handed to the forwarder.
pub ghost struct GSample {
    pub encoding: PayloadEncoding,
    pub value: Seq<u8>,
    pub time_nanos: u64,
}

/// One forwarded message as the specification sees it.
pub ghost struct GForwarded {
    pub time_nanos: u64,
    pub payload: Seq<u8>,
}

/// Whether a sample on a topic of the given kind is well-formed, that is,
/// payload extraction succeeds and the sample is forwarded rather than
/// dropped.
pub open spec fn well_formed_sample(kind: MessageKind, s: GSample) -> bool {
    spec_extract_payload(kind, s.encoding, s.value) is Some
}

/// The message a well-formed sample is forwarded as.
pub open spec fn spec_forward_of(kind: MessageKind, s: GSample) -> GForwarded {
    GForwarded {
        time_nanos: s.time_nanos,
        payload: spec_extract_payload(kind, s.encoding, s.value)->Some_0,
    }
}

/// The messages a running forwarder sends for a sequence of received samples:
/// each well-formed sample's message, in the order received; dropped samples
/// leave no trace.
pub open spec fn run_forwarded(kind: MessageKind, samples: Seq<GSample>) -> Seq<GForwarded>
    decreases samples.len(),
{
    if samples.len() == 0 {
        Seq::empty()
    } else if well_formed_sample(kind, samples[0]) {
        seq![spec_forward_of(kind, samples[0])] + run_forwarded(kind, samples.drop_first())
    } else {
        run_forwarded(kind, samples.drop_first())
    }
}

/// How many cadence log lines a forwarder whose counter starts at `counter`
/// emits over a sequence of received samples: one for each forwarded message
/// whose running count is a multiple of [`CADENCE_INTERVAL`].
pub open spec fn run_cadence_count(kind: MessageKind, counter: nat, samples: Seq<GSample>) -> nat
    decreases samples.len(),
{
    if samples.len() == 0 {
        0
    } else {
        (if well_formed_sample(kind, samples[0]) && (counter + 1) % (CADENCE_INTERVAL as nat)
            == 0 {
            1nat
        } else {
            0nat
        }) + run_cadence_count(kind, counter + 1, samples.drop_first())
    }
}

impl Forwarder {
    /// A freshly started forwarder for a topic of the given kind: no message
    /// processed yet, loop running.
    pub fn new(kind: MessageKind) -> (r: Forwarder)
        ensures
            r.kind == kind,
            r.counter == 0,
            r.state is Running,
    {
        Forwarder { kind, counter: 0, state: ForwarderState::Running }
    }

    /// Processes one received sample: counts it, extracts its payload, and
    /// says what to do. A well-formed sample becomes a message stamped with
    /// the given capture time, with a cadence log exactly at every
    /// [`CADENCE_INTERVAL`]th processed message; a malformed sample is dropped
    /// with its reason. Either way the loop keeps running: one bad message
    /// never terminates the topic's stream.
    pub fn on_sample(&mut self, sample: Sample, time_nanos: u64) -> (r: ForwardAction)
        requires
            old(self).state is Running,
            old(self).counter < u64::MAX,
        ensures
            final(self).kind == old(self).kind,
            final(self).state is Running,
            final(self).counter == old(self).counter + 1,
            match spec_extract_payload(old(self).kind, sample.encoding, sample.value@) {
                Some(p) => r matches ForwardAction::Forward { message, log_count }
                    && message.timestamp_nanos == time_nanos && message.payload@ == p && (log_count
                    is Some <==> (old(self).counter + 1) % (CADENCE_INTERVAL as int) == 0) && (
                log_count matches Some(c) ==> c == old(self).counter + 1),
                None => r matches ForwardAction::DropMessage { reason } && reason
                    == spec_extract_error(old(self).kind, sample.encoding),
            },
    {
        self.counter = self.counter + 1;
        match extract_payload(self.kind, sample) {
            Ok(payload) => {
                let log_count: Option<u64> = if self.counter % CADENCE_INTERVAL == 0 {
                    Some(self.counter)
                } else {
                    None
                };
                ForwardAction::Forward {
                    message: ForwardedMessage { timestamp_nanos: time_nanos, payload },
                    log_count,
                }
            },
            Err(reason) => ForwardAction::DropMessage { reason },
        }
    }

    /// The bus subscription itself closed or failed at the transport level:
    /// the loop exits and the topic stops forwarding.
    pub fn on_subscription_closed(&mut self)
        ensures
            final(self).kind == old(self).kind,
            final(self).counter == old(self).counter,
            final(self).state is Crashed,
    {
        self.state = ForwarderState::Crashed;
    }

    /// Process-wide shutdown cancelled the loop.
    pub fn on_shutdown(&mut self)
        ensures
            final(self).kind == old(self).kind,
            final(self).counter == old(self).counter,
            final(self).state is Stopped,
    {
        self.state = ForwarderState::Stopped;
    }
}

/// In a run where every sample is well-formed, every message is forwarded, in
/// the order received.
pub proof fn lemma_all_forwarded(kind: MessageKind, samples: Seq<GSample>)
    requires
        forall|i: int| 0 <= i < samples.len() ==> well_formed_sample(kind, #[trigger] samples[i]),
    ensures
        run_forwarded(kind, samples).len() == samples.len(),
        forall|i: int|
            0 <= i < samples.len() ==> #[trigger] run_forwarded(kind, samples)[i]
                == spec_forward_of(kind, samples[i]),
    decreases samples.len(),
{
    if samples.len() > 0 {
        let rest = samples.drop_first();
        assert(forall|i: int| 0 <= i < rest.len() ==> #[trigger] rest[i] == samples[i + 1]);
        lemma_all_forwarded(kind, rest);
    }
}

/// Per-message isolation: in a run where the sample at position `k` is
/// malformed and every other sample is well-formed, every message except the
/// one at `k` is forwarded, in the original order — the single bad message is
/// dropped and the run goes on through the whole sequence.
pub proof fn lemma_per_message_isolation(kind: MessageKind, samples: Seq<GSample>, k: int)
    requires
        0 <= k < samples.len(),
        !well_formed_sample(kind, samples[k]),
        forall|i: int|
            0 <= i < samples.len() && i != k ==> well_formed_sample(kind, #[trigger] samples[i]),
    ensures
        run_forwarded(kind, samples).len() == samples.len() - 1,
        forall|i: int|
            0 <= i < k ==> #[trigger] run_forwarded(kind, samples)[i] == spec_forward_of(
                kind,
                samples[i],
            ),
        forall|i: int|
            k < i < samples.len() ==> #[trigger] run_forwarded(kind, samples)[i - 1]
                == spec_forward_of(kind, samples[i]),
    decreases samples.len(),
{
    let rest = samples.drop_first();
    assert(forall|i: int| 0 <= i < rest.len() ==> #[trigger] rest[i] == samples[i + 1]);
    if k == 0 {
        lemma_all_forwarded(kind, rest);
    } else {
        lemma_per_message_isolation(kind, rest, k - 1);
    }
}

/// Soft timestamp monotonicity: when the samples of a run carry non-decreasing
/// capture times — the clock was not set back between receipts — the forwarded
/// messages carry non-decreasing timestamps, in the order sent.
pub proof fn lemma_timestamp_monotonic(kind: MessageKind, samples: Seq<GSample>)
    requires
        forall|i: int, j: int|
            0 <= i <= j < samples.len() ==> #[trigger] samples[i].time_nanos
                <= #[trigger] samples[j].time_nanos,
    ensures
        forall|i: int, j: int|
            0 <= i <= j < run_forwarded(kind, samples).len() ==> #[trigger] run_forwarded(
                kind,
                samples,
            )[i].time_nanos <= #[trigger] run_forwarded(kind, samples)[j].time_nanos,
        samples.len() > 0 ==> forall|j: int|
            0 <= j < run_forwarded(kind, samples).len() ==> #[trigger] run_forwarded(
                kind,
                samples,
            )[j].time_nanos >= samples[0].time_nanos,
    decreases samples.len(),
{
    if samples.len() > 0 {
        let rest = samples.drop_first();
        assert(forall|i: int| 0 <= i < rest.len() ==> #[trigger] rest[i] == samples[i + 1]);
        assert forall|i: int, j: int| 0 <= i <= j < rest.len() implies #[trigger] rest[i].time_nanos
            <= #[trigger] rest[j].time_nanos by {
            assert(samples[i + 1].time_nanos <= samples[j + 1].time_nanos);
        }
        lemma_timestamp_monotonic(kind, rest);
        let run = run_forwarded(kind, samples);
        let runr = run_forwarded(kind, rest);
        if well_formed_sample(kind, samples[0]) {
            assert(run == seq![spec_forward_of(kind, samples[0])] + runr);
            assert(forall|j: int| 1 <= j < run.len() ==> #[trigger] run[j] == runr[j - 1]);
        } else {
            assert(run == runr);
        }
        assert forall|j: int| 0 <= j < run.len() implies #[trigger] run[j].time_nanos
            >= samples[0].time_nanos by {
            if well_formed_sample(kind, samples[0]) && j == 0 {
                assert(run[0] == spec_forward_of(kind, samples[0]));
            } else {
                let jr: int = if well_formed_sample(kind, samples[0]) {
                    j - 1
                } else {
                    j
                };
                assert(run[j] == runr[jr]);
                assert(rest.len() > 0);
                assert(runr[jr].time_nanos >= rest[0].time_nanos);
                assert(rest[0] == samples[1]);
                assert(samples[0].time_nanos <= samples[1].time_nanos);
            }
        }
        assert forall|i: int, j: int| 0 <= i <= j < run.len() implies #[trigger] run[i].time_nanos
            <= #[trigger] run[j].time_nanos by {
            if well_formed_sample(kind, samples[0]) && i == 0 {
                assert(run[0] == spec_forward_of(kind, samples[0]));
                assert(run[j].time_nanos >= samples[0].time_nanos);
            } else {
                let ir: int = if well_formed_sample(kind, samples[0]) {
                    i - 1
                } else {
                    i
                };
                let jr: int = if well_formed_sample(kind, samples[0]) {
                    j - 1
                } else {
                    j
                };
                assert(run[i] == runr[ir]);
                assert(run[j] == runr[jr]);
                assert(runr[ir].time_nanos <= runr[jr].time_nanos);
            }
        }
    }
}

/// The arithmetic of one cadence step: going from `n - 1` to `n` processed
/// messages adds one cadence event exactly when `n` is a multiple of the
/// cadence interval.
proof fn lemma_cadence_step(n: int)
    requires
        1 <= n,
    ensures
        n % (CADENCE_INTERVAL as int) == 0 ==> n / (CADENCE_INTERVAL as int) == (n - 1) / (
        CADENCE_INTERVAL as int) + 1,
        n % (CADENCE_INTERVAL as int) != 0 ==> n / (CADENCE_INTERVAL as int) == (n - 1) / (
        CADENCE_INTERVAL as int),
{
    vstd::arithmetic::div_mod::lemma_fundamental_div_mod(n, CADENCE_INTERVAL as int);
    vstd::arithmetic::div_mod::lemma_fundamental_div_mod(n - 1, CADENCE_INTERVAL as int);
}

/// Cadence counting from an arbitrary starting counter, for induction: over
/// an all-well-formed run the number of cadence events is the number of
/// cadence boundaries the counter crosses.
proof fn lemma_cadence_count_from(kind: MessageKind, counter: nat, samples: Seq<GSample>)
    requires
        forall|i: int| 0 <= i < samples.len() ==> well_formed_sample(kind, #[trigger] samples[i]),
    ensures
        run_cadence_count(kind, counter, samples) == (counter + samples.len()) as int / (
        CADENCE_INTERVAL as int) - counter as int / (CADENCE_INTERVAL as int),
    decreases samples.len(),
{
    if samples.len() > 0 {
        let rest = samples.drop_first();
        assert(forall|i: int| 0 <= i < rest.len() ==> #[trigger] rest[i] == samples[i + 1]);
        lemma_cadence_count_from(kind, counter + 1, rest);
        lemma_cadence_step(counter as int + 1);
    }
}

/// Counter cadence: a fresh forwarder fed only well-formed samples emits
/// exactly one cadence log line per [`CADENCE_INTERVAL`]-message boundary and
/// none otherwise — over `n` samples, exactly `n / 20` cadence events.
pub proof fn lemma_counter_cadence(kind: MessageKind, samples: Seq<GSample>)
    requires
        forall|i: int| 0 <= i < samples.len() ==> well_formed_sample(kind, #[trigger] samples[i]),
    ensures
        run_cadence_count(kind, 0, samples) == samples.len() as int / (CADENCE_INTERVAL as int),
{
    lemma_cadence_count_from(kind, 0, samples);
}

} // verus!
