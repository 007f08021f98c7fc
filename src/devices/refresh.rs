//! The refresh engine. A refresh is a plan of exchanges with the transport;
//! the caller performs each exchange and hands the outcome back, and the
//! engine merges what was decoded and decides what comes next.

use vstd::prelude::*;

use crate::devices::codec::{
    decoded, listens_passively, query_packet, startup_sequence, Codec, Query,
};
use crate::devices::device::{Device, DeviceError};
use crate::devices::state::{apply_events, cleared, DeviceState};

verus! {

/// Wait after each query before reading, in milliseconds; firmware is
/// unstable when commands come faster.
pub const RESPONSE_DELAY_MS: u64 = 50;

/// Wait after each packet of a startup sequence, in milliseconds.
pub const STARTUP_DELAY_MS: u64 = 200;

/// How long one read waits for a report, in milliseconds.
pub const READ_TIMEOUT_MS: u64 = 1000;

/// What a planned exchange is for.
#[derive(Debug, Clone, Copy, PartialEq, Eq, Structural)]
pub enum StepKind {
    /// Part of a model's startup sequence; answers are merged but do not count.
    Startup,
    /// A query of an active sweep.
    Query,
    /// A read without a write, for reports the device pushes.
    Listen,
    /// The battery query of a passive refresh.
    BatteryProbe,
}

/// One planned exchange; a `Listen` step has no packet.
#[derive(Debug)]
pub struct PlannedStep {
    pub kind: StepKind,
    pub packet: Vec<u8>,
}

/// What the caller is to do next.
#[derive(Debug)]
pub enum Action {
    /// Write the packet (fetching an input report first where the model asks
    /// for it), wait `delay_ms`, then read for up to the read timeout.
    Send { packet: Vec<u8>, delay_ms: u64 },
    /// Read for up to the read timeout without writing.
    Listen,
    /// The refresh is over, with this result.
    Finished(Result<(), DeviceError>),
}

/// What came of an exchange.
#[derive(Debug)]
pub enum Reply {
    /// A report arrived: the whole read buffer.
    Report(Vec<u8>),
    /// Nothing arrived before the timeout, or the read failed.
    Silent,
    /// The write failed; the transport's message.
    Failed(String),
}

/// A refresh in progress.
#[derive(Debug)]
pub struct Refresh {
    pub steps: Vec<PlannedStep>,
    /// Index of the next step.
    pub next: usize,
    /// Whether any query has been answered.
    pub responded: bool,
    /// An active sweep fails when no query is answered; a passive refresh never does.
    pub active: bool,
    /// Set when the transport failed.
    pub failure: Option<DeviceError>,
}

/// The kind and packet of each planned step.
pub open spec fn plan_of(steps: Seq<PlannedStep>) -> Seq<(StepKind, Seq<u8>)> {
    steps.map_values(|s: PlannedStep| (s.kind, s.packet@))
}

/// The queries of an active sweep, in the order they are sent.
pub open spec fn sweep_order() -> Seq<Query> {
    seq![
        Query::WirelessConnected,
        Query::Charging,
        Query::Battery,
        Query::AutomaticShutdown,
        Query::Mute,
        Query::SurroundSound,
        Query::MicConnected,
        Query::PairingInfo,
        Query::ProductColor,
        Query::SideTone,
        Query::SideToneVolume,
        Query::VoicePrompt,
        Query::Sirk,
        Query::SilentMode,
    ]
}

/// The packets of the queries in `qs` that model `c` can answer, in order.
pub open spec fn present_queries(c: Codec, qs: Seq<Query>) -> Seq<Seq<u8>>
    decreases qs.len(),
{
    if qs.len() == 0 {
        Seq::empty()
    } else {
        let rest = present_queries(c, qs.drop_last());
        match query_packet(c, qs.last()) {
            Some(p) => rest.push(p),
            None => rest,
        }
    }
}

/// The plan of an active refresh: the startup sequence, then every query the
/// model can answer, in sweep order.
pub open spec fn active_plan(c: Codec) -> Seq<(StepKind, Seq<u8>)> {
    startup_sequence(c).map_values(|p: Seq<u8>| (StepKind::Startup, p)) + present_queries(
        c,
        sweep_order(),
    ).map_values(|p: Seq<u8>| (StepKind::Query, p))
}

/// The plan of a passive refresh: a read where the model pushes reports,
/// then the battery query, which no model pushes.
pub open spec fn passive_plan(c: Codec) -> Seq<(StepKind, Seq<u8>)> {
    let listen: Seq<(StepKind, Seq<u8>)> = if listens_passively(c) {
        seq![(StepKind::Listen, Seq::<u8>::empty())]
    } else {
        Seq::empty()
    };
    match query_packet(c, Query::Battery) {
        Some(p) => listen.push((StepKind::BatteryProbe, p)),
        None => listen,
    }
}

/// Whether the refresh is over.
pub open spec fn finished(r: Refresh) -> bool {
    r.failure is Some || r.next >= r.steps@.len()
}

/// The result of a finished refresh.
pub open spec fn outcome(r: Refresh) -> Result<(), DeviceError> {
    match r.failure {
        Some(e) => Err(e),
        None => if r.active && !r.responded {
            Err(DeviceError::NoResponse)
        } else {
            Ok(())
        },
    }
}

/// Whether a reply carries a report the codec understands.
pub open spec fn answered(c: Codec, reply: Reply) -> bool {
    match reply {
        Reply::Report(bytes) => decoded(c, bytes@) is Some,
        _ => false,
    }
}

/// The device state after a reply: decoded events are merged in order; a
/// failed transport clears every value.
pub open spec fn state_after(c: Codec, s: DeviceState, reply: Reply) -> DeviceState {
    match reply {
        Reply::Report(bytes) => match decoded(c, bytes@) {
            Some(es) => apply_events(s, es),
            None => s,
        },
        Reply::Silent => s,
        Reply::Failed(_) => cleared(s),
    }
}

/// The refresh after a reply to its next step. A failed transport ends it;
/// a query after which the device reports itself disconnected ends the
/// sweep early.
pub open spec fn refresh_after(c: Codec, s: DeviceState, r: Refresh, reply: Reply) -> Refresh {
    let kind = r.steps@[r.next as int].kind;
    let s2 = state_after(c, s, reply);
    match reply {
        Reply::Failed(msg) => Refresh {
            next: (r.next + 1) as usize,
            failure: Some(DeviceError::HidError(msg)),
            ..r
        },
        _ => Refresh {
            next: if kind == StepKind::Query && s2.connected == Some(false) {
                r.steps.len()
            } else {
                (r.next + 1) as usize
            },
            responded: r.responded || (kind == StepKind::Query && answered(c, reply)),
            ..r
        },
    }
}

/// A well-formed refresh.
pub open spec fn refresh_wf(r: Refresh) -> bool {
    r.next <= r.steps@.len()
}

fn copy_packet(p: &Vec<u8>) -> (r: Vec<u8>)
    ensures
        r@ == p@,
{
    let mut r: Vec<u8> = Vec::new();
    let mut i: usize = 0;
    while i < p.len()
        invariant
            i <= p@.len(),
            r@ == p@.subrange(0, i as int),
        decreases p@.len() - i,
    {
        r.push(p[i]);
        i = i + 1;
        assert(r@ =~= p@.subrange(0, i as int));
    }
    assert(p@.subrange(0, p@.len() as int) =~= p@);
    r
}

impl Refresh {
    /// What the caller is to do next.
    pub fn action(&self) -> (r: Action)
        requires
            refresh_wf(*self),
        ensures
            finished(*self) ==> (r matches Action::Finished(res) && res == outcome(*self)),
            !finished(*self) ==> (match self.steps@[self.next as int].kind {
                StepKind::Listen => r is Listen,
                StepKind::Startup => r matches Action::Send { packet, delay_ms } && packet@
                    == self.steps@[self.next as int].packet@ && delay_ms == STARTUP_DELAY_MS,
                _ => r matches Action::Send { packet, delay_ms } && packet@
                    == self.steps@[self.next as int].packet@ && delay_ms == RESPONSE_DELAY_MS,
            }),
    {
        match &self.failure {
            Some(e) => {
                return Action::Finished(Err(copy_error(e)));
            },
            None => {},
        }
        if self.next >= self.steps.len() {
            if self.active && !self.responded {
                return Action::Finished(Err(DeviceError::NoResponse));
            }
            return Action::Finished(Ok(()));
        }
        let step = &self.steps[self.next];
        match step.kind {
            StepKind::Listen => Action::Listen,
            StepKind::Startup => Action::Send {
                packet: copy_packet(&step.packet),
                delay_ms: STARTUP_DELAY_MS,
            },
            _ => Action::Send { packet: copy_packet(&step.packet), delay_ms: RESPONSE_DELAY_MS },
        }
    }
}

fn sweep_queries() -> (r: Vec<Query>)
    ensures
        r@ == sweep_order(),
{
    let r = vec![
        Query::WirelessConnected,
        Query::Charging,
        Query::Battery,
        Query::AutomaticShutdown,
        Query::Mute,
        Query::SurroundSound,
        Query::MicConnected,
        Query::PairingInfo,
        Query::ProductColor,
        Query::SideTone,
        Query::SideToneVolume,
        Query::VoicePrompt,
        Query::Sirk,
        Query::SilentMode,
    ];
    assert(r@ =~= sweep_order());
    r
}

impl Device {
    /// Plans an active refresh: the model's startup sequence, then every
    /// query it can answer, in sweep order.
    pub fn start_active_refresh(&self) -> (r: Refresh)
        ensures
            plan_of(r.steps@) == active_plan(self.codec),
            r.next == 0,
            !r.responded,
            r.active,
            r.failure is None,
    {
        let mut steps: Vec<PlannedStep> = Vec::new();
        let startup = self.codec.startup_packets();
        let mut i: usize = 0;
        while i < startup.len()
            invariant
                i <= startup@.len(),
                startup@.map_values(|p: Vec<u8>| p@) == startup_sequence(self.codec),
                plan_of(steps@) == startup_sequence(self.codec).subrange(0, i as int).map_values(
                    |p: Seq<u8>| (StepKind::Startup, p),
                ),
            decreases startup@.len() - i,
        {
            let ghost prev = steps@;
            let ghost seq0 = startup_sequence(self.codec);
            steps.push(PlannedStep { kind: StepKind::Startup, packet: copy_packet(&startup[i]) });
            proof {
                assert(seq0[i as int] == startup@[i as int]@);
                assert(plan_of(steps@) =~= plan_of(prev).push((StepKind::Startup, seq0[i as int])));
                assert(seq0.subrange(0, i + 1) =~= seq0.subrange(0, i as int).push(seq0[i as int]));
                assert(seq0.subrange(0, i + 1).map_values(|p: Seq<u8>| (StepKind::Startup, p))
                    =~= seq0.subrange(0, i as int).map_values(
                    |p: Seq<u8>| (StepKind::Startup, p),
                ).push((StepKind::Startup, seq0[i as int])));
            }
            i = i + 1;
        }
        assert(startup_sequence(self.codec).subrange(0, startup@.len() as int)
            =~= startup_sequence(self.codec));
        let ghost head = plan_of(steps@);
        let order = sweep_queries();
        let mut j: usize = 0;
        while j < order.len()
            invariant
                j <= order@.len(),
                order@ == sweep_order(),
                plan_of(steps@) == head + present_queries(
                    self.codec,
                    sweep_order().subrange(0, j as int),
                ).map_values(|p: Seq<u8>| (StepKind::Query, p)),
            decreases order@.len() - j,
        {
            let ghost prev = steps@;
            assert(sweep_order().subrange(0, j + 1).drop_last() =~= sweep_order().subrange(
                0,
                j as int,
            ));
            let ghost before = present_queries(self.codec, sweep_order().subrange(0, j as int));
            match self.codec.encode_get(order[j]) {
                Some(p) => {
                    let ghost pv = p@;
                    steps.push(PlannedStep { kind: StepKind::Query, packet: p });
                    proof {
                        assert(plan_of(steps@) =~= plan_of(prev).push((StepKind::Query, pv)));
                        assert(before.push(pv).map_values(|p: Seq<u8>| (StepKind::Query, p))
                            =~= before.map_values(|p: Seq<u8>| (StepKind::Query, p)).push(
                            (StepKind::Query, pv),
                        ));
                    }
                },
                None => {},
            }
            j = j + 1;
        }
        assert(sweep_order().subrange(0, 14) =~= sweep_order());
        Refresh { steps, next: 0, responded: false, active: true, failure: None }
    }

    /// Plans a passive refresh: one read where the model pushes reports,
    /// then the battery query.
    pub fn start_passive_refresh(&self) -> (r: Refresh)
        ensures
            plan_of(r.steps@) == passive_plan(self.codec),
            r.next == 0,
            !r.responded,
            !r.active,
            r.failure is None,
    {
        let mut steps: Vec<PlannedStep> = Vec::new();
        if self.codec.allow_passive_refresh() {
            steps.push(PlannedStep { kind: StepKind::Listen, packet: Vec::new() });
        }
        let ghost prev = steps@;
        match self.codec.encode_get(Query::Battery) {
            Some(p) => {
                steps.push(PlannedStep { kind: StepKind::BatteryProbe, packet: p });
                assert(steps@ =~= prev.push(steps@.last()));
            },
            None => {},
        }
        assert(plan_of(steps@) =~= passive_plan(self.codec));
        Refresh { steps, next: 0, responded: false, active: false, failure: None }
    }

    /// Takes the outcome of the refresh's next exchange: merges the decoded
    /// events into the state and moves the refresh on. A failed transport
    /// clears every feature value; capability flags stay.
    pub fn on_reply(&mut self, refresh: &mut Refresh, reply: Reply)
        requires
            refresh_wf(*old(refresh)),
            !finished(*old(refresh)),
        ensures
            final(self).codec == old(self).codec,
            final(self).state == state_after(old(self).codec, old(self).state, reply),
            *final(refresh) == refresh_after(old(self).codec, old(self).state, *old(refresh), reply),
            refresh_wf(*final(refresh)),
    {
        let kind = refresh.steps[refresh.next].kind;
        let len = refresh.steps.len();
        match reply {
            Reply::Failed(msg) => {
                self.state.clear_state();
                refresh.failure = Some(DeviceError::HidError(msg));
                refresh.next = refresh.next + 1;
                assert(refresh.next <= len);
            },
            Reply::Silent => {
                self.after_exchange(refresh, kind, false);
            },
            Reply::Report(bytes) => {
                let answered = match self.codec.decode(bytes.as_slice()) {
                    Some(events) => {
                        self.state.update_self_with_events(&events);
                        true
                    },
                    None => false,
                };
                self.after_exchange(refresh, kind, answered);
            },
        }
    }

    /// Moves the refresh past a step that was answered or not.
    fn after_exchange(&self, refresh: &mut Refresh, kind: StepKind, answered: bool)
        requires
            refresh_wf(*old(refresh)),
            old(refresh).next < old(refresh).steps@.len(),
            kind == old(refresh).steps@[old(refresh).next as int].kind,
        ensures
            *final(refresh) == (Refresh {
                next: if kind == StepKind::Query && self.state.connected == Some(false) {
                    old(refresh).steps@.len() as usize
                } else {
                    (old(refresh).next + 1) as usize
                },
                responded: old(refresh).responded || (kind == StepKind::Query && answered),
                ..*old(refresh)
            }),
    {
        let len = refresh.steps.len();
        if kind == StepKind::Query && answered {
            refresh.responded = true;
        }
        if kind == StepKind::Query && self.state.connected == Some(false) {
            refresh.next = len;
        } else {
            refresh.next = refresh.next + 1;
        }
    }
}

fn copy_error(e: &DeviceError) -> (r: DeviceError)
    ensures
        r == *e,
{
    match e {
        DeviceError::HidError(msg) => DeviceError::HidError(msg.clone()),
        DeviceError::NoDeviceFound => DeviceError::NoDeviceFound,
        DeviceError::HeadSetOff => DeviceError::HeadSetOff,
        DeviceError::NoResponse => DeviceError::NoResponse,
        DeviceError::UnknownResponse(head, len) => DeviceError::UnknownResponse(*head, *len),
    }
}

} // verus!
