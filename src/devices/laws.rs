//! Properties of the codecs and the refresh engine, stated over the spec
//! functions that the executable contracts use, and proved.

use vstd::prelude::*;

use crate::devices::cloud_iii_s_wireless::{eq_band_of, eq_packet, EQ_LIMIT, MAX_EQ_BAND};
use crate::devices::codec::{decoded, listens_passively, query_packet, setting_packet_of, Codec, Query, Setting};
use crate::devices::event::DeviceEvent;
use crate::devices::refresh::{
    answered, finished, outcome, passive_plan, refresh_after, refresh_wf, state_after, Refresh,
    Reply, StepKind,
};
use crate::devices::state::{apply_event, apply_events, same_connection, values_unknown, DeviceState};
use crate::devices::device::DeviceError;

verus! {

/// The refresh after `n` replies in which nothing arrives, stopping once it is over.
pub open spec fn run_silent(c: Codec, s: DeviceState, r: Refresh, n: nat) -> Refresh
    decreases n,
{
    if n == 0 || finished(r) {
        r
    } else {
        run_silent(c, s, refresh_after(c, s, r, Reply::Silent), (n - 1) as nat)
    }
}

/// An active sweep over a transport that never answers ends, after at most
/// one exchange per planned step, with `NoResponse`.
pub proof fn lemma_silent_sweep_reports_no_response(c: Codec, s: DeviceState, r: Refresh, n: nat)
    requires
        refresh_wf(r),
        r.active,
        !r.responded,
        r.failure is None,
        n >= r.steps@.len() - r.next,
    ensures
        finished(run_silent(c, s, r, n)),
        outcome(run_silent(c, s, r, n)) == Err::<(), DeviceError>(DeviceError::NoResponse),
    decreases n,
{
    if n == 0 || finished(r) {
    } else {
        let r2 = refresh_after(c, s, r, Reply::Silent);
        assert(r.steps.len() == r.steps@.len());
        assert(!answered(c, Reply::Silent));
        lemma_silent_sweep_reports_no_response(c, s, r2, (n - 1) as nat);
    }
}

/// The device state and the refresh after feeding `replies` in order,
/// stopping once the refresh is over.
pub open spec fn run(c: Codec, s: DeviceState, r: Refresh, replies: Seq<Reply>) -> (DeviceState, Refresh)
    decreases replies.len(),
{
    if replies.len() == 0 || finished(r) {
        (s, r)
    } else {
        run(
            c,
            state_after(c, s, replies[0]),
            refresh_after(c, s, r, replies[0]),
            replies.drop_first(),
        )
    }
}

/// An active sweep over a transport that answers every exchange with a
/// report it understands ends, after at most one reply per planned step,
/// with success, provided a query is still ahead or already answered.
pub proof fn lemma_answering_sweep_succeeds(c: Codec, s: DeviceState, r: Refresh, replies: Seq<Reply>)
    requires
        refresh_wf(r),
        r.failure is None,
        r.responded || exists|j: int| r.next <= j < r.steps@.len() && #[trigger] r.steps@[j].kind == StepKind::Query,
        replies.len() >= r.steps@.len() - r.next,
        forall|i: int| 0 <= i < replies.len() ==> answered(c, #[trigger] replies[i]),
    ensures
        finished(run(c, s, r, replies).1),
        outcome(run(c, s, r, replies).1) == Ok::<(), DeviceError>(()),
    decreases replies.len(),
{
    if replies.len() == 0 || finished(r) {
    } else {
        let reply = replies[0];
        let r2 = refresh_after(c, s, r, reply);
        assert(r.steps.len() == r.steps@.len());
        assert(answered(c, reply));
        assert(!(reply is Failed));
        let rest = replies.drop_first();
        assert forall|i: int| 0 <= i < rest.len() implies answered(c, #[trigger] rest[i]) by {
            assert(rest[i] == replies[i + 1]);
        }
        if !r2.responded {
            let j = choose|j: int| r.next <= j < r.steps@.len() && #[trigger] r.steps@[j].kind == StepKind::Query;
            assert(r.steps@[r.next as int].kind != StepKind::Query);
            assert(j != r.next);
            assert(r2.steps@[j].kind == StepKind::Query);
        }
        lemma_answering_sweep_succeeds(c, state_after(c, s, reply), r2, rest);
    }
}

/// Identity and capability flags are the same after any sequence of
/// replies, failures included.
pub proof fn lemma_run_keeps_capabilities(c: Codec, s: DeviceState, r: Refresh, replies: Seq<Reply>)
    ensures
        same_connection(run(c, s, r, replies).0, s),
    decreases replies.len(),
{
    if replies.len() == 0 || finished(r) {
    } else {
        lemma_reply_keeps_capabilities(c, s, replies[0]);
        lemma_run_keeps_capabilities(
            c,
            state_after(c, s, replies[0]),
            refresh_after(c, s, r, replies[0]),
            replies.drop_first(),
        );
    }
}

/// Merging events never touches identity or capability flags.
pub proof fn lemma_events_keep_connection(s: DeviceState, es: Seq<DeviceEvent>)
    ensures
        same_connection(apply_events(s, es), s),
    decreases es.len(),
{
    if es.len() > 0 {
        lemma_events_keep_connection(s, es.drop_last());
    }
}

/// No reply, not even a transport failure, changes identity or capability
/// flags: they stay as the prober set them for the life of the connection.
pub proof fn lemma_reply_keeps_capabilities(c: Codec, s: DeviceState, reply: Reply)
    ensures
        same_connection(state_after(c, s, reply), s),
        state_after(c, s, reply).capabilities == s.capabilities,
{
    match reply {
        Reply::Report(bytes) => match decoded(c, bytes@) {
            Some(es) => lemma_events_keep_connection(s, es),
            None => {},
        },
        _ => {},
    }
}

/// A transport failure in the middle of a refresh clears every feature
/// value, leaves identity and capability flags as they were, and ends the
/// refresh with the transport's error.
pub proof fn lemma_failure_clears_values(c: Codec, s: DeviceState, r: Refresh, msg: String)
    requires
        refresh_wf(r),
        !finished(r),
    ensures
        values_unknown(state_after(c, s, Reply::Failed(msg))),
        state_after(c, s, Reply::Failed(msg)).capabilities == s.capabilities,
        same_connection(state_after(c, s, Reply::Failed(msg)), s),
        finished(refresh_after(c, s, r, Reply::Failed(msg))),
        outcome(refresh_after(c, s, r, Reply::Failed(msg))) == Err::<(), DeviceError>(
            DeviceError::HidError(msg),
        ),
{
}

/// A passive refresh sends no packet but the battery query; a report the
/// device pushes while it listens is merged, so a pushed mute change sets
/// `muted` with no mute query sent.
pub proof fn lemma_passive_refresh_hears_pushed_mute(
    c: Codec,
    s: DeviceState,
    bytes: Vec<u8>,
    muted: bool,
)
    requires
        listens_passively(c),
        decoded(c, bytes@) == Some(seq![DeviceEvent::Muted(muted)]),
    ensures
        passive_plan(c)[0] == (StepKind::Listen, Seq::<u8>::empty()),
        forall|i: int|
            0 <= i < passive_plan(c).len() && #[trigger] passive_plan(c)[i].0 != StepKind::Listen
                ==> passive_plan(c)[i].0 == StepKind::BatteryProbe && Some(passive_plan(c)[i].1)
                == query_packet(c, Query::Battery) && query_packet(c, Query::Battery) != query_packet(
                c,
                Query::Mute,
            ),
        state_after(c, s, Reply::Report(bytes)).muted == Some(muted),
        state_after(c, s, Reply::Report(bytes)) == (DeviceState { muted: Some(muted), ..s }),
{
    let es = seq![DeviceEvent::Muted(muted)];
    assert(es.drop_last() =~= Seq::<DeviceEvent>::empty());
    assert(apply_events(s, es) == apply_event(apply_events(s, Seq::empty()), es.last()));
    lemma_battery_is_not_mute(c);
}

/// No model asks for the battery with the packet that asks for mute.
proof fn lemma_battery_is_not_mute(c: Codec)
    ensures
        query_packet(c, Query::Battery) is Some ==> query_packet(c, Query::Battery)
            != query_packet(c, Query::Mute),
{
    match c {
        Codec::CloudIIWireless => {
            assert(query_packet(c, Query::Battery)->Some_0[15] != query_packet(
                c,
                Query::Mute,
            )->Some_0[15]);
        },
        Codec::CloudIIWirelessDTS { .. } => {
            assert(query_packet(c, Query::Battery)->Some_0[3] != query_packet(
                c,
                Query::Mute,
            )->Some_0[3]);
        },
        Codec::CloudIIISWireless => {
            assert(query_packet(c, Query::Battery)->Some_0[5] != query_packet(
                c,
                Query::Mute,
            )->Some_0[5]);
        },
        Codec::CloudIIIWireless => {
            assert(query_packet(c, Query::Battery)->Some_0[1] != query_packet(
                c,
                Query::Mute,
            )->Some_0[1]);
        },
        Codec::CloudAlphaWireless => {
            assert(query_packet(c, Query::Battery)->Some_0[2] != query_packet(
                c,
                Query::Mute,
            )->Some_0[2]);
        },
        Codec::CloudIICoreWireless => {
            assert(query_packet(c, Query::Battery)->Some_0[1] != query_packet(
                c,
                Query::Mute,
            )->Some_0[1]);
        },
    }
}

/// Once a query of an active sweep has been answered, the sweep ends well
/// unless the transport fails: later silence or unknown reports do not undo it.
pub proof fn lemma_answered_sweep_stays_answered(c: Codec, s: DeviceState, r: Refresh, reply: Reply)
    requires
        refresh_wf(r),
        !finished(r),
        r.responded,
        !(reply is Failed),
    ensures
        refresh_after(c, s, r, reply).responded,
        finished(refresh_after(c, s, r, reply)) ==> outcome(refresh_after(c, s, r, reply)) == Ok::<
            (),
            DeviceError,
        >(()),
{
}

/// An answer to a query marks the sweep as answered and merges exactly the
/// decoded events.
pub proof fn lemma_answered_query_counts(c: Codec, s: DeviceState, r: Refresh, bytes: Vec<u8>)
    requires
        refresh_wf(r),
        !finished(r),
        r.steps@[r.next as int].kind == StepKind::Query,
        decoded(c, bytes@) is Some,
    ensures
        refresh_after(c, s, r, Reply::Report(bytes)).responded,
        state_after(c, s, Reply::Report(bytes)) == apply_events(s, decoded(c, bytes@)->Some_0),
{
}

/// An equalizer packet carries back the band and the gain it was built
/// from, for every band and every gain in the accepted range.
pub proof fn lemma_equalizer_round_trip(band: u8, centi_db: i32)
    requires
        band <= MAX_EQ_BAND,
        -EQ_LIMIT <= centi_db <= EQ_LIMIT,
    ensures
        setting_packet_of(Codec::CloudIIISWireless, Setting::EqualizerBand(band, centi_db))
            == Some(eq_packet(band, centi_db)),
        eq_band_of(eq_packet(band, centi_db)) == (band, centi_db as int),
{
    let v = centi_db as int;
    let u = if v < 0 {
        v + 0x10000
    } else {
        v
    };
    assert(0 <= u < 0x10000);
    let hi = u / 256;
    let lo = u % 256;
    assert(0 <= hi < 256 && 0 <= lo < 256 && hi * 256 + lo == u) by (nonlinear_arith)
        requires
            0 <= u < 0x10000,
            hi == u / 256,
            lo == u % 256,
    ;
    let p = eq_packet(band, centi_db);
    assert(p[6] == band);
    assert(p[7] as int == hi);
    assert(p[8] as int == lo);
}

} // verus!
