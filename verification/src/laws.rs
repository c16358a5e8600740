//! Properties that hold of the library as a whole.
use vstd::arithmetic::power::lemma_pow0;
use vstd::arithmetic::power2::{lemma_pow2_pos, lemma_pow2_unfold, pow2};
use vstd::prelude::*;

use crate::mappings::{
    human_name_of, image_format_for_protocol, kind_ids, kind_of_ids, protocol_version_of, query_ids_spec,
    CandidateDevice, DeviceInfo, Kind,
};
use crate::watcher::{
    candidate_for, claim_run, device_id, is_supported_device, lifecycle_outcome, next_backoff_spec,
    watcher_step, watcher_wf, LifecycleAction, LifecycleEvent, WatcherAction, WatcherEvent,
    WatcherPhase, WatcherStateView, MAX_RESTART_DELAY_MS, STREAM_RESTART_DELAY_MS,
};
use crate::mappings::DEVICE_NAMESPACE;

verus! {

/// Each kind is recognised by its own (vendor id, product id) pair.
pub proof fn lemma_kind_ids_identify_kind(kind: Kind)
    ensures
        kind_of_ids(kind_ids(kind).0, kind_ids(kind).1) == Some(kind),
{
}

/// A pair is only ever recognised as the kind it identifies, so two different kinds
/// never share a pair.
pub proof fn lemma_kind_of_ids_sound(vid: u16, pid: u16)
    ensures
        kind_of_ids(vid, pid) matches Some(kind) ==> kind_ids(kind) == (vid, pid),
{
}

/// The device queries look for exactly the supported kinds: each query names a supported
/// kind's pair, each kind has a query, and no pair is queried twice.
pub proof fn lemma_queries_cover_kinds()
    ensures
        forall|i: int| 0 <= i < query_ids_spec().len() ==>
            (#[trigger] kind_of_ids(query_ids_spec()[i].0, query_ids_spec()[i].1)) is Some,
        forall|kind: Kind| #[trigger] query_ids_spec().contains(kind_ids(kind)),
        query_ids_spec().no_duplicates(),
{
    let q = query_ids_spec();
    assert forall|kind: Kind| #[trigger] q.contains(kind_ids(kind)) by {
        match kind {
            Kind::Akp03 => assert(q[0] == kind_ids(kind)),
            Kind::Akp03E => assert(q[1] == kind_ids(kind)),
            Kind::Akp03R => assert(q[2] == kind_ids(kind)),
            Kind::Akp03Erev2 => assert(q[3] == kind_ids(kind)),
            Kind::Akp03Rrev2 => assert(q[4] == kind_ids(kind)),
            Kind::N3_6602_1002 => assert(q[5] == kind_ids(kind)),
            Kind::N3_6603_1002 => assert(q[6] == kind_ids(kind)),
            Kind::N3_6603_1003 => assert(q[7] == kind_ids(kind)),
            Kind::SoomfonSE => assert(q[8] == kind_ids(kind)),
            Kind::MSDTWO => assert(q[9] == kind_ids(kind)),
            Kind::TreasLinN3 => assert(q[10] == kind_ids(kind)),
            Kind::RedragonSS551 => assert(q[11] == kind_ids(kind)),
        }
    }
}

/// Every kind speaks protocol 2 or 3, and its image format is fixed by that version.
pub proof fn lemma_protocol_versions(kind: Kind)
    ensures
        protocol_version_of(kind) == 2 || protocol_version_of(kind) == 3,
        protocol_version_of(kind) == 3 ==> image_format_for_protocol(protocol_version_of(kind)).size == (64usize, 64usize),
        protocol_version_of(kind) == 2 ==> image_format_for_protocol(protocol_version_of(kind)).size == (60usize, 60usize),
{
}

/// Different serial numbers give different device ids.
pub proof fn lemma_device_id_injective(a: Seq<char>, b: Seq<char>)
    ensures
        device_id(a) == device_id(b) ==> a == b,
{
    let p = DEVICE_NAMESPACE@ + "-"@;
    assert(device_id(a) == p + a);
    assert(device_id(b) == p + b);
    if device_id(a) == device_id(b) {
        assert((p + a).skip(p.len() as int) =~= a);
        assert((p + b).skip(p.len() as int) =~= b);
    }
}

/// Claiming an id that was just claimed reports it as already managed, so the same
/// device is never started twice; other ids are not affected.
pub proof fn lemma_claim_is_idempotent(claimed: Set<Seq<char>>, id: Seq<char>, other: Seq<char>)
    ensures
        claimed.insert(id).contains(id),
        claimed.insert(id).insert(id) == claimed.insert(id),
        other != id ==> (claimed.insert(id).contains(other) == claimed.contains(other)),
{
    assert(claimed.insert(id).insert(id) =~= claimed.insert(id));
}

/// Once a management task releases its id, the device can be claimed again.
pub proof fn lemma_release_allows_reclaim(claimed: Set<Seq<char>>, id: Seq<char>)
    ensures
        !claimed.insert(id).remove(id).contains(id),
        !claimed.remove(id).contains(id),
{
}

/// A rescan starts a task only for candidates whose id was not claimed before, never two
/// for the same id, and leaves every candidate's id claimed.
pub proof fn lemma_rescan_never_double_spawns<H>(claimed: Set<Seq<char>>, cands: Seq<CandidateDevice<H>>)
    ensures
        ({
            let (after, started) = claim_run(claimed, cands);
            &&& forall|i: int| 0 <= i < started.len() ==> !claimed.contains(#[trigger] started[i].id@)
            &&& forall|i: int, j: int| 0 <= i < j < started.len() ==> started[i].id@ != started[j].id@
            &&& forall|i: int| 0 <= i < started.len() ==> cands.contains(#[trigger] started[i])
            &&& forall|i: int| 0 <= i < cands.len() ==> after.contains(#[trigger] cands[i].id@)
            &&& forall|s: Seq<char>| #[trigger] after.contains(s) ==>
                    claimed.contains(s) || exists|i: int| 0 <= i < cands.len() && cands[i].id@ == s
            &&& forall|i: int| 0 <= i < started.len() ==> after.contains(#[trigger] started[i].id@)
            &&& forall|s: Seq<char>| #[trigger] claimed.contains(s) ==> after.contains(s)
        }),
    decreases cands.len(),
{
    if cands.len() > 0 {
        let prefix = cands.drop_last();
        lemma_rescan_never_double_spawns(claimed, prefix);
        let (ids, started) = claim_run(claimed, prefix);
        let c = cands.last();
        let (after, started2) = claim_run(claimed, cands);
        if ids.contains(c.id@) {
            assert(after == ids && started2 == started);
        } else {
            assert(after == ids.insert(c.id@) && started2 == started.push(c));
            assert(!claimed.contains(c.id@));
            assert forall|i: int| 0 <= i < started2.len() implies !claimed.contains(#[trigger] started2[i].id@) by {
                if i < started.len() {
                    assert(started2[i] == started[i]);
                }
            }
            assert forall|i: int, j: int| 0 <= i < j < started2.len() implies started2[i].id@ != started2[j].id@ by {
                assert(started2[i] == started[i]);
                if j < started.len() {
                    assert(started2[j] == started[j]);
                } else {
                    assert(ids.contains(started[i].id@));
                }
            }
            assert forall|i: int| 0 <= i < started2.len() implies after.contains(#[trigger] started2[i].id@) by {
                if i < started.len() {
                    assert(started2[i] == started[i]);
                }
            }
        }
        assert forall|i: int| 0 <= i < started2.len() implies cands.contains(#[trigger] started2[i]) by {
            if i < started.len() {
                assert(started2[i] == started[i]);
                let k = choose|k: int| 0 <= k < prefix.len() && prefix[k] == started[i];
                assert(cands[k] == started[i]);
            } else {
                assert(cands[cands.len() - 1] == c);
            }
        }
        assert forall|i: int| 0 <= i < cands.len() implies after.contains(#[trigger] cands[i].id@) by {
            if i < cands.len() - 1 {
                assert(prefix[i] == cands[i]);
            }
        }
        assert forall|s: Seq<char>| #[trigger] after.contains(s) implies
            claimed.contains(s) || exists|i: int| 0 <= i < cands.len() && cands[i].id@ == s by {
            if ids.contains(s) {
                if !claimed.contains(s) {
                    let k = choose|k: int| 0 <= k < prefix.len() && prefix[k].id@ == s;
                    assert(cands[k].id@ == s);
                }
            } else {
                assert(cands[cands.len() - 1].id@ == s);
            }
        }
    }
}

/// A device that is already managed, for instance after a rescan found it, is ignored
/// when the hotplug stream reports it connected.
pub proof fn lemma_connect_of_managed_device_is_ignored<H>(
    claimed: Set<Seq<char>>,
    dev: DeviceInfo<H>,
    after: Set<Seq<char>>,
    res: LifecycleAction<H>,
)
    requires
        is_supported_device(dev),
        claimed.contains(device_id(dev.serial_number->0@)),
        lifecycle_outcome(claimed, LifecycleEvent::Connected(dev), after, res),
    ensures
        res is Ignore,
        after == claimed,
{
    assert(claimed.insert(device_id(dev.serial_number->0@)) =~= claimed);
}

/// The connect and the disconnect of one device address the same id, so a teardown
/// reaches the task that the connect started.
pub proof fn lemma_connect_and_disconnect_agree<H>(
    claimed1: Set<Seq<char>>,
    claimed2: Set<Seq<char>>,
    dev: DeviceInfo<H>,
    after1: Set<Seq<char>>,
    after2: Set<Seq<char>>,
    started: LifecycleAction<H>,
    stopped: LifecycleAction<H>,
)
    requires
        lifecycle_outcome(claimed1, LifecycleEvent::Connected(dev), after1, started),
        lifecycle_outcome(claimed2, LifecycleEvent::Disconnected(dev), after2, stopped),
        started is Spawn,
    ensures
        stopped is Teardown,
        started->Spawn_0.id@ == stopped->Teardown_0@,
{
}

/// The restart delay stays between its floor and its ceiling, whatever the loop goes through.
pub proof fn lemma_watcher_step_keeps_backoff_in_range(s: WatcherStateView, ev: WatcherEvent)
    requires
        watcher_wf(s),
    ensures
        watcher_wf(watcher_step(s, ev).0),
{
}

/// A stream that outlived the current delay resets the delay to its floor.
pub proof fn lemma_healthy_stream_resets_backoff(uptime_ms: u64, backoff_ms: u64)
    requires
        uptime_ms >= backoff_ms,
    ensures
        next_backoff_spec(uptime_ms, backoff_ms) == STREAM_RESTART_DELAY_MS,
{
}

/// The restart delay after `n` consecutive streams that each ended at once, starting from
/// the floor.
pub open spec fn backoff_after_quick_failures(n: nat) -> u64
    decreases n,
{
    if n == 0 {
        STREAM_RESTART_DELAY_MS
    } else {
        next_backoff_spec(0, backoff_after_quick_failures((n - 1) as nat))
    }
}

/// After `n` quick failures in a row the delay is the floor doubled `n` times, capped at the
/// ceiling.
pub proof fn lemma_quick_failures_double_backoff(n: nat)
    ensures
        backoff_after_quick_failures(n) == (if STREAM_RESTART_DELAY_MS * pow2(n) <= MAX_RESTART_DELAY_MS {
            STREAM_RESTART_DELAY_MS * pow2(n)
        } else {
            MAX_RESTART_DELAY_MS as int
        }),
    decreases n,
{
    if n == 0 {
        lemma_pow0(2);
    } else {
        lemma_quick_failures_double_backoff((n - 1) as nat);
        lemma_pow2_unfold(n);
        lemma_pow2_pos((n - 1) as nat);
    }
}

/// Once stopped, the watcher stays stopped and does nothing more.
pub proof fn lemma_stopped_is_final(s: WatcherStateView, ev: WatcherEvent)
    requires
        s.phase == WatcherPhase::Stopped,
    ensures
        watcher_step(s, ev).0 == s,
        watcher_step(s, ev).1 == WatcherAction::Nothing,
{
}

/// Cancellation always stops the watcher, aborting the event stream if it still runs.
pub proof fn lemma_cancel_stops(s: WatcherStateView)
    ensures
        watcher_step(s, WatcherEvent::Cancelled).0.phase == WatcherPhase::Stopped,
        s.phase == WatcherPhase::Watching ==> watcher_step(s, WatcherEvent::Cancelled).1 == WatcherAction::AbortStreamAndStop,
{
}

/// Rescans only happen while the event stream is being watched, and a stream is only
/// restarted after its restart delay.
pub proof fn lemma_rescan_and_restart_only_when_due(s: WatcherStateView, ev: WatcherEvent)
    ensures
        watcher_step(s, ev).1 == WatcherAction::Rescan ==> s.phase == WatcherPhase::Watching && ev == WatcherEvent::RescanTick,
        watcher_step(s, ev).1 == WatcherAction::RestartStream ==> s.phase == WatcherPhase::RestartPending && ev == WatcherEvent::RestartDelayElapsed,
{
}

/// Every kind of device gets a name of its own.
pub proof fn lemma_human_names_distinct(a: Kind, b: Kind)
    ensures
        a != b ==> human_name_of(a) != human_name_of(b),
{
    reveal_strlit("Ajazz AKP03");
    reveal_strlit("Ajazz AKP03E");
    reveal_strlit("Ajazz AKP03R");
    reveal_strlit("Ajazz AKP03E (rev. 2)");
    reveal_strlit("Ajazz AKP03R (rev. 2)");
    reveal_strlit("Mirabox N3 (6602:1002)");
    reveal_strlit("Mirabox N3 (6603:1002)");
    reveal_strlit("Mirabox N3 (6603:1003)");
    reveal_strlit("Soomfon Stream Controller SE");
    reveal_strlit("Mars Gaming MSD-TWO");
    reveal_strlit("TreasLin N3");
    reveal_strlit("Redragon Skyrider SS-551");
    let x = human_name_of(a);
    let y = human_name_of(b);
    if a != b && x == y {
        assert(x.len() == y.len());
        assert(x[0] == y[0]);
        assert(x[11] == y[11]);
        assert(x[15] == y[15]);
        assert(x[20] == y[20]);
    }
}

/// A device id is the two namespace characters `n3`, a dash, then the whole serial number.
pub proof fn lemma_device_id_shape(serial: Seq<char>)
    ensures
        device_id(serial).len() == serial.len() + 3,
        device_id(serial)[0] == 'n',
        device_id(serial)[1] == '3',
        device_id(serial)[2] == '-',
        device_id(serial).skip(3) == serial,
{
    reveal_strlit("n3");
    reveal_strlit("-");
    assert(device_id(serial).skip(3) =~= serial);
}

/// A candidate is the device itself, of the kind that the device's (vendor id, product id)
/// pair identifies, managed under the id made of its serial number; a device gives a
/// candidate exactly when it has a serial number and a supported pair.
pub proof fn lemma_candidate_matches_device<H>(dev: DeviceInfo<H>, res: Option<CandidateDevice<H>>)
    requires
        candidate_for(dev, res),
    ensures
        res is Some <==> (dev.serial_number is Some && kind_of_ids(dev.vendor_id, dev.product_id) is Some),
        res matches Some(c) ==> {
            &&& kind_ids(c.kind) == (dev.vendor_id, dev.product_id)
            &&& c.dev == dev
            &&& c.id@ == seq!['n', '3', '-'] + dev.serial_number->0@
        },
{
    if let Some(c) = res {
        lemma_device_id_shape(dev.serial_number->0@);
        assert(c.id@ =~= seq!['n', '3', '-'] + dev.serial_number->0@);
    }
}

/// A rescan starts every candidate whose id was not claimed before: the first candidate
/// carrying each such id is among the started ones.
pub proof fn lemma_rescan_starts_every_unmanaged_device<H>(claimed: Set<Seq<char>>, cands: Seq<CandidateDevice<H>>)
    ensures
        forall|i: int|
            0 <= i < cands.len() && !claimed.contains(#[trigger] cands[i].id@)
                && (forall|j: int| 0 <= j < i ==> cands[j].id@ != cands[i].id@)
                ==> claim_run(claimed, cands).1.contains(cands[i]),
    decreases cands.len(),
{
    if cands.len() > 0 {
        let prefix = cands.drop_last();
        lemma_rescan_starts_every_unmanaged_device(claimed, prefix);
        lemma_rescan_never_double_spawns(claimed, prefix);
        let (ids, started) = claim_run(claimed, prefix);
        let c = cands.last();
        let started2 = claim_run(claimed, cands).1;
        assert forall|i: int|
            0 <= i < cands.len() && !claimed.contains(#[trigger] cands[i].id@)
                && (forall|j: int| 0 <= j < i ==> cands[j].id@ != cands[i].id@)
                implies started2.contains(cands[i]) by {
            if i < cands.len() - 1 {
                assert(prefix[i] == cands[i]);
                assert forall|j: int| 0 <= j < i implies prefix[j].id@ != prefix[i].id@ by {
                    assert(prefix[j] == cands[j]);
                }
                assert(started.contains(cands[i]));
                let k = choose|k: int| 0 <= k < started.len() && started[k] == cands[i];
                if !ids.contains(c.id@) {
                    assert(started2[k] == started.push(c)[k]);
                }
                assert(started2[k] == cands[i]);
            } else {
                if ids.contains(c.id@) {
                    let k = choose|k: int| 0 <= k < prefix.len() && prefix[k].id@ == c.id@;
                    assert(cands[k] == prefix[k]);
                    assert(false);
                }
                assert(started2 == started.push(c));
                assert(started2[started.len() as int] == c);
            }
        }
    }
}

/// A connect of a supported device whose own id is not claimed starts that device,
/// whatever other ids are claimed; one whose id is claimed is ignored.
pub proof fn lemma_connect_starts_unmanaged_device<H>(
    claimed: Set<Seq<char>>,
    dev: DeviceInfo<H>,
    after: Set<Seq<char>>,
    res: LifecycleAction<H>,
)
    requires
        is_supported_device(dev),
        lifecycle_outcome(claimed, LifecycleEvent::Connected(dev), after, res),
    ensures
        after == claimed.insert(device_id(dev.serial_number->0@)),
        !claimed.contains(device_id(dev.serial_number->0@)) ==> {
            &&& res is Spawn
            &&& res->Spawn_0.dev == dev
            &&& kind_ids(res->Spawn_0.kind) == (dev.vendor_id, dev.product_id)
            &&& res->Spawn_0.id@ == device_id(dev.serial_number->0@)
        },
        claimed.contains(device_id(dev.serial_number->0@)) ==> res is Ignore,
{
    if res is Spawn {
        lemma_candidate_matches_device(dev, Some(res->Spawn_0));
    }
}

/// While the event stream is watched, every rescan tick runs a rescan and changes nothing,
/// whatever the current restart delay.
pub proof fn lemma_tick_while_watching_rescans(s: WatcherStateView)
    requires
        s.phase == WatcherPhase::Watching,
    ensures
        watcher_step(s, WatcherEvent::RescanTick).0 == s,
        watcher_step(s, WatcherEvent::RescanTick).1 == WatcherAction::Rescan,
{
}

} // verus!
