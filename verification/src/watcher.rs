use vstd::prelude::*;
use vstd::string::StringExecFns;
use vstd::string::to_string_from_display_ensures_for_str;

use crate::mappings::{kind_of_ids, CandidateDevice, DeviceInfo, Kind, DEVICE_NAMESPACE};

verus! {

/// The id a device with serial number `serial` is managed under:
/// the plugin's namespace, a dash, then the serial number.
pub open spec fn device_id(serial: Seq<char>) -> Seq<char> {
    DEVICE_NAMESPACE@ + "-"@ + serial
}

/// Builds the id a device is managed under from its serial number.
pub fn serial_to_id(serial: &String) -> (id: String)
    ensures
        id@ == device_id(serial@),
{
    broadcast use to_string_from_display_ensures_for_str;

    let mut id = DEVICE_NAMESPACE.to_string();
    id.append("-");
    id.append(serial.as_str());
    id
}

/// A device becomes a candidate when it reports a serial number and its
/// (vendor id, product id) pair belongs to a supported kind.
pub open spec fn is_supported_device<H>(dev: DeviceInfo<H>) -> bool {
    &&& dev.serial_number is Some
    &&& kind_of_ids(dev.vendor_id, dev.product_id) is Some
}

/// `res` is the candidate made of `dev`: `None` for an unsupported device, else the
/// device itself, its kind, and the id made of its serial number.
pub open spec fn candidate_for<H>(dev: DeviceInfo<H>, res: Option<CandidateDevice<H>>) -> bool {
    if is_supported_device(dev) {
        &&& res is Some
        &&& res->0.id@ == device_id(dev.serial_number->0@)
        &&& res->0.kind == kind_of_ids(dev.vendor_id, dev.product_id)->0
        &&& res->0.dev == dev
    } else {
        res is None
    }
}

/// Turns a device into a candidate when it has a serial number and a supported kind.
pub fn device_info_to_candidate<H>(dev: DeviceInfo<H>) -> (res: Option<CandidateDevice<H>>)
    ensures
        candidate_for(dev, res),
{
    let id = match &dev.serial_number {
        Some(serial) => serial_to_id(serial),
        None => return None,
    };
    let kind = match Kind::from_vid_pid(dev.vendor_id, dev.product_id) {
        Some(kind) => kind,
        None => return None,
    };
    Some(CandidateDevice { id, dev, kind })
}

/// `out` lists, in order, the candidates made of the supported devices among `devs`.
pub open spec fn candidates_of<H>(devs: Seq<DeviceInfo<H>>, out: Seq<CandidateDevice<H>>) -> bool
    decreases devs.len(),
{
    if devs.len() == 0 {
        out.len() == 0
    } else if is_supported_device(devs.last()) {
        &&& out.len() > 0
        &&& candidate_for(devs.last(), Some(out.last()))
        &&& candidates_of(devs.drop_last(), out.drop_last())
    } else {
        candidates_of(devs.drop_last(), out)
    }
}

/// Keeps, in order, the devices that match a supported kind and carry a serial number.
pub fn candidates_from_devices<H>(devs: Vec<DeviceInfo<H>>) -> (res: Vec<CandidateDevice<H>>)
    ensures
        candidates_of(devs@, res@),
{
    let ghost all = devs@;
    let mut res: Vec<CandidateDevice<H>> = Vec::new();
    for dev in it: devs
        invariant
            it.seq() == all,
            candidates_of(all.take(it.index()), res@),
    {
        let ghost i = it.index();
        let ghost before = res@;
        assert(all.take(i + 1).drop_last() =~= all.take(i));
        assert(all.take(i + 1).last() == dev);
        match device_info_to_candidate(dev) {
            Some(candidate) => {
                res.push(candidate);
                assert(res@.drop_last() =~= before);
            },
            None => {},
        }
    }
    assert(all.take(all.len() as int) =~= all);
    res
}

/// The ids of the devices whose management task has been started and has not exited yet.
///
/// This is the single idempotent entry point for starting device management: both the
/// hotplug events and the periodic rescan claim an id here before a task is started,
/// so the same physical device is never managed twice. The task releases its id when
/// it exits, whatever the reason, so a device can be picked up again afterwards.
pub struct SpawnRegistry {
    ids: Vec<String>,
}

impl SpawnRegistry {
    /// The ids held, as character sequences, in the order they were claimed.
    pub closed spec fn id_seq(&self) -> Seq<Seq<char>> {
        self.ids@.map_values(|s: String| s@)
    }

    /// The set of ids currently claimed.
    pub closed spec fn view(&self) -> Set<Seq<char>> {
        self.id_seq().to_set()
    }

    /// No id is held twice.
    pub closed spec fn wf(&self) -> bool {
        self.id_seq().no_duplicates()
    }

    /// An empty registry.
    pub fn new() -> (res: Self)
        ensures
            res.wf(),
            res@ == Set::<Seq<char>>::empty(),
    {
        let res = SpawnRegistry { ids: Vec::new() };
        assert(res.id_seq() =~= Seq::<Seq<char>>::empty());
        assert(res@ =~= Set::<Seq<char>>::empty());
        res
    }

    /// The position of `id` among the held ids, if it is held.
    fn find(&self, id: &String) -> (res: Option<usize>)
        ensures
            match res {
                Some(i) => i < self.ids@.len() && self.id_seq()[i as int] == id@,
                None => !self.id_seq().contains(id@),
            },
    {
        let mut i: usize = 0;
        while i < self.ids.len()
            invariant
                i <= self.ids@.len(),
                forall|j: int| 0 <= j < i ==> self.id_seq()[j] != id@,
            decreases self.ids@.len() - i,
        {
            if self.ids[i] == *id {
                return Some(i);
            }
            i = i + 1;
        }
        None
    }

    /// Whether `id` is currently claimed.
    pub fn contains(&self, id: &String) -> (res: bool)
        ensures
            res == self@.contains(id@),
    {
        self.find(id).is_some()
    }

    /// Claims `id`. Returns `true` when it was not claimed before, that is, when the
    /// caller is the one that must start managing the device; `false` when it already was.
    pub fn try_claim(&mut self, id: &String) -> (newly: bool)
        requires
            old(self).wf(),
        ensures
            final(self).wf(),
            newly == !old(self)@.contains(id@),
            final(self)@ == old(self)@.insert(id@),
    {
        match self.find(id) {
            Some(_) => {
                assert(self@.contains(id@));
                assert(self@.insert(id@) =~= self@);
                false
            },
            None => {
                let ghost before = self.id_seq();
                self.ids.push(id.clone());
                assert(self.id_seq() =~= before.push(id@));
                assert forall|s: Seq<char>| #[trigger] self@.contains(s) <==> before.to_set().insert(id@).contains(s) by {
                    if before.contains(s) {
                        let k = choose|k: int| 0 <= k < before.len() && before[k] == s;
                        assert(self.id_seq()[k] == s);
                    }
                    if s == id@ {
                        assert(self.id_seq()[before.len() as int] == s);
                    }
                }
                assert(self@ =~= before.to_set().insert(id@));
                true
            },
        }
    }

    /// Releases `id`, so that the device can be managed again.
    pub fn release(&mut self, id: &String)
        requires
            old(self).wf(),
        ensures
            final(self).wf(),
            final(self)@ == old(self)@.remove(id@),
    {
        match self.find(id) {
            Some(i) => {
                let ghost before = self.id_seq();
                self.ids.remove(i);
                assert(self.id_seq() =~= before.remove(i as int));
                assert forall|s: Seq<char>| #[trigger] self@.contains(s) <==> before.to_set().remove(id@).contains(s) by {
                    if self.id_seq().contains(s) {
                        let k = choose|k: int| 0 <= k < self.id_seq().len() && self.id_seq()[k] == s;
                        if k < i {
                            assert(before[k] == s);
                        } else {
                            assert(before[k + 1] == s);
                        }
                    }
                    if before.contains(s) && s != id@ {
                        let k = choose|k: int| 0 <= k < before.len() && before[k] == s;
                        if k < i {
                            assert(self.id_seq()[k] == s);
                        } else {
                            assert(self.id_seq()[k - 1] == s);
                        }
                    }
                }
                assert(self@ =~= before.to_set().remove(id@));
            },
            None => {
                assert(!self@.contains(id@));
                assert(self@.remove(id@) =~= self@);
            },
        }
    }
}

/// Claims the candidate's id; hands the candidate back when a new management task must be
/// started for it, and `None` when the device is already managed.
pub fn spawn_device_if_unmanaged<H>(registry: &mut SpawnRegistry, candidate: CandidateDevice<H>) -> (res: Option<CandidateDevice<H>>)
    requires
        old(registry).wf(),
    ensures
        final(registry).wf(),
        final(registry)@ == old(registry)@.insert(candidate.id@),
        res == (if old(registry)@.contains(candidate.id@) { None } else { Some(candidate) }),
{
    if registry.try_claim(&candidate.id) {
        Some(candidate)
    } else {
        None
    }
}

/// Claims the candidates in order, starting from the claimed ids `claimed`: returns the ids
/// claimed afterwards and the candidates for which a management task must be started.
pub open spec fn claim_run<H>(claimed: Set<Seq<char>>, cands: Seq<CandidateDevice<H>>) -> (Set<Seq<char>>, Seq<CandidateDevice<H>>)
    decreases cands.len(),
{
    if cands.len() == 0 {
        (claimed, Seq::empty())
    } else {
        let (ids, started) = claim_run(claimed, cands.drop_last());
        let c = cands.last();
        if ids.contains(c.id@) {
            (ids, started)
        } else {
            (ids.insert(c.id@), started.push(c))
        }
    }
}

/// Re-scan step: of the devices present now, returns those that are not managed yet,
/// claiming each of them. Recovers devices orphaned by a missed hotplug event.
pub fn rescan_and_spawn<H>(registry: &mut SpawnRegistry, candidates: Vec<CandidateDevice<H>>) -> (res: Vec<CandidateDevice<H>>)
    requires
        old(registry).wf(),
    ensures
        final(registry).wf(),
        (final(registry)@, res@) == claim_run(old(registry)@, candidates@),
{
    let ghost start = registry@;
    let ghost all = candidates@;
    let mut res: Vec<CandidateDevice<H>> = Vec::new();
    for candidate in it: candidates
        invariant
            it.seq() == all,
            registry.wf(),
            (registry@, res@) == claim_run(start, all.take(it.index())),
    {
        let ghost i = it.index();
        assert(all.take(i + 1).drop_last() =~= all.take(i));
        assert(all.take(i + 1).last() == candidate);
        match spawn_device_if_unmanaged(registry, candidate) {
            Some(c) => {
                res.push(c);
            },
            None => {},
        }
    }
    assert(all.take(all.len() as int) =~= all);
    res
}

/// A hotplug lifecycle event, carrying the device it is about.
#[derive(Debug)]
pub enum LifecycleEvent<H> {
    Connected(DeviceInfo<H>),
    Disconnected(DeviceInfo<H>),
}

/// What must be done in answer to a lifecycle event.
#[derive(Debug)]
pub enum LifecycleAction<H> {
    /// Start a management task for this device.
    Spawn(CandidateDevice<H>),
    /// Nothing to do.
    Ignore,
    /// Cancel the task managing the device with this id, forget the device and
    /// deregister it.
    Teardown(String),
}

/// The answer `res` to `ev`, with the claimed ids going from `before` to `after`.
pub open spec fn lifecycle_outcome<H>(
    before: Set<Seq<char>>,
    ev: LifecycleEvent<H>,
    after: Set<Seq<char>>,
    res: LifecycleAction<H>,
) -> bool {
    match ev {
        LifecycleEvent::Connected(dev) => if is_supported_device(dev) {
            let id = device_id(dev.serial_number->0@);
            &&& after == before.insert(id)
            &&& if before.contains(id) {
                res is Ignore
            } else {
                res is Spawn && candidate_for(dev, Some(res->Spawn_0))
            }
        } else {
            after == before && res is Ignore
        },
        LifecycleEvent::Disconnected(dev) => {
            &&& after == before
            &&& res is Teardown
            &&& res->Teardown_0@ == device_id(dev.serial_number->0@)
        },
    }
}

/// Handles a single hotplug lifecycle event: a connected supported device is claimed and
/// started unless it is already managed; a disconnected device is torn down under its id.
/// A disconnected device must report its serial number.
pub fn handle_lifecycle_event<H>(registry: &mut SpawnRegistry, ev: LifecycleEvent<H>) -> (res: LifecycleAction<H>)
    requires
        old(registry).wf(),
        ev matches LifecycleEvent::Disconnected(dev) ==> dev.serial_number is Some,
    ensures
        final(registry).wf(),
        lifecycle_outcome(old(registry)@, ev, final(registry)@, res),
{
    match ev {
        LifecycleEvent::Connected(info) => {
            match device_info_to_candidate(info) {
                Some(candidate) => match spawn_device_if_unmanaged(registry, candidate) {
                    Some(c) => LifecycleAction::Spawn(c),
                    None => LifecycleAction::Ignore,
                },
                None => LifecycleAction::Ignore,
            }
        },
        LifecycleEvent::Disconnected(info) => {
            let id = serial_to_id(info.serial_number.as_ref().unwrap());
            LifecycleAction::Teardown(id)
        },
    }
}

/// How often, in milliseconds, the watcher re-scans for devices that are connected at the
/// OS level but not currently managed.
pub const RESCAN_INTERVAL_MS: u64 = 3000;

/// Floor delay, in milliseconds, before recreating the event stream after it ends.
pub const STREAM_RESTART_DELAY_MS: u64 = 1000;

/// Ceiling, in milliseconds, of the event-stream restart backoff.
pub const MAX_RESTART_DELAY_MS: u64 = 30000;

/// The restart delay after an event stream that ran for `uptime_ms` ended while the
/// delay was `backoff_ms`: a stream that outlived the delay counts as healthy and the
/// delay goes back to the floor; otherwise it doubles, up to the ceiling.
pub open spec fn next_backoff_spec(uptime_ms: u64, backoff_ms: u64) -> u64 {
    if uptime_ms >= backoff_ms {
        STREAM_RESTART_DELAY_MS
    } else if 2 * backoff_ms <= MAX_RESTART_DELAY_MS {
        (2 * backoff_ms) as u64
    } else {
        MAX_RESTART_DELAY_MS
    }
}

/// Computes the restart delay after the event stream ended; see `next_backoff_spec`.
pub fn next_backoff(uptime_ms: u64, backoff_ms: u64) -> (res: u64)
    ensures
        res == next_backoff_spec(uptime_ms, backoff_ms),
{
    if uptime_ms >= backoff_ms {
        STREAM_RESTART_DELAY_MS
    } else if backoff_ms <= MAX_RESTART_DELAY_MS / 2 {
        backoff_ms * 2
    } else {
        MAX_RESTART_DELAY_MS
    }
}

/// Where the watcher's supervision loop stands.
#[derive(Debug, Clone, Copy, PartialEq, Eq, Structural)]
pub enum WatcherPhase {
    /// The hotplug event stream runs; periodic rescans happen.
    Watching,
    /// The event stream ended; the watcher waits out the restart delay.
    RestartPending,
    /// The watcher was cancelled and shuts down.
    Stopped,
}

/// Something the supervision loop waits for.
#[derive(Debug, Clone, Copy, PartialEq, Eq, Structural)]
pub enum WatcherEvent {
    /// The cancellation token fired.
    Cancelled,
    /// The rescan interval elapsed.
    RescanTick,
    /// The event-stream task ended (normally, by failing or by panicking) after running
    /// for this many milliseconds.
    StreamEnded { uptime_ms: u64 },
    /// The restart delay elapsed.
    RestartDelayElapsed,
}

/// What the supervision loop must do next.
#[derive(Debug, Clone, Copy, PartialEq, Eq, Structural)]
pub enum WatcherAction {
    /// Abort the event-stream task and shut down.
    AbortStreamAndStop,
    /// Shut down.
    Stop,
    /// Re-scan for supported devices and spawn tasks for unmanaged ones.
    Rescan,
    /// Wait this many milliseconds, or until cancelled, before restarting the stream.
    WaitThenRestart { delay_ms: u64 },
    /// Start a new event-stream task.
    RestartStream,
    /// Nothing to do.
    Nothing,
}

/// The abstract state of the supervision loop.
pub struct WatcherStateView {
    pub phase: WatcherPhase,
    pub backoff_ms: u64,
}

/// The supervision loop's state: its phase and the current restart delay.
pub struct WatcherState {
    phase: WatcherPhase,
    backoff_ms: u64,
}

/// The restart delay stays between the floor and the ceiling.
pub open spec fn watcher_wf(s: WatcherStateView) -> bool {
    STREAM_RESTART_DELAY_MS <= s.backoff_ms <= MAX_RESTART_DELAY_MS
}

/// One step of the supervision loop: the state after `ev`, and the action to perform.
pub open spec fn watcher_step(s: WatcherStateView, ev: WatcherEvent) -> (WatcherStateView, WatcherAction) {
    match s.phase {
        WatcherPhase::Watching => match ev {
            WatcherEvent::Cancelled => (
                WatcherStateView { phase: WatcherPhase::Stopped, backoff_ms: s.backoff_ms },
                WatcherAction::AbortStreamAndStop,
            ),
            WatcherEvent::RescanTick => (s, WatcherAction::Rescan),
            WatcherEvent::StreamEnded { uptime_ms } => {
                let delay = next_backoff_spec(uptime_ms, s.backoff_ms);
                (
                    WatcherStateView { phase: WatcherPhase::RestartPending, backoff_ms: delay },
                    WatcherAction::WaitThenRestart { delay_ms: delay },
                )
            },
            WatcherEvent::RestartDelayElapsed => (s, WatcherAction::Nothing),
        },
        WatcherPhase::RestartPending => match ev {
            WatcherEvent::Cancelled => (
                WatcherStateView { phase: WatcherPhase::Stopped, backoff_ms: s.backoff_ms },
                WatcherAction::Stop,
            ),
            WatcherEvent::RestartDelayElapsed => (
                WatcherStateView { phase: WatcherPhase::Watching, backoff_ms: s.backoff_ms },
                WatcherAction::RestartStream,
            ),
            _ => (s, WatcherAction::Nothing),
        },
        WatcherPhase::Stopped => (s, WatcherAction::Nothing),
    }
}

impl WatcherState {
    pub closed spec fn view(&self) -> WatcherStateView {
        WatcherStateView { phase: self.phase, backoff_ms: self.backoff_ms }
    }

    /// The state right after start-up: watching, with the restart delay at its floor.
    pub fn new() -> (res: Self)
        ensures
            res@ == (WatcherStateView { phase: WatcherPhase::Watching, backoff_ms: STREAM_RESTART_DELAY_MS }),
    {
        WatcherState { phase: WatcherPhase::Watching, backoff_ms: STREAM_RESTART_DELAY_MS }
    }

    /// The current phase.
    pub fn phase(&self) -> (res: WatcherPhase)
        ensures
            res == self@.phase,
    {
        self.phase
    }

    /// The current restart delay in milliseconds.
    pub fn backoff_ms(&self) -> (res: u64)
        ensures
            res == self@.backoff_ms,
    {
        self.backoff_ms
    }

    /// Takes one event of the supervision loop and returns what to do about it.
    pub fn step(&mut self, ev: WatcherEvent) -> (res: WatcherAction)
        ensures
            (final(self)@, res) == watcher_step(old(self)@, ev),
    {
        match self.phase {
            WatcherPhase::Watching => match ev {
                WatcherEvent::Cancelled => {
                    self.phase = WatcherPhase::Stopped;
                    WatcherAction::AbortStreamAndStop
                },
                WatcherEvent::RescanTick => WatcherAction::Rescan,
                WatcherEvent::StreamEnded { uptime_ms } => {
                    let delay = next_backoff(uptime_ms, self.backoff_ms);
                    self.backoff_ms = delay;
                    self.phase = WatcherPhase::RestartPending;
                    WatcherAction::WaitThenRestart { delay_ms: delay }
                },
                WatcherEvent::RestartDelayElapsed => WatcherAction::Nothing,
            },
            WatcherPhase::RestartPending => match ev {
                WatcherEvent::Cancelled => {
                    self.phase = WatcherPhase::Stopped;
                    WatcherAction::Stop
                },
                WatcherEvent::RestartDelayElapsed => {
                    self.phase = WatcherPhase::Watching;
                    WatcherAction::RestartStream
                },
                _ => WatcherAction::Nothing,
            },
            WatcherPhase::Stopped => WatcherAction::Nothing,
        }
    }
}

} // verus!
