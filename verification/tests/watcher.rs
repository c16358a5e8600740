use akp03::mappings::{CandidateDevice, DeviceInfo, Kind};
use akp03::watcher::{
    candidates_from_devices, device_info_to_candidate, handle_lifecycle_event, next_backoff,
    rescan_and_spawn, serial_to_id, spawn_device_if_unmanaged, LifecycleAction, LifecycleEvent,
    SpawnRegistry, WatcherAction, WatcherEvent, WatcherPhase, WatcherState,
    MAX_RESTART_DELAY_MS, RESCAN_INTERVAL_MS, STREAM_RESTART_DELAY_MS,
};

fn dev(vid: u16, pid: u16, serial: Option<&str>, handle: u32) -> DeviceInfo<u32> {
    DeviceInfo {
        vendor_id: vid,
        product_id: pid,
        serial_number: serial.map(|s| s.to_string()),
        handle,
    }
}

fn candidate(serial: &str, handle: u32) -> CandidateDevice<u32> {
    device_info_to_candidate(dev(0x0300, 0x1001, Some(serial), handle)).unwrap()
}

#[test]
fn serial_to_id_prefixes_namespace() {
    assert_eq!(serial_to_id(&"ABC123".to_string()), "n3-ABC123");
    assert_eq!(serial_to_id(&String::new()), "n3-");
    assert_ne!(serial_to_id(&"A".to_string()), serial_to_id(&"B".to_string()));
}

#[test]
fn supported_device_with_serial_is_a_candidate() {
    let c = device_info_to_candidate(dev(0x6603, 0x1003, Some("SN1"), 7)).unwrap();
    assert_eq!(c.id, "n3-SN1");
    assert_eq!(c.kind, Kind::N3_6603_1003);
    assert_eq!(c.dev.handle, 7);
    assert_eq!(c.dev.vendor_id, 0x6603);
    assert_eq!(c.dev.product_id, 0x1003);
    assert_eq!(c.dev.serial_number.as_deref(), Some("SN1"));
}

#[test]
fn device_without_serial_is_not_a_candidate() {
    assert!(device_info_to_candidate(dev(0x0300, 0x1001, None, 1)).is_none());
}

#[test]
fn unsupported_device_is_not_a_candidate() {
    assert!(device_info_to_candidate(dev(0x0300, 0x9999, Some("X"), 1)).is_none());
    assert!(device_info_to_candidate(dev(0xFFFF, 0x1001, Some("X"), 1)).is_none());
}

#[test]
fn candidates_keep_supported_devices_in_order() {
    let devs = vec![
        dev(0x0300, 0x1001, Some("a"), 1),
        dev(0x0300, 0x1001, None, 2),
        dev(0x1234, 0x1001, Some("b"), 3),
        dev(0x0200, 0x2000, Some("c"), 4),
        dev(0x0B00, 0x1001, Some("d"), 5),
    ];
    let out = candidates_from_devices(devs);
    assert_eq!(out.len(), 3);
    assert_eq!(out[0].id, "n3-a");
    assert_eq!(out[0].kind, Kind::Akp03);
    assert_eq!(out[0].dev.handle, 1);
    assert_eq!(out[1].id, "n3-c");
    assert_eq!(out[1].kind, Kind::RedragonSS551);
    assert_eq!(out[1].dev.handle, 4);
    assert_eq!(out[2].id, "n3-d");
    assert_eq!(out[2].kind, Kind::MSDTWO);
    assert_eq!(out[2].dev.handle, 5);
}

#[test]
fn candidates_of_nothing() {
    assert!(candidates_from_devices(Vec::<DeviceInfo<u32>>::new()).is_empty());
}

#[test]
fn claiming_twice_is_refused() {
    let mut reg = SpawnRegistry::new();
    let id = "n3-X".to_string();
    assert!(!reg.contains(&id));
    assert!(reg.try_claim(&id));
    assert!(reg.contains(&id));
    assert!(!reg.try_claim(&id));
    assert!(reg.contains(&id));
}

#[test]
fn release_allows_reclaim() {
    let mut reg = SpawnRegistry::new();
    let a = "n3-A".to_string();
    let b = "n3-B".to_string();
    assert!(reg.try_claim(&a));
    assert!(reg.try_claim(&b));
    reg.release(&a);
    assert!(!reg.contains(&a));
    assert!(reg.contains(&b));
    assert!(reg.try_claim(&a));
    assert!(!reg.try_claim(&b));
}

#[test]
fn releasing_an_unknown_id_changes_nothing() {
    let mut reg = SpawnRegistry::new();
    let a = "n3-A".to_string();
    assert!(reg.try_claim(&a));
    reg.release(&"n3-Z".to_string());
    assert!(reg.contains(&a));
    assert!(!reg.contains(&"n3-Z".to_string()));
}

#[test]
fn spawn_only_unmanaged_devices() {
    let mut reg = SpawnRegistry::new();
    let first = spawn_device_if_unmanaged(&mut reg, candidate("S", 1));
    assert_eq!(first.map(|c| c.dev.handle), Some(1));
    let second = spawn_device_if_unmanaged(&mut reg, candidate("S", 2));
    assert!(second.is_none());
    assert!(reg.contains(&"n3-S".to_string()));
}

#[test]
fn rescan_spawns_each_unmanaged_device_once() {
    let mut reg = SpawnRegistry::new();
    assert!(reg.try_claim(&"n3-old".to_string()));
    let cands = vec![
        candidate("old", 1),
        candidate("new", 2),
        candidate("new", 3),
        candidate("other", 4),
    ];
    let started = rescan_and_spawn(&mut reg, cands);
    assert_eq!(started.len(), 2);
    assert_eq!(started[0].id, "n3-new");
    assert_eq!(started[0].dev.handle, 2);
    assert_eq!(started[1].id, "n3-other");
    assert_eq!(started[1].dev.handle, 4);
    for id in ["n3-old", "n3-new", "n3-other"] {
        assert!(reg.contains(&id.to_string()));
    }
    let again = rescan_and_spawn(&mut reg, vec![candidate("new", 5), candidate("other", 6)]);
    assert!(again.is_empty());
}

#[test]
fn connect_event_spawns_once() {
    let mut reg = SpawnRegistry::new();
    let ev = LifecycleEvent::Connected(dev(0x1500, 0x3001, Some("K"), 9));
    match handle_lifecycle_event(&mut reg, ev) {
        LifecycleAction::Spawn(c) => {
            assert_eq!(c.id, "n3-K");
            assert_eq!(c.kind, Kind::SoomfonSE);
            assert_eq!(c.dev.handle, 9);
        },
        _ => panic!("expected a spawn"),
    }
    let again = LifecycleEvent::Connected(dev(0x1500, 0x3001, Some("K"), 10));
    assert!(matches!(handle_lifecycle_event(&mut reg, again), LifecycleAction::Ignore));
}

#[test]
fn connect_of_unsupported_device_is_ignored() {
    let mut reg = SpawnRegistry::new();
    let ev = LifecycleEvent::Connected(dev(0x1500, 0x1001, Some("K"), 1));
    assert!(matches!(handle_lifecycle_event(&mut reg, ev), LifecycleAction::Ignore));
    let ev = LifecycleEvent::Connected(dev(0x1500, 0x3001, None, 1));
    assert!(matches!(handle_lifecycle_event(&mut reg, ev), LifecycleAction::Ignore));
    assert!(!reg.contains(&"n3-K".to_string()));
}

#[test]
fn disconnect_tears_down_the_connected_id() {
    let mut reg = SpawnRegistry::new();
    let spawned = match handle_lifecycle_event(&mut reg, LifecycleEvent::Connected(dev(0x0300, 0x3003, Some("Q"), 1))) {
        LifecycleAction::Spawn(c) => c.id,
        _ => panic!("expected a spawn"),
    };
    match handle_lifecycle_event(&mut reg, LifecycleEvent::Disconnected(dev(0x0300, 0x3003, Some("Q"), 1))) {
        LifecycleAction::Teardown(id) => assert_eq!(id, spawned),
        _ => panic!("expected a teardown"),
    }
    // The id stays claimed until the management task releases it.
    assert!(reg.contains(&"n3-Q".to_string()));
}

#[test]
fn next_backoff_values() {
    assert_eq!(next_backoff(0, 1000), 2000);
    assert_eq!(next_backoff(999, 1000), 2000);
    assert_eq!(next_backoff(1000, 1000), 1000);
    assert_eq!(next_backoff(5000, 4000), 1000);
    assert_eq!(next_backoff(0, 15000), 30000);
    assert_eq!(next_backoff(0, 16000), 30000);
    assert_eq!(next_backoff(0, 30000), 30000);
    assert_eq!(next_backoff(29999, 30000), 30000);
    assert_eq!(next_backoff(0, u64::MAX), 30000);
}

#[test]
fn quick_failures_double_then_cap() {
    let mut st = WatcherState::new();
    assert_eq!(st.backoff_ms(), STREAM_RESTART_DELAY_MS);
    let mut delays = Vec::new();
    for _ in 0..7 {
        match st.step(WatcherEvent::StreamEnded { uptime_ms: 0 }) {
            WatcherAction::WaitThenRestart { delay_ms } => delays.push(delay_ms),
            other => panic!("unexpected {:?}", other),
        }
        assert_eq!(st.step(WatcherEvent::RestartDelayElapsed), WatcherAction::RestartStream);
    }
    assert_eq!(delays, vec![2000, 4000, 8000, 16000, 30000, 30000, 30000]);
    assert_eq!(st.backoff_ms(), MAX_RESTART_DELAY_MS);
}

#[test]
fn healthy_stream_resets_backoff() {
    let mut st = WatcherState::new();
    st.step(WatcherEvent::StreamEnded { uptime_ms: 10 });
    st.step(WatcherEvent::RestartDelayElapsed);
    st.step(WatcherEvent::StreamEnded { uptime_ms: 10 });
    st.step(WatcherEvent::RestartDelayElapsed);
    assert_eq!(st.backoff_ms(), 4000);
    assert_eq!(
        st.step(WatcherEvent::StreamEnded { uptime_ms: 60_000 }),
        WatcherAction::WaitThenRestart { delay_ms: 1000 }
    );
    assert_eq!(st.backoff_ms(), 1000);
}

#[test]
fn rescan_ticks_while_watching() {
    let mut st = WatcherState::new();
    assert_eq!(st.phase(), WatcherPhase::Watching);
    assert_eq!(st.step(WatcherEvent::RescanTick), WatcherAction::Rescan);
    assert_eq!(st.phase(), WatcherPhase::Watching);
    assert_eq!(RESCAN_INTERVAL_MS, 3000);
}

#[test]
fn cancel_while_watching_aborts_stream() {
    let mut st = WatcherState::new();
    assert_eq!(st.step(WatcherEvent::Cancelled), WatcherAction::AbortStreamAndStop);
    assert_eq!(st.phase(), WatcherPhase::Stopped);
}

#[test]
fn cancel_during_restart_delay_stops() {
    let mut st = WatcherState::new();
    st.step(WatcherEvent::StreamEnded { uptime_ms: 0 });
    assert_eq!(st.phase(), WatcherPhase::RestartPending);
    assert_eq!(st.step(WatcherEvent::RescanTick), WatcherAction::Nothing);
    assert_eq!(st.step(WatcherEvent::Cancelled), WatcherAction::Stop);
    assert_eq!(st.phase(), WatcherPhase::Stopped);
}

#[test]
fn stopped_watcher_ignores_everything() {
    let mut st = WatcherState::new();
    st.step(WatcherEvent::Cancelled);
    for ev in [
        WatcherEvent::Cancelled,
        WatcherEvent::RescanTick,
        WatcherEvent::StreamEnded { uptime_ms: 0 },
        WatcherEvent::RestartDelayElapsed,
    ] {
        assert_eq!(st.step(ev), WatcherAction::Nothing);
        assert_eq!(st.phase(), WatcherPhase::Stopped);
        assert_eq!(st.backoff_ms(), 1000);
    }
}
