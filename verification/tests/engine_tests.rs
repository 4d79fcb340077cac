use kbdlight::config::Config;
use kbdlight::engine::EngineState;

struct TickResult {
    wake_delay: bool,
    read_back: bool,
    write: Option<i32>,
}

/// One tick of the loop, driven the way the surrounding program drives it:
/// decide from the timers, read the hardware back if due (here `hw_level`
/// stands for what the service would report), then write if the target
/// differs from the cached level.
fn tick(st: &mut EngineState, cfg: &Config, activity: bool, elapsed_secs: u64, hw_level: i32) -> TickResult {
    let d = st.decide(cfg, activity, elapsed_secs);
    let due = st.read_due(cfg);
    if due {
        st.observe(hw_level);
    }
    let w = st.pending_write();
    TickResult { wake_delay: d.wake_delay, read_back: due, write: w }
}

fn default_config() -> Config {
    Config::new("/dev/input/event3".to_string(), 2, 15, true, false)
}

#[test]
fn initial_state() {
    let st = EngineState::new();
    assert_eq!(st.target, 0);
    assert_eq!(st.cached, -1);
    assert_eq!(st.ticks, 0);
}

#[test]
fn idle_converges_to_off_and_stays() {
    // Default config, no activity ever. One write of 0 reconciles the unknown
    // startup state; after the timeout the target is 0 and stays 0, with no
    // further writes (hardware reads back whatever was last written).
    let cfg = default_config();
    let mut st = EngineState::new();
    let mut writes: Vec<i32> = Vec::new();
    for i in 0..200u64 {
        let elapsed = i / 10; // 100 ms per tick
        let hw = st.cached;
        let r = tick(&mut st, &cfg, false, elapsed, hw);
        if let Some(w) = r.write {
            writes.push(w);
        }
        if elapsed >= cfg.timeout {
            assert_eq!(st.target, 0);
        }
    }
    assert_eq!(writes, vec![0]);
    assert_eq!(st.target, 0);
    assert_eq!(st.cached, 0);
}

#[test]
fn default_scenario_off_then_wake() {
    // Default config (timeout 15 s, brightness 2, dim on, lazy off).
    // 16 s without activity: exactly one write, of 0.
    let cfg = default_config();
    let mut st = EngineState::new();
    let mut writes: Vec<i32> = Vec::new();
    for i in 0..160u64 {
        let hw = st.cached;
        let r = tick(&mut st, &cfg, false, i / 10, hw);
        if let Some(w) = r.write {
            writes.push(w);
        }
    }
    assert_eq!(writes, vec![0]);
    // One activity signal from the fully-off cached state 0: the wake delay
    // is inserted and one write of 2 follows.
    assert_eq!(st.cached, 0);
    let hw = st.cached;
    let r = tick(&mut st, &cfg, true, 16, hw);
    assert!(r.wake_delay);
    assert_eq!(r.write, Some(2));
    // Activity again while already on: no wake delay, no redundant write.
    let hw = st.cached;
    let r = tick(&mut st, &cfg, true, 0, hw);
    assert!(!r.wake_delay);
    assert_eq!(r.write, None);
}

#[test]
fn dim_then_off_scenario() {
    // timeout 10 s, dim on, brightness 2, cached hardware level 2:
    // one write of 1 once 6 s (> T/2) have passed, one write of 0 at 11 s.
    let cfg = Config::new("/dev/input/event3".to_string(), 2, 10, true, false);
    let mut st = EngineState::new();
    st.observe(2); // hardware known to be at full
    let r = tick(&mut st, &cfg, true, 0, 2); // user was just typing
    assert_eq!(r.write, None); // already at full: nothing to write
    let mut writes: Vec<i32> = Vec::new();
    for i in 0..120u64 {
        let hw = st.cached;
        let r = tick(&mut st, &cfg, false, i / 10, hw);
        if let Some(w) = r.write {
            writes.push(w);
        }
    }
    assert_eq!(writes, vec![1, 0]);
}

#[test]
fn no_dim_skips_intermediate_level() {
    // Same timing with the dim stage disabled: no write of 1 ever happens;
    // the only transition is straight to 0.
    let cfg = Config::new("/dev/input/event3".to_string(), 2, 10, false, false);
    let mut st = EngineState::new();
    st.observe(2);
    let r = tick(&mut st, &cfg, true, 0, 2);
    assert_eq!(r.write, None);
    let mut writes: Vec<i32> = Vec::new();
    for i in 0..120u64 {
        let hw = st.cached;
        let r = tick(&mut st, &cfg, false, i / 10, hw);
        if let Some(w) = r.write {
            writes.push(w);
        }
    }
    assert!(writes.iter().all(|w| *w != 1));
    assert_eq!(writes, vec![0]);
}

#[test]
fn dim_needs_hardware_above_dim_level() {
    // With the hardware last known at the dim level already, the dim stage
    // is skipped even with dimming enabled.
    let cfg = Config::new("/dev/input/event3".to_string(), 2, 10, true, true);
    let mut st = EngineState::new();
    st.observe(1);
    let hw = st.cached;
    let r = tick(&mut st, &cfg, false, 6, hw);
    assert_eq!(st.target, 0); // startup target, unchanged
    assert_eq!(r.write, Some(0));
}

#[test]
fn write_iff_target_differs() {
    // A constant target yields no writes once reconciled, however many ticks
    // pass; a change yields exactly one write.
    let cfg = Config::new("/dev/input/event3".to_string(), 2, 15, true, true);
    let mut st = EngineState::new();
    st.observe(0);
    let mut count = 0;
    for _ in 0..50 {
        let hw = st.cached;
        let r = tick(&mut st, &cfg, false, 0, hw);
        if r.write.is_some() {
            count += 1;
        }
    }
    assert_eq!(count, 0);
    let hw = st.cached;
    let r = tick(&mut st, &cfg, true, 0, hw);
    assert_eq!(r.write, Some(2));
    let hw = st.cached;
    let r = tick(&mut st, &cfg, true, 0, hw);
    assert_eq!(r.write, None);
}

#[test]
fn wake_delay_only_from_off() {
    let cfg = default_config();
    // Cached 0 (fully off): delay inserted.
    let mut st = EngineState::new();
    st.observe(0);
    let hw = st.cached;
    let r = tick(&mut st, &cfg, true, 0, hw);
    assert!(r.wake_delay);
    assert_eq!(r.write, Some(2));
    // Cached unknown (-1): treated as off, delay inserted.
    let mut st = EngineState::new();
    let hw = st.cached;
    let r = tick(&mut st, &cfg, true, 0, hw);
    assert!(r.wake_delay);
    // Cached 1 (already on): no delay.
    let mut st = EngineState::new();
    st.observe(1);
    let hw = st.cached;
    let r = tick(&mut st, &cfg, true, 0, hw);
    assert!(!r.wake_delay);
    assert_eq!(r.write, Some(2));
}

#[test]
fn lazy_never_reads_back() {
    let cfg = Config::new("/dev/input/event3".to_string(), 2, 15, true, true);
    let mut st = EngineState::new();
    for i in 0..300u64 {
        // Hand a hardware level that would be absorbed if a read happened.
        let r = tick(&mut st, &cfg, i % 7 == 0, 1, 5);
        assert!(!r.read_back);
    }
    assert_ne!(st.cached, 5);
}

#[test]
fn read_back_cadence_is_periodic_and_activity_independent() {
    let cfg = default_config();
    let mut st = EngineState::new();
    let mut read_ticks: Vec<u64> = Vec::new();
    for i in 0..110u64 {
        // Activity on an arbitrary pattern must not move the cadence.
        let hw = st.cached;
        let r = tick(&mut st, &cfg, i % 3 == 0, 0, hw);
        if r.read_back {
            read_ticks.push(i);
        }
    }
    assert_eq!(read_ticks, vec![10, 21, 32, 43, 54, 65, 76, 87, 98, 109]);
}

#[test]
fn read_back_absorbs_external_change() {
    // After a suspend-like external change the read-back updates the cache,
    // and the engine rewrites its own target over it.
    let cfg = default_config();
    let mut st = EngineState::new();
    st.observe(0); // reconciled: target 0, cached 0
    for i in 0..11u64 {
        let hw = if i == 10 { 5 } else { 0 }; // external tool set 5
        let r = tick(&mut st, &cfg, false, 16, hw);
        if i < 10 {
            assert!(!r.read_back);
            assert_eq!(r.write, None);
        } else {
            assert!(r.read_back);
            assert_eq!(r.write, Some(0));
        }
    }
    assert_eq!(st.cached, 0);
}
