use lora_node::boot::bring_up;
use lora_node::identity::DeviceIdentity;
use lora_node::node::{Line, Node};
use lora_node::radio::ChipHandshake;
use lora_node::session::{JoinError, JoinOutcome, SessionState};

fn joined_node(spawn_ok: bool) -> Node {
    let mut platform = lora_node::peripherals::Platform::new();
    let mut node = bring_up(&mut platform, ChipHandshake::Acknowledged).unwrap();
    let id = DeviceIdentity::resolve(None, None, None);
    node.begin_join(id);
    let session = SessionState { dev_addr: 0x26011b4a, fcnt_up: 0, fcnt_down: 0 };
    node.resolve_join(JoinOutcome::Accepted(session), spawn_ok, 0);
    node
}

#[test]
fn diagnostic_sequence_of_a_successful_run() {
    let mut node = joined_node(true);
    // 12 cooperative passes after the join resolved at t = 0.
    let mut times = Vec::new();
    for _ in 0..12 {
        times.push(node.step());
    }
    let expected_lines = [
        "Init!",
        "Joining LoRaWAN network",
        "LoRaWAN network joined",
        "Bing!",
        "Hello world from embassy using esp-hal-async!",
        "Hello world from embassy using esp-hal-async!",
        "Hello world from embassy using esp-hal-async!",
        "Hello world from embassy using esp-hal-async!",
        "Hello world from embassy using esp-hal-async!",
        "Bing!",
        "Hello world from embassy using esp-hal-async!",
        "Hello world from embassy using esp-hal-async!",
        "Hello world from embassy using esp-hal-async!",
        "Hello world from embassy using esp-hal-async!",
        "Hello world from embassy using esp-hal-async!",
    ];
    assert_eq!(node.log_len(), expected_lines.len());
    for (i, want) in expected_lines.iter().enumerate() {
        assert_eq!(node.log_line(i).text(), *want, "line {}", i);
    }
    // The main pass runs every 5000 ms, the heartbeat every 1000 ms.
    assert_eq!(
        times,
        vec![0, 0, 1000, 2000, 3000, 4000, 5000, 5000, 6000, 7000, 8000, 9000]
    );
}

#[test]
fn heartbeat_output_never_precedes_join_lines() {
    let mut node = joined_node(true);
    for _ in 0..30 {
        node.step();
    }
    let mut first_heartbeat = None;
    let mut joining_at = None;
    let mut joined_at = None;
    for i in 0..node.log_len() {
        match node.log_line(i) {
            Line::HeartbeatHello => {
                if first_heartbeat.is_none() {
                    first_heartbeat = Some(i);
                }
            }
            Line::Joining => joining_at = Some(i),
            Line::Joined => joined_at = Some(i),
            _ => {}
        }
    }
    let hb = first_heartbeat.expect("heartbeat ran");
    assert!(joining_at.unwrap() < joined_at.unwrap());
    assert!(joined_at.unwrap() < hb);
}

#[test]
fn heartbeat_not_spawned_before_join_resolution() {
    let mut platform = lora_node::peripherals::Platform::new();
    let mut node = bring_up(&mut platform, ChipHandshake::Acknowledged).unwrap();
    assert!(!node.heartbeat_started());
    node.begin_join(DeviceIdentity::resolve(None, None, None));
    assert!(!node.heartbeat_started());
    node.resolve_join(
        JoinOutcome::Accepted(SessionState { dev_addr: 1, fcnt_up: 0, fcnt_down: 0 }),
        true,
        0,
    );
    assert!(node.heartbeat_started());
}

#[test]
fn main_loop_toggles_on_a_fixed_period_without_drift() {
    let mut node = joined_node(true);
    // The heartbeat line starts high; every main pass inverts it.
    assert!(node.led_is_high());
    let mut toggle_times = Vec::new();
    let mut last_level = true;
    for _ in 0..200 {
        let before = node.main_passes();
        let t = node.step();
        if node.main_passes() > before {
            toggle_times.push(t);
            assert_eq!(node.led_is_high(), !last_level);
            last_level = !last_level;
        }
    }
    for (k, t) in toggle_times.iter().enumerate() {
        assert_eq!(*t, 5000 * k as u64, "main pass {} drifted", k);
    }
}

#[test]
fn refused_spawn_means_the_heartbeat_never_runs() {
    let mut node = joined_node(false);
    assert!(!node.heartbeat_started());
    let mut times = Vec::new();
    for _ in 0..4 {
        times.push(node.step());
    }
    assert_eq!(times, vec![0, 5000, 10000, 15000]);
    assert_eq!(node.heartbeat_passes(), 0);
    for i in 3..node.log_len() {
        assert_eq!(node.log_line(i), Line::Bing);
    }
}

#[test]
fn failed_join_is_fatal_spawns_nothing_and_is_not_retried() {
    let mut platform = lora_node::peripherals::Platform::new();
    let mut node = bring_up(&mut platform, ChipHandshake::Acknowledged).unwrap();
    node.begin_join(DeviceIdentity::resolve(None, None, None));
    node.resolve_join(JoinOutcome::Failed(JoinError::Timeout), true, 0);
    assert!(!node.heartbeat_started());
    assert_eq!(node.log_len(), 3);
    assert_eq!(node.log_line(0), Line::Init);
    assert_eq!(node.log_line(1), Line::Joining);
    assert_eq!(node.log_line(2), Line::JoinFailed);
    // The join is attempted exactly once: no further join or task line
    // ever appears, and nothing periodic has run.
    assert_eq!(node.main_passes(), 0);
    assert_eq!(node.heartbeat_passes(), 0);
}

#[test]
fn line_texts_match_the_diagnostic_stream() {
    assert_eq!(Line::Init.text(), "Init!");
    assert_eq!(Line::Joining.text(), "Joining LoRaWAN network");
    assert_eq!(Line::Joined.text(), "LoRaWAN network joined");
    assert_eq!(Line::JoinFailed.text(), "LoRaWAN join failed");
    assert_eq!(Line::Bing.text(), "Bing!");
    assert_eq!(
        Line::HeartbeatHello.text(),
        "Hello world from embassy using esp-hal-async!"
    );
}
