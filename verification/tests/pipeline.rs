use chainsmoker::gossip::{peer_dump_count, relay_peer_count, DiscoveryLoop, PeerRecord};
use chainsmoker::output::{OutputPlugin, PluginError, PluginRunner};
use chainsmoker::receiver::{
    ReceiverAction, ReceiverEvent, ReceiverStatus, ShredQueue, ShredReceiver,
};
use chainsmoker::shred::{encode, AuthScheme, DecodedShred, TypedHeader};
use chainsmoker::stats::ReceiveStats;
use chainsmoker::types::Network;

fn sample_shred(slot: u64) -> DecodedShred {
    DecodedShred {
        signature: vec![0u8; 64],
        auth: AuthScheme::Legacy,
        slot,
        index: 1,
        shred_version: 2,
        fec_set_index: 3,
        header: TypedHeader::Data { parent_offset: 1, data_flags: 0, size: 0 },
        payload: vec![slot as u8],
    }
}

#[test]
fn stats_count_equals_iterations() {
    let mut stats = ReceiveStats::new(0);
    for _ in 0..5 {
        stats.increment();
    }
    assert_eq!(stats.count, 5);
    assert_eq!(stats.last_count, 0);
}

#[test]
fn stats_report_timing_and_window() {
    let mut stats = ReceiveStats::new(0);
    stats.increment();
    assert!(stats.maybe_log(5_000).is_none());
    stats.increment();
    let report = stats.maybe_log(10_000).expect("a report is due after ten seconds");
    assert_eq!(report.total, 2);
    assert_eq!(report.recent, 2);
    stats.increment();
    assert!(stats.maybe_log(19_999).is_none());
    let report = stats.maybe_log(20_000).expect("the next report is due");
    assert_eq!(report.total, 3);
    assert_eq!(report.recent, 1);
}

#[test]
fn receiver_counts_rejected_packets_too() {
    let mut receiver = ShredReceiver::new(0);
    receiver.start();
    let good = encode(&sample_shred(42));
    let inputs = [good.clone(), vec![0x99u8; 90], Vec::new(), good];
    let mut published = 0u32;
    for bytes in inputs {
        let (action, _) = receiver.step(ReceiverEvent::Packet(bytes), 1);
        if let ReceiverAction::Publish(_) = action {
            published += 1;
        }
    }
    // Every receive iteration counts, however many were rejected.
    assert_eq!(receiver.stats.count, 4);
    assert_eq!(published, 2);
}

#[test]
fn receiver_publishes_the_decoded_shred() {
    let mut receiver = ShredReceiver::new(0);
    receiver.start();
    let shred = sample_shred(7);
    let (action, _) = receiver.step(ReceiverEvent::Packet(encode(&shred)), 1);
    match action {
        ReceiverAction::Publish(d) => assert_eq!(d, shred),
        other => panic!("expected a publish action, got {:?}", other),
    }
}

#[test]
fn receiver_backs_off_on_read_error() {
    let mut receiver = ShredReceiver::new(0);
    receiver.start();
    let (action, report) = receiver.step(ReceiverEvent::ReadError, 99_999);
    assert!(matches!(action, ReceiverAction::Backoff));
    assert!(report.is_none());
    // A read error is never fatal: the loop is still running.
    assert_eq!(receiver.status, ReceiverStatus::Running);
    assert_eq!(receiver.stats.count, 0);
}

#[test]
fn receiver_stops_on_shutdown_and_on_lost_consumer() {
    let mut receiver = ShredReceiver::new(0);
    receiver.start();
    let (action, _) = receiver.step(ReceiverEvent::Shutdown, 1);
    assert!(matches!(action, ReceiverAction::Stop));
    assert_eq!(receiver.status, ReceiverStatus::Stopped);

    let mut receiver = ShredReceiver::new(0);
    receiver.start();
    let (action, _) = receiver.step(ReceiverEvent::PublishFailed, 1);
    assert!(matches!(action, ReceiverAction::Stop));
    assert_eq!(receiver.status, ReceiverStatus::Stopped);
}

#[test]
fn receiver_emits_periodic_report() {
    let mut receiver = ShredReceiver::new(0);
    receiver.start();
    let (_, report) = receiver.step(ReceiverEvent::Packet(vec![1, 2, 3]), 500);
    assert!(report.is_none());
    let (_, report) = receiver.step(ReceiverEvent::Packet(Vec::new()), 10_500);
    let report = report.expect("a throughput report is due");
    assert_eq!(report.total, 2);
    assert_eq!(report.recent, 2);
}

#[test]
fn queue_is_first_in_first_out() {
    let mut queue = ShredQueue::new();
    assert_eq!(queue.len(), 0);
    assert!(queue.recv().is_none());
    assert!(queue.send(sample_shred(1)));
    assert!(queue.send(sample_shred(2)));
    assert!(queue.send(sample_shred(3)));
    assert_eq!(queue.len(), 3);
    assert_eq!(queue.recv().unwrap().slot, 1);
    assert_eq!(queue.recv().unwrap().slot, 2);
    assert_eq!(queue.recv().unwrap().slot, 3);
    assert!(queue.recv().is_none());
}

#[test]
fn closed_queue_refuses_sends() {
    let mut queue = ShredQueue::new();
    assert!(queue.send(sample_shred(1)));
    queue.close();
    assert!(!queue.send(sample_shred(2)));
    // What was queued before the close still drains.
    assert_eq!(queue.recv().unwrap().slot, 1);
    assert!(queue.recv().is_none());
}

/// A test consumer: fails on demand, and records what reached it.
struct TestPlugin {
    label: &'static str,
    fail_start: bool,
    fail_handle: bool,
    fail_stop: bool,
    started: u32,
    stopped: u32,
    seen_slots: Vec<u64>,
}

impl TestPlugin {
    fn ok(label: &'static str) -> Self {
        TestPlugin {
            label,
            fail_start: false,
            fail_handle: false,
            fail_stop: false,
            started: 0,
            stopped: 0,
            seen_slots: Vec::new(),
        }
    }

    fn err(&self) -> PluginError {
        PluginError { plugin: String::from(self.label), message: String::from("refused") }
    }
}

impl OutputPlugin for TestPlugin {
    fn start(&mut self) -> Result<(), PluginError> {
        self.started += 1;
        if self.fail_start { Err(self.err()) } else { Ok(()) }
    }

    fn handle(&mut self, shred: &DecodedShred) -> Result<(), PluginError> {
        if self.fail_handle {
            Err(self.err())
        } else {
            self.seen_slots.push(shred.slot);
            Ok(())
        }
    }

    fn stop(&mut self) -> Result<(), PluginError> {
        self.stopped += 1;
        if self.fail_stop { Err(self.err()) } else { Ok(()) }
    }

    fn name(&self) -> String {
        String::from(self.label)
    }
}

#[test]
fn failing_plugin_does_not_block_later_ones() {
    let mut runner = PluginRunner::new();
    let mut failing = TestPlugin::ok("failing");
    failing.fail_handle = true;
    runner.add_plugin(failing);
    runner.add_plugin(TestPlugin::ok("second"));
    assert_eq!(runner.plugin_count(), 2);

    let delivered = runner.dispatch(&sample_shred(11));
    assert_eq!(delivered, vec![false, true]);
    // The plugin registered after the failing one still got the shred.
    assert_eq!(runner.plugins[1].seen_slots, vec![11]);
}

#[test]
fn dispatch_preserves_order_per_plugin() {
    let mut runner = PluginRunner::new();
    runner.add_plugin(TestPlugin::ok("a"));
    runner.add_plugin(TestPlugin::ok("b"));
    for slot in [5, 6, 7] {
        runner.dispatch(&sample_shred(slot));
    }
    assert_eq!(runner.plugins[0].seen_slots, vec![5, 6, 7]);
    assert_eq!(runner.plugins[1].seen_slots, vec![5, 6, 7]);
}

#[test]
fn start_all_attempts_every_start_and_surfaces_the_first_failure() {
    let mut runner = PluginRunner::new();
    let mut failing = TestPlugin::ok("early");
    failing.fail_start = true;
    runner.add_plugin(failing);
    runner.add_plugin(TestPlugin::ok("late"));
    let result = runner.start_all();
    assert_eq!(result.unwrap_err().plugin, "early");
    // The failure did not hide the later plugin's start.
    assert_eq!(runner.plugins[0].started, 1);
    assert_eq!(runner.plugins[1].started, 1);
}

#[test]
fn stop_all_is_best_effort() {
    let mut runner = PluginRunner::new();
    let mut failing = TestPlugin::ok("first");
    failing.fail_stop = true;
    runner.add_plugin(failing);
    runner.add_plugin(TestPlugin::ok("second"));
    let result = runner.stop_all();
    assert_eq!(result.unwrap_err().plugin, "first");
    assert_eq!(runner.plugins[0].stopped, 1);
    assert_eq!(runner.plugins[1].stopped, 1);
}

#[test]
fn empty_runner_lifecycle_succeeds() {
    // With no plugins registered, nothing can fail: success is owed.
    let mut runner: PluginRunner<TestPlugin> = PluginRunner::new();
    assert!(runner.start_all().is_ok());
    assert!(runner.stop_all().is_ok());
    assert_eq!(runner.dispatch(&sample_shred(1)), Vec::<bool>::new());
}

#[test]
fn saturated_counter_still_handles_non_packet_events() {
    // Only packet events need counter headroom.
    let mut receiver = ShredReceiver {
        status: ReceiverStatus::Running,
        stats: ReceiveStats { count: u64::MAX, last_count: 0, last_log: 0 },
    };
    let (action, _) = receiver.step(ReceiverEvent::ReadError, 1);
    assert!(matches!(action, ReceiverAction::Backoff));
    assert_eq!(receiver.stats.count, u64::MAX);
    let (action, _) = receiver.step(ReceiverEvent::Shutdown, 2);
    assert!(matches!(action, ReceiverAction::Stop));
    assert_eq!(receiver.status, ReceiverStatus::Stopped);
}

#[test]
fn readiness_needs_strictly_more_peers_than_threshold() {
    let mut discovery = DiscoveryLoop::new(100);
    let report = discovery.poll(100, 10);
    assert!(!report.ready);
    assert!(!discovery.ready);
    let report = discovery.poll(101, 10);
    assert!(report.ready);
    assert!(discovery.ready);
    assert_eq!(report.iteration, 2);
}

#[test]
fn zero_peers_is_not_an_error() {
    let mut discovery = DiscoveryLoop::new(100);
    for i in 1..=20 {
        let report = discovery.poll(0, 0);
        assert!(!report.ready);
        assert_eq!(report.iteration, i);
        assert_eq!(report.total_peers, 0);
        // The detailed dump happens on every tenth poll only.
        assert_eq!(report.log_detail, i % 10 == 0);
    }
}

#[test]
fn peer_dump_stays_bounded() {
    assert_eq!(peer_dump_count(0), 0);
    assert_eq!(peer_dump_count(3), 3);
    assert_eq!(peer_dump_count(5), 5);
    assert_eq!(peer_dump_count(7), 5);
    assert_eq!(peer_dump_count(10_000), 5);
}

#[test]
fn relay_peers_are_counted() {
    fn peer(relay: Option<&str>) -> PeerRecord {
        PeerRecord {
            identity: vec![1u8; 32],
            gossip_addr: String::from("192.0.2.1:8000"),
            relay_addr: relay.map(String::from),
            shred_version: 1,
            last_seen_millis: 0,
        }
    }
    assert_eq!(relay_peer_count(&Vec::new()), 0);
    let peers = vec![
        peer(Some("192.0.2.1:8001")),
        peer(None),
        peer(Some("192.0.2.2:8001")),
        peer(None),
    ];
    assert_eq!(relay_peer_count(&peers), 2);
}

#[test]
fn networks_list_their_entrypoints() {
    let mainnet = Network::Mainnet.entrypoints();
    assert_eq!(
        mainnet,
        vec![
            "entrypoint.mainnet-beta.solana.com:8001",
            "entrypoint2.mainnet-beta.solana.com:8001",
            "entrypoint3.mainnet-beta.solana.com:8001",
        ]
    );
    let testnet = Network::Testnet.entrypoints();
    assert_eq!(testnet.len(), 3);
    assert_eq!(testnet[0], "entrypoint.testnet.solana.com:8001");
    assert_eq!(testnet[1], "entrypoint2.testnet.solana.com:8001");
    assert_eq!(testnet[2], "entrypoint3.testnet.solana.com:8001");
}
