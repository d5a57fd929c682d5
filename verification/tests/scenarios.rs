use rasp_rover::imu::SensorSample;
use rasp_rover::net::NetAddress;
use rasp_rover::orchestrator::{Action, Event, Firmware, LogEntry, Phase, SAMPLE_INTERVAL_MS};

fn board_freqs() -> Vec<u32> {
    vec![100, 250, 400, 1000]
}

fn version() -> Vec<u8> {
    b"RaspRover v0.1.0".to_vec()
}

fn sample() -> SensorSample {
    SensorSample { acc: [1, 2, 3], gyr: [4, 5, 6], mag: [7, 8, 9], temp: 2150 }
}

/// Drives a booted firmware through display and IMU bring-up.
fn bring_up() -> Firmware {
    let (mut fw, a) = Firmware::boot(&version(), &board_freqs());
    assert_eq!(a, Action::InitDisplay);
    assert_eq!(fw.handle_event(Event::DisplayInitOk), Action::FlushFrame);
    assert_eq!(fw.handle_event(Event::FlushOk), Action::InitImu);
    assert_eq!(fw.handle_event(Event::ImuInitOk), Action::AwaitNetwork);
    fw
}

#[test]
fn boot_selects_the_highest_in_band_frequency() {
    let (fw, _) = Firmware::boot(&version(), &board_freqs());
    assert_eq!(fw.freq_khz(), Some(400));
}

#[test]
fn boot_without_in_band_frequency_halts_at_once() {
    let (mut fw, a) = Firmware::boot(&version(), &vec![50, 1000]);
    assert_eq!(a, Action::Halt);
    assert_eq!(fw.phase(), Phase::Halted);
    assert_eq!(fw.handle_event(Event::DisplayInitOk), Action::Halt);
    assert_eq!(fw.phase(), Phase::Halted);
}

#[test]
fn first_frame_shows_version_and_connecting() {
    let fw = bring_up();
    assert_eq!(fw.display().shown_line(0).as_slice(), b"RaspRover v0.1.0");
    assert_eq!(fw.display().shown_line(1).as_slice(), b"Connecting...");
    assert_eq!(fw.log_entries().as_slice(), &[LogEntry::ImuInitialized]);
}

#[test]
fn display_init_failure_is_fatal() {
    let (mut fw, _) = Firmware::boot(&version(), &board_freqs());
    assert_eq!(fw.handle_event(Event::DisplayInitFailed), Action::Halt);
    assert_eq!(fw.phase(), Phase::Halted);
}

#[test]
fn first_flush_failure_is_fatal() {
    let (mut fw, _) = Firmware::boot(&version(), &board_freqs());
    fw.handle_event(Event::DisplayInitOk);
    assert_eq!(fw.handle_event(Event::FlushFailed), Action::Halt);
    assert_eq!(fw.phase(), Phase::Halted);
}

#[test]
fn address_is_rendered_exactly_once() {
    let mut fw = bring_up();
    let addr = NetAddress { o0: 192, o1: 168, o2: 1, o3: 42 };
    assert_eq!(fw.handle_event(Event::NetConfigured(Some(addr))), Action::FlushFrame);
    // Cleared and redrawn, not yet flushed: the panel still shows the old frame.
    assert_eq!(fw.display().shown_line(1).as_slice(), b"Connecting...");
    assert_eq!(fw.display().buffered_line(0).as_slice(), b"RaspRover v0.1.0");
    assert_eq!(fw.display().buffered_line(1).as_slice(), b"IP: 192.168.1.42");
    assert_eq!(fw.handle_event(Event::FlushOk), Action::ReadSample);
    assert_eq!(fw.display().shown_line(0).as_slice(), b"RaspRover v0.1.0");
    assert_eq!(fw.display().shown_line(1).as_slice(), b"IP: 192.168.1.42");
    assert_eq!(fw.render_count(), 1);
    assert_eq!(
        fw.log_entries().as_slice(),
        &[LogEntry::ImuInitialized, LogEntry::IpAssigned(addr)]
    );
    // The loop runs on; the address frame is never rendered again.
    for _ in 0..5 {
        assert_eq!(fw.handle_event(Event::SampleOk(sample())), Action::SleepMs(SAMPLE_INTERVAL_MS));
        assert_eq!(fw.handle_event(Event::TimerElapsed), Action::ReadSample);
    }
    assert_eq!(fw.render_count(), 1);
    assert_eq!(fw.display().shown_line(1).as_slice(), b"IP: 192.168.1.42");
}

#[test]
fn no_address_keeps_the_display_frozen() {
    let mut fw = bring_up();
    assert_eq!(fw.handle_event(Event::NetConfigured(None)), Action::ReadSample);
    let mut log_lines: usize = 1; // the bring-up line
    for round in 0..4 {
        let outcome = if round % 2 == 0 {
            Event::SampleOk(sample())
        } else {
            Event::SampleFailed
        };
        assert_eq!(fw.handle_event(outcome), Action::SleepMs(SAMPLE_INTERVAL_MS));
        log_lines += 1;
        assert_eq!(fw.log_entries().len(), log_lines);
        assert_eq!(fw.handle_event(Event::TimerElapsed), Action::ReadSample);
    }
    assert_eq!(fw.display().shown_line(0).as_slice(), b"RaspRover v0.1.0");
    assert_eq!(fw.display().shown_line(1).as_slice(), b"Connecting...");
    assert_eq!(fw.render_count(), 0);
}

#[test]
fn failed_reads_never_halt_the_loop() {
    let mut fw = bring_up();
    fw.handle_event(Event::NetConfigured(None));
    let n: usize = 7;
    for _ in 0..n {
        // Each failure is logged and answered with one full sleep interval,
        // after which the next read attempt is issued.
        assert_eq!(fw.handle_event(Event::SampleFailed), Action::SleepMs(SAMPLE_INTERVAL_MS));
        assert_eq!(fw.handle_event(Event::TimerElapsed), Action::ReadSample);
    }
    assert_eq!(fw.phase(), Phase::Sampling);
    let errors = fw
        .log_entries()
        .iter()
        .filter(|e| matches!(e, LogEntry::ReadError))
        .count();
    assert_eq!(errors, n);
    // The (n+1)-th attempt succeeds and the loop goes on.
    assert_eq!(fw.handle_event(Event::SampleOk(sample())), Action::SleepMs(SAMPLE_INTERVAL_MS));
    assert_eq!(
        *fw.log_entries().last().unwrap(),
        LogEntry::Sample(sample())
    );
}

#[test]
fn imu_failure_halts_before_the_network_wait() {
    let (mut fw, _) = Firmware::boot(&version(), &board_freqs());
    fw.handle_event(Event::DisplayInitOk);
    fw.handle_event(Event::FlushOk);
    assert_eq!(fw.handle_event(Event::ImuInitFailed), Action::Halt);
    assert_eq!(fw.phase(), Phase::Halted);
    // No sampling log line is ever produced and the panel keeps the
    // pre-network-wait content, whatever arrives afterwards.
    assert_eq!(fw.handle_event(Event::SampleOk(sample())), Action::Halt);
    assert_eq!(fw.handle_event(Event::TimerElapsed), Action::Halt);
    assert!(fw.log_entries().is_empty());
    assert_eq!(fw.display().shown_line(0).as_slice(), b"RaspRover v0.1.0");
    assert_eq!(fw.display().shown_line(1).as_slice(), b"Connecting...");
}

#[test]
fn unexpected_events_leave_the_state_alone() {
    let mut fw = bring_up();
    // Waiting on the network: a stray timer tick changes nothing and the
    // pending action is repeated.
    assert_eq!(fw.handle_event(Event::TimerElapsed), Action::AwaitNetwork);
    assert_eq!(fw.phase(), Phase::NetWait);
    assert_eq!(fw.log_entries().len(), 1);
}
