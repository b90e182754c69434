use ddnsrs::cache::{cache_after_cycle, should_run_cycle};
use ddnsrs::cf::{should_update, DnsError, DnsRecord};
use ddnsrs::channel::RecvOutcome;
use ddnsrs::cli::{Cli, DEFAULT_INTERVAL_SECS};
use ddnsrs::ip::FetchError;
use ddnsrs::shutdown::ShutdownSignal;
use ddnsrs::worker::{
    exit_code, poller_publish, poller_step, supervise, updater_on_lookup, updater_step,
    LookupVerdict, PollerAction, PollerEvent, Supervision, TaskOutcome, UpdaterAction,
};
use ddnsrs::Message;

fn record(content: &str) -> DnsRecord {
    DnsRecord {
        zone_id: String::from("zone123"),
        record_id: String::from("rec9"),
        content: String::from(content),
    }
}

#[test]
fn poller_fetches_on_tick_only() {
    assert_eq!(poller_step(PollerEvent::Tick), PollerAction::Fetch);
    assert_eq!(poller_step(PollerEvent::ShutdownObserved), PollerAction::Terminate);
}

#[test]
fn poller_publishes_each_discovered_ip() {
    match poller_publish(Ok(String::from("5.6.7.8"))) {
        Some(m) => assert_eq!(m.ip().as_str(), "5.6.7.8"),
        None => panic!("a discovered IP must be published"),
    }
    assert!(poller_publish(Err(FetchError::AllProvidersFailed)).is_none());
}

#[test]
fn updater_terminates_once_shutdown_is_observed() {
    // Even with a message pending, an observed shutdown means no new cycle.
    let pending = RecvOutcome::Msg(Message::new(String::from("5.6.7.8")));
    assert!(matches!(updater_step(true, pending), UpdaterAction::Terminate));
    assert!(matches!(updater_step(true, RecvOutcome::Empty), UpdaterAction::Terminate));
    assert!(matches!(updater_step(true, RecvOutcome::Closed), UpdaterAction::Terminate));
}

#[test]
fn updater_looks_up_on_each_message() {
    let got = updater_step(false, RecvOutcome::Msg(Message::new(String::from("5.6.7.8"))));
    match got {
        UpdaterAction::Lookup(ip) => assert_eq!(ip, "5.6.7.8"),
        _ => panic!("a received message must start a lookup"),
    }
}

#[test]
fn updater_absorbs_lag_and_waits_on_empty() {
    assert!(matches!(updater_step(false, RecvOutcome::Lagged(7)), UpdaterAction::KeepWaiting));
    assert!(matches!(updater_step(false, RecvOutcome::Empty), UpdaterAction::KeepWaiting));
}

#[test]
fn closed_channel_is_fatal_to_the_updater() {
    assert!(matches!(updater_step(false, RecvOutcome::Closed), UpdaterAction::FailChannelClosed));
}

#[test]
fn update_fires_exactly_on_divergence() {
    assert!(should_update(&record("1.2.3.4"), &String::from("5.6.7.8")));
    assert!(!should_update(&record("1.2.3.4"), &String::from("1.2.3.4")));
}

#[test]
fn diverging_record_is_updated_once() {
    // Fetched 5.6.7.8 against current content 1.2.3.4: exactly one update.
    let verdict = updater_on_lookup(Ok(record("1.2.3.4")), &String::from("5.6.7.8"));
    match verdict {
        LookupVerdict::Update(rec) => {
            assert_eq!(rec.content, "1.2.3.4");
            assert_eq!(rec.record_id, "rec9");
        }
        _ => panic!("divergence must issue an update"),
    }
    // After the update is applied the record holds the candidate: no second
    // call for the same candidate.
    let after = updater_on_lookup(Ok(record("5.6.7.8")), &String::from("5.6.7.8"));
    assert!(matches!(after, LookupVerdict::Skip));
}

#[test]
fn equal_record_is_skipped() {
    let verdict = updater_on_lookup(Ok(record("1.2.3.4")), &String::from("1.2.3.4"));
    assert!(matches!(verdict, LookupVerdict::Skip));
}

#[test]
fn failed_lookup_retries_on_a_later_cycle() {
    // First cycle: the lookup fails; the task does not die.
    let first = updater_on_lookup(Err(DnsError::RecordNotFound), &String::from("5.6.7.8"));
    assert!(matches!(first, LookupVerdict::Retry));
    // Next cycle: the lookup succeeds and the IPs differ; now the update is
    // attempted.
    let second = updater_on_lookup(Ok(record("1.2.3.4")), &String::from("5.6.7.8"));
    assert!(matches!(second, LookupVerdict::Update(_)));
}

#[test]
fn first_failure_wins_and_fires_shutdown() {
    let got = supervise(
        TaskOutcome::Failed(String::from("channel closed")),
        TaskOutcome::Completed,
    );
    assert!(got.fire_shutdown);
    assert_eq!(got.failure, Some(String::from("channel closed")));

    let got = supervise(
        TaskOutcome::Completed,
        TaskOutcome::Failed(String::from("lookup loop died")),
    );
    assert!(got.fire_shutdown);
    assert_eq!(got.failure, Some(String::from("lookup loop died")));
}

#[test]
fn clean_joint_exit_is_success() {
    let got = supervise(TaskOutcome::Completed, TaskOutcome::Completed);
    assert!(!got.fire_shutdown);
    assert_eq!(got.failure, None);
}

#[test]
fn exit_code_reflects_the_failure() {
    let clean = Supervision { fire_shutdown: false, failure: None };
    assert_eq!(exit_code(&clean), 0);
    let failed = Supervision { fire_shutdown: true, failure: Some(String::from("boom")) };
    assert_ne!(exit_code(&failed), 0);
}

#[test]
fn shutdown_fires_once_and_stays_fired() {
    let mut signal = ShutdownSignal::new();
    assert!(!signal.is_fired());
    signal.fire();
    assert!(signal.is_fired());
    signal.fire();
    assert!(signal.is_fired());
}

#[test]
fn cached_ip_skips_the_cycle() {
    // Cached 1.2.3.4, fetched 1.2.3.4: no cycle, cache untouched.
    let cached = Some(String::from("1.2.3.4"));
    assert!(!should_run_cycle(&cached, &String::from("1.2.3.4")));
    assert_eq!(cache_after_cycle(&String::from("1.2.3.4"), false), None);
}

#[test]
fn fresh_ip_runs_the_cycle_and_rewrites_the_cache() {
    let cached = Some(String::from("1.2.3.4"));
    assert!(should_run_cycle(&cached, &String::from("5.6.7.8")));
    assert!(should_run_cycle(&None, &String::from("5.6.7.8")));
    assert_eq!(
        cache_after_cycle(&String::from("5.6.7.8"), true),
        Some(String::from("5.6.7.8"))
    );
}

#[test]
fn message_carries_its_ip() {
    let m = Message::new(String::from("5.6.7.8"));
    assert_eq!(m.ip().as_str(), "5.6.7.8");
    assert_eq!(m.into_ip(), "5.6.7.8");
}

#[test]
fn configuration_is_kept_as_given() {
    let cli = Cli::new(
        String::from("home.example.com"),
        String::from("example-api-token"),
        DEFAULT_INTERVAL_SECS,
    );
    assert_eq!(cli.hostname, "home.example.com");
    assert_eq!(cli.interval, 300);
}
