use utapi_rs::backoff::JITTER_BOUND_MS;
use utapi_rs::backoff::MAX_RETRIES;
use utapi_rs::backoff::backoff_delay_ms;
use utapi_rs::backoff::backoff_with_jitter_ms;
use utapi_rs::poll::PollCycle;
use utapi_rs::poll::PollEnd;
use utapi_rs::poll::PollProbe;
use utapi_rs::poll::PollStep;
use utapi_rs::poll::Poller;
use utapi_rs::poll::probe_is_done;
use utapi_rs::poll::run_poll;

fn status(s: &str) -> PollProbe {
    PollProbe::Status(Some(s.to_string()))
}

fn quiet_cycle(s: &str) -> PollCycle {
    PollCycle { probe: status(s), cancel_during_backoff: false }
}

#[test]
fn backoff_doubles_then_caps() {
    assert_eq!(backoff_delay_ms(1), 1000);
    assert_eq!(backoff_delay_ms(2), 2000);
    assert_eq!(backoff_delay_ms(3), 4000);
    assert_eq!(backoff_delay_ms(6), 32000);
    assert_eq!(backoff_delay_ms(7), 64000);
    assert_eq!(backoff_delay_ms(8), 64000);
    assert_eq!(backoff_delay_ms(MAX_RETRIES), 64000);
}

#[test]
fn realized_delay_stays_within_jitter_bound() {
    for k in 1..=MAX_RETRIES {
        let base = backoff_delay_ms(k);
        let realized = backoff_with_jitter_ms(k);
        assert!(realized >= base);
        assert!(realized < base + JITTER_BOUND_MS);
    }
}

#[test]
fn probe_done_only_on_done_status() {
    assert!(probe_is_done(&status("done")));
    assert!(!probe_is_done(&status("uploading")));
    assert!(!probe_is_done(&status("Done")));
    assert!(!probe_is_done(&PollProbe::Status(None)));
    assert!(!probe_is_done(&PollProbe::TransportFailure));
}

#[test]
fn poller_confirms_at_once_on_done() {
    let mut poller = Poller::new();
    let step = poller.observe(&status("done"));
    assert_eq!(step, PollStep::Finished(PollEnd::Confirmed));
    assert_eq!(poller.tries, 0);
}

#[test]
fn poller_backs_off_on_unanswered_probe() {
    let mut poller = Poller::new();
    let step = poller.observe(&status("uploading"));
    assert_eq!(step, PollStep::Backoff(1000));
    assert_eq!(poller.tries, 1);
    let step = poller.observe(&PollProbe::TransportFailure);
    assert_eq!(step, PollStep::Backoff(2000));
    assert_eq!(poller.tries, 2);
}

#[test]
fn poller_reports_incomplete_past_budget() {
    let mut poller = Poller::new();
    for _ in 0..MAX_RETRIES {
        match poller.observe(&status("uploading")) {
            PollStep::Backoff(_) => {},
            PollStep::Finished(_) => panic!("budget not yet exhausted"),
        }
    }
    assert_eq!(poller.tries, MAX_RETRIES);
    let step = poller.observe(&status("uploading"));
    assert_eq!(step, PollStep::Finished(PollEnd::Incomplete));
}

#[test]
fn run_poll_confirms_after_two_backoffs() {
    let script = vec![quiet_cycle("uploading"), quiet_cycle("uploading"), quiet_cycle("done")];
    let run = run_poll(&script);
    assert_eq!(run.end, Some(PollEnd::Confirmed));
    assert_eq!(run.attempts, 3);
    assert_eq!(run.delays, vec![1000, 2000]);
}

#[test]
fn run_poll_exhausts_budget_after_twenty_one_probes() {
    let script: Vec<PollCycle> = (0..25).map(|_| quiet_cycle("uploading")).collect();
    let run = run_poll(&script);
    assert_eq!(run.end, Some(PollEnd::Incomplete));
    assert_eq!(run.attempts, (MAX_RETRIES + 1) as usize);
    assert_eq!(run.delays.len(), MAX_RETRIES as usize);
    for (j, d) in run.delays.iter().enumerate() {
        assert_eq!(*d, backoff_delay_ms(j as u32 + 1));
    }
}

#[test]
fn run_poll_transport_failures_consume_attempts() {
    let script = vec![
        PollCycle { probe: PollProbe::TransportFailure, cancel_during_backoff: false },
        quiet_cycle("done"),
    ];
    let run = run_poll(&script);
    assert_eq!(run.end, Some(PollEnd::Confirmed));
    assert_eq!(run.attempts, 2);
    assert_eq!(run.delays, vec![1000]);
}

#[test]
fn run_poll_cancelled_during_backoff() {
    let script = vec![
        quiet_cycle("uploading"),
        PollCycle { probe: status("uploading"), cancel_during_backoff: true },
        quiet_cycle("done"),
    ];
    let run = run_poll(&script);
    assert_eq!(run.end, Some(PollEnd::Cancelled));
    assert_eq!(run.attempts, 2);
    assert_eq!(run.delays, vec![1000]);
}

#[test]
fn run_poll_pending_when_script_runs_out() {
    let script = vec![quiet_cycle("uploading"), quiet_cycle("uploading")];
    let run = run_poll(&script);
    assert_eq!(run.end, None);
    assert_eq!(run.attempts, 2);
    assert_eq!(run.delays, vec![1000, 2000]);
}
