use ytrs::args_builder::YtDlpArgs;
use ytrs::classify::classify;
use ytrs::config::{RATE_LIMIT_THRESHOLD, SLEEP_REQUESTS};
use ytrs::downloader::{
    exit_status, needs_rate_limit, plan_run, single_result, task_outcome, Action, Batch, Event,
    Outcome, ProcessEnd, RunPlan,
};
use ytrs::error::YtrsError;
use ytrs::url_validator::sanitize_and_deduplicate;

fn items(n: usize) -> Vec<String> {
    (0..n).map(|i| format!("https://example.com/v{}", i)).collect()
}

/// Runs a batch to its end: each task ends when the batch waits, oldest
/// first, with the process end that `end_of` gives for its item. Returns the
/// dispatched items in order and the largest number running at once.
fn drive(batch: &mut Batch, end_of: &dyn Fn(usize) -> ProcessEnd) -> (Vec<usize>, usize) {
    let mut dispatched = Vec::new();
    let mut running: Vec<usize> = Vec::new();
    let mut most = 0;
    let mut event = Event::Poll;
    loop {
        match batch.step(event) {
            Action::Dispatch { index, .. } => {
                dispatched.push(index);
                running.push(index);
                most = most.max(running.len());
                event = Event::Poll;
            }
            Action::Wait => {
                let index = running.remove(0);
                event = Event::Finished { index, outcome: task_outcome(end_of(index)) };
            }
            Action::Finish => return (dispatched, most),
        }
    }
}

fn success(_: usize) -> ProcessEnd {
    ProcessEnd::Exited { code: Some(0), stderr: String::new() }
}

#[test]
fn duplicate_urls_dispatch_two() {
    let urls = vec![
        "https://example.com/a".to_string(),
        "https://example.com/a".to_string(),
        "https://example.com/b".to_string(),
    ];
    let clean = sanitize_and_deduplicate(urls);
    let mut batch = Batch::new(clean, YtDlpArgs::default(), 2).unwrap();
    let (dispatched, _) = drive(&mut batch, &success);
    assert_eq!(dispatched, vec![0, 1]);
    assert_eq!(batch.recorded(), 2);
}

#[test]
fn no_items_fail_before_dispatch() {
    let clean = sanitize_and_deduplicate(vec!["".to_string(), "invalid".to_string()]);
    assert!(matches!(Batch::new(clean, YtDlpArgs::default(), 2), Err(YtrsError::NoValidUrls)));
}

#[test]
fn zero_parallelism_is_refused() {
    assert!(matches!(
        Batch::new(items(3), YtDlpArgs::default(), 0),
        Err(YtrsError::InvalidParallelism)
    ));
}

#[test]
fn all_succeed_report_success() {
    let mut batch = Batch::new(items(5), YtDlpArgs::default(), 2).unwrap();
    let (dispatched, most) = drive(&mut batch, &success);
    assert_eq!(dispatched, vec![0, 1, 2, 3, 4]);
    assert!(most <= 2);
    let result = batch.run_result();
    assert_eq!(result.total, 5);
    assert!(result.failures.is_empty());
    assert!(exit_status(&result).is_ok());
}

#[test]
fn one_rate_limited_failure_is_reported() {
    let mut batch = Batch::new(items(3), YtDlpArgs::default(), 2).unwrap();
    let end_of = |i: usize| {
        if i == 1 {
            ProcessEnd::Exited {
                code: Some(1),
                stderr: "ERROR: unable to download video data: HTTP Error 429".to_string(),
            }
        } else {
            success(i)
        }
    };
    drive(&mut batch, &end_of);
    let result = batch.run_result();
    assert_eq!(result.total, 3);
    assert_eq!(result.failures.len(), 1);
    assert_eq!(result.failures[0].0, "https://example.com/v1");
    assert_eq!(result.failures[0].1, "Rate limited by server - try again later");
    assert!(matches!(exit_status(&result), Err(YtrsError::PartialFailure(1))));
}

#[test]
fn parallelism_bound_holds_for_many_sizes() {
    for n in 1..5 {
        for m in 0..9 {
            match Batch::new(items(m), YtDlpArgs::default(), n) {
                Ok(mut batch) => {
                    let (dispatched, most) = drive(&mut batch, &success);
                    assert!(most <= n);
                    assert_eq!(dispatched.len(), m);
                    assert_eq!(batch.recorded(), m);
                }
                Err(e) => {
                    assert_eq!(m, 0);
                    assert!(matches!(e, YtrsError::NoValidUrls));
                }
            }
        }
    }
}

#[test]
fn signal_stops_admission_but_running_items_finish() {
    let mut batch = Batch::new(items(6), YtDlpArgs::default(), 2).unwrap();
    assert!(matches!(batch.step(Event::Poll), Action::Dispatch { index: 0, .. }));
    assert!(matches!(batch.step(Event::Poll), Action::Dispatch { index: 1, .. }));
    assert!(matches!(batch.step(Event::Poll), Action::Wait));
    assert!(matches!(batch.step(Event::Signal), Action::Wait));
    assert!(batch.is_cancelled());
    let a = batch.step(Event::Finished { index: 0, outcome: Outcome::Success });
    assert!(matches!(a, Action::Wait));
    let a = batch.step(Event::Finished { index: 1, outcome: Outcome::Success });
    assert!(matches!(a, Action::Finish));
    assert_eq!(batch.recorded(), 2);
    assert_eq!(batch.run_result().total, 6);
}

#[test]
fn signal_wins_over_free_slot() {
    let mut batch = Batch::new(items(3), YtDlpArgs::default(), 2).unwrap();
    assert!(matches!(batch.step(Event::Signal), Action::Finish));
    assert_eq!(batch.recorded(), 0);
}

#[test]
fn unknown_or_repeated_end_is_ignored() {
    let mut batch = Batch::new(items(2), YtDlpArgs::default(), 1).unwrap();
    assert!(matches!(batch.step(Event::Poll), Action::Dispatch { index: 0, .. }));
    let a = batch.step(Event::Finished { index: 1, outcome: Outcome::Success });
    assert!(matches!(a, Action::Wait));
    assert_eq!(batch.recorded(), 0);
    let a = batch.step(Event::Finished { index: 0, outcome: Outcome::Success });
    assert!(matches!(a, Action::Dispatch { index: 1, .. }));
    let a = batch.step(Event::Finished { index: 0, outcome: Outcome::Success });
    assert!(matches!(a, Action::Wait));
    assert_eq!(batch.recorded(), 1);
}

fn has_sleep_flag(args: &[String]) -> bool {
    args.iter().any(|a| a == "--sleep-requests")
}

#[test]
fn rate_limit_set_for_all_items_above_threshold() {
    assert_eq!(RATE_LIMIT_THRESHOLD, 10);
    let mut batch = Batch::new(items(RATE_LIMIT_THRESHOLD + 1), YtDlpArgs::default(), 3).unwrap();
    let mut seen = 0;
    let mut event = Event::Poll;
    loop {
        match batch.step(event) {
            Action::Dispatch { index, item, args } => {
                assert!(has_sleep_flag(&args));
                assert!(args.iter().any(|a| a == SLEEP_REQUESTS));
                assert_eq!(args.last().unwrap(), &item);
                seen += 1;
                event = Event::Finished { index, outcome: Outcome::Success };
            }
            Action::Wait => panic!("a task was left running"),
            Action::Finish => break,
        }
    }
    assert_eq!(seen, RATE_LIMIT_THRESHOLD + 1);
}

#[test]
fn rate_limit_unset_for_all_items_at_threshold() {
    let options = YtDlpArgs { rate_limit: true, ..Default::default() };
    let mut batch = Batch::new(items(RATE_LIMIT_THRESHOLD), options, 4).unwrap();
    let mut event = Event::Poll;
    loop {
        match batch.step(event) {
            Action::Dispatch { index, args, .. } => {
                assert!(!has_sleep_flag(&args));
                event = Event::Finished { index, outcome: Outcome::Success };
            }
            Action::Wait => panic!("a task was left running"),
            Action::Finish => break,
        }
    }
    assert!(!needs_rate_limit(RATE_LIMIT_THRESHOLD));
    assert!(needs_rate_limit(RATE_LIMIT_THRESHOLD + 1));
}

#[test]
fn classify_is_the_same_on_the_same_input() {
    let a = classify("ERROR: [youtube] abc: Private video", Some(1));
    let b = classify("ERROR: [youtube] abc: Private video", Some(1));
    assert_eq!(a, b);
    assert_eq!(a, "Video is private");
}

#[test]
fn classify_first_pattern_wins() {
    assert_eq!(
        classify("HTTP Error 403 then HTTP Error 429", Some(1)),
        "Rate limited by server - try again later"
    );
    assert_eq!(
        classify("ERROR: HTTP Error 404: Not Found", Some(1)),
        "Not found on server (HTTP 404)"
    );
}

#[test]
fn classify_falls_back_to_exit_code() {
    assert_eq!(classify("something odd", Some(2)), "yt-dlp exited with code 2");
    assert_eq!(classify("", Some(-1)), "yt-dlp exited with code -1");
    assert_eq!(classify("", Some(255)), "yt-dlp exited with code 255");
    assert_eq!(classify("", None), "yt-dlp was terminated by a signal");
}

#[test]
fn task_outcome_of_each_end() {
    assert!(matches!(task_outcome(success(0)), Outcome::Success));
    match task_outcome(ProcessEnd::Exited { code: Some(1), stderr: "Too Many Requests".into() }) {
        Outcome::Failure(r) => assert_eq!(r, "Rate limited by server - try again later"),
        Outcome::Success => panic!("expected a failure"),
    }
    match task_outcome(ProcessEnd::SpawnFailed("No such file or directory".into())) {
        Outcome::Failure(r) => assert_eq!(r, "No such file or directory"),
        Outcome::Success => panic!("expected a failure"),
    }
}

#[test]
fn single_download_result() {
    assert!(single_result(Some(0)).is_ok());
    assert!(matches!(single_result(Some(3)), Err(YtrsError::YtDlpFailed(Some(3)))));
    assert!(matches!(single_result(None), Err(YtrsError::YtDlpFailed(None))));
}

#[test]
fn plan_single_and_batch() {
    match plan_run(&vec!["  https://example.com/x ".to_string()]) {
        Ok(RunPlan::Single(u)) => assert_eq!(u, "https://example.com/x"),
        other => panic!("unexpected {:?}", other),
    }
    assert!(matches!(plan_run(&vec!["nope".to_string()]), Err(YtrsError::NoValidUrls)));
    match plan_run(&vec!["https://a.example".to_string(), "bad".to_string()]) {
        Ok(RunPlan::Batch { urls, skipped }) => {
            assert_eq!(urls, vec!["https://a.example".to_string()]);
            assert_eq!(skipped, vec!["bad".to_string()]);
        }
        other => panic!("unexpected {:?}", other),
    }
}
