use om_support_monitor::peers::connect_step;
use om_support_monitor::peers::ConnectEvent;
use om_support_monitor::peers::ConnectRequest;
use om_support_monitor::peers::ConnectStep;
use om_support_monitor::peers::ConnectorState;
use om_support_monitor::peers::PERSIST_PEERS;
use om_support_monitor::sampler::sampler_step;
use om_support_monitor::sampler::Sample;
use om_support_monitor::sampler::SamplerAction;
use om_support_monitor::sampler::SamplerEvent;
use om_support_monitor::sampler::SAMPLE_INTERVAL_SECS;

// Runs the connector against a connector stub that fails on the peers in
// `failing`, and gives the attempts and the reported failures.
fn drive(peer_count: usize, failing: &[usize]) -> (Vec<usize>, Vec<usize>) {
    let mut attempts = Vec::new();
    let mut reports = Vec::new();
    let mut state = ConnectorState::new(peer_count);
    let mut event = ConnectEvent::Started;
    loop {
        let (next, step) = connect_step(state, event);
        state = next;
        if let Some(peer) = step.report_failure {
            reports.push(peer);
        }
        match step.connect {
            Some(request) => {
                assert!(!request.persist);
                attempts.push(request.peer);
                event = if failing.contains(&request.peer) {
                    ConnectEvent::Failed
                } else {
                    ConnectEvent::Connected
                };
            },
            None => break,
        }
    }
    (attempts, reports)
}

#[test]
fn connector_starts_with_the_first_peer() {
    let state = ConnectorState::new(18);
    assert_eq!(state, ConnectorState { peer_count: 18, attempted: 0 });
    let (next, step) = connect_step(state, ConnectEvent::Started);
    assert_eq!(next, ConnectorState { peer_count: 18, attempted: 1 });
    assert_eq!(
        step,
        ConnectStep { report_failure: None, connect: Some(ConnectRequest { peer: 0, persist: false }) }
    );
}

#[test]
fn connector_does_not_persist_peers() {
    assert!(!PERSIST_PEERS);
}

#[test]
fn connector_with_no_peers_is_done_at_once() {
    let (next, step) = connect_step(ConnectorState::new(0), ConnectEvent::Started);
    assert_eq!(next, ConnectorState { peer_count: 0, attempted: 0 });
    assert_eq!(step, ConnectStep { report_failure: None, connect: None });
    assert_eq!(drive(0, &[]), (vec![], vec![]));
}

#[test]
fn connector_tries_the_peer_after_a_failed_one() {
    let state = ConnectorState { peer_count: 18, attempted: 5 };
    let (next, step) = connect_step(state, ConnectEvent::Failed);
    assert_eq!(next, ConnectorState { peer_count: 18, attempted: 6 });
    assert_eq!(step.report_failure, Some(4));
    assert_eq!(step.connect, Some(ConnectRequest { peer: 5, persist: false }));
    let (attempts, reports) = drive(18, &[4]);
    assert_eq!(attempts, (0..18).collect::<Vec<usize>>());
    assert_eq!(reports, vec![4]);
}

#[test]
fn connector_goes_on_after_a_connection() {
    let state = ConnectorState { peer_count: 3, attempted: 1 };
    let (next, step) = connect_step(state, ConnectEvent::Connected);
    assert_eq!(next, ConnectorState { peer_count: 3, attempted: 2 });
    assert_eq!(step.report_failure, None);
    assert_eq!(step.connect, Some(ConnectRequest { peer: 1, persist: false }));
}

#[test]
fn connector_reports_the_failure_of_the_last_peer() {
    let state = ConnectorState { peer_count: 3, attempted: 3 };
    let (next, step) = connect_step(state, ConnectEvent::Failed);
    assert_eq!(next, state);
    assert_eq!(step, ConnectStep { report_failure: Some(2), connect: None });
    let (next, step) = connect_step(state, ConnectEvent::Connected);
    assert_eq!(next, state);
    assert_eq!(step, ConnectStep { report_failure: None, connect: None });
}

#[test]
fn connector_tries_every_peer_whichever_fail() {
    let everyone: Vec<usize> = (0..18).collect();
    assert_eq!(drive(18, &[]), (everyone.clone(), vec![]));
    assert_eq!(drive(18, &[0]), (everyone.clone(), vec![0]));
    assert_eq!(drive(18, &[17]), (everyone.clone(), vec![17]));
    assert_eq!(drive(18, &[3, 4, 11]), (everyone.clone(), vec![3, 4, 11]));
    assert_eq!(drive(18, &everyone), (everyone.clone(), everyone));
    assert_eq!(drive(1, &[0]), (vec![0], vec![0]));
}

#[test]
fn sampler_samples_at_the_start_and_after_each_wait() {
    assert_eq!(sampler_step(SamplerEvent::Started), SamplerAction::Sample);
    assert_eq!(sampler_step(SamplerEvent::Slept), SamplerAction::Sample);
}

#[test]
fn sampler_waits_ten_seconds() {
    assert_eq!(SAMPLE_INTERVAL_SECS, 10);
    assert_eq!(
        sampler_step(SamplerEvent::PageWritten),
        SamplerAction::Wait { report_write_failure: false, seconds: 10 }
    );
}

#[test]
fn sampler_reports_a_failed_write_and_waits() {
    assert_eq!(
        sampler_step(SamplerEvent::PageWriteFailed),
        SamplerAction::Wait { report_write_failure: true, seconds: 10 }
    );
}

#[test]
fn sampler_reports_a_file_that_cannot_be_opened_and_waits() {
    assert_eq!(
        sampler_step(SamplerEvent::PageNotOpened),
        SamplerAction::Wait { report_write_failure: true, seconds: 10 }
    );
}

#[test]
fn sampler_waits_without_a_report_when_there_was_no_page() {
    assert_eq!(
        sampler_step(SamplerEvent::PageSkipped),
        SamplerAction::Wait { report_write_failure: false, seconds: 10 }
    );
}

#[test]
fn sampler_publishes_line_and_page() {
    let sample = Sample { num_om_support: 3, num_nodes: 10, secs: 1_431_648_000, nanos: 0 };
    match sampler_step(SamplerEvent::Sampled(sample)) {
        SamplerAction::Publish { line, page } => {
            assert_eq!(line, "Nodes that announce OM support: 3/10 = 30.0%");
            let page = page.unwrap();
            assert!(page.contains("<p style=\"font-size: 48pt;\">30.0%</p>"));
            assert!(page.contains("<p style=\"font-size: 24pt;\">(3/10 nodes)</p>"));
            assert!(page.contains("Last updated: 2015-05-15 00:00:00 UTC\n"));
        },
        other => panic!("{:?}", other),
    }
}

#[test]
fn sampler_publishes_an_empty_graph_as_zero_percent() {
    let sample = Sample { num_om_support: 0, num_nodes: 0, secs: 0, nanos: 0 };
    match sampler_step(SamplerEvent::Sampled(sample)) {
        SamplerAction::Publish { line, page } => {
            assert_eq!(line, "Nodes that announce OM support: 0/0 = 0.0%");
            assert!(page.unwrap().contains(">0.0%</p>"));
        },
        other => panic!("{:?}", other),
    }
}

#[test]
fn sampler_has_a_line_but_no_page_for_a_time_out_of_range() {
    let sample = Sample { num_om_support: 1, num_nodes: 4, secs: i64::MAX, nanos: 0 };
    assert_eq!(
        sampler_step(SamplerEvent::Sampled(sample)),
        SamplerAction::Publish {
            line: "Nodes that announce OM support: 1/4 = 25.0%".to_string(),
            page: None,
        }
    );
}

#[test]
fn sampler_cycle_survives_failed_writes() {
    // A writer stub: of every three pages the second cannot be opened and
    // the third cannot be written.
    let mut event = SamplerEvent::Started;
    let mut samples = 0;
    let mut reported = 0;
    let mut waited = 0;
    let mut writes = 0;
    for _ in 0..36 {
        event = match sampler_step(event) {
            SamplerAction::Sample => {
                samples += 1;
                SamplerEvent::Sampled(Sample {
                    num_om_support: samples,
                    num_nodes: 2 * samples,
                    secs: 1_431_648_000 + 10 * samples as i64,
                    nanos: 0,
                })
            },
            SamplerAction::Publish { page, .. } => {
                assert!(page.is_some());
                writes += 1;
                match writes % 3 {
                    1 => SamplerEvent::PageWritten,
                    2 => SamplerEvent::PageNotOpened,
                    _ => SamplerEvent::PageWriteFailed,
                }
            },
            SamplerAction::Wait { report_write_failure, seconds } => {
                assert_eq!(seconds, 10);
                assert_eq!(report_write_failure, writes % 3 != 1);
                if report_write_failure {
                    reported += 1;
                }
                waited += seconds;
                SamplerEvent::Slept
            },
        };
    }
    assert_eq!(samples, 12);
    assert_eq!(writes, 12);
    assert_eq!(reported, 8);
    assert_eq!(waited, 120);
}
