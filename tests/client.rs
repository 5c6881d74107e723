use udp_probe::client::{Client, ClientAction, ClientEvent, ClientPhase};

fn measured(budget: u32) -> (Client, u32) {
    let (mut c, a) = Client::new(budget);
    assert_eq!(a, ClientAction::SendHandshake);
    assert_eq!(c.step(ClientEvent::Sent), ClientAction::AwaitPriming);
    let mut received: u32 = 0;
    let mut a = ClientAction::AwaitPriming;
    while a != ClientAction::StopClock {
        a = c.step(ClientEvent::Received);
        received += 1;
        if a != ClientAction::StopClock {
            assert!(a == ClientAction::StartClock || a == ClientAction::ReceiveData);
        }
    }
    (c, received)
}

#[test]
fn ideal_run_receives_priming_and_budget_plus_one() {
    for budget in [1u32, 3, 255] {
        let (c, received) = measured(budget);
        assert_eq!(received, budget + 2);
        assert!(received >= budget + 1);
        assert_eq!(c.phase, ClientPhase::Timing);
    }
}

#[test]
fn report_uses_the_formula() {
    let (mut c, _) = measured(255);
    assert_eq!(c.step(ClientEvent::Elapsed { ms: 250 }), ClientAction::Report { pps: 980 });
    let (mut c, _) = measured(255);
    assert_eq!(c.step(ClientEvent::Elapsed { ms: 0 }), ClientAction::Report { pps: 3 });
}

#[test]
fn drain_then_teardown() {
    let (mut c, _) = measured(3);
    assert_eq!(c.step(ClientEvent::Elapsed { ms: 10 }), ClientAction::Report { pps: 3333 });
    assert_eq!(c.step(ClientEvent::Received), ClientAction::Drain);
    assert_eq!(c.step(ClientEvent::Received), ClientAction::Drain);
    assert_eq!(c.step(ClientEvent::TimedOut), ClientAction::Probe);
    assert_eq!(c.step(ClientEvent::Received), ClientAction::SendStop);
    assert_eq!(c.step(ClientEvent::Sent), ClientAction::Probe);
    assert_eq!(c.step(ClientEvent::Received), ClientAction::SendStop);
    assert_eq!(c.step(ClientEvent::Failed), ClientAction::Probe);
    assert_eq!(c.step(ClientEvent::TimedOut), ClientAction::Finish);
    assert_eq!(c.phase, ClientPhase::Done);
    assert_eq!(c.step(ClientEvent::Received), ClientAction::Finish);
}

#[test]
fn silent_server_after_drain_sends_no_stop() {
    let (mut c, _) = measured(1);
    c.step(ClientEvent::Elapsed { ms: 5 });
    assert_eq!(c.step(ClientEvent::Failed), ClientAction::Probe);
    assert_eq!(c.step(ClientEvent::Failed), ClientAction::Finish);
}

#[test]
fn failures_before_measurement_abort() {
    let (mut c, _) = Client::new(5);
    assert_eq!(c.step(ClientEvent::Failed), ClientAction::Abort);
    assert_eq!(c.phase, ClientPhase::Aborted);

    let (mut c, _) = Client::new(5);
    c.step(ClientEvent::Sent);
    assert_eq!(c.step(ClientEvent::Failed), ClientAction::Abort);

    let (mut c, _) = Client::new(5);
    c.step(ClientEvent::Sent);
    c.step(ClientEvent::Received);
    c.step(ClientEvent::Received);
    assert_eq!(c.step(ClientEvent::TimedOut), ClientAction::Abort);
    assert_eq!(c.step(ClientEvent::Received), ClientAction::Abort);
}
