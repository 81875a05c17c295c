use vip_reconciler::dns::classify_lookup;
use vip_reconciler::dns::ipv4_list_string;
use vip_reconciler::dns::poll_decide;
use vip_reconciler::dns::poll_run;
use vip_reconciler::dns::poll_settle;
use vip_reconciler::dns::Ipv4;
use vip_reconciler::dns::LookupOutcome;
use vip_reconciler::dns::PollBudget;
use vip_reconciler::dns::PollResult;
use vip_reconciler::dns::Resolution;

fn ip(a: u8, b: u8, c: u8, d: u8) -> Ipv4 {
    Ipv4 { octets: [a, b, c, d] }
}

#[test]
fn formats_single_address() {
    assert_eq!(ipv4_list_string(&vec![ip(10, 0, 0, 7)]), "10.0.0.7");
}

#[test]
fn formats_octet_extremes() {
    assert_eq!(ipv4_list_string(&vec![ip(255, 0, 10, 99)]), "255.0.10.99");
    assert_eq!(ipv4_list_string(&vec![ip(0, 0, 0, 0)]), "0.0.0.0");
    assert_eq!(ipv4_list_string(&vec![ip(192, 168, 7, 25)]), "192.168.7.25");
}

#[test]
fn formats_list_in_given_order() {
    let joined = ipv4_list_string(&vec![ip(192, 168, 7, 25), ip(10, 0, 0, 1), ip(1, 2, 3, 4)]);
    assert_eq!(joined, "192.168.7.25,10.0.0.1,1.2.3.4");
}

#[test]
fn resolved_address_classifies_resolved() {
    let r = classify_lookup(LookupOutcome::Records { addrs: vec![ip(10, 0, 0, 7)] });
    match r {
        Resolution::Resolved { addresses } => {
            assert!(!addresses.is_empty());
            assert_eq!(addresses, "10.0.0.7");
        }
        _ => panic!("one address must classify as resolved"),
    }
}

#[test]
fn resolved_addresses_keep_resolver_order() {
    let r = classify_lookup(LookupOutcome::Records {
        addrs: vec![ip(192, 168, 7, 25), ip(10, 0, 0, 1)],
    });
    match r {
        Resolution::Resolved { addresses } => assert_eq!(addresses, "192.168.7.25,10.0.0.1"),
        _ => panic!("addresses must classify as resolved"),
    }
}

#[test]
fn no_records_classifies_unresolved_never_error() {
    let r = classify_lookup(LookupOutcome::NoRecords);
    assert!(matches!(r, Resolution::Unresolved));
}

#[test]
fn failure_classifies_error_with_cause() {
    let r = classify_lookup(LookupOutcome::Failure {
        message: String::from("connection timed out"),
    });
    match r {
        Resolution::Error { cause } => assert_eq!(cause, "connection timed out"),
        _ => panic!("a resolver failure must classify as an error"),
    }
}

#[test]
fn poll_zero_timeout_returns_no_result_at_once() {
    let budget = PollBudget { timeout: 0, interval: 5000 };
    let (result, elapsed) = poll_run(&budget, &vec![]);
    assert!(matches!(result, PollResult::NoResult));
    assert_eq!(elapsed, 0);
}

#[test]
fn poll_success_on_third_attempt_takes_three_intervals() {
    let budget = PollBudget { timeout: 120000, interval: 5000 };
    let mut probes = vec![LookupOutcome::NoRecords, LookupOutcome::NoRecords];
    probes.push(LookupOutcome::Records { addrs: vec![ip(10, 0, 0, 7)] });
    while probes.len() < 24 {
        probes.push(LookupOutcome::NoRecords);
    }
    let (result, elapsed) = poll_run(&budget, &probes);
    match result {
        PollResult::Found { addresses } => assert_eq!(addresses, "10.0.0.7"),
        _ => panic!("the third probe answered, so the poll must succeed"),
    }
    assert_eq!(elapsed, 15000);
}

#[test]
fn poll_gives_up_at_or_after_timeout_within_one_interval() {
    let budget = PollBudget { timeout: 7, interval: 3 };
    let probes = vec![LookupOutcome::NoRecords, LookupOutcome::NoRecords, LookupOutcome::NoRecords];
    let (result, elapsed) = poll_run(&budget, &probes);
    assert!(matches!(result, PollResult::NoResult));
    assert_eq!(elapsed, 9);
    assert!(elapsed >= budget.timeout);
    assert!(elapsed <= budget.timeout + budget.interval);
}

#[test]
fn poll_timeout_exhausts_full_budget() {
    let budget = PollBudget { timeout: 120000, interval: 5000 };
    let mut probes = Vec::new();
    while probes.len() < 24 {
        probes.push(LookupOutcome::NoRecords);
    }
    let (result, elapsed) = poll_run(&budget, &probes);
    assert!(matches!(result, PollResult::NoResult));
    assert_eq!(elapsed, 120000);
}

#[test]
fn poll_aborts_on_probe_failure() {
    let budget = PollBudget { timeout: 120000, interval: 5000 };
    let mut probes = vec![LookupOutcome::NoRecords];
    probes.push(LookupOutcome::Failure { message: String::from("server failure") });
    while probes.len() < 24 {
        probes.push(LookupOutcome::NoRecords);
    }
    let (result, elapsed) = poll_run(&budget, &probes);
    match result {
        PollResult::Failed { cause } => assert_eq!(cause, "server failure"),
        _ => panic!("a probe failure must abort the poll"),
    }
    assert_eq!(elapsed, 10000);
}

#[test]
fn poll_decide_compares_elapsed_with_timeout() {
    let budget = PollBudget { timeout: 7, interval: 3 };
    assert!(poll_decide(&budget, 0));
    assert!(poll_decide(&budget, 6));
    assert!(!poll_decide(&budget, 7));
    assert!(!poll_decide(&budget, 9));
}

#[test]
fn poll_settle_only_continues_on_no_records() {
    assert!(poll_settle(LookupOutcome::NoRecords).is_none());
    match poll_settle(LookupOutcome::Records { addrs: vec![ip(10, 0, 0, 7)] }) {
        Some(PollResult::Found { addresses }) => assert_eq!(addresses, "10.0.0.7"),
        _ => panic!("records must settle the poll"),
    }
    match poll_settle(LookupOutcome::Failure { message: String::from("refused") }) {
        Some(PollResult::Failed { cause }) => assert_eq!(cause, "refused"),
        _ => panic!("a failure must settle the poll"),
    }
}
