use shut::cli::{exit_code, outcome_after_probe, Outcome, USAGE_EXIT_CODE};
use shut::port::parse_port;
use shut::socket::{resolve, Proto, SocketRecord};
use shut::terminator::{select_targets, ProcessHandle};

fn record(proto: Proto, local_port: u16, pids: Vec<u32>) -> SocketRecord {
    SocketRecord { proto, local_port, pids }
}

fn handle(pid: u32) -> ProcessHandle {
    ProcessHandle { pid, name: None, command: None }
}

#[test]
fn parse_rejects_out_of_range_port() {
    assert_eq!(parse_port("70000"), None);
    assert_eq!(parse_port("65536"), None);
    assert_eq!(parse_port("99999999999999999999"), None);
}

#[test]
fn parse_rejects_non_numeric_text() {
    assert_eq!(parse_port("abc"), None);
    assert_eq!(parse_port("80a"), None);
    assert_eq!(parse_port("-1"), None);
    assert_eq!(parse_port(" 80"), None);
    assert_eq!(parse_port(""), None);
}

#[test]
fn parse_accepts_ports_in_range() {
    assert_eq!(parse_port("0"), Some(0));
    assert_eq!(parse_port("80"), Some(80));
    assert_eq!(parse_port("6969"), Some(6969));
    assert_eq!(parse_port("65535"), Some(65535));
    assert_eq!(parse_port("007"), Some(7));
}

#[test]
fn usage_exit_code_matches_convention() {
    assert_eq!(exit_code(Outcome::UsageError), USAGE_EXIT_CODE);
    assert_eq!(exit_code(Outcome::UsageError), exitcode::USAGE);
}

#[test]
fn lookup_failures_exit_with_one() {
    assert_eq!(exit_code(Outcome::PortNotOpen), 1);
    assert_eq!(exit_code(Outcome::NoProcessesFound), 1);
}

#[test]
fn attempted_termination_exits_ok() {
    assert_eq!(exit_code(Outcome::TerminationAttempted), exitcode::OK);
}

#[test]
fn closed_port_is_a_lookup_failure() {
    assert_eq!(outcome_after_probe(false, 0), Outcome::PortNotOpen);
    assert_eq!(outcome_after_probe(false, 3), Outcome::PortNotOpen);
}

#[test]
fn open_port_without_processes_is_a_lookup_failure() {
    assert_eq!(outcome_after_probe(true, 0), Outcome::NoProcessesFound);
}

#[test]
fn open_port_with_processes_leads_to_termination() {
    assert_eq!(outcome_after_probe(true, 1), Outcome::TerminationAttempted);
    assert_eq!(outcome_after_probe(true, 5), Outcome::TerminationAttempted);
}

#[test]
fn resolve_without_matching_record_is_empty() {
    let table = vec![
        record(Proto::Tcp, 80, vec![10]),
        record(Proto::Udp, 443, vec![11, 12]),
    ];
    assert_eq!(resolve(&table, 8080), Vec::<u32>::new());
    assert_eq!(resolve(&Vec::new(), 8080), Vec::<u32>::new());
}

#[test]
fn resolve_two_records_on_same_port_takes_the_first() {
    let table = vec![
        record(Proto::Tcp, 8080, vec![10, 11]),
        record(Proto::Udp, 8080, vec![12]),
    ];
    assert_eq!(resolve(&table, 8080), vec![10, 11]);
}

#[test]
fn resolve_takes_the_first_match_across_protocols() {
    let table = vec![
        record(Proto::Udp, 53, vec![21]),
        record(Proto::Tcp, 53, vec![22]),
    ];
    assert_eq!(resolve(&table, 53), vec![21]);
}

#[test]
fn resolve_keeps_an_empty_first_match() {
    let table = vec![
        record(Proto::Tcp, 9000, Vec::new()),
        record(Proto::Tcp, 9000, vec![30]),
    ];
    assert_eq!(resolve(&table, 9000), Vec::<u32>::new());
}

#[test]
fn empty_id_set_selects_no_process() {
    let procs = vec![handle(1), handle(2), handle(3)];
    assert_eq!(select_targets(&procs, &Vec::new()), Vec::<usize>::new());
}

#[test]
fn absent_id_selects_no_process() {
    let procs = vec![handle(1), handle(2), handle(3)];
    assert_eq!(select_targets(&procs, &vec![99]), Vec::<usize>::new());
}

#[test]
fn every_matching_process_is_selected_in_order() {
    let procs = vec![handle(50), handle(60), handle(70), handle(80)];
    let plan = select_targets(&procs, &vec![80, 50]);
    assert_eq!(plan, vec![0, 3]);
}

#[test]
fn selection_keeps_metadata_out_of_the_decision() {
    let procs = vec![
        ProcessHandle { pid: 5, name: Some(String::from("a")), command: None },
        ProcessHandle { pid: 6, name: None, command: Some(String::from("b")) },
    ];
    assert_eq!(select_targets(&procs, &vec![6]), vec![1]);
}
