use midi_setup::{
    decimal_string, listing_line, parse_index, trace_line, Action, Event, Phase, Setup, SetupError,
    SharedSlot,
};

fn named(names: &[&str]) -> Vec<Option<String>> {
    names.iter().map(|n| Some(n.to_string())).collect()
}

fn listed(names: Vec<Option<String>>) -> (Setup<u32>, Action) {
    let mut run: Setup<u32> = Setup::new();
    assert!(matches!(run.step(Event::InputOpened), Action::ListPorts));
    let a = run.step(Event::PortsListed { names });
    (run, a)
}

#[test]
fn zero_ports_abort_without_registering() {
    let (run, a) = listed(Vec::new());
    assert!(matches!(a, Action::Abort { error: SetupError::NoDevicesFound }));
    assert_eq!(run.phase(), Phase::Failed { error: SetupError::NoDevicesFound });
    assert!(!run.slot().is_filled());
}

#[test]
fn single_port_is_chosen_without_prompt() {
    let (run, a) = listed(named(&["Keystation 49"]));
    assert!(matches!(a, Action::Connect { index: 0 }));
    assert_eq!(run.phase(), Phase::Connecting { index: 0 });
}

#[test]
fn single_port_without_name_fails() {
    let (run, a) = listed(vec![None]);
    assert!(matches!(a, Action::Abort { error: SetupError::NameUnavailable }));
    assert!(!run.slot().is_filled());
}

#[test]
fn unnamed_port_among_many_fails_before_prompt() {
    let (_, a) = listed(vec![Some("A".to_string()), None, Some("C".to_string())]);
    assert!(matches!(a, Action::Abort { error: SetupError::NameUnavailable }));
}

#[test]
fn many_ports_list_each_once_and_read_one_line() {
    let (mut run, a) = listed(named(&["Midi Through", "Keystation 49", "nanoKEY2"]));
    match a {
        Action::Prompt { lines } => {
            assert_eq!(
                lines,
                vec![
                    "0: Midi Through".to_string(),
                    "1: Keystation 49".to_string(),
                    "2: nanoKEY2".to_string()
                ]
            );
        }
        other => panic!("expected a prompt, got {:?}", other),
    }
    assert_eq!(run.phase(), Phase::AwaitingChoice { count: 3 });
    let a = run.step(Event::LineRead { line: "1\n".to_string() });
    assert!(matches!(a, Action::Connect { index: 1 }));
    // a second line is not read as a choice
    let a = run.step(Event::LineRead { line: "2\n".to_string() });
    assert!(matches!(a, Action::Ignore));
    assert_eq!(run.phase(), Phase::Connecting { index: 1 });
}

#[test]
fn valid_choice_registers_one_connection() {
    let (mut run, _) = listed(named(&["A", "B"]));
    assert!(matches!(run.step(Event::LineRead { line: " 0 \r\n".to_string() }), Action::Connect { index: 0 }));
    assert!(!run.slot().is_filled());
    assert!(matches!(run.step(Event::Connected { connection: 77 }), Action::Finish));
    assert_eq!(run.phase(), Phase::Registered { index: 0 });
    // a later connection does not replace the registered one
    assert!(matches!(run.step(Event::Connected { connection: 88 }), Action::Ignore));
    let slot = run.into_slot();
    let shared = std::sync::Mutex::new(slot);
    let seen = shared.lock().unwrap().get().copied();
    assert_eq!(seen, Some(77));
}

#[test]
fn out_of_range_choice_fails() {
    let (mut run, _) = listed(named(&["A", "B"]));
    let a = run.step(Event::LineRead { line: "2\n".to_string() });
    assert!(matches!(a, Action::Abort { error: SetupError::InvalidSelection }));
    assert!(matches!(run.step(Event::Connected { connection: 1 }), Action::Ignore));
    assert!(!run.slot().is_filled());
}

#[test]
fn non_numeric_choice_fails() {
    for line in ["x\n", "\n", "-1\n", "1.0\n", "+\n", "1 2\n"] {
        let (run, a) = {
            let (mut run, _) = listed(named(&["A", "B"]));
            let a = run.step(Event::LineRead { line: line.to_string() });
            (run, a)
        };
        assert!(matches!(a, Action::Abort { error: SetupError::InvalidSelection }), "{:?}", line);
        assert!(!run.slot().is_filled());
    }
}

#[test]
fn input_subsystem_failure_aborts() {
    let mut run: Setup<u32> = Setup::new();
    let a = run.step(Event::InputFailed);
    assert!(matches!(a, Action::Abort { error: SetupError::SubsystemUnavailable }));
    assert!(matches!(run.step(Event::InputOpened), Action::Ignore));
}

#[test]
fn connection_failure_aborts() {
    let (mut run, _) = listed(named(&["A"]));
    let a = run.step(Event::ConnectFailed);
    assert!(matches!(a, Action::Abort { error: SetupError::ConnectFailed }));
    assert_eq!(run.phase(), Phase::Failed { error: SetupError::ConnectFailed });
    assert!(!run.slot().is_filled());
}

#[test]
fn out_of_order_events_are_ignored() {
    let mut run: Setup<u32> = Setup::new();
    assert!(matches!(run.step(Event::LineRead { line: "0".to_string() }), Action::Ignore));
    assert!(matches!(run.step(Event::Connected { connection: 3 }), Action::Ignore));
    assert_eq!(run.phase(), Phase::Uninitialized);
    assert!(!run.slot().is_filled());
}

#[test]
fn trace_record_of_note_on() {
    assert_eq!(trace_line(1234, &[0x90, 0x40, 0x7F]), "1234: [144, 64, 127] (len = 3)");
}

#[test]
fn trace_record_of_empty_and_single_messages() {
    assert_eq!(trace_line(0, &[]), "0: [] (len = 0)");
    assert_eq!(trace_line(u64::MAX, &[0xF8]), "18446744073709551615: [248] (len = 1)");
}

#[test]
fn listing_line_pairs_index_and_name() {
    assert_eq!(listing_line(10, "nanoKEY2"), "10: nanoKEY2");
    assert_eq!(listing_line(0, ""), "0: ");
}

#[test]
fn decimal_rendering() {
    assert_eq!(decimal_string(0), "0");
    assert_eq!(decimal_string(9), "9");
    assert_eq!(decimal_string(10), "10");
    assert_eq!(decimal_string(907), "907");
}

#[test]
fn parse_index_accepts_what_trimmed_parse_accepts() {
    assert_eq!(parse_index("2\n"), Some(2));
    assert_eq!(parse_index("  +7\t"), Some(7));
    assert_eq!(parse_index("007"), Some(7));
    assert_eq!(parse_index("\u{3000}4\u{A0}"), Some(4));
    assert_eq!(parse_index(&usize::MAX.to_string()), Some(usize::MAX));
    for s in ["", " ", "+", "-0", "abc", "1a", "4 2", "99999999999999999999999"] {
        assert_eq!(parse_index(s), s.trim().parse::<usize>().ok(), "{:?}", s);
    }
}

#[test]
fn slot_is_filled_once() {
    let mut slot: SharedSlot<u8> = SharedSlot::new();
    assert!(slot.get().is_none());
    assert_eq!(slot.fill(5), Ok(()));
    assert_eq!(slot.fill(6), Err(6));
    assert_eq!(slot.get(), Some(&5));
}
