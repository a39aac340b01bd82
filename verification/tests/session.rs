use qemu_fuzz_hooks::session::{
    conclude, initial_inputs_due, startup_steps, token_files_due, Conclusion, EmulatorStep,
    LaunchError,
};

#[test]
fn startup_moves_the_breakpoint() {
    assert_eq!(
        startup_steps(0x40_0000),
        vec![
            EmulatorStep::SetBreakpoint(0x40_0178),
            EmulatorStep::Run,
            EmulatorStep::RemoveBreakpoint(0x40_0178),
            EmulatorStep::SetBreakpoint(0x40_0144),
        ]
    );
}

#[test]
fn startup_at_the_top_of_the_address_space() {
    let steps = startup_steps(u64::MAX - 0x178);
    assert_eq!(steps[0], EmulatorStep::SetBreakpoint(u64::MAX));
    assert_eq!(steps[3], EmulatorStep::SetBreakpoint(u64::MAX - 0x34));
}

#[test]
fn startup_leaves_one_breakpoint_set() {
    let mut armed: Vec<u64> = Vec::new();
    for step in startup_steps(0x1000) {
        match step {
            EmulatorStep::SetBreakpoint(addr) => armed.push(addr),
            EmulatorStep::RemoveBreakpoint(addr) => armed.retain(|a| *a != addr),
            EmulatorStep::Run => assert_eq!(armed, vec![0x1178]),
        }
    }
    assert_eq!(armed, vec![0x1144]);
}

#[test]
fn token_files_are_read_once() {
    assert!(token_files_due(false, 1));
    assert!(token_files_due(false, 3));
    assert!(!token_files_due(false, 0));
    assert!(!token_files_due(true, 1));
    assert!(!token_files_due(true, 0));
}

#[test]
fn initial_inputs_go_into_an_empty_corpus() {
    assert!(initial_inputs_due(0));
    assert!(!initial_inputs_due(1));
    assert!(!initial_inputs_due(usize::MAX));
}

#[test]
fn ends_of_a_session() {
    assert!(matches!(conclude(Ok(())), Conclusion::Done));
    match conclude(Err(LaunchError::ShuttingDown)) {
        Conclusion::DoneWith(text) => assert_eq!(text, "Fuzzing stopped by user. Good bye."),
        other => panic!("unexpected end: {:?}", other),
    }
    match conclude(Err(LaunchError::Other("Unknown(\"x\")".to_string()))) {
        Conclusion::Fail(text) => assert_eq!(text, "Failed to run launcher: Unknown(\"x\")"),
        other => panic!("unexpected end: {:?}", other),
    }
}
