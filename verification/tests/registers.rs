use qemu_fuzz_hooks::registers::{skip_notice, QemuGPRegisterHelper, RegisterWrite};

#[test]
fn saved_registers_are_written_back_in_order() {
    let reads = vec![Ok(5), Ok(u64::MAX), Ok(0)];
    let writes = QemuGPRegisterHelper::new(&reads).restore();
    assert_eq!(
        writes,
        vec![
            RegisterWrite { reg_idx: 0, reg_val: 5 },
            RegisterWrite { reg_idx: 1, reg_val: u64::MAX },
            RegisterWrite { reg_idx: 2, reg_val: 0 },
        ]
    );
}

#[test]
fn unreadable_registers_count_as_zero() {
    let reads = vec![Ok(1), Err("Failed to read register 1".to_string()), Ok(3)];
    let values: Vec<u64> =
        QemuGPRegisterHelper::new(&reads).restore().iter().map(|w| w.reg_val).collect();
    assert_eq!(values, vec![1, 0, 3]);
}

#[test]
fn no_registers_need_no_writes() {
    assert!(QemuGPRegisterHelper::new(&vec![]).restore().is_empty());
    assert!(QemuGPRegisterHelper::default().restore().is_empty());
}

#[test]
fn restoring_twice_writes_the_same() {
    let helper = QemuGPRegisterHelper::new(&vec![Ok(7), Ok(8)]);
    assert_eq!(helper.restore(), helper.restore());
}

#[test]
fn refused_registers_keep_their_value() {
    let helper = QemuGPRegisterHelper::new(&vec![Ok(7), Ok(8), Ok(9)]);
    let mut regs: Vec<u64> = vec![100, 101, 102, 103];
    for write in helper.restore() {
        if write.reg_idx != 1 {
            regs[write.reg_idx as usize] = write.reg_val;
        }
    }
    assert_eq!(regs, vec![7, 101, 9, 103]);
}

#[test]
fn failed_write_is_reported() {
    let outcome = Err("Failed to write to register 31".to_string());
    assert_eq!(
        skip_notice(31, &outcome),
        Some(
            "[ERR] Couldn't set register x31 (Failed to write to register 31), skipping..."
                .to_string()
        )
    );
    let empty = Err(String::new());
    assert_eq!(
        skip_notice(0, &empty),
        Some("[ERR] Couldn't set register x0 (), skipping...".to_string())
    );
    for reg_idx in [9usize, 10, 100, 1234567890, usize::MAX] {
        assert_eq!(
            skip_notice(reg_idx, &empty),
            Some(format!("[ERR] Couldn't set register x{} (), skipping...", reg_idx))
        );
    }
}

#[test]
fn successful_write_is_not_reported() {
    assert_eq!(skip_notice(3, &Ok(())), None);
}

#[test]
fn every_test_case_starts_from_the_same_registers() {
    let saved = vec![Ok(7), Err("Failed to read register 1".to_string()), Ok(9)];
    let mut helper = QemuGPRegisterHelper::new(&saved);
    let mut regs: Vec<u64> = vec![7, 55, 9];
    for round in 0..5u64 {
        for write in helper.pre_exec() {
            regs[write.reg_idx as usize] = write.reg_val;
        }
        assert_eq!(regs, vec![7, 0, 9]);
        for reg in regs.iter_mut() {
            *reg = *reg * 31 + round;
        }
    }
    assert_eq!(helper.pre_exec(), helper.restore());
}
