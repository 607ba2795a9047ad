use sleep_mode::regs::Device;
use sleep_mode::regs::ExtiLine;
use sleep_mode::regs::IrqVector;
use sleep_mode::regs::RegWrite;
use sleep_mode::regs::line_index;
use sleep_mode::sleep::SleepMode;
use sleep_mode::sleep::SleepModeBuilder;
use sleep_mode::sleep::SleepModeEntry;
use sleep_mode::sleep::enter_sleep_mode;

#[test]
fn exti_line_numbers() {
    assert_eq!(line_index(ExtiLine::WakeupPin), 0);
    assert_eq!(line_index(ExtiLine::RtcAlarm), 17);
}

#[test]
fn power_on_state() {
    let d = Device::power_on(true, false, 42);
    assert!(d.trace.is_empty());
    assert!(d.regs.sbf);
    assert!(!d.regs.wuf);
    assert_eq!(d.regs.rtc_seconds, 42);
    assert!(!d.regs.sleepdeep);
    assert!(!d.regs.pdds);
    assert!(!d.regs.lpds);
    assert!(!d.regs.ewup);
}

#[test]
fn mode_table_sleep() {
    let b = SleepModeBuilder::new(SleepMode::Sleep, SleepModeEntry::WFI, Device::power_on(false, false, 0));
    assert!(!b.dev.regs.sleepdeep);
    assert!(!b.dev.regs.pdds);
    assert!(!b.dev.regs.lpds);
    assert!(b.is_sleep_or_stop_mode());
}

#[test]
fn mode_table_stop_regulator_on() {
    let b = SleepModeBuilder::new(SleepMode::StopRegulatorOn, SleepModeEntry::WFI, Device::power_on(false, false, 0));
    assert!(b.dev.regs.sleepdeep);
    assert!(!b.dev.regs.pdds);
    assert!(!b.dev.regs.lpds);
    assert!(b.is_sleep_or_stop_mode());
}

#[test]
fn mode_table_stop_regulator_lp() {
    let b = SleepModeBuilder::new(SleepMode::StopRegulatorLP, SleepModeEntry::WFI, Device::power_on(false, false, 0));
    assert!(b.dev.regs.sleepdeep);
    assert!(!b.dev.regs.pdds);
    assert!(b.dev.regs.lpds);
    assert!(b.is_sleep_or_stop_mode());
}

#[test]
fn mode_table_standby() {
    let b = SleepModeBuilder::new(SleepMode::Standby, SleepModeEntry::WFI, Device::power_on(false, false, 0));
    assert!(b.dev.regs.sleepdeep);
    assert!(b.dev.regs.pdds);
    assert!(!b.dev.regs.lpds);
    assert!(!b.is_sleep_or_stop_mode());
}

#[test]
fn mode_table_leaves_regulator_bit_alone() {
    // Sleep and Standby do not write the low-power-regulator bit: a set bit
    // survives their mode setup.
    let mut d = Device::power_on(false, false, 0);
    d.write(RegWrite::LowPowerRegulator(true));
    let b = SleepModeBuilder::new(SleepMode::Sleep, SleepModeEntry::WFI, d);
    assert!(b.dev.regs.lpds);

    let mut d = Device::power_on(false, false, 0);
    d.write(RegWrite::LowPowerRegulator(true));
    let b = SleepModeBuilder::new(SleepMode::Standby, SleepModeEntry::WFI, d);
    assert!(b.dev.regs.lpds);
}

#[test]
fn residue_flags_cleared_before_any_arming() {
    let d = Device::power_on(true, true, 0);
    let b = SleepModeBuilder::new(SleepMode::StopRegulatorOn, SleepModeEntry::WFI, d);
    // Both clears appear right after the mode setup, before anything else.
    assert_eq!(
        b.dev.trace,
        vec![
            RegWrite::SleepDeep(true),
            RegWrite::PowerDown(false),
            RegWrite::LowPowerRegulator(false),
            RegWrite::ClearStandbyFlag,
            RegWrite::ClearWakeupFlag,
        ]
    );
    assert!(!b.dev.regs.sbf);
    assert!(!b.dev.regs.wuf);
    // Arming writes are appended strictly after the clears.
    let before = b.dev.trace.len();
    let b = b.enable_wakeup_alarm(5);
    assert!(b.dev.trace.len() > before);
    assert_eq!(b.dev.trace[before], RegWrite::NvicEnable(IrqVector::Rtc));
}

#[test]
fn no_residue_writes_when_flags_clear() {
    let d = Device::power_on(false, false, 0);
    let b = SleepModeBuilder::new(SleepMode::Sleep, SleepModeEntry::WFI, d);
    assert_eq!(
        b.dev.trace,
        vec![RegWrite::SleepDeep(false), RegWrite::PowerDown(false)]
    );
}

#[test]
fn standby_wake_sets_enable_bits_only() {
    let d = Device::power_on(false, false, 0);
    let b = SleepModeBuilder::new(SleepMode::Standby, SleepModeEntry::WFI, d);
    let len_after_new = b.dev.trace.len();

    // Alarm request on Standby issues no register write at all.
    let b = b.enable_wakeup_alarm(10);
    assert_eq!(b.dev.trace.len(), len_after_new);

    // Pin request writes the bus clock and the always-on enable bit, nothing
    // touching the interrupt controller or the external-interrupt registers.
    let b = b.enable_wakeup_pin();
    assert_eq!(
        &b.dev.trace[len_after_new..],
        &[RegWrite::PowerInterfaceClockOn, RegWrite::WakeupPinEnable]
    );
    assert!(b.dev.regs.ewup);
    assert!(b.dev.regs.pwren);
    assert!(!b.dev.regs.imr0);
    assert!(!b.dev.regs.emr0);
    assert!(!b.dev.regs.rtsr0);
    assert!(!b.dev.regs.exti0_enabled);
    assert!(!b.dev.regs.rtc_enabled);
    assert!(!b.dev.regs.rtc_alarm_enabled);
    assert!(!b.dev.regs.imr17);
    assert!(!b.dev.regs.emr17);
    assert!(!b.dev.regs.rtsr17);
}

#[test]
fn alarm_arming_writes_exactly_wfi() {
    let d = Device::power_on(false, false, 0);
    let b = SleepModeBuilder::new(SleepMode::Sleep, SleepModeEntry::WFI, d);
    let k = b.dev.trace.len();
    let b = b.enable_wakeup_alarm(3);
    assert_eq!(
        &b.dev.trace[k..],
        &[
            RegWrite::NvicEnable(IrqVector::Rtc),
            RegWrite::NvicUnpend(IrqVector::Rtc),
            RegWrite::NvicEnable(IrqVector::RtcAlarm),
            RegWrite::NvicUnpend(IrqVector::RtcAlarm),
            RegWrite::ExtiInterruptMask(ExtiLine::RtcAlarm),
            RegWrite::ExtiRisingEdge(ExtiLine::RtcAlarm),
            RegWrite::ExtiClearPending(ExtiLine::RtcAlarm),
        ]
    );
}

#[test]
fn alarm_arming_writes_exactly_wfe() {
    let d = Device::power_on(false, false, 0);
    let b = SleepModeBuilder::new(SleepMode::StopRegulatorOn, SleepModeEntry::WFE, d);
    let k = b.dev.trace.len();
    let b = b.enable_wakeup_alarm(3);
    // Entry by wait-for-event selects the event mask instead of the
    // interrupt mask; the rest is identical.
    assert_eq!(b.dev.trace[k + 4], RegWrite::ExtiEventMask(ExtiLine::RtcAlarm));
    assert_eq!(b.dev.trace.len() - k, 7);
}

#[test]
fn builder_and_monolithic_traces_match_without_alarm() {
    let builder_dev = SleepModeBuilder::new(
        SleepMode::StopRegulatorOn,
        SleepModeEntry::WFE,
        Device::power_on(true, false, 0),
    )
        .enable_wakeup_pin()
        .enable_debug()
        .enter();
    let mono_dev = enter_sleep_mode(
        Device::power_on(true, false, 0),
        SleepMode::StopRegulatorOn,
        SleepModeEntry::WFE,
        false,
        true,
        true,
    );
    assert_eq!(builder_dev.trace, mono_dev.trace);
}

#[test]
fn builder_and_monolithic_traces_match_up_to_alarm_programming() {
    let builder_dev = SleepModeBuilder::new(
        SleepMode::StopRegulatorLP,
        SleepModeEntry::WFI,
        Device::power_on(false, true, 500),
    )
        .enable_wakeup_alarm(20)
        .enter();
    let mono_dev = enter_sleep_mode(
        Device::power_on(false, true, 500),
        SleepMode::StopRegulatorLP,
        SleepModeEntry::WFI,
        true,
        false,
        false,
    );
    // The two traces agree except that the builder inserts its alarm
    // auto-programming just before the wait instruction.
    let n = mono_dev.trace.len();
    assert_eq!(builder_dev.trace.len(), n + 2);
    assert_eq!(&builder_dev.trace[..n - 1], &mono_dev.trace[..n - 1]);
    assert_eq!(builder_dev.trace[n - 1], RegWrite::RtcClearAlarmFlag);
    assert_eq!(builder_dev.trace[n], RegWrite::RtcSetAlarm(520));
    assert_eq!(builder_dev.trace[n + 1], RegWrite::Wfi);
    assert_eq!(mono_dev.trace[n - 1], RegWrite::Wfi);
}

#[test]
fn debug_retention_sets_all_three_bits_in_every_mode() {
    let modes = [
        SleepMode::Sleep,
        SleepMode::StopRegulatorOn,
        SleepMode::StopRegulatorLP,
        SleepMode::Standby,
    ];
    for mode in modes {
        let d = enter_sleep_mode(
            Device::power_on(false, false, 0),
            mode,
            SleepModeEntry::WFE,
            false,
            false,
            true,
        );
        assert!(d.regs.dbg_sleep);
        assert!(d.regs.dbg_stop);
        assert!(d.regs.dbg_standby);
        assert!(d.trace.contains(&RegWrite::DebugRetention));
    }
}

#[test]
fn no_debug_request_leaves_retention_bits_alone() {
    let d = enter_sleep_mode(
        Device::power_on(true, true, 0),
        SleepMode::StopRegulatorLP,
        SleepModeEntry::WFI,
        true,
        true,
        false,
    );
    assert!(!d.regs.dbg_sleep);
    assert!(!d.regs.dbg_stop);
    assert!(!d.regs.dbg_standby);
    assert!(!d.trace.contains(&RegWrite::DebugRetention));
}

#[test]
fn stop_lp_wfi_alarm_scenario() {
    // Stop mode with the regulator in low power, entry by WFI, alarm wake
    // armed, no pin wake, no debug, both residue flags initially set.
    let d = enter_sleep_mode(
        Device::power_on(true, true, 1000),
        SleepMode::StopRegulatorLP,
        SleepModeEntry::WFI,
        true,
        false,
        false,
    );
    assert_eq!(
        d.trace,
        vec![
            RegWrite::SleepDeep(true),
            RegWrite::PowerDown(false),
            RegWrite::LowPowerRegulator(true),
            RegWrite::ClearStandbyFlag,
            RegWrite::ClearWakeupFlag,
            RegWrite::NvicEnable(IrqVector::Rtc),
            RegWrite::NvicUnpend(IrqVector::Rtc),
            RegWrite::NvicEnable(IrqVector::RtcAlarm),
            RegWrite::NvicUnpend(IrqVector::RtcAlarm),
            RegWrite::ExtiInterruptMask(ExtiLine::RtcAlarm),
            RegWrite::ExtiRisingEdge(ExtiLine::RtcAlarm),
            RegWrite::ExtiClearPending(ExtiLine::RtcAlarm),
            RegWrite::Wfi,
        ]
    );
    // Line 17 is the RTC alarm line: its interrupt-mask and rising-edge bits
    // are set and its pending bit is clear.
    assert_eq!(line_index(ExtiLine::RtcAlarm), 17);
    assert!(d.regs.imr17);
    assert!(d.regs.rtsr17);
    assert!(!d.regs.pr17);
    assert!(d.regs.sleepdeep);
    assert!(!d.regs.pdds);
    assert!(d.regs.lpds);
    assert!(!d.regs.sbf);
    assert!(!d.regs.wuf);
}

#[test]
fn standby_wfi_pin_scenario() {
    // Standby with pin wake: the pin-enable bit is set, line 0 stays
    // untouched because Standby wakes via reset, then WFI.
    let d = enter_sleep_mode(
        Device::power_on(false, false, 0),
        SleepMode::Standby,
        SleepModeEntry::WFI,
        false,
        true,
        false,
    );
    assert_eq!(
        d.trace,
        vec![
            RegWrite::SleepDeep(true),
            RegWrite::PowerDown(true),
            RegWrite::PowerInterfaceClockOn,
            RegWrite::WakeupPinEnable,
            RegWrite::Wfi,
        ]
    );
    assert_eq!(line_index(ExtiLine::WakeupPin), 0);
    assert!(d.regs.sleepdeep);
    assert!(d.regs.pdds);
    assert!(d.regs.ewup);
    assert!(!d.regs.imr0);
    assert!(!d.regs.emr0);
    assert!(!d.regs.rtsr0);
    assert!(!d.regs.exti0_enabled);
}

#[test]
fn builder_enter_programs_alarm_from_current_seconds() {
    let d = SleepModeBuilder::new(
        SleepMode::Sleep,
        SleepModeEntry::WFE,
        Device::power_on(false, false, 7),
    )
        .enable_wakeup_alarm(13)
        .enter();
    assert_eq!(d.regs.alarm_value, 20);
    assert!(!d.regs.alarm_flag);
    assert_eq!(*d.trace.last().unwrap(), RegWrite::Wfe);
}

#[test]
fn wait_instruction_follows_entry_kind() {
    let wfi = enter_sleep_mode(
        Device::power_on(false, false, 0),
        SleepMode::Sleep,
        SleepModeEntry::WFI,
        false,
        false,
        false,
    );
    assert_eq!(*wfi.trace.last().unwrap(), RegWrite::Wfi);
    let wfe = enter_sleep_mode(
        Device::power_on(false, false, 0),
        SleepMode::Sleep,
        SleepModeEntry::WFE,
        false,
        false,
        false,
    );
    assert_eq!(*wfe.trace.last().unwrap(), RegWrite::Wfe);
}
