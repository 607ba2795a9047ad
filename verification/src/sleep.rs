//! Sleep-mode selection and the ordered entry protocol.

use vstd::prelude::*;

use crate::regs::Device;
use crate::regs::ExtiLine;
use crate::regs::IrqVector;
use crate::regs::RegWrite;
use crate::regs::Regs;
use crate::regs::apply_write;
use crate::regs::apply_writes;
use crate::regs::lemma_apply_writes_concat;
use crate::regs::lemma_apply_writes_one;
use crate::regs::lemma_apply_writes_three;
use crate::regs::lemma_apply_writes_two;
use crate::regs::lemma_writes_assoc;
use crate::regs::spec_line_index;

verus! {

/// Sleep modes in descending order of power usage and in ascending order of
/// wakeup time.
#[derive(Clone, Copy, PartialEq, Eq, Structural, Debug)]
pub enum SleepMode {
    /// CPU clock off only (default for a bare wait instruction).
    Sleep,
    /// All domain clocks off, voltage regulator on.
    StopRegulatorOn,
    /// All domain clocks off, voltage regulator in low-power mode.
    StopRegulatorLP,
    /// All domain clocks off, voltage regulator off; wakes via reset.
    Standby,
}

/// The CPU wait instruction that suspends execution.
#[derive(Clone, Copy, PartialEq, Eq, Structural, Debug)]
pub enum SleepModeEntry {
    /// Wait for interrupt.
    WFI,
    /// Wait for event; offers the lowest wakeup time.
    WFE,
}

/// The deep-sleep control bit value for a mode: clear for `Sleep`, set for
/// every deeper mode.
pub open spec fn spec_deep_sleep_bit(mode: SleepMode) -> bool {
    !(mode is Sleep)
}

/// True for the modes that resume in place via an interrupt or event;
/// false for `Standby`, which wakes via reset, so interrupt wiring is
/// meaningless there.
pub open spec fn spec_is_sleep_or_stop(mode: SleepMode) -> bool {
    !(mode is Standby)
}

/// Steps 1 and 2 of the entry protocol: the deep-sleep bit write followed by
/// the power-down / regulator bit writes selected by the mode.
pub open spec fn mode_setup_writes(mode: SleepMode) -> Seq<RegWrite> {
    seq![RegWrite::SleepDeep(spec_deep_sleep_bit(mode))] + match mode {
        SleepMode::Sleep => seq![RegWrite::PowerDown(false)],
        SleepMode::StopRegulatorOn => seq![
            RegWrite::PowerDown(false),
            RegWrite::LowPowerRegulator(false),
        ],
        SleepMode::StopRegulatorLP => seq![
            RegWrite::PowerDown(false),
            RegWrite::LowPowerRegulator(true),
        ],
        SleepMode::Standby => seq![RegWrite::PowerDown(true)],
    }
}

/// Step 3: clear whichever residue flags were found set.
pub open spec fn residue_clear_writes(sbf: bool, wuf: bool) -> Seq<RegWrite> {
    (if sbf {
        seq![RegWrite::ClearStandbyFlag]
    } else {
        Seq::<RegWrite>::empty()
    }) + (if wuf {
        seq![RegWrite::ClearWakeupFlag]
    } else {
        Seq::<RegWrite>::empty()
    })
}

/// The mask-register write for a wake line: the interrupt mask when entry is
/// by wait-for-interrupt, the event mask when entry is by wait-for-event.
pub open spec fn mask_bit_write(entry: SleepModeEntry, line: ExtiLine) -> RegWrite {
    match entry {
        SleepModeEntry::WFI => RegWrite::ExtiInterruptMask(line),
        SleepModeEntry::WFE => RegWrite::ExtiEventMask(line),
    }
}

/// The external-interrupt wiring of one wake line: mask bit, rising-edge
/// trigger, pending-bit clear.
pub open spec fn exti_wiring_writes(entry: SleepModeEntry, line: ExtiLine) -> Seq<RegWrite> {
    seq![
        mask_bit_write(entry, line),
        RegWrite::ExtiRisingEdge(line),
        RegWrite::ExtiClearPending(line),
    ]
}

/// Step 4: arm the RTC-alarm wake path. On `Standby` no write is issued: the
/// device wakes via reset, so the interrupt wiring is skipped, and the alarm
/// itself is programmed elsewhere.
pub open spec fn alarm_arm_writes(mode: SleepMode, entry: SleepModeEntry) -> Seq<RegWrite> {
    if spec_is_sleep_or_stop(mode) {
        seq![
            RegWrite::NvicEnable(IrqVector::Rtc),
            RegWrite::NvicUnpend(IrqVector::Rtc),
            RegWrite::NvicEnable(IrqVector::RtcAlarm),
            RegWrite::NvicUnpend(IrqVector::RtcAlarm),
        ] + exti_wiring_writes(entry, ExtiLine::RtcAlarm)
    } else {
        Seq::<RegWrite>::empty()
    }
}

/// Step 5: arm the wakeup-pin wake path. The bus clock and the always-on
/// enable bit are written in every mode; the interrupt wiring only when the
/// mode resumes in place.
pub open spec fn pin_arm_writes(mode: SleepMode, entry: SleepModeEntry) -> Seq<RegWrite> {
    seq![RegWrite::PowerInterfaceClockOn, RegWrite::WakeupPinEnable] + if spec_is_sleep_or_stop(
        mode,
    ) {
        seq![
            RegWrite::NvicEnable(IrqVector::Exti0),
            RegWrite::NvicUnpend(IrqVector::Exti0),
        ] + exti_wiring_writes(entry, ExtiLine::WakeupPin)
    } else {
        Seq::<RegWrite>::empty()
    }
}

/// Step 6: the debug-retention write, if requested.
pub open spec fn debug_retention_writes(debug: bool) -> Seq<RegWrite> {
    if debug {
        seq![RegWrite::DebugRetention]
    } else {
        Seq::<RegWrite>::empty()
    }
}

/// Step 7: the wait instruction selected by the entry kind.
pub open spec fn wait_write(entry: SleepModeEntry) -> RegWrite {
    match entry {
        SleepModeEntry::WFI => RegWrite::Wfi,
        SleepModeEntry::WFE => RegWrite::Wfe,
    }
}

/// The alarm auto-programming the builder form performs just before the wait
/// instruction: clear the alarm flag, then set the compare value to the
/// current seconds counter plus the requested offset.
pub open spec fn alarm_commit_writes(wakeup_alarm: Option<u32>, now: u32) -> Seq<RegWrite> {
    match wakeup_alarm {
        Option::Some(secs) => seq![
            RegWrite::RtcClearAlarmFlag,
            RegWrite::RtcSetAlarm((now + secs) as u32),
        ],
        Option::None => Seq::<RegWrite>::empty(),
    }
}

/// The whole write sequence of one monolithic entry call: steps 1 through 7
/// in order, with the optional steps present exactly when requested.
pub open spec fn entry_trace(
    mode: SleepMode,
    entry: SleepModeEntry,
    sbf: bool,
    wuf: bool,
    wakeup_alarm: bool,
    wakeup_pin: bool,
    debug: bool,
) -> Seq<RegWrite> {
    mode_setup_writes(mode) + residue_clear_writes(sbf, wuf) + (if wakeup_alarm {
        alarm_arm_writes(mode, entry)
    } else {
        Seq::<RegWrite>::empty()
    }) + (if wakeup_pin {
        pin_arm_writes(mode, entry)
    } else {
        Seq::<RegWrite>::empty()
    }) + debug_retention_writes(debug) + seq![wait_write(entry)]
}

/// The whole write sequence of one builder-form entry: as [`entry_trace`],
/// with the alarm auto-programming inserted just before the wait instruction
/// when an alarm was requested.
pub open spec fn builder_trace(
    mode: SleepMode,
    entry: SleepModeEntry,
    sbf: bool,
    wuf: bool,
    wakeup_alarm: Option<u32>,
    wakeup_pin: bool,
    debug: bool,
    now: u32,
) -> Seq<RegWrite> {
    mode_setup_writes(mode) + residue_clear_writes(sbf, wuf) + (if wakeup_alarm is Some {
        alarm_arm_writes(mode, entry)
    } else {
        Seq::<RegWrite>::empty()
    }) + (if wakeup_pin {
        pin_arm_writes(mode, entry)
    } else {
        Seq::<RegWrite>::empty()
    }) + debug_retention_writes(debug) + alarm_commit_writes(wakeup_alarm, now) + seq![
        wait_write(entry),
    ]
}

/// Steps 1 and 2: write the deep-sleep bit, then the power-down and
/// regulator bits the mode calls for.
fn write_mode_setup(dev: &mut Device, mode: SleepMode)
    requires
        old(dev).wf(),
    ensures
        final(dev).wf(),
        final(dev).boot == old(dev).boot,
        final(dev).trace@ == old(dev).trace@ + mode_setup_writes(mode),
        final(dev).regs.sleepdeep == spec_deep_sleep_bit(mode),
        final(dev).regs.pdds == (mode is Standby),
        final(dev).regs.sbf == old(dev).regs.sbf,
        final(dev).regs.wuf == old(dev).regs.wuf,
        final(dev).regs.rtc_seconds == old(dev).regs.rtc_seconds,
{
    match mode {
        SleepMode::Sleep => dev.write(RegWrite::SleepDeep(false)),
        _ => dev.write(RegWrite::SleepDeep(true)),
    }
    match mode {
        SleepMode::Sleep => {
            dev.write(RegWrite::PowerDown(false));
        },
        SleepMode::StopRegulatorOn => {
            dev.write(RegWrite::PowerDown(false));
            dev.write(RegWrite::LowPowerRegulator(false));
        },
        SleepMode::StopRegulatorLP => {
            dev.write(RegWrite::PowerDown(false));
            dev.write(RegWrite::LowPowerRegulator(true));
        },
        SleepMode::Standby => {
            dev.write(RegWrite::PowerDown(true));
        },
    }
    proof {
        assert(dev.trace@ =~= old(dev).trace@ + mode_setup_writes(mode));
    }
}

/// Step 3: read the residue flags and clear whichever is set, so that no
/// stale flag short-circuits the wait instruction.
fn clear_residue_flags(dev: &mut Device)
    requires
        old(dev).wf(),
    ensures
        final(dev).wf(),
        final(dev).boot == old(dev).boot,
        final(dev).trace@ == old(dev).trace@ + residue_clear_writes(
            old(dev).regs.sbf,
            old(dev).regs.wuf,
        ),
        !final(dev).regs.sbf,
        !final(dev).regs.wuf,
        final(dev).regs.rtc_seconds == old(dev).regs.rtc_seconds,
{
    let standby_flag = dev.regs.sbf;
    if standby_flag {
        dev.write(RegWrite::ClearStandbyFlag);
    }
    let wakeup_flag = dev.regs.wuf;
    if wakeup_flag {
        dev.write(RegWrite::ClearWakeupFlag);
    }
    proof {
        assert(dev.trace@ =~= old(dev).trace@ + residue_clear_writes(
            old(dev).regs.sbf,
            old(dev).regs.wuf,
        ));
    }
}

/// Step 4: arm the RTC-alarm wake path, skipping the interrupt wiring on
/// `Standby`.
fn arm_alarm_wake(dev: &mut Device, mode: SleepMode, entry: SleepModeEntry)
    requires
        old(dev).wf(),
    ensures
        final(dev).wf(),
        final(dev).boot == old(dev).boot,
        final(dev).trace@ == old(dev).trace@ + alarm_arm_writes(mode, entry),
        final(dev).regs.rtc_seconds == old(dev).regs.rtc_seconds,
{
    if mode_is_sleep_or_stop(mode) {
        dev.write(RegWrite::NvicEnable(IrqVector::Rtc));
        dev.write(RegWrite::NvicUnpend(IrqVector::Rtc));
        dev.write(RegWrite::NvicEnable(IrqVector::RtcAlarm));
        dev.write(RegWrite::NvicUnpend(IrqVector::RtcAlarm));
        match entry {
            SleepModeEntry::WFI => dev.write(RegWrite::ExtiInterruptMask(ExtiLine::RtcAlarm)),
            SleepModeEntry::WFE => dev.write(RegWrite::ExtiEventMask(ExtiLine::RtcAlarm)),
        }
        dev.write(RegWrite::ExtiRisingEdge(ExtiLine::RtcAlarm));
        dev.write(RegWrite::ExtiClearPending(ExtiLine::RtcAlarm));
    }
    proof {
        assert(dev.trace@ =~= old(dev).trace@ + alarm_arm_writes(mode, entry));
    }
}

/// Step 5: arm the wakeup-pin wake path. The bus clock and the always-on
/// enable bit take effect in every mode, `Standby` included; the interrupt
/// wiring is gated as in step 4.
fn arm_pin_wake(dev: &mut Device, mode: SleepMode, entry: SleepModeEntry)
    requires
        old(dev).wf(),
    ensures
        final(dev).wf(),
        final(dev).boot == old(dev).boot,
        final(dev).trace@ == old(dev).trace@ + pin_arm_writes(mode, entry),
        final(dev).regs.rtc_seconds == old(dev).regs.rtc_seconds,
{
    dev.write(RegWrite::PowerInterfaceClockOn);
    dev.write(RegWrite::WakeupPinEnable);
    if mode_is_sleep_or_stop(mode) {
        dev.write(RegWrite::NvicEnable(IrqVector::Exti0));
        dev.write(RegWrite::NvicUnpend(IrqVector::Exti0));
        match entry {
            SleepModeEntry::WFI => dev.write(RegWrite::ExtiInterruptMask(ExtiLine::WakeupPin)),
            SleepModeEntry::WFE => dev.write(RegWrite::ExtiEventMask(ExtiLine::WakeupPin)),
        }
        dev.write(RegWrite::ExtiRisingEdge(ExtiLine::WakeupPin));
        dev.write(RegWrite::ExtiClearPending(ExtiLine::WakeupPin));
    }
    proof {
        assert(dev.trace@ =~= old(dev).trace@ + pin_arm_writes(mode, entry));
    }
}

/// Step 7 (with the builder's alarm auto-programming first, when requested):
/// program the alarm, then issue the wait instruction.
fn commit_and_wait(dev: &mut Device, entry: SleepModeEntry, wakeup_alarm: Option<u32>)
    requires
        old(dev).wf(),
        wakeup_alarm matches Some(secs) ==> old(dev).regs.rtc_seconds + secs <= u32::MAX,
    ensures
        final(dev).wf(),
        final(dev).boot == old(dev).boot,
        final(dev).trace@ == old(dev).trace@ + alarm_commit_writes(
            wakeup_alarm,
            old(dev).regs.rtc_seconds,
        ) + seq![wait_write(entry)],
{
    if let Some(secs) = wakeup_alarm {
        let now = dev.regs.rtc_seconds;
        dev.write(RegWrite::RtcClearAlarmFlag);
        dev.write(RegWrite::RtcSetAlarm(now + secs));
    }
    match entry {
        SleepModeEntry::WFI => dev.write(RegWrite::Wfi),
        SleepModeEntry::WFE => dev.write(RegWrite::Wfe),
    }
    proof {
        assert(dev.trace@ =~= old(dev).trace@ + alarm_commit_writes(
            wakeup_alarm,
            old(dev).regs.rtc_seconds,
        ) + seq![wait_write(entry)]);
    }
}

/// Whether a mode resumes in place via an interrupt or event.
fn mode_is_sleep_or_stop(mode: SleepMode) -> (r: bool)
    ensures
        r == spec_is_sleep_or_stop(mode),
{
    match mode {
        SleepMode::Sleep => true,
        SleepMode::StopRegulatorOn => true,
        SleepMode::StopRegulatorLP => true,
        _ => false,
    }
}

/// Stepwise configuration form of the controller.
///
/// Construction performs steps 1 through 3 of the entry protocol at once, so
/// the residue flags are cleared even when no optional step is taken; each
/// optional step arms its wake source; [`SleepModeBuilder::enter`] programs
/// the alarm when one was requested and issues the wait instruction.
pub struct SleepModeBuilder {
    /// The requested sleep depth.
    pub sleep_mode: SleepMode,
    /// The wait instruction that will suspend execution.
    pub sleep_mode_entry: SleepModeEntry,
    /// The device the protocol is performed on.
    pub dev: Device,
    /// The requested alarm offset in seconds, if alarm wake was enabled.
    pub wakeup_alarm: Option<u32>,
}

impl SleepModeBuilder {
    /// The device's register state matches its trace.
    pub open spec fn wf(self) -> bool {
        self.dev.wf()
    }

    /// Begin an entry: perform steps 1 through 3 of the protocol (deep-sleep
    /// bit, power-down and regulator bits, residue-flag clearing) on the
    /// device at once.
    pub fn new(sleep_mode: SleepMode, sleep_mode_entry: SleepModeEntry, dev: Device) -> (b:
        SleepModeBuilder)
        requires
            dev.wf(),
        ensures
            b.wf(),
            b.sleep_mode == sleep_mode,
            b.sleep_mode_entry == sleep_mode_entry,
            b.wakeup_alarm is None,
            b.dev.boot == dev.boot,
            b.dev.trace@ == dev.trace@ + mode_setup_writes(sleep_mode) + residue_clear_writes(
                dev.regs.sbf,
                dev.regs.wuf,
            ),
            !b.dev.regs.sbf,
            !b.dev.regs.wuf,
            b.dev.regs.rtc_seconds == dev.regs.rtc_seconds,
    {
        let mut dev = dev;
        write_mode_setup(&mut dev, sleep_mode);
        clear_residue_flags(&mut dev);
        SleepModeBuilder { sleep_mode, sleep_mode_entry, dev, wakeup_alarm: None }
    }

    /// Request wake by RTC alarm, `secs` seconds from now: remember the
    /// offset for the commit step and, unless the mode is `Standby`, wire the
    /// alarm's interrupt path (step 4).
    pub fn enable_wakeup_alarm(self, secs: u32) -> (b: SleepModeBuilder)
        requires
            self.wf(),
        ensures
            b.wf(),
            b.sleep_mode == self.sleep_mode,
            b.sleep_mode_entry == self.sleep_mode_entry,
            b.wakeup_alarm == Some(secs),
            b.dev.boot == self.dev.boot,
            b.dev.trace@ == self.dev.trace@ + alarm_arm_writes(
                self.sleep_mode,
                self.sleep_mode_entry,
            ),
            b.dev.regs.rtc_seconds == self.dev.regs.rtc_seconds,
    {
        let mut b = self;
        b.wakeup_alarm = Some(secs);
        let mode = b.sleep_mode;
        let entry = b.sleep_mode_entry;
        arm_alarm_wake(&mut b.dev, mode, entry);
        b
    }

    /// Request wake by the wakeup pin: enable the power-interface bus clock
    /// and the always-on pin-enable bit, and, unless the mode is `Standby`,
    /// wire the pin's interrupt path (step 5).
    pub fn enable_wakeup_pin(self) -> (b: SleepModeBuilder)
        requires
            self.wf(),
        ensures
            b.wf(),
            b.sleep_mode == self.sleep_mode,
            b.sleep_mode_entry == self.sleep_mode_entry,
            b.wakeup_alarm == self.wakeup_alarm,
            b.dev.boot == self.dev.boot,
            b.dev.trace@ == self.dev.trace@ + pin_arm_writes(
                self.sleep_mode,
                self.sleep_mode_entry,
            ),
            b.dev.regs.rtc_seconds == self.dev.regs.rtc_seconds,
    {
        let mut b = self;
        let mode = b.sleep_mode;
        let entry = b.sleep_mode_entry;
        arm_pin_wake(&mut b.dev, mode, entry);
        b
    }

    /// Keep the debug clocks running while asleep: set all three retention
    /// bits (step 6), whatever the mode and entry kind.
    pub fn enable_debug(self) -> (b: SleepModeBuilder)
        requires
            self.wf(),
        ensures
            b.wf(),
            b.sleep_mode == self.sleep_mode,
            b.sleep_mode_entry == self.sleep_mode_entry,
            b.wakeup_alarm == self.wakeup_alarm,
            b.dev.boot == self.dev.boot,
            b.dev.trace@ == self.dev.trace@ + debug_retention_writes(true),
            b.dev.regs.rtc_seconds == self.dev.regs.rtc_seconds,
    {
        let mut b = self;
        b.dev.write(RegWrite::DebugRetention);
        proof {
            assert(b.dev.trace@ =~= self.dev.trace@ + debug_retention_writes(true));
        }
        b
    }

    /// Commit: if an alarm was requested, clear the alarm flag and program
    /// the compare value to now plus the requested offset; then issue the
    /// wait instruction (step 7). Consumes the builder and hands the device
    /// back. On real hardware the `Standby` path never returns: the device
    /// wakes via reset.
    pub fn enter(self) -> (d: Device)
        requires
            self.wf(),
            self.wakeup_alarm matches Some(secs) ==> self.dev.regs.rtc_seconds + secs
                <= u32::MAX,
        ensures
            d.wf(),
            d.boot == self.dev.boot,
            d.trace@ == self.dev.trace@ + alarm_commit_writes(
                self.wakeup_alarm,
                self.dev.regs.rtc_seconds,
            ) + seq![wait_write(self.sleep_mode_entry)],
    {
        let entry = self.sleep_mode_entry;
        let wakeup_alarm = self.wakeup_alarm;
        let mut dev = self.dev;
        commit_and_wait(&mut dev, entry, wakeup_alarm);
        dev
    }

    /// Whether the chosen mode resumes in place via an interrupt or event.
    pub fn is_sleep_or_stop_mode(&self) -> (r: bool)
        ensures
            r == spec_is_sleep_or_stop(self.sleep_mode),
    {
        mode_is_sleep_or_stop(self.sleep_mode)
    }
}

/// Monolithic form of the controller: the whole ordered protocol in one
/// call, wake sources and debug retention chosen by flags.
///
/// Unlike the builder form, this form never programs the RTC alarm compare
/// value: a caller requesting alarm wake must have programmed a future alarm
/// value already. On real hardware the `Standby` path never returns: the
/// device wakes via reset.
#[verifier::rlimit(60)]
pub fn enter_sleep_mode(
    dev: Device,
    sleep_mode: SleepMode,
    sleep_mode_entry: SleepModeEntry,
    wakeup_alarm: bool,
    wakeup_pin: bool,
    debug: bool,
) -> (d: Device)
    requires
        dev.wf(),
    ensures
        d.wf(),
        d.boot == dev.boot,
        d.trace@ == dev.trace@ + entry_trace(
            sleep_mode,
            sleep_mode_entry,
            dev.regs.sbf,
            dev.regs.wuf,
            wakeup_alarm,
            wakeup_pin,
            debug,
        ),
{
    let ghost t0 = dev.trace@;
    let ghost r0 = dev.regs;
    let mut dev = dev;
    write_mode_setup(&mut dev, sleep_mode);
    clear_residue_flags(&mut dev);
    let ghost s2 = mode_setup_writes(sleep_mode) + residue_clear_writes(r0.sbf, r0.wuf);
    proof {
        lemma_writes_assoc(t0, mode_setup_writes(sleep_mode), residue_clear_writes(r0.sbf, r0.wuf));
        assert(dev.trace@ == t0 + s2);
    }
    if wakeup_alarm {
        arm_alarm_wake(&mut dev, sleep_mode, sleep_mode_entry);
    }
    let ghost aa = if wakeup_alarm {
        alarm_arm_writes(sleep_mode, sleep_mode_entry)
    } else {
        Seq::<RegWrite>::empty()
    };
    let ghost s3 = s2 + aa;
    proof {
        if wakeup_alarm {
            lemma_writes_assoc(t0, s2, aa);
        } else {
            assert(dev.trace@ + aa =~= dev.trace@);
        }
        assert(dev.trace@ == t0 + s3);
    }
    if wakeup_pin {
        arm_pin_wake(&mut dev, sleep_mode, sleep_mode_entry);
    }
    let ghost pa = if wakeup_pin {
        pin_arm_writes(sleep_mode, sleep_mode_entry)
    } else {
        Seq::<RegWrite>::empty()
    };
    let ghost s4 = s3 + pa;
    proof {
        if wakeup_pin {
            lemma_writes_assoc(t0, s3, pa);
        } else {
            assert(dev.trace@ + pa =~= dev.trace@);
        }
        assert(dev.trace@ == t0 + s4);
    }
    if debug {
        dev.write(RegWrite::DebugRetention);
    }
    let ghost db = debug_retention_writes(debug);
    let ghost s5 = s4 + db;
    proof {
        if debug {
            assert(dev.trace@ =~= (t0 + s4) + db);
        } else {
            assert((t0 + s4) + db =~= t0 + s4);
        }
        lemma_writes_assoc(t0, s4, db);
        assert(dev.trace@ == t0 + s5);
    }
    let ghost before_wait = dev;
    commit_and_wait(&mut dev, sleep_mode_entry, None);
    proof {
        let w = seq![wait_write(sleep_mode_entry)];
        let cm = alarm_commit_writes(Option::<u32>::None, before_wait.regs.rtc_seconds);
        assert((t0 + s5) + cm =~= t0 + s5);
        lemma_writes_assoc(t0, s5, w);
        assert(dev.trace@ == t0 + (s5 + w));
        assert(s5 + w == entry_trace(
            sleep_mode,
            sleep_mode_entry,
            r0.sbf,
            r0.wuf,
            wakeup_alarm,
            wakeup_pin,
            debug,
        ));
    }
    dev
}

/// A write that arms a wake source: interrupt-controller wiring,
/// external-line wiring, the bus-clock enable, or the wake-enable bit.
pub open spec fn is_wake_arm_write(w: RegWrite) -> bool {
    ||| w is NvicEnable
    ||| w is NvicUnpend
    ||| w is ExtiInterruptMask
    ||| w is ExtiEventMask
    ||| w is ExtiRisingEdge
    ||| w is ExtiClearPending
    ||| w is PowerInterfaceClockOn
    ||| w is WakeupPinEnable
}

/// A write to the interrupt controller or the external-interrupt registers.
pub open spec fn touches_irq_wiring(w: RegWrite) -> bool {
    ||| w is NvicEnable
    ||| w is NvicUnpend
    ||| w is ExtiInterruptMask
    ||| w is ExtiEventMask
    ||| w is ExtiRisingEdge
    ||| w is ExtiClearPending
}

/// The mode table, row `Sleep`: after the mode-setup writes the deep-sleep
/// bit and the power-down bit are clear, the low-power-regulator bit is left
/// as it was, and the mode resumes in place.
pub proof fn lemma_mode_bits_sleep(r: Regs)
    ensures
        ({
            let r2 = apply_writes(r, mode_setup_writes(SleepMode::Sleep));
            &&& !r2.sleepdeep
            &&& !r2.pdds
            &&& r2.lpds == r.lpds
        }),
        spec_is_sleep_or_stop(SleepMode::Sleep),
{
    lemma_mode_setup_two(r, SleepMode::Sleep, false, false);
}

/// The mode table, row `StopRegulatorOn`: after the mode-setup writes the
/// deep-sleep bit is set, the power-down bit is clear, the
/// low-power-regulator bit is clear, and the mode resumes in place.
pub proof fn lemma_mode_bits_stop_regulator_on(r: Regs)
    ensures
        ({
            let r2 = apply_writes(r, mode_setup_writes(SleepMode::StopRegulatorOn));
            &&& r2.sleepdeep
            &&& !r2.pdds
            &&& !r2.lpds
        }),
        spec_is_sleep_or_stop(SleepMode::StopRegulatorOn),
{
    lemma_mode_setup_three(r, SleepMode::StopRegulatorOn, false);
}

/// The mode table, row `StopRegulatorLP`: after the mode-setup writes the
/// deep-sleep bit is set, the power-down bit is clear, the
/// low-power-regulator bit is set, and the mode resumes in place.
pub proof fn lemma_mode_bits_stop_regulator_lp(r: Regs)
    ensures
        ({
            let r2 = apply_writes(r, mode_setup_writes(SleepMode::StopRegulatorLP));
            &&& r2.sleepdeep
            &&& !r2.pdds
            &&& r2.lpds
        }),
        spec_is_sleep_or_stop(SleepMode::StopRegulatorLP),
{
    lemma_mode_setup_three(r, SleepMode::StopRegulatorLP, true);
}

/// The mode table, row `Standby`: after the mode-setup writes the deep-sleep
/// bit and the power-down bit are both set, the low-power-regulator bit is
/// left as it was (irrelevant once power-down is set), and the mode wakes
/// via reset, not in place.
pub proof fn lemma_mode_bits_standby(r: Regs)
    ensures
        ({
            let r2 = apply_writes(r, mode_setup_writes(SleepMode::Standby));
            &&& r2.sleepdeep
            &&& r2.pdds
            &&& r2.lpds == r.lpds
        }),
        !spec_is_sleep_or_stop(SleepMode::Standby),
{
    lemma_mode_setup_two(r, SleepMode::Standby, true, true);
}

/// The two-write mode setups (`Sleep`, `Standby`), reduced to single writes.
proof fn lemma_mode_setup_two(r: Regs, mode: SleepMode, deep: bool, pdds: bool)
    requires
        mode is Sleep || mode is Standby,
        deep == (mode is Standby),
        pdds == (mode is Standby),
    ensures
        apply_writes(r, mode_setup_writes(mode)) == apply_write(
            apply_write(r, RegWrite::SleepDeep(deep)),
            RegWrite::PowerDown(pdds),
        ),
{
    assert(mode_setup_writes(mode) =~= seq![
        RegWrite::SleepDeep(deep),
        RegWrite::PowerDown(pdds),
    ]);
    lemma_apply_writes_two(r, RegWrite::SleepDeep(deep), RegWrite::PowerDown(pdds));
}

/// The three-write mode setups (the two stop modes), reduced to single
/// writes.
proof fn lemma_mode_setup_three(r: Regs, mode: SleepMode, lpds: bool)
    requires
        mode is StopRegulatorOn || mode is StopRegulatorLP,
        lpds == (mode is StopRegulatorLP),
    ensures
        apply_writes(r, mode_setup_writes(mode)) == apply_write(
            apply_write(apply_write(r, RegWrite::SleepDeep(true)), RegWrite::PowerDown(false)),
            RegWrite::LowPowerRegulator(lpds),
        ),
{
    assert(mode_setup_writes(mode) =~= seq![
        RegWrite::SleepDeep(true),
        RegWrite::PowerDown(false),
        RegWrite::LowPowerRegulator(lpds),
    ]);
    lemma_apply_writes_three(
        r,
        RegWrite::SleepDeep(true),
        RegWrite::PowerDown(false),
        RegWrite::LowPowerRegulator(lpds),
    );
}

/// With both residue flags set on entry, every entry trace clears both
/// immediately after the mode-setup writes, and no wake-arming write stands
/// at or before the two clears.
pub proof fn lemma_residue_cleared_before_arming(
    mode: SleepMode,
    entry: SleepModeEntry,
    wakeup_alarm: bool,
    wakeup_pin: bool,
    debug: bool,
)
    ensures
        ({
            let t = entry_trace(mode, entry, true, true, wakeup_alarm, wakeup_pin, debug);
            let k = mode_setup_writes(mode).len() as int;
            &&& t.len() >= k + 2
            &&& t[k] == RegWrite::ClearStandbyFlag
            &&& t[k + 1] == RegWrite::ClearWakeupFlag
            &&& forall|i: int| 0 <= i < k + 2 ==> !is_wake_arm_write(#[trigger] t[i])
        }),
{
    let ms = mode_setup_writes(mode);
    let rc = residue_clear_writes(true, true);
    let x = ms + rc;
    let aa = if wakeup_alarm {
        alarm_arm_writes(mode, entry)
    } else {
        Seq::<RegWrite>::empty()
    };
    let pa = if wakeup_pin {
        pin_arm_writes(mode, entry)
    } else {
        Seq::<RegWrite>::empty()
    };
    let db = debug_retention_writes(debug);
    let w = seq![wait_write(entry)];
    let t = entry_trace(mode, entry, true, true, wakeup_alarm, wakeup_pin, debug);
    lemma_writes_assoc(x, aa, pa);
    lemma_writes_assoc(x, aa + pa, db);
    lemma_writes_assoc(x, (aa + pa) + db, w);
    assert(t == x + (((aa + pa) + db) + w));
    assert(rc =~= seq![RegWrite::ClearStandbyFlag, RegWrite::ClearWakeupFlag]);
    let k = ms.len() as int;
    assert(t[k] == RegWrite::ClearStandbyFlag);
    assert(t[k + 1] == RegWrite::ClearWakeupFlag);
    assert forall|i: int| 0 <= i < k + 2 implies !is_wake_arm_write(#[trigger] t[i]) by {
        assert(t[i] == x[i]);
        if i < k {
            assert(x[i] == ms[i]);
            lemma_mode_setup_writes_shape(mode);
        } else {
            assert(x[i] == rc[i - k]);
        }
    }
}

/// The mode-setup writes touch only the deep-sleep, power-down and
/// regulator bits: none of them arms a wake source or writes a debug bit.
pub proof fn lemma_mode_setup_writes_shape(mode: SleepMode)
    ensures
        forall|i: int|
            0 <= i < mode_setup_writes(mode).len() ==> {
                let w = #[trigger] mode_setup_writes(mode)[i];
                &&& !is_wake_arm_write(w)
                &&& !(w is DebugRetention)
            },
{
    let ms = mode_setup_writes(mode);
    match mode {
        SleepMode::Sleep => {
            assert(ms =~= seq![RegWrite::SleepDeep(false), RegWrite::PowerDown(false)]);
        },
        SleepMode::StopRegulatorOn => {
            assert(ms =~= seq![
                RegWrite::SleepDeep(true),
                RegWrite::PowerDown(false),
                RegWrite::LowPowerRegulator(false),
            ]);
        },
        SleepMode::StopRegulatorLP => {
            assert(ms =~= seq![
                RegWrite::SleepDeep(true),
                RegWrite::PowerDown(false),
                RegWrite::LowPowerRegulator(true),
            ]);
        },
        SleepMode::Standby => {
            assert(ms =~= seq![RegWrite::SleepDeep(true), RegWrite::PowerDown(true)]);
        },
    }
}

/// On `Standby`, an alarm wake request issues no register write at all, and
/// a pin wake request writes exactly the bus-clock enable and the always-on
/// pin-enable bit: the interrupt controller and the external-interrupt
/// registers stay untouched.
pub proof fn lemma_standby_wake_skips_irq_wiring(entry: SleepModeEntry, r: Regs)
    ensures
        alarm_arm_writes(SleepMode::Standby, entry) == Seq::<RegWrite>::empty(),
        pin_arm_writes(SleepMode::Standby, entry) == seq![
            RegWrite::PowerInterfaceClockOn,
            RegWrite::WakeupPinEnable,
        ],
        apply_writes(r, pin_arm_writes(SleepMode::Standby, entry)).ewup,
        forall|i: int|
            0 <= i < pin_arm_writes(SleepMode::Standby, entry).len() ==> !touches_irq_wiring(
                #[trigger] pin_arm_writes(SleepMode::Standby, entry)[i],
            ),
{
    assert(alarm_arm_writes(SleepMode::Standby, entry) =~= Seq::<RegWrite>::empty());
    assert(pin_arm_writes(SleepMode::Standby, entry) =~= seq![
        RegWrite::PowerInterfaceClockOn,
        RegWrite::WakeupPinEnable,
    ]);
    lemma_apply_writes_two(r, RegWrite::PowerInterfaceClockOn, RegWrite::WakeupPinEnable);
}

/// For the modes that resume in place, alarm arming writes exactly: the two
/// RTC vectors enabled and unpended, one mask bit of line 17 chosen by the
/// entry kind, the rising-edge bit of line 17, and its pending-bit clear —
/// and nothing else.
pub proof fn lemma_alarm_arm_writes_exact(mode: SleepMode, entry: SleepModeEntry)
    requires
        spec_is_sleep_or_stop(mode),
    ensures
        alarm_arm_writes(mode, entry) == seq![
            RegWrite::NvicEnable(IrqVector::Rtc),
            RegWrite::NvicUnpend(IrqVector::Rtc),
            RegWrite::NvicEnable(IrqVector::RtcAlarm),
            RegWrite::NvicUnpend(IrqVector::RtcAlarm),
            mask_bit_write(entry, ExtiLine::RtcAlarm),
            RegWrite::ExtiRisingEdge(ExtiLine::RtcAlarm),
            RegWrite::ExtiClearPending(ExtiLine::RtcAlarm),
        ],
        mask_bit_write(entry, ExtiLine::RtcAlarm) == (match entry {
            SleepModeEntry::WFI => RegWrite::ExtiInterruptMask(ExtiLine::RtcAlarm),
            SleepModeEntry::WFE => RegWrite::ExtiEventMask(ExtiLine::RtcAlarm),
        }),
        spec_line_index(ExtiLine::RtcAlarm) == 17,
{
    assert(alarm_arm_writes(mode, entry) =~= seq![
        RegWrite::NvicEnable(IrqVector::Rtc),
        RegWrite::NvicUnpend(IrqVector::Rtc),
        RegWrite::NvicEnable(IrqVector::RtcAlarm),
        RegWrite::NvicUnpend(IrqVector::RtcAlarm),
        mask_bit_write(entry, ExtiLine::RtcAlarm),
        RegWrite::ExtiRisingEdge(ExtiLine::RtcAlarm),
        RegWrite::ExtiClearPending(ExtiLine::RtcAlarm),
    ]);
}

/// Builder and monolithic forms produce the same trace for the same
/// parameters, except that the builder form inserts its alarm
/// auto-programming writes immediately before the wait instruction; with no
/// alarm requested the two traces are identical.
pub proof fn lemma_builder_matches_monolithic(
    mode: SleepMode,
    entry: SleepModeEntry,
    sbf: bool,
    wuf: bool,
    wakeup_alarm: Option<u32>,
    wakeup_pin: bool,
    debug: bool,
    now: u32,
)
    ensures
        ({
            let bt = builder_trace(mode, entry, sbf, wuf, wakeup_alarm, wakeup_pin, debug, now);
            let mt = entry_trace(mode, entry, sbf, wuf, wakeup_alarm is Some, wakeup_pin, debug);
            &&& bt == mt.drop_last() + alarm_commit_writes(wakeup_alarm, now) + seq![
                wait_write(entry),
            ]
            &&& (wakeup_alarm is None ==> bt == mt)
        }),
{
    let x = mode_setup_writes(mode) + residue_clear_writes(sbf, wuf) + (if wakeup_alarm is Some {
        alarm_arm_writes(mode, entry)
    } else {
        Seq::<RegWrite>::empty()
    }) + (if wakeup_pin {
        pin_arm_writes(mode, entry)
    } else {
        Seq::<RegWrite>::empty()
    }) + debug_retention_writes(debug);
    let bt = builder_trace(mode, entry, sbf, wuf, wakeup_alarm, wakeup_pin, debug, now);
    let mt = entry_trace(mode, entry, sbf, wuf, wakeup_alarm is Some, wakeup_pin, debug);
    assert(mt == x + seq![wait_write(entry)]);
    assert(mt.drop_last() =~= x);
    assert(bt == (x + alarm_commit_writes(wakeup_alarm, now)) + seq![wait_write(entry)]);
    if wakeup_alarm is None {
        assert(alarm_commit_writes(wakeup_alarm, now) =~= Seq::<RegWrite>::empty());
        assert(x + alarm_commit_writes(wakeup_alarm, now) =~= x);
    }
}

/// No write in this sequence is the debug-retention write.
pub open spec fn no_debug_write(ws: Seq<RegWrite>) -> bool {
    forall|i: int| 0 <= i < ws.len() ==> !((#[trigger] ws[i]) is DebugRetention)
}

/// Writes other than the debug-retention write leave the three
/// debug-retention bits as they were.
pub proof fn lemma_no_debug_write_preserves_debug_bits(r: Regs, ws: Seq<RegWrite>)
    requires
        no_debug_write(ws),
    ensures
        apply_writes(r, ws).dbg_sleep == r.dbg_sleep,
        apply_writes(r, ws).dbg_stop == r.dbg_stop,
        apply_writes(r, ws).dbg_standby == r.dbg_standby,
    decreases ws.len(),
{
    if ws.len() > 0 {
        assert(!(ws[ws.len() - 1] is DebugRetention));
        assert(no_debug_write(ws.drop_last()));
        lemma_no_debug_write_preserves_debug_bits(r, ws.drop_last());
    }
}

/// Concatenation keeps the absence of debug-retention writes.
pub proof fn lemma_no_debug_write_concat(a: Seq<RegWrite>, b: Seq<RegWrite>)
    requires
        no_debug_write(a),
        no_debug_write(b),
    ensures
        no_debug_write(a + b),
{
    assert forall|i: int| 0 <= i < (a + b).len() implies !((#[trigger] (a + b)[i])
        is DebugRetention) by {
        if i < a.len() {
            assert((a + b)[i] == a[i]);
        } else {
            assert((a + b)[i] == b[i - a.len()]);
        }
    }
}

/// A debug-retention request sets all three retention bits, whatever the
/// mode, the entry kind and the wake sources; without the request the whole
/// entry leaves the three bits exactly as they were.
pub proof fn lemma_debug_retention_bits(
    r: Regs,
    mode: SleepMode,
    entry: SleepModeEntry,
    wakeup_alarm: bool,
    wakeup_pin: bool,
    debug: bool,
)
    ensures
        ({
            let r2 = apply_writes(
                r,
                entry_trace(mode, entry, r.sbf, r.wuf, wakeup_alarm, wakeup_pin, debug),
            );
            if debug {
                r2.dbg_sleep && r2.dbg_stop && r2.dbg_standby
            } else {
                &&& r2.dbg_sleep == r.dbg_sleep
                &&& r2.dbg_stop == r.dbg_stop
                &&& r2.dbg_standby == r.dbg_standby
            }
        }),
{
    let ms = mode_setup_writes(mode);
    let rc = residue_clear_writes(r.sbf, r.wuf);
    let aa = if wakeup_alarm {
        alarm_arm_writes(mode, entry)
    } else {
        Seq::<RegWrite>::empty()
    };
    let pa = if wakeup_pin {
        pin_arm_writes(mode, entry)
    } else {
        Seq::<RegWrite>::empty()
    };
    let db = debug_retention_writes(debug);
    let w = seq![wait_write(entry)];
    let t = entry_trace(mode, entry, r.sbf, r.wuf, wakeup_alarm, wakeup_pin, debug);
    let s4 = ((ms + rc) + aa) + pa;
    assert(t == (s4 + db) + w);
    lemma_apply_writes_concat(r, s4 + db, w);
    lemma_apply_writes_concat(r, s4, db);
    let r4 = apply_writes(r, s4);
    let r5 = apply_writes(r4, db);
    lemma_mode_setup_writes_shape(mode);
    lemma_residue_writes_no_debug(r.sbf, r.wuf);
    lemma_arm_writes_no_debug(mode, entry);
    assert(no_debug_write(aa));
    assert(no_debug_write(pa));
    assert(no_debug_write(w)) by {
        assert(w[0] == wait_write(entry));
    }
    lemma_no_debug_write_concat(ms, rc);
    lemma_no_debug_write_concat(ms + rc, aa);
    lemma_no_debug_write_concat((ms + rc) + aa, pa);
    lemma_no_debug_write_preserves_debug_bits(r, s4);
    if debug {
        assert(db =~= seq![RegWrite::DebugRetention]);
        lemma_apply_writes_one(r4, RegWrite::DebugRetention);
        assert(r5.dbg_sleep && r5.dbg_stop && r5.dbg_standby);
    } else {
        assert(db =~= Seq::<RegWrite>::empty());
        lemma_no_debug_write_preserves_debug_bits(r4, db);
    }
    lemma_no_debug_write_preserves_debug_bits(r5, w);
}

/// The residue-clear writes never include the debug-retention write.
pub proof fn lemma_residue_writes_no_debug(sbf: bool, wuf: bool)
    ensures
        no_debug_write(residue_clear_writes(sbf, wuf)),
{
    let rc = residue_clear_writes(sbf, wuf);
    assert forall|i: int| 0 <= i < rc.len() implies !((#[trigger] rc[i]) is DebugRetention) by {
        if sbf && wuf {
            assert(rc =~= seq![RegWrite::ClearStandbyFlag, RegWrite::ClearWakeupFlag]);
        } else if sbf {
            assert(rc =~= seq![RegWrite::ClearStandbyFlag]);
        } else if wuf {
            assert(rc =~= seq![RegWrite::ClearWakeupFlag]);
        } else {
            assert(rc =~= Seq::<RegWrite>::empty());
        }
    }
}

/// The wake-arming writes never include the debug-retention write.
pub proof fn lemma_arm_writes_no_debug(mode: SleepMode, entry: SleepModeEntry)
    ensures
        no_debug_write(alarm_arm_writes(mode, entry)),
        no_debug_write(pin_arm_writes(mode, entry)),
{
    let aa = alarm_arm_writes(mode, entry);
    let pa = pin_arm_writes(mode, entry);
    if spec_is_sleep_or_stop(mode) {
        assert(aa =~= seq![
            RegWrite::NvicEnable(IrqVector::Rtc),
            RegWrite::NvicUnpend(IrqVector::Rtc),
            RegWrite::NvicEnable(IrqVector::RtcAlarm),
            RegWrite::NvicUnpend(IrqVector::RtcAlarm),
            mask_bit_write(entry, ExtiLine::RtcAlarm),
            RegWrite::ExtiRisingEdge(ExtiLine::RtcAlarm),
            RegWrite::ExtiClearPending(ExtiLine::RtcAlarm),
        ]);
        assert(pa =~= seq![
            RegWrite::PowerInterfaceClockOn,
            RegWrite::WakeupPinEnable,
            RegWrite::NvicEnable(IrqVector::Exti0),
            RegWrite::NvicUnpend(IrqVector::Exti0),
            mask_bit_write(entry, ExtiLine::WakeupPin),
            RegWrite::ExtiRisingEdge(ExtiLine::WakeupPin),
            RegWrite::ExtiClearPending(ExtiLine::WakeupPin),
        ]);
        assert(!(mask_bit_write(entry, ExtiLine::RtcAlarm) is DebugRetention));
        assert(!(mask_bit_write(entry, ExtiLine::WakeupPin) is DebugRetention));
    } else {
        assert(aa =~= Seq::<RegWrite>::empty());
        assert(pa =~= seq![RegWrite::PowerInterfaceClockOn, RegWrite::WakeupPinEnable]);
    }
}


} // verus!
