//! Register bank model and recorded write trace.
//!
//! Every hardware side effect of the controller is one [`RegWrite`]. A
//! [`Device`] couples the modelled register state with the trace of writes
//! performed so far; the state is, by invariant, exactly the result of
//! folding the trace over the boot-time state with [`apply_write`].

use vstd::prelude::*;

verus! {

/// External-interrupt lines used by the wake sources.
#[derive(Clone, Copy, PartialEq, Eq, Structural, Debug)]
pub enum ExtiLine {
    /// Line 0: the wakeup pin (PA0).
    WakeupPin,
    /// Line 17: the RTC alarm.
    RtcAlarm,
}

/// Interrupt vectors wired by the wake sources.
#[derive(Clone, Copy, PartialEq, Eq, Structural, Debug)]
pub enum IrqVector {
    Rtc,
    RtcAlarm,
    Exti0,
}

/// One register write (or CPU wait instruction) issued by the controller.
#[derive(Clone, Copy, PartialEq, Eq, Structural, Debug)]
pub enum RegWrite {
    /// Write the deep-sleep control bit in the system control register.
    SleepDeep(bool),
    /// Write the power-down bit in the power control register.
    PowerDown(bool),
    /// Write the low-power-regulator bit in the power control register.
    LowPowerRegulator(bool),
    /// Clear the standby-exit residue flag.
    ClearStandbyFlag,
    /// Clear the generic wakeup residue flag.
    ClearWakeupFlag,
    /// Enable an interrupt vector in the interrupt controller.
    NvicEnable(IrqVector),
    /// Clear the pending state of an interrupt vector.
    NvicUnpend(IrqVector),
    /// Set an external-interrupt line's bit in the interrupt-mask register.
    ExtiInterruptMask(ExtiLine),
    /// Set an external-interrupt line's bit in the event-mask register.
    ExtiEventMask(ExtiLine),
    /// Enable the rising-edge trigger on an external-interrupt line.
    ExtiRisingEdge(ExtiLine),
    /// Clear the pending bit of an external-interrupt line.
    ExtiClearPending(ExtiLine),
    /// Enable the bus clock of the power interface.
    PowerInterfaceClockOn,
    /// Set the always-on wakeup-pin enable bit.
    WakeupPinEnable,
    /// Set all three debug-retention bits (sleep, stop, standby).
    DebugRetention,
    /// Clear the RTC alarm flag.
    RtcClearAlarmFlag,
    /// Program the RTC alarm compare value.
    RtcSetAlarm(u32),
    /// Issue the wait-for-interrupt instruction.
    Wfi,
    /// Issue the wait-for-event instruction.
    Wfe,
}

/// Modelled state of the registers the controller touches.
///
/// Flag-clear writes are write-one-to-clear on the hardware; the model keeps
/// the observable outcome, the flag being clear.
#[derive(Clone, Copy, PartialEq, Eq, Structural, Debug)]
pub struct Regs {
    /// Deep-sleep control bit of the system control register.
    pub sleepdeep: bool,
    /// Power-down bit of the power control register.
    pub pdds: bool,
    /// Low-power-regulator bit of the power control register.
    pub lpds: bool,
    /// Standby-exit residue flag.
    pub sbf: bool,
    /// Generic wakeup residue flag.
    pub wuf: bool,
    /// Always-on wakeup-pin enable bit.
    pub ewup: bool,
    /// Power interface bus clock enable.
    pub pwren: bool,
    /// Interrupt-mask bit of line 0.
    pub imr0: bool,
    /// Event-mask bit of line 0.
    pub emr0: bool,
    /// Rising-edge trigger bit of line 0.
    pub rtsr0: bool,
    /// Pending bit of line 0.
    pub pr0: bool,
    /// Interrupt-mask bit of line 17.
    pub imr17: bool,
    /// Event-mask bit of line 17.
    pub emr17: bool,
    /// Rising-edge trigger bit of line 17.
    pub rtsr17: bool,
    /// Pending bit of line 17.
    pub pr17: bool,
    /// RTC vector enabled in the interrupt controller.
    pub rtc_enabled: bool,
    /// RTC vector pending in the interrupt controller.
    pub rtc_pending: bool,
    /// RTC-alarm vector enabled in the interrupt controller.
    pub rtc_alarm_enabled: bool,
    /// RTC-alarm vector pending in the interrupt controller.
    pub rtc_alarm_pending: bool,
    /// Line-0 vector enabled in the interrupt controller.
    pub exti0_enabled: bool,
    /// Line-0 vector pending in the interrupt controller.
    pub exti0_pending: bool,
    /// Debug clocks retained in sleep mode.
    pub dbg_sleep: bool,
    /// Debug clocks retained in stop mode.
    pub dbg_stop: bool,
    /// Debug clocks retained in standby mode.
    pub dbg_standby: bool,
    /// Current RTC seconds counter (read-only to the controller).
    pub rtc_seconds: u32,
    /// Programmed RTC alarm compare value.
    pub alarm_value: u32,
    /// RTC alarm flag.
    pub alarm_flag: bool,
}

/// The external-interrupt line number of a line, as the hardware counts them.
pub open spec fn spec_line_index(line: ExtiLine) -> u8 {
    match line {
        ExtiLine::WakeupPin => 0,
        ExtiLine::RtcAlarm => 17,
    }
}

/// The external-interrupt line number of a line, as the hardware counts them.
pub fn line_index(line: ExtiLine) -> (n: u8)
    ensures
        n == spec_line_index(line),
{
    match line {
        ExtiLine::WakeupPin => 0,
        ExtiLine::RtcAlarm => 17,
    }
}

/// The register state after one write.
pub open spec fn apply_write(r: Regs, w: RegWrite) -> Regs {
    match w {
        RegWrite::SleepDeep(v) => Regs { sleepdeep: v, ..r },
        RegWrite::PowerDown(v) => Regs { pdds: v, ..r },
        RegWrite::LowPowerRegulator(v) => Regs { lpds: v, ..r },
        RegWrite::ClearStandbyFlag => Regs { sbf: false, ..r },
        RegWrite::ClearWakeupFlag => Regs { wuf: false, ..r },
        RegWrite::NvicEnable(v) => match v {
            IrqVector::Rtc => Regs { rtc_enabled: true, ..r },
            IrqVector::RtcAlarm => Regs { rtc_alarm_enabled: true, ..r },
            IrqVector::Exti0 => Regs { exti0_enabled: true, ..r },
        },
        RegWrite::NvicUnpend(v) => match v {
            IrqVector::Rtc => Regs { rtc_pending: false, ..r },
            IrqVector::RtcAlarm => Regs { rtc_alarm_pending: false, ..r },
            IrqVector::Exti0 => Regs { exti0_pending: false, ..r },
        },
        RegWrite::ExtiInterruptMask(line) => match line {
            ExtiLine::WakeupPin => Regs { imr0: true, ..r },
            ExtiLine::RtcAlarm => Regs { imr17: true, ..r },
        },
        RegWrite::ExtiEventMask(line) => match line {
            ExtiLine::WakeupPin => Regs { emr0: true, ..r },
            ExtiLine::RtcAlarm => Regs { emr17: true, ..r },
        },
        RegWrite::ExtiRisingEdge(line) => match line {
            ExtiLine::WakeupPin => Regs { rtsr0: true, ..r },
            ExtiLine::RtcAlarm => Regs { rtsr17: true, ..r },
        },
        RegWrite::ExtiClearPending(line) => match line {
            ExtiLine::WakeupPin => Regs { pr0: false, ..r },
            ExtiLine::RtcAlarm => Regs { pr17: false, ..r },
        },
        RegWrite::PowerInterfaceClockOn => Regs { pwren: true, ..r },
        RegWrite::WakeupPinEnable => Regs { ewup: true, ..r },
        RegWrite::DebugRetention => Regs {
            dbg_sleep: true,
            dbg_stop: true,
            dbg_standby: true,
            ..r
        },
        RegWrite::RtcClearAlarmFlag => Regs { alarm_flag: false, ..r },
        RegWrite::RtcSetAlarm(v) => Regs { alarm_value: v, ..r },
        RegWrite::Wfi => r,
        RegWrite::Wfe => r,
    }
}

/// The register state after a sequence of writes, applied left to right.
pub open spec fn apply_writes(r: Regs, ws: Seq<RegWrite>) -> Regs
    decreases ws.len(),
{
    if ws.len() == 0 {
        r
    } else {
        apply_write(apply_writes(r, ws.drop_last()), ws.last())
    }
}

pub proof fn lemma_apply_writes_empty(r: Regs)
    ensures
        apply_writes(r, Seq::<RegWrite>::empty()) == r,
{
}

pub proof fn lemma_apply_writes_push(r: Regs, ws: Seq<RegWrite>, w: RegWrite)
    ensures
        apply_writes(r, ws.push(w)) == apply_write(apply_writes(r, ws), w),
{
    assert(ws.push(w).drop_last() =~= ws);
    assert(ws.push(w).last() == w);
}

pub proof fn lemma_apply_writes_concat(r: Regs, a: Seq<RegWrite>, b: Seq<RegWrite>)
    ensures
        apply_writes(r, a + b) == apply_writes(apply_writes(r, a), b),
    decreases b.len(),
{
    if b.len() == 0 {
        assert(a + b =~= a);
    } else {
        lemma_apply_writes_concat(r, a, b.drop_last());
        assert((a + b).drop_last() =~= a + b.drop_last());
        assert((a + b).last() == b.last());
    }
}

pub proof fn lemma_writes_assoc(a: Seq<RegWrite>, b: Seq<RegWrite>, c: Seq<RegWrite>)
    ensures
        (a + b) + c == a + (b + c),
{
    assert((a + b) + c =~= a + (b + c));
}

pub proof fn lemma_apply_writes_one(r: Regs, w0: RegWrite)
    ensures
        apply_writes(r, seq![w0]) == apply_write(r, w0),
{
    assert(seq![w0].drop_last() =~= Seq::<RegWrite>::empty());
    lemma_apply_writes_empty(r);
}

pub proof fn lemma_apply_writes_two(r: Regs, w0: RegWrite, w1: RegWrite)
    ensures
        apply_writes(r, seq![w0, w1]) == apply_write(apply_write(r, w0), w1),
{
    lemma_apply_writes_one(r, w0);
    lemma_apply_writes_push(r, seq![w0], w1);
    assert(seq![w0].push(w1) =~= seq![w0, w1]);
}

pub proof fn lemma_apply_writes_three(r: Regs, w0: RegWrite, w1: RegWrite, w2: RegWrite)
    ensures
        apply_writes(r, seq![w0, w1, w2]) == apply_write(
            apply_write(apply_write(r, w0), w1),
            w2,
        ),
{
    lemma_apply_writes_two(r, w0, w1);
    lemma_apply_writes_push(r, seq![w0, w1], w2);
    assert(seq![w0, w1].push(w2) =~= seq![w0, w1, w2]);
}

/// The recording register fake: modelled register state plus the trace of
/// writes performed on it since it was created.
pub struct Device {
    /// Current modelled register state.
    pub regs: Regs,
    /// All writes performed so far, oldest first.
    pub trace: Vec<RegWrite>,
    /// The register state the model was created with.
    pub boot: Ghost<Regs>,
}

impl Device {
    /// The register state is the boot state with the trace folded over it.
    pub open spec fn wf(self) -> bool {
        self.regs == apply_writes(self.boot@, self.trace@)
    }

    /// Create a device model.
    ///
    /// The residue flags and the RTC seconds counter are the only inputs the
    /// controller reads before writing; every other modelled bit starts
    /// clear, as after a reset.
    pub fn power_on(sbf: bool, wuf: bool, rtc_seconds: u32) -> (d: Device)
        ensures
            d.wf(),
            d.trace@ == Seq::<RegWrite>::empty(),
            d.regs == (Regs {
                sleepdeep: false,
                pdds: false,
                lpds: false,
                sbf,
                wuf,
                ewup: false,
                pwren: false,
                imr0: false,
                emr0: false,
                rtsr0: false,
                pr0: false,
                imr17: false,
                emr17: false,
                rtsr17: false,
                pr17: false,
                rtc_enabled: false,
                rtc_pending: false,
                rtc_alarm_enabled: false,
                rtc_alarm_pending: false,
                exti0_enabled: false,
                exti0_pending: false,
                dbg_sleep: false,
                dbg_stop: false,
                dbg_standby: false,
                rtc_seconds,
                alarm_value: 0,
                alarm_flag: false,
            }),
            d.boot@ == d.regs,
    {
        let regs = Regs {
            sleepdeep: false,
            pdds: false,
            lpds: false,
            sbf,
            wuf,
            ewup: false,
            pwren: false,
            imr0: false,
            emr0: false,
            rtsr0: false,
            pr0: false,
            imr17: false,
            emr17: false,
            rtsr17: false,
            pr17: false,
            rtc_enabled: false,
            rtc_pending: false,
            rtc_alarm_enabled: false,
            rtc_alarm_pending: false,
            exti0_enabled: false,
            exti0_pending: false,
            dbg_sleep: false,
            dbg_stop: false,
            dbg_standby: false,
            rtc_seconds,
            alarm_value: 0,
            alarm_flag: false,
        };
        Device { regs, trace: Vec::new(), boot: Ghost(regs) }
    }

    /// Perform one write: record it and update the modelled state.
    pub fn write(&mut self, w: RegWrite)
        requires
            old(self).wf(),
        ensures
            final(self).wf(),
            final(self).boot == old(self).boot,
            final(self).trace@ == old(self).trace@.push(w),
            final(self).regs == apply_write(old(self).regs, w),
    {
        self.trace.push(w);
        self.regs = step(self.regs, w);
        proof {
            lemma_apply_writes_push(self.boot@, old(self).trace@, w);
        }
    }
}

/// Executable counterpart of [`apply_write`].
#[verifier::rlimit(30)]
fn step(r: Regs, w: RegWrite) -> (r2: Regs)
    ensures
        r2 == apply_write(r, w),
{
    match w {
        RegWrite::SleepDeep(v) => Regs { sleepdeep: v, ..r },
        RegWrite::PowerDown(v) => Regs { pdds: v, ..r },
        RegWrite::LowPowerRegulator(v) => Regs { lpds: v, ..r },
        RegWrite::ClearStandbyFlag => Regs { sbf: false, ..r },
        RegWrite::ClearWakeupFlag => Regs { wuf: false, ..r },
        RegWrite::NvicEnable(v) => match v {
            IrqVector::Rtc => Regs { rtc_enabled: true, ..r },
            IrqVector::RtcAlarm => Regs { rtc_alarm_enabled: true, ..r },
            IrqVector::Exti0 => Regs { exti0_enabled: true, ..r },
        },
        RegWrite::NvicUnpend(v) => match v {
            IrqVector::Rtc => Regs { rtc_pending: false, ..r },
            IrqVector::RtcAlarm => Regs { rtc_alarm_pending: false, ..r },
            IrqVector::Exti0 => Regs { exti0_pending: false, ..r },
        },
        RegWrite::ExtiInterruptMask(line) => match line {
            ExtiLine::WakeupPin => Regs { imr0: true, ..r },
            ExtiLine::RtcAlarm => Regs { imr17: true, ..r },
        },
        RegWrite::ExtiEventMask(line) => match line {
            ExtiLine::WakeupPin => Regs { emr0: true, ..r },
            ExtiLine::RtcAlarm => Regs { emr17: true, ..r },
        },
        RegWrite::ExtiRisingEdge(line) => match line {
            ExtiLine::WakeupPin => Regs { rtsr0: true, ..r },
            ExtiLine::RtcAlarm => Regs { rtsr17: true, ..r },
        },
        RegWrite::ExtiClearPending(line) => match line {
            ExtiLine::WakeupPin => Regs { pr0: false, ..r },
            ExtiLine::RtcAlarm => Regs { pr17: false, ..r },
        },
        RegWrite::PowerInterfaceClockOn => Regs { pwren: true, ..r },
        RegWrite::WakeupPinEnable => Regs { ewup: true, ..r },
        RegWrite::DebugRetention => Regs {
            dbg_sleep: true,
            dbg_stop: true,
            dbg_standby: true,
            ..r
        },
        RegWrite::RtcClearAlarmFlag => Regs { alarm_flag: false, ..r },
        RegWrite::RtcSetAlarm(v) => Regs { alarm_value: v, ..r },
        RegWrite::Wfi => r,
        RegWrite::Wfe => r,
    }
}

} // verus!
