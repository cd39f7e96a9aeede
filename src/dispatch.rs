use vstd::prelude::*;

verus! {

/// How long the trigger line is held high, in microseconds: the sensor's minimum trigger
/// width. The pulse runs inside the interrupt handler's critical section, so this is also
/// the longest time for which the handler keeps interrupts masked while waiting.
pub const TRIGGER_PULSE_MICROS: u32 = 10;

/// One step that the interrupt handler performs on the hardware.
#[derive(Clone, Copy, Debug, PartialEq, Eq, Structural)]
pub enum PinAction {
    /// Drive the trigger line high.
    TriggerHigh,
    /// Busy-wait for the given number of microseconds.
    DelayMicros(u32),
    /// Drive the trigger line low.
    TriggerLow,
    /// Clear the button line's pending-interrupt flag.
    ClearButtonInterrupt,
}

/// The trigger pulse: high, wait the trigger width, low.
pub open spec fn pulse_spec() -> Seq<PinAction> {
    seq![
        PinAction::TriggerHigh,
        PinAction::DelayMicros(TRIGGER_PULSE_MICROS),
        PinAction::TriggerLow,
    ]
}

/// What the handler does: the pulse when the button raised the interrupt, and in every case
/// the clearing of the button's flag, last.
pub open spec fn dispatch_spec(button_is_source: bool) -> Seq<PinAction> {
    if button_is_source {
        pulse_spec().push(PinAction::ClearButtonInterrupt)
    } else {
        seq![PinAction::ClearButtonInterrupt]
    }
}

/// Total busy-wait time of a run of actions, in microseconds.
pub open spec fn total_delay(actions: Seq<PinAction>) -> nat
    decreases actions.len(),
{
    if actions.len() == 0 {
        0
    } else {
        let rest = total_delay(actions.drop_last());
        match actions.last() {
            PinAction::DelayMicros(us) => rest + us as nat,
            _ => rest,
        }
    }
}

/// The steps of one trigger pulse.
pub fn trigger_pulse() -> (r: Vec<PinAction>)
    ensures
        r@ == pulse_spec(),
{
    let r: Vec<PinAction> = vec![
        PinAction::TriggerHigh,
        PinAction::DelayMicros(TRIGGER_PULSE_MICROS),
        PinAction::TriggerLow,
    ];
    assert(r@ =~= pulse_spec());
    r
}

/// The steps of the interrupt handler, given whether the button line is the source of the
/// pending interrupt.
pub fn dispatch(button_is_source: bool) -> (r: Vec<PinAction>)
    ensures
        r@ == dispatch_spec(button_is_source),
        r@.len() > 0 && r@.last() == PinAction::ClearButtonInterrupt,
        button_is_source <==> r@.contains(PinAction::TriggerHigh),
{
    let mut r: Vec<PinAction> = if button_is_source {
        trigger_pulse()
    } else {
        Vec::new()
    };
    r.push(PinAction::ClearButtonInterrupt);
    assert(r@ =~= dispatch_spec(button_is_source));
    if button_is_source {
        assert(r@[0] == PinAction::TriggerHigh);
    } else {
        assert(r@ =~= seq![PinAction::ClearButtonInterrupt]);
    }
    r
}

/// An interrupt that the button did not raise produces no pulse and touches no flag but the
/// button's own: the handler's only step is to clear it.
pub proof fn lemma_foreign_interrupt_is_harmless()
    ensures
        dispatch_spec(false) == seq![PinAction::ClearButtonInterrupt],
        !dispatch_spec(false).contains(PinAction::TriggerHigh),
        total_delay(dispatch_spec(false)) == 0,
{
    let s = dispatch_spec(false);
    assert(s.drop_last() =~= Seq::<PinAction>::empty());
    assert(total_delay(Seq::<PinAction>::empty()) == 0);
    assert(total_delay(s) == 0);
    assert(s[0] != PinAction::TriggerHigh);
}

/// Whatever the source of the interrupt, the handler waits at most the trigger width.
pub proof fn lemma_masked_time_is_bounded(button_is_source: bool)
    ensures
        total_delay(dispatch_spec(button_is_source)) <= TRIGGER_PULSE_MICROS as nat,
{
    let s = dispatch_spec(button_is_source);
    if button_is_source {
        assert(s.drop_last() =~= pulse_spec());
        assert(pulse_spec().drop_last() =~= seq![
            PinAction::TriggerHigh,
            PinAction::DelayMicros(TRIGGER_PULSE_MICROS),
        ]);
        assert(pulse_spec().drop_last().drop_last() =~= seq![PinAction::TriggerHigh]);
        assert(seq![PinAction::TriggerHigh].drop_last() =~= Seq::<PinAction>::empty());
        assert(total_delay(Seq::<PinAction>::empty()) == 0);
        assert(total_delay(seq![PinAction::TriggerHigh]) == 0);
        assert(total_delay(pulse_spec().drop_last().drop_last()) == 0);
        assert(total_delay(pulse_spec().drop_last()) == TRIGGER_PULSE_MICROS as nat);
        assert(total_delay(pulse_spec()) == TRIGGER_PULSE_MICROS as nat);
    } else {
        assert(s.drop_last() =~= Seq::<PinAction>::empty());
        assert(total_delay(Seq::<PinAction>::empty()) == 0);
    }
}

} // verus!
