use vstd::prelude::*;

use crate::machine::{EventOutcome, FsmError, Hook, Machine, ResolvableState, State, Transition};

verus! {

/// The domain error of the blinking machine.
pub type BlinkyError = FsmError;

/// The events of the blinking machine.
#[allow(non_camel_case_types)]
#[derive(Debug, Clone, Copy, PartialEq, Eq, Structural)]
pub enum BlinkyEvent {
    timer_elapsed,
    button_pressed,
}

/// The LED blinks on every timer tick.
#[derive(Debug, Clone, Copy, PartialEq, Eq, Structural)]
pub struct Blinking {
    pub led_on: bool,
}

/// Blinking is disabled; the LED state is kept for when it resumes.
#[derive(Debug, Clone, Copy, PartialEq, Eq, Structural)]
pub struct NotBlinking {
    pub stored_led_state: bool,
}

/// The states of the blinking machine.
#[derive(Debug, Clone, Copy, PartialEq, Eq, Structural)]
pub enum BlinkyStates {
    BlinkingState(Blinking),
    NotBlinkingState(NotBlinking),
}

impl ResolvableState<BlinkyStates> for Blinking {
    open spec fn resolved(self) -> BlinkyStates {
        BlinkyStates::BlinkingState(self)
    }

    fn resolve(self) -> (r: BlinkyStates) {
        BlinkyStates::BlinkingState(self)
    }
}

impl ResolvableState<BlinkyStates> for NotBlinking {
    open spec fn resolved(self) -> BlinkyStates {
        BlinkyStates::NotBlinkingState(self)
    }

    fn resolve(self) -> (r: BlinkyStates) {
        BlinkyStates::NotBlinkingState(self)
    }
}

impl State<BlinkyEvent, BlinkyStates> for Blinking {
    open spec fn entered(self) -> Self {
        self
    }

    open spec fn exited(self) -> Self {
        self
    }

    /// A tick toggles the LED; the button disables blinking and carries the
    /// LED state along.
    open spec fn handled(self, e: BlinkyEvent) -> (Self, Result<Option<BlinkyStates>, Seq<char>>) {
        match e {
            BlinkyEvent::timer_elapsed => (Blinking { led_on: !self.led_on }, Ok(None)),
            BlinkyEvent::button_pressed => (
                self,
                Ok(Some(BlinkyStates::NotBlinkingState(NotBlinking { stored_led_state: self.led_on }))),
            ),
        }
    }

    fn enter(&mut self) {
    }

    fn exit(&mut self) {
    }

    fn handle_event(&mut self, e: BlinkyEvent) -> (r: EventOutcome<BlinkyStates>) {
        match e {
            BlinkyEvent::timer_elapsed => {
                self.led_on = !self.led_on;
                Ok(None)
            },
            BlinkyEvent::button_pressed => {
                Ok(Some(Transition::to(NotBlinking { stored_led_state: self.led_on })))
            },
        }
    }
}

impl State<BlinkyEvent, BlinkyStates> for NotBlinking {
    open spec fn entered(self) -> Self {
        self
    }

    open spec fn exited(self) -> Self {
        self
    }

    /// A tick is ignored; the button resumes blinking with the stored LED
    /// state.
    open spec fn handled(self, e: BlinkyEvent) -> (Self, Result<Option<BlinkyStates>, Seq<char>>) {
        match e {
            BlinkyEvent::timer_elapsed => (self, Ok(None)),
            BlinkyEvent::button_pressed => (
                self,
                Ok(Some(BlinkyStates::BlinkingState(Blinking { led_on: self.stored_led_state }))),
            ),
        }
    }

    fn enter(&mut self) {
    }

    fn exit(&mut self) {
    }

    fn handle_event(&mut self, e: BlinkyEvent) -> (r: EventOutcome<BlinkyStates>) {
        match e {
            BlinkyEvent::timer_elapsed => Ok(None),
            BlinkyEvent::button_pressed => {
                Ok(Some(Transition::to(Blinking { led_on: self.stored_led_state })))
            },
        }
    }
}

impl State<BlinkyEvent, BlinkyStates> for BlinkyStates {
    open spec fn entered(self) -> Self {
        match self {
            BlinkyStates::BlinkingState(s) => BlinkyStates::BlinkingState(s.entered()),
            BlinkyStates::NotBlinkingState(s) => BlinkyStates::NotBlinkingState(s.entered()),
        }
    }

    open spec fn exited(self) -> Self {
        match self {
            BlinkyStates::BlinkingState(s) => BlinkyStates::BlinkingState(s.exited()),
            BlinkyStates::NotBlinkingState(s) => BlinkyStates::NotBlinkingState(s.exited()),
        }
    }

    open spec fn handled(self, e: BlinkyEvent) -> (Self, Result<Option<BlinkyStates>, Seq<char>>) {
        match self {
            BlinkyStates::BlinkingState(s) => {
                let (after, outcome) = s.handled(e);
                (BlinkyStates::BlinkingState(after), outcome)
            },
            BlinkyStates::NotBlinkingState(s) => {
                let (after, outcome) = s.handled(e);
                (BlinkyStates::NotBlinkingState(after), outcome)
            },
        }
    }

    fn enter(&mut self) {
        match self {
            BlinkyStates::BlinkingState(s) => s.enter(),
            BlinkyStates::NotBlinkingState(s) => s.enter(),
        }
    }

    fn exit(&mut self) {
        match self {
            BlinkyStates::BlinkingState(s) => s.exit(),
            BlinkyStates::NotBlinkingState(s) => s.exit(),
        }
    }

    fn handle_event(&mut self, e: BlinkyEvent) -> (r: EventOutcome<BlinkyStates>) {
        match self {
            BlinkyStates::BlinkingState(s) => s.handle_event(e),
            BlinkyStates::NotBlinkingState(s) => s.handle_event(e),
        }
    }
}

/// A blinking light that can be disabled and enabled again, keeping the LED
/// state across the pause.
pub struct Blinky {
    states: Machine<BlinkyStates>,
}

impl Blinky {
    /// The underlying machine.
    pub closed spec fn machine(self) -> Machine<BlinkyStates> {
        self.states
    }

    pub open spec fn wf(self) -> bool {
        self.machine().wf()
    }

    pub fn new(init: Transition<BlinkyStates>) -> (r: Blinky)
        ensures
            r.wf(),
            r.machine().current() == init.target().entered(),
            r.machine().hooks() == seq![Hook::Enter(init.target().entered())],
            r.machine().transitions() == 0,
    {
        Blinky { states: Machine::new(init) }
    }

    /// The state the machine is in.
    pub fn current_state(&self) -> (r: &BlinkyStates)
        ensures
            *r == self.machine().current(),
    {
        self.states.current_state()
    }

    pub fn timer_elapsed(&mut self) -> (r: Result<(), BlinkyError>)
        requires
            old(self).wf(),
        ensures
            final(self).wf(),
            old(self).machine().dispatched(BlinkyEvent::timer_elapsed, final(self).machine(), r),
    {
        self.states.handle_event(BlinkyEvent::timer_elapsed)
    }

    pub fn button_pressed(&mut self) -> (r: Result<(), BlinkyError>)
        requires
            old(self).wf(),
        ensures
            final(self).wf(),
            old(self).machine().dispatched(BlinkyEvent::button_pressed, final(self).machine(), r),
    {
        self.states.handle_event(BlinkyEvent::button_pressed)
    }
}

/// What the blinking machine reports after an event.
#[derive(Debug, Clone, Copy, PartialEq, Eq, Structural)]
pub enum BlinkyReport {
    /// The LED was toggled and is now on (`true`) or off.
    Led(bool),
    /// Blinking was disabled.
    TurningOff,
    /// A tick was ignored while blinking is disabled.
    IgnoredTimer,
    /// Blinking was enabled again.
    TurningOn,
}

/// The report of a tick that left the machine in state `s`.
pub open spec fn timer_report(s: BlinkyStates) -> BlinkyReport {
    match s {
        BlinkyStates::BlinkingState(b) => BlinkyReport::Led(b.led_on),
        BlinkyStates::NotBlinkingState(_) => BlinkyReport::IgnoredTimer,
    }
}

/// The report of a button press that left the machine in state `s`.
pub open spec fn button_report(s: BlinkyStates) -> BlinkyReport {
    match s {
        BlinkyStates::BlinkingState(_) => BlinkyReport::TurningOn,
        BlinkyStates::NotBlinkingState(_) => BlinkyReport::TurningOff,
    }
}

impl Blinky {
    /// A tick, with its report.
    pub fn report_timer(&mut self) -> (r: Result<BlinkyReport, BlinkyError>)
        requires
            old(self).wf(),
        ensures
            final(self).wf(),
            old(self).machine().dispatched(
                BlinkyEvent::timer_elapsed,
                final(self).machine(),
                match r {
                    Ok(_) => Ok(()),
                    Err(e) => Err(e),
                },
            ),
            r is Ok ==> r->Ok_0 == timer_report(final(self).machine().current()),
    {
        match self.timer_elapsed() {
            Err(e) => Err(e),
            Ok(()) => match self.current_state() {
                BlinkyStates::BlinkingState(b) => Ok(BlinkyReport::Led(b.led_on)),
                BlinkyStates::NotBlinkingState(_) => Ok(BlinkyReport::IgnoredTimer),
            },
        }
    }

    /// A button press, with its report.
    pub fn report_button(&mut self) -> (r: Result<BlinkyReport, BlinkyError>)
        requires
            old(self).wf(),
        ensures
            final(self).wf(),
            old(self).machine().dispatched(
                BlinkyEvent::button_pressed,
                final(self).machine(),
                match r {
                    Ok(_) => Ok(()),
                    Err(e) => Err(e),
                },
            ),
            r is Ok ==> r->Ok_0 == button_report(final(self).machine().current()),
    {
        match self.button_pressed() {
            Err(e) => Err(e),
            Ok(()) => match self.current_state() {
                BlinkyStates::BlinkingState(_) => Ok(BlinkyReport::TurningOn),
                BlinkyStates::NotBlinkingState(_) => Ok(BlinkyReport::TurningOff),
            },
        }
    }
}

/// The reports of the demonstration run, in order.
pub open spec fn example_reports() -> Seq<BlinkyReport> {
    seq![
        BlinkyReport::Led(true),
        BlinkyReport::Led(false),
        BlinkyReport::Led(true),
        BlinkyReport::TurningOff,
        BlinkyReport::IgnoredTimer,
        BlinkyReport::IgnoredTimer,
        BlinkyReport::IgnoredTimer,
        BlinkyReport::TurningOn,
        BlinkyReport::Led(false),
        BlinkyReport::Led(true),
        BlinkyReport::Led(false),
    ]
}

/// On a machine that blinks with the LED off: blinks three times, disables
/// blinking, lets three ticks pass, enables it again and blinks three more
/// times, reporting after each event. The LED state is kept across the
/// pause; the machine ends blinking with the LED off, after two transitions.
pub fn run_example(fsm: &mut Blinky) -> (r: Result<Vec<BlinkyReport>, BlinkyError>)
    requires
        old(fsm).wf(),
        old(fsm).machine().current() == BlinkyStates::BlinkingState(Blinking { led_on: false }),
    ensures
        final(fsm).wf(),
        r is Ok,
        r->Ok_0@ == example_reports(),
        final(fsm).machine().current() == BlinkyStates::BlinkingState(Blinking { led_on: false }),
        final(fsm).machine().transitions() == old(fsm).machine().transitions() + 2,
        final(fsm).machine().hooks() == old(fsm).machine().hooks() + seq![
            Hook::Exit(BlinkyStates::BlinkingState(Blinking { led_on: true })),
            Hook::Enter(BlinkyStates::NotBlinkingState(NotBlinking { stored_led_state: true })),
            Hook::Exit(BlinkyStates::NotBlinkingState(NotBlinking { stored_led_state: true })),
            Hook::Enter(BlinkyStates::BlinkingState(Blinking { led_on: true })),
        ],
{
    let ghost start = fsm.machine().hooks();
    let mut reports: Vec<BlinkyReport> = Vec::new();

    reports.push(fsm.report_timer()?);
    reports.push(fsm.report_timer()?);
    reports.push(fsm.report_timer()?);

    reports.push(fsm.report_button()?);

    reports.push(fsm.report_timer()?);
    reports.push(fsm.report_timer()?);
    reports.push(fsm.report_timer()?);

    reports.push(fsm.report_button()?);

    reports.push(fsm.report_timer()?);
    reports.push(fsm.report_timer()?);
    reports.push(fsm.report_timer()?);

    assert(reports@ =~= example_reports());
    assert(fsm.machine().hooks() =~= start + seq![
        Hook::Exit(BlinkyStates::BlinkingState(Blinking { led_on: true })),
        Hook::Enter(BlinkyStates::NotBlinkingState(NotBlinking { stored_led_state: true })),
        Hook::Exit(BlinkyStates::NotBlinkingState(NotBlinking { stored_led_state: true })),
        Hook::Enter(BlinkyStates::BlinkingState(Blinking { led_on: true })),
    ]);
    Ok(reports)
}

/// `a` and `b` hold the same kind of state.
pub open spec fn same_kind(a: BlinkyStates, b: BlinkyStates) -> bool {
    (a is BlinkingState) == (b is BlinkingState)
}

/// No-transition idempotence: an event whose handler asks for no transition
/// leaves the machine in the same kind of state, with no hook run.
pub proof fn lemma_no_transition_keeps_kind(before: Blinky, e: BlinkyEvent, after: Blinky, r: Result<(), FsmError>)
    requires
        before.machine().dispatched(e, after.machine(), r),
        before.machine().current().handled(e).1 is Ok,
        before.machine().current().handled(e).1->Ok_0 is None,
    ensures
        same_kind(before.machine().current(), after.machine().current()),
        after.machine().hooks() == before.machine().hooks(),
{
}

/// `s` after `n` ticks.
pub open spec fn after_ticks(s: BlinkyStates, n: nat) -> BlinkyStates
    decreases n,
{
    if n == 0 {
        s
    } else {
        after_ticks(s.handled(BlinkyEvent::timer_elapsed).0, (n - 1) as nat)
    }
}

/// Memory across a pause: pressing the button while blinking with the LED at
/// `led` pauses with `led` stored; any number of ticks leave the pause as it
/// is, with no transition; pressing the button again resumes blinking with
/// the LED at `led`.
pub proof fn lemma_pause_keeps_led(led: bool, n: nat)
    ensures
        BlinkyStates::BlinkingState(Blinking { led_on: led }).handled(BlinkyEvent::button_pressed).1
            == Ok::<Option<BlinkyStates>, Seq<char>>(
            Some(BlinkyStates::NotBlinkingState(NotBlinking { stored_led_state: led })),
        ),
        after_ticks(BlinkyStates::NotBlinkingState(NotBlinking { stored_led_state: led }), n)
            == BlinkyStates::NotBlinkingState(NotBlinking { stored_led_state: led }),
        BlinkyStates::NotBlinkingState(NotBlinking { stored_led_state: led }).handled(
            BlinkyEvent::timer_elapsed,
        ).1 == Ok::<Option<BlinkyStates>, Seq<char>>(None),
        after_ticks(
            BlinkyStates::NotBlinkingState(NotBlinking { stored_led_state: led }),
            n,
        ).handled(BlinkyEvent::button_pressed).1 == Ok::<Option<BlinkyStates>, Seq<char>>(
            Some(BlinkyStates::BlinkingState(Blinking { led_on: led })),
        ),
    decreases n,
{
    if n > 0 {
        lemma_pause_keeps_led(led, (n - 1) as nat);
    }
}

} // verus!
