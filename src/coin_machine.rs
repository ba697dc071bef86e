use vstd::prelude::*;

use crate::machine::{EventOutcome, FsmError, Hook, Machine, ResolvableState, State, Transition};

verus! {

/// The domain error of the coin machine.
pub type CoinMachineError = FsmError;

/// The events of the coin machine; inserting coins carries how many.
#[allow(non_camel_case_types)]
#[derive(Debug, Clone, Copy, PartialEq, Eq, Structural)]
pub enum CoinEvent {
    push,
    insert_coins(u8),
    see_balance,
}

/// The number of coins that unlock the turnstile.
pub const COINS_TO_UNLOCK: u8 = 3;

/// The message of the error that asking for the balance of an unlocked turnstile
/// gives.
pub open spec fn no_balance_message() -> Seq<char> {
    "No balance available"@
}

/// `a + b`, or 255 where the sum does not fit in a `u8`.
pub open spec fn saturating_sum(a: u8, b: u8) -> u8 {
    if a + b > 255 {
        255
    } else {
        (a + b) as u8
    }
}

/// The turnstile is locked and counts the coins paid so far.
#[derive(Debug, Clone, Copy, PartialEq, Eq, Structural)]
pub struct Locked {
    pub coins: u8,
}

/// The turnstile is unlocked.
#[derive(Debug, Clone, Copy, PartialEq, Eq, Structural)]
pub struct Unlocked;

/// The states of the coin machine.
#[derive(Debug, Clone, Copy, PartialEq, Eq, Structural)]
pub enum CoinMachineStates {
    LockedState(Locked),
    UnlockedState(Unlocked),
}

impl ResolvableState<CoinMachineStates> for Locked {
    open spec fn resolved(self) -> CoinMachineStates {
        CoinMachineStates::LockedState(self)
    }

    fn resolve(self) -> (r: CoinMachineStates) {
        CoinMachineStates::LockedState(self)
    }
}

impl ResolvableState<CoinMachineStates> for Unlocked {
    open spec fn resolved(self) -> CoinMachineStates {
        CoinMachineStates::UnlockedState(self)
    }

    fn resolve(self) -> (r: CoinMachineStates) {
        CoinMachineStates::UnlockedState(self)
    }
}

impl State<CoinEvent, CoinMachineStates> for Locked {
    open spec fn entered(self) -> Self {
        self
    }

    open spec fn exited(self) -> Self {
        self
    }

    /// Coins add to the count, up to 255; once it reaches three the turnstile
    /// unlocks. Pushing and asking for the balance change nothing.
    open spec fn handled(self, e: CoinEvent) -> (Self, Result<Option<CoinMachineStates>, Seq<char>>) {
        match e {
            CoinEvent::insert_coins(num) => {
                let after = Locked { coins: saturating_sum(self.coins, num) };
                if after.coins >= COINS_TO_UNLOCK {
                    (after, Ok(Some(CoinMachineStates::UnlockedState(Unlocked))))
                } else {
                    (after, Ok(None))
                }
            },
            _ => (self, Ok(None)),
        }
    }

    fn enter(&mut self) {
    }

    fn exit(&mut self) {
    }

    fn handle_event(&mut self, e: CoinEvent) -> (r: EventOutcome<CoinMachineStates>) {
        let mut result = None;
        match e {
            CoinEvent::insert_coins(num) => {
                self.coins = if num > 255 - self.coins {
                    255
                } else {
                    self.coins + num
                };
                if self.coins >= COINS_TO_UNLOCK {
                    result = Some(Transition::to(Unlocked));
                }
            },
            _ => {},
        }
        Ok(result)
    }
}

impl State<CoinEvent, CoinMachineStates> for Unlocked {
    open spec fn entered(self) -> Self {
        self
    }

    open spec fn exited(self) -> Self {
        self
    }

    /// Pushing locks the turnstile with an empty count; coins are wasted; the
    /// balance cannot be asked for.
    open spec fn handled(self, e: CoinEvent) -> (Self, Result<Option<CoinMachineStates>, Seq<char>>) {
        match e {
            CoinEvent::push => (self, Ok(Some(CoinMachineStates::LockedState(Locked { coins: 0 })))),
            CoinEvent::insert_coins(_) => (self, Ok(None)),
            CoinEvent::see_balance => (self, Err(no_balance_message())),
        }
    }

    fn enter(&mut self) {
    }

    fn exit(&mut self) {
    }

    fn handle_event(&mut self, e: CoinEvent) -> (r: EventOutcome<CoinMachineStates>) {
        match e {
            CoinEvent::push => Ok(Some(Transition::to(Locked { coins: 0 }))),
            CoinEvent::insert_coins(_) => Ok(None),
            CoinEvent::see_balance => Err(FsmError::new("No balance available")),
        }
    }
}

impl State<CoinEvent, CoinMachineStates> for CoinMachineStates {
    open spec fn entered(self) -> Self {
        match self {
            CoinMachineStates::LockedState(s) => CoinMachineStates::LockedState(s.entered()),
            CoinMachineStates::UnlockedState(s) => CoinMachineStates::UnlockedState(s.entered()),
        }
    }

    open spec fn exited(self) -> Self {
        match self {
            CoinMachineStates::LockedState(s) => CoinMachineStates::LockedState(s.exited()),
            CoinMachineStates::UnlockedState(s) => CoinMachineStates::UnlockedState(s.exited()),
        }
    }

    open spec fn handled(self, e: CoinEvent) -> (Self, Result<Option<CoinMachineStates>, Seq<char>>) {
        match self {
            CoinMachineStates::LockedState(s) => {
                let (after, outcome) = s.handled(e);
                (CoinMachineStates::LockedState(after), outcome)
            },
            CoinMachineStates::UnlockedState(s) => {
                let (after, outcome) = s.handled(e);
                (CoinMachineStates::UnlockedState(after), outcome)
            },
        }
    }

    fn enter(&mut self) {
        match self {
            CoinMachineStates::LockedState(s) => s.enter(),
            CoinMachineStates::UnlockedState(s) => s.enter(),
        }
    }

    fn exit(&mut self) {
        match self {
            CoinMachineStates::LockedState(s) => s.exit(),
            CoinMachineStates::UnlockedState(s) => s.exit(),
        }
    }

    fn handle_event(&mut self, e: CoinEvent) -> (r: EventOutcome<CoinMachineStates>) {
        match self {
            CoinMachineStates::LockedState(s) => s.handle_event(e),
            CoinMachineStates::UnlockedState(s) => s.handle_event(e),
        }
    }
}

/// A coin-operated turnstile: three coins unlock it, a push locks it again.
pub struct CoinMachine {
    states: Machine<CoinMachineStates>,
}

impl CoinMachine {
    /// The underlying machine.
    pub closed spec fn machine(self) -> Machine<CoinMachineStates> {
        self.states
    }

    pub open spec fn wf(self) -> bool {
        self.machine().wf()
    }

    pub fn new(init: Transition<CoinMachineStates>) -> (r: CoinMachine)
        ensures
            r.wf(),
            r.machine().current() == init.target().entered(),
            r.machine().hooks() == seq![Hook::Enter(init.target().entered())],
            r.machine().transitions() == 0,
    {
        CoinMachine { states: Machine::new(init) }
    }

    /// The state the machine is in.
    pub fn current_state(&self) -> (r: &CoinMachineStates)
        ensures
            *r == self.machine().current(),
    {
        self.states.current_state()
    }

    pub fn push(&mut self) -> (r: Result<(), CoinMachineError>)
        requires
            old(self).wf(),
        ensures
            final(self).wf(),
            old(self).machine().dispatched(CoinEvent::push, final(self).machine(), r),
    {
        self.states.handle_event(CoinEvent::push)
    }

    pub fn insert_coins(&mut self, p0: u8) -> (r: Result<(), CoinMachineError>)
        requires
            old(self).wf(),
        ensures
            final(self).wf(),
            old(self).machine().dispatched(CoinEvent::insert_coins(p0), final(self).machine(), r),
    {
        self.states.handle_event(CoinEvent::insert_coins(p0))
    }

    pub fn see_balance(&mut self) -> (r: Result<(), CoinMachineError>)
        requires
            old(self).wf(),
        ensures
            final(self).wf(),
            old(self).machine().dispatched(CoinEvent::see_balance, final(self).machine(), r),
    {
        self.states.handle_event(CoinEvent::see_balance)
    }
}

/// What the coin machine reports on an event, before handling it.
#[derive(Debug, Clone, Copy, PartialEq, Eq, Structural)]
pub enum CoinReport {
    /// Coins were accepted while locked.
    Accepted(u8),
    /// The balance of the locked turnstile.
    Balance(u8),
    /// A push while locked does nothing.
    PushedWhileLocked,
    /// A push while unlocked locks the turnstile.
    Locking,
    /// Coins inserted while unlocked are wasted.
    Wasted(u8),
}

/// The report on event `e` in state `s`; asking for the balance of an
/// unlocked turnstile is an error and has none.
pub open spec fn event_report(s: CoinMachineStates, e: CoinEvent) -> Option<CoinReport> {
    match s {
        CoinMachineStates::LockedState(l) => match e {
            CoinEvent::push => Some(CoinReport::PushedWhileLocked),
            CoinEvent::insert_coins(num) => Some(CoinReport::Accepted(num)),
            CoinEvent::see_balance => Some(CoinReport::Balance(l.coins)),
        },
        CoinMachineStates::UnlockedState(_) => match e {
            CoinEvent::push => Some(CoinReport::Locking),
            CoinEvent::insert_coins(num) => Some(CoinReport::Wasted(num)),
            CoinEvent::see_balance => None,
        },
    }
}

impl CoinMachine {
    /// Dispatches `e`, with its report.
    pub fn report(&mut self, e: CoinEvent) -> (r: Result<CoinReport, CoinMachineError>)
        requires
            old(self).wf(),
        ensures
            final(self).wf(),
            old(self).machine().dispatched(
                e,
                final(self).machine(),
                match r {
                    Ok(_) => Ok(()),
                    Err(err) => Err(err),
                },
            ),
            r is Ok ==> event_report(old(self).machine().current(), e) == Some(r->Ok_0),
    {
        let report = match self.current_state() {
            CoinMachineStates::LockedState(l) => match e {
                CoinEvent::push => CoinReport::PushedWhileLocked,
                CoinEvent::insert_coins(num) => CoinReport::Accepted(num),
                CoinEvent::see_balance => CoinReport::Balance(l.coins),
            },
            // The unlocked turnstile refuses the balance query, so the report
            // made up for it below is never handed out.
            CoinMachineStates::UnlockedState(_) => match e {
                CoinEvent::push => CoinReport::Locking,
                CoinEvent::insert_coins(num) => CoinReport::Wasted(num),
                CoinEvent::see_balance => CoinReport::Locking,
            },
        };
        match self.states.handle_event(e) {
            Ok(()) => Ok(report),
            Err(err) => Err(err),
        }
    }
}

/// On a locked turnstile with no coins: runs it through pushes and payments
/// until the balance of the unlocked turnstile is asked for, which fails.
/// The turnstile unlocks, locks and unlocks again; the last push is never
/// made, so it ends unlocked.
pub fn run_example(fsm: &mut CoinMachine, reports: &mut Vec<CoinReport>) -> (r: Result<
    (),
    CoinMachineError,
>)
    requires
        old(fsm).wf(),
        old(fsm).machine().current() == CoinMachineStates::LockedState(Locked { coins: 0 }),
    ensures
        final(fsm).wf(),
        r is Err,
        r->Err_0.err@ == no_balance_message(),
        final(fsm).machine().current() == CoinMachineStates::UnlockedState(Unlocked),
        final(fsm).machine().transitions() == old(fsm).machine().transitions() + 3,
        final(fsm).machine().hooks() == old(fsm).machine().hooks() + unlock_lock_unlock_hooks(),
        final(reports)@ == old(reports)@ + example_reports(),
{
    let ghost start = fsm.machine().hooks();
    let ghost before = reports@;

    reports.push(fsm.report(CoinEvent::push)?);
    reports.push(fsm.report(CoinEvent::push)?);
    reports.push(fsm.report(CoinEvent::insert_coins(2))?);
    reports.push(fsm.report(CoinEvent::insert_coins(1))?);
    reports.push(fsm.report(CoinEvent::insert_coins(5))?);
    reports.push(fsm.report(CoinEvent::push)?);
    reports.push(fsm.report(CoinEvent::push)?);

    reports.push(fsm.report(CoinEvent::insert_coins(1))?);
    reports.push(fsm.report(CoinEvent::see_balance)?);
    reports.push(fsm.report(CoinEvent::insert_coins(2))?);

    assert(fsm.machine().hooks() =~= start + unlock_lock_unlock_hooks());
    assert(reports@ =~= before + example_reports());
    reports.push(fsm.report(CoinEvent::see_balance)?);

    reports.push(fsm.report(CoinEvent::push)?);

    Ok(())
}

/// The reports of the demonstration run, in order; the failing balance
/// query reports nothing.
pub open spec fn example_reports() -> Seq<CoinReport> {
    seq![
        CoinReport::PushedWhileLocked,
        CoinReport::PushedWhileLocked,
        CoinReport::Accepted(2),
        CoinReport::Accepted(1),
        CoinReport::Wasted(5),
        CoinReport::Locking,
        CoinReport::PushedWhileLocked,
        CoinReport::Accepted(1),
        CoinReport::Balance(1),
        CoinReport::Accepted(2),
    ]
}

/// The hook calls of a run that unlocks the turnstile, locks it and
/// unlocks it again.
pub open spec fn unlock_lock_unlock_hooks() -> Seq<Hook<CoinMachineStates>> {
    seq![
        Hook::Exit(CoinMachineStates::LockedState(Locked { coins: 3 })),
        Hook::Enter(CoinMachineStates::UnlockedState(Unlocked)),
        Hook::Exit(CoinMachineStates::UnlockedState(Unlocked)),
        Hook::Enter(CoinMachineStates::LockedState(Locked { coins: 0 })),
        Hook::Exit(CoinMachineStates::LockedState(Locked { coins: 3 })),
        Hook::Enter(CoinMachineStates::UnlockedState(Unlocked)),
    ]
}

/// `a` and `b` hold the same kind of state.
pub open spec fn same_kind(a: CoinMachineStates, b: CoinMachineStates) -> bool {
    (a is LockedState) == (b is LockedState)
}

/// No-transition idempotence: an event whose handler asks for no transition
/// leaves the machine in the same kind of state, with no hook run.
pub proof fn lemma_no_transition_keeps_kind(before: CoinMachine, e: CoinEvent, after: CoinMachine, r: Result<(), FsmError>)
    requires
        before.machine().dispatched(e, after.machine(), r),
        before.machine().current().handled(e).1 is Ok,
        before.machine().current().handled(e).1->Ok_0 is None,
    ensures
        same_kind(before.machine().current(), after.machine().current()),
        after.machine().hooks() == before.machine().hooks(),
{
}

} // verus!
