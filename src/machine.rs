use vstd::prelude::*;

verus! {

/// A domain error raised by the logic of a state while it handles an event.
#[derive(Debug)]
pub struct FsmError {
    pub err: String,
}

impl FsmError {
    /// Builds an error carrying the given message.
    pub fn new(error: &str) -> (r: FsmError)
        ensures
            r.err@ == error@,
    {
        FsmError { err: String::from_str(error) }
    }

    /// The message carried by this error.
    pub fn message(&self) -> (r: String)
        ensures
            r@ == self.err@,
    {
        self.err.clone()
    }
}

/// An instruction to replace the current state of a machine with `target`.
///
/// The target is always a value of the machine's state union `U`; state
/// authors never build one directly but go through [`Transition::to`].
pub struct Transition<U> {
    target: U,
}

/// Lifts a concrete state into the state union `U` of a machine.
pub trait ResolvableState<U>: Sized {
    /// The union value that wraps this concrete state.
    spec fn resolved(self) -> U;

    fn resolve(self) -> (r: U)
        ensures
            r == self.resolved(),
    ;
}

impl<U> Transition<U> {
    /// The state that this transition leads to.
    pub closed spec fn target(self) -> U {
        self.target
    }

    /// A transition to the concrete state `state`.
    pub fn to<T: ResolvableState<U>>(state: T) -> (r: Transition<U>)
        ensures
            r.target() == state.resolved(),
    {
        Transition { target: state.resolve() }
    }

    fn into_target(self) -> (r: U)
        ensures
            r == self.target(),
    {
        self.target
    }
}

/// What handling an event asks of the machine: stay, move to a new state, or
/// report a domain error.
pub type EventOutcome<U> = Result<Option<Transition<U>>, FsmError>;

/// The outcome of handling an event, with a transition replaced by its target
/// and an error by its message.
pub open spec fn outcome_view<U>(r: EventOutcome<U>) -> Result<Option<U>, Seq<char>> {
    match r {
        Ok(Some(t)) => Ok(Some(t.target())),
        Ok(None) => Ok(None),
        Err(e) => Err(e.err@),
    }
}

/// The capability every state of a machine with events `E` and state union
/// `U` provides: enter and exit hooks and an event handler.
///
/// The spec functions describe the effect of each method, so that a machine's
/// behaviour is known exactly from the behaviour of its states.
pub trait State<E, U>: Sized {
    /// The state after its `enter` hook ran.
    spec fn entered(self) -> Self;

    /// The state after its `exit` hook ran.
    spec fn exited(self) -> Self;

    /// The state after handling `e`, and the outcome of handling it.
    spec fn handled(self, e: E) -> (Self, Result<Option<U>, Seq<char>>);

    fn enter(&mut self)
        ensures
            *final(self) == old(self).entered(),
    ;

    fn exit(&mut self)
        ensures
            *final(self) == old(self).exited(),
    ;

    /// Handles `e`; a handler that reports a domain error leaves the state as
    /// it found it.
    fn handle_event(&mut self, e: E) -> (r: EventOutcome<U>)
        ensures
            *final(self) == old(self).handled(e).0,
            outcome_view(r) == old(self).handled(e).1,
            r is Err ==> *final(self) == *old(self),
    ;
}

/// A call of a hook, with the state value the hook left behind.
pub ghost enum Hook<U> {
    Enter(U),
    Exit(U),
}

/// The number of `enter` calls in `hooks`.
pub open spec fn count_enters<U>(hooks: Seq<Hook<U>>) -> nat
    decreases hooks.len(),
{
    if hooks.len() == 0 {
        0
    } else {
        count_enters(hooks.drop_last()) + if hooks.last() is Enter {
            1nat
        } else {
            0nat
        }
    }
}

/// The number of `exit` calls in `hooks`.
pub open spec fn count_exits<U>(hooks: Seq<Hook<U>>) -> nat
    decreases hooks.len(),
{
    if hooks.len() == 0 {
        0
    } else {
        count_exits(hooks.drop_last()) + if hooks.last() is Exit {
            1nat
        } else {
            0nat
        }
    }
}

/// A state machine holding exactly one state of the union `U` at a time.
pub struct Machine<U> {
    states: U,
    hooks: Ghost<Seq<Hook<U>>>,
    transitions: Ghost<nat>,
}

impl<U> Machine<U> {
    /// The state the machine is in.
    pub closed spec fn current(self) -> U {
        self.states
    }

    /// Every hook call the machine has made, in order.
    pub closed spec fn hooks(self) -> Seq<Hook<U>> {
        self.hooks@
    }

    /// The number of transitions the machine has made since it was built.
    pub closed spec fn transitions(self) -> nat {
        self.transitions@
    }

    /// The hook calls of construction followed by `n` transitions: one
    /// `enter` first, then an `exit` and an `enter` for each transition.
    pub open spec fn hook_shape(hooks: Seq<Hook<U>>, n: nat) -> bool {
        &&& hooks.len() == 2 * n + 1
        &&& hooks[0] is Enter
        &&& forall|i: int| 0 <= i < n ==> #[trigger] hooks[2 * i + 1] is Exit && hooks[2 * i
            + 2] is Enter
    }

    /// The machine's hook calls have the shape that construction and its
    /// transitions give.
    pub open spec fn wf(self) -> bool {
        Self::hook_shape(self.hooks(), self.transitions())
    }

    /// What handling `e` does to machine `self`, giving `after` and the result
    /// `r`: a domain error is returned unchanged and leaves the machine as it
    /// was; no transition keeps the state as the handler left it; a
    /// transition records the outgoing state as its `exit` hook left it and
    /// the target as its `enter` hook left it, and leaves the machine in the
    /// entered target.
    pub open spec fn dispatched<E>(self, e: E, after: Self, r: Result<(), FsmError>) -> bool where
        U: State<E, U>,
    {
        let (handled, outcome) = self.current().handled(e);
        match outcome {
            Err(message) => {
                &&& r is Err
                &&& r->Err_0.err@ == message
                &&& after.current() == self.current()
                &&& after.hooks() == self.hooks()
                &&& after.transitions() == self.transitions()
            },
            Ok(None) => {
                &&& r == Ok::<(), FsmError>(())
                &&& after.current() == handled
                &&& after.hooks() == self.hooks()
                &&& after.transitions() == self.transitions()
            },
            Ok(Some(target)) => {
                &&& r == Ok::<(), FsmError>(())
                &&& after.current() == target.entered()
                &&& after.hooks() == self.hooks().push(Hook::Exit(handled.exited())).push(
                    Hook::Enter(target.entered()),
                )
                &&& after.transitions() == self.transitions() + 1
            },
        }
    }

    /// Builds a machine in the target state of `init` and runs its `enter`
    /// hook once.
    pub fn new<E>(init: Transition<U>) -> (r: Machine<U>) where U: State<E, U>
        ensures
            r.current() == init.target().entered(),
            r.hooks() == seq![Hook::Enter(init.target().entered())],
            r.transitions() == 0,
            r.wf(),
            count_enters(r.hooks()) == 1,
            count_exits(r.hooks()) == 0,
    {
        let mut states = init.into_target();
        states.enter();
        let ghost entered = states;
        let ghost hooks = seq![Hook::Enter(entered)];
        let ghost transitions: nat = 0;
        let r = Machine { states, hooks: Ghost(hooks), transitions: Ghost(transitions) };
        assert(r.hooks()[0] is Enter);
        assert(r.hooks().drop_last().len() == 0);
        proof {
            reveal_with_fuel(count_enters, 2);
            reveal_with_fuel(count_exits, 2);
        }
        r
    }

    /// Read access to the state the machine is in.
    pub fn current_state(&self) -> (r: &U)
        ensures
            *r == self.current(),
    {
        &self.states
    }

    /// Hands `e` to the current state and acts on the outcome.
    ///
    /// A domain error is returned unchanged and leaves the machine as it was.
    /// No transition leaves the state as the handler left it. A transition
    /// runs `exit` on the outgoing state, replaces it with the target and
    /// runs `enter` on the target, also where the target has the same type.
    pub fn handle_event<E>(&mut self, e: E) -> (r: Result<(), FsmError>) where U: State<E, U>
        requires
            old(self).wf(),
        ensures
            final(self).wf(),
            old(self).dispatched(e, *final(self), r),
    {
        let outcome = self.states.handle_event(e);
        match outcome {
            Err(err) => Err(err),
            Ok(None) => Ok(()),
            Ok(Some(t)) => {
                let ghost old_hooks = self.hooks@;
                let ghost n = self.transitions@;
                self.states.exit();
                let ghost exited = self.states;
                let target = t.into_target();
                self.states = target;
                self.states.enter();
                let ghost entered = self.states;
                let ghost hooks = old_hooks.push(Hook::Exit(exited)).push(Hook::Enter(entered));
                let ghost transitions: nat = n + 1;
                self.hooks = Ghost(hooks);
                self.transitions = Ghost(transitions);
                assert forall|i: int| 0 <= i < n + 1 implies #[trigger] self.hooks@[2 * i + 1] is Exit
                    && self.hooks@[2 * i + 2] is Enter by {
                    if i < n {
                        assert(old_hooks[2 * i + 1] is Exit && old_hooks[2 * i + 2] is Enter);
                    }
                }
                Ok(())
            },
        }
    }
}

/// Hook pairing: in a machine built by `new` and driven only by
/// `handle_event`, every transition made one `exit` and one `enter` call, and
/// construction made one more `enter` call.
pub proof fn lemma_hook_pairing<U>(m: Machine<U>)
    requires
        m.wf(),
    ensures
        count_exits(m.hooks()) == m.transitions(),
        count_enters(m.hooks()) == m.transitions() + 1,
        count_enters(m.hooks()) == count_exits(m.hooks()) + 1,
{
    lemma_shape_counts(m.hooks(), m.transitions());
}

proof fn lemma_shape_counts<U>(hooks: Seq<Hook<U>>, n: nat)
    requires
        Machine::<U>::hook_shape(hooks, n),
    ensures
        count_exits(hooks) == n,
        count_enters(hooks) == n + 1,
    decreases n,
{
    reveal_with_fuel(count_enters, 3);
    reveal_with_fuel(count_exits, 3);
    if n == 0 {
        assert(hooks.drop_last().len() == 0);
    } else {
        let prefix = hooks.subrange(0, 2 * n - 1);
        assert(prefix.len() == 2 * n - 1);
        assert forall|i: int| 0 <= i < n - 1 implies #[trigger] prefix[2 * i + 1] is Exit
            && prefix[2 * i + 2] is Enter by {
            assert(hooks[2 * i + 1] is Exit && hooks[2 * i + 2] is Enter);
        }
        assert(hooks[2 * (n - 1) + 1] is Exit && hooks[2 * (n - 1) + 2] is Enter);
        lemma_shape_counts(prefix, (n - 1) as nat);
        assert(hooks.drop_last().drop_last() =~= prefix);
        assert(hooks.last() is Enter);
        assert(hooks.drop_last().last() is Exit);
        assert(prefix[0] is Enter);
    }
}

} // verus!
