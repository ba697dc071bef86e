use std::cell::RefCell;
use std::rc::Rc;

use rsfsm::generator::impl_make_fsm;
use rsfsm::parser::{Delimiter, Spacing, Token};

// The runtime that the generator emits for
// `name: Probe, events: [advance(u32), stay, refuse], states: [Idle, Busy]`.

#[derive(Debug, Clone)]
struct ProbeError {
    err: String,
}

impl ProbeError {
    fn new(error: &str) -> Self {
        ProbeError { err: error.to_owned() }
    }
}

impl std::fmt::Display for ProbeError {
    fn fmt(&self, f: &mut std::fmt::Formatter) -> std::fmt::Result {
        f.write_str(&self.err)
    }
}

type EventOutcome = Result<Option<Transition>, ProbeError>;

trait State {
    fn enter(&mut self);

    fn exit(&mut self);

    fn handle_event(&mut self, e: Event) -> EventOutcome;
}

#[allow(non_camel_case_types)]
enum Event {
    advance(u32 , ),
    stay,
    refuse,
}

struct Transition {
    target: InternalStates,
}

impl Transition {
    fn to<T: ResolvableState>(state: T) -> Transition {
        Transition { target: state.resolve() }
    }
}

trait ResolvableState: State {
    fn resolve(self) -> InternalStates;
}

impl ResolvableState for Idle {
    fn resolve(self) -> InternalStates {
        InternalStates::IdleState(self)
    }
}

impl ResolvableState for Busy {
    fn resolve(self) -> InternalStates {
        InternalStates::BusyState(self)
    }
}

enum InternalStates {
    IdleState(Idle),
    BusyState(Busy),
}

struct Probe {
    states: InternalStates,
}

impl Probe {
    fn new(init: Transition) -> Self {
        let mut result = Self { states: init.target };
        result.get_current_state().enter();
        result
    }

    fn get_current_state(&mut self) -> &mut dyn State {
        match &mut self.states {
            InternalStates::IdleState(state) => state,
            InternalStates::BusyState(state) => state,
        }
    }

    fn handle_event(&mut self, e: Event) -> Result<(), ProbeError> {
        let current_state = self.get_current_state();
        let event_result = current_state.handle_event(e)?;
        if let Some(transition) = event_result {
            current_state.exit();
            self.states = transition.target;
            self.get_current_state().enter();
        }
        Ok(())
    }

    fn advance(&mut self, p0: u32 ) -> Result<(), ProbeError> {
        self.handle_event(Event::advance(p0, ))
    }

    fn stay(&mut self) -> Result<(), ProbeError> {
        self.handle_event(Event::stay)
    }

    fn refuse(&mut self) -> Result<(), ProbeError> {
        self.handle_event(Event::refuse)
    }
}

// States written against that runtime; every hook call is logged.

type Log = Rc<RefCell<Vec<String>>>;

struct Idle {
    log: Log,
}

struct Busy {
    count: u32,
    log: Log,
}

impl State for Idle {
    fn enter(&mut self) {
        self.log.borrow_mut().push("enter Idle".to_string());
    }

    fn exit(&mut self) {
        self.log.borrow_mut().push("exit Idle".to_string());
    }

    fn handle_event(&mut self, e: Event) -> EventOutcome {
        match e {
            Event::advance(n) => Ok(Some(Transition::to(Busy { count: n, log: self.log.clone() }))),
            Event::stay => {
                self.log.borrow_mut().push("stay Idle".to_string());
                Ok(None)
            }
            Event::refuse => Err(ProbeError::new("refused while idle")),
        }
    }
}

impl State for Busy {
    fn enter(&mut self) {
        self.log.borrow_mut().push(format!("enter Busy {}", self.count));
    }

    fn exit(&mut self) {
        self.log.borrow_mut().push(format!("exit Busy {}", self.count));
    }

    fn handle_event(&mut self, e: Event) -> EventOutcome {
        match e {
            Event::advance(n) => {
                self.count += n;
                if self.count >= 10 {
                    Ok(Some(Transition::to(Busy { count: 0, log: self.log.clone() })))
                } else {
                    Ok(None)
                }
            }
            Event::stay => {
                self.log.borrow_mut().push(format!("stay Busy {}", self.count));
                Ok(None)
            }
            Event::refuse => Err(ProbeError::new("refused while busy")),
        }
    }
}

fn probe() -> (Probe, Log) {
    let log: Log = Rc::new(RefCell::new(Vec::new()));
    let fsm = Probe::new(Transition::to(Idle { log: log.clone() }));
    (fsm, log)
}

fn entries(log: &Log) -> Vec<String> {
    log.borrow().clone()
}

#[test]
fn generated_construction_enters_once() {
    let (_fsm, log) = probe();
    assert_eq!(entries(&log), vec!["enter Idle"]);
}

#[test]
fn generated_transitions_pair_exit_then_enter() {
    let (mut fsm, log) = probe();
    fsm.advance(4).unwrap();
    fsm.advance(3).unwrap();
    fsm.advance(5).unwrap();
    let log = entries(&log);
    assert_eq!(
        log,
        vec!["enter Idle", "exit Idle", "enter Busy 4", "exit Busy 12", "enter Busy 0"]
    );
    let enters = log.iter().filter(|l| l.starts_with("enter")).count();
    let exits = log.iter().filter(|l| l.starts_with("exit")).count();
    assert_eq!(exits, 2);
    assert_eq!(enters, exits + 1);
}

#[test]
fn generated_error_leaves_state_untouched() {
    let (mut fsm, log) = probe();
    fsm.advance(6).unwrap();
    let before = entries(&log).len();
    let err = fsm.refuse().unwrap_err();
    assert_eq!(err.to_string(), "refused while busy");
    assert_eq!(entries(&log).len(), before);
    fsm.stay().unwrap();
    assert_eq!(entries(&log).last().unwrap(), "stay Busy 6");
}

#[test]
fn generated_no_transition_keeps_state() {
    let (mut fsm, log) = probe();
    fsm.stay().unwrap();
    fsm.stay().unwrap();
    assert_eq!(entries(&log), vec!["enter Idle", "stay Idle", "stay Idle"]);
}

#[test]
fn generator_emits_this_runtime_shape() {
    let tokens = vec![
        Token::Ident("name".to_string()),
        Token::Punct(':', Spacing::Alone),
        Token::Ident("Probe".to_string()),
        Token::Punct(',', Spacing::Alone),
        Token::Ident("events".to_string()),
        Token::Punct(':', Spacing::Alone),
        Token::Group(
            Delimiter::Bracket,
            vec![
                Token::Ident("advance".to_string()),
                Token::Group(Delimiter::Parenthesis, vec![Token::Ident("u32".to_string())]),
                Token::Punct(',', Spacing::Alone),
                Token::Ident("stay".to_string()),
                Token::Punct(',', Spacing::Alone),
                Token::Ident("refuse".to_string()),
            ],
        ),
        Token::Punct(',', Spacing::Alone),
        Token::Ident("states".to_string()),
        Token::Punct(':', Spacing::Alone),
        Token::Group(
            Delimiter::Bracket,
            vec![
                Token::Ident("Idle".to_string()),
                Token::Punct(',', Spacing::Alone),
                Token::Ident("Busy".to_string()),
            ],
        ),
    ];
    let text = impl_make_fsm(tokens).unwrap();
    assert!(text.contains("enum Event {\n    advance(u32 , ),\n    stay,\n    refuse,\n}\n"));
    assert!(text.contains("enum InternalStates {\n    IdleState(Idle),\n    BusyState(Busy),\n}\n"));
    assert!(text.contains("            InternalStates::IdleState(state) => state,\n            InternalStates::BusyState(state) => state,\n"));
    assert!(text.contains(
        "    fn advance(&mut self, p0: u32 ) -> Result<(), ProbeError> {\n        self.handle_event(Event::advance(p0, ))\n    }\n"
    ));
    assert!(text.contains("struct Probe {\n    states: InternalStates,\n}\n"));
}
