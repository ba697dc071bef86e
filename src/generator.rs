use vstd::prelude::*;

use crate::render::tokens_text;
use crate::render::append_tokens;
use crate::parser::{
    event_views, parse_spec, state_idents, ParseError, Event, EventSpec, FiniteStateMachine, FsmSpec, State, Token,
};

verus! {

/// The text of one decimal digit.
pub open spec fn digit_text(d: nat) -> Seq<char> {
    if d == 0 {
        "0"@
    } else if d == 1 {
        "1"@
    } else if d == 2 {
        "2"@
    } else if d == 3 {
        "3"@
    } else if d == 4 {
        "4"@
    } else if d == 5 {
        "5"@
    } else if d == 6 {
        "6"@
    } else if d == 7 {
        "7"@
    } else if d == 8 {
        "8"@
    } else {
        "9"@
    }
}

/// The decimal text of `n`, without leading zeros.
pub open spec fn decimal(n: nat) -> Seq<char>
    decreases n,
{
    if n < 10 {
        digit_text(n)
    } else {
        decimal(n / 10) + digit_text(n % 10)
    }
}

/// The texts `f(i, s[i])` one after another.
pub open spec fn concat_with<A>(s: Seq<A>, f: spec_fn(int, A) -> Seq<char>) -> Seq<char>
    decreases s.len(),
{
    if s.len() == 0 {
        Seq::empty()
    } else {
        concat_with(s.drop_last(), f) + f(s.len() - 1, s.last())
    }
}

proof fn lemma_concat_step<A>(s: Seq<A>, f: spec_fn(int, A) -> Seq<char>, i: int)
    requires
        0 <= i < s.len(),
    ensures
        concat_with(s.subrange(0, i + 1), f) == concat_with(s.subrange(0, i), f) + f(i, s[i]),
{
    assert(s.subrange(0, i + 1).drop_last() =~= s.subrange(0, i));
}

proof fn lemma_concat_all<A>(s: Seq<A>, f: spec_fn(int, A) -> Seq<char>)
    ensures
        concat_with(s.subrange(0, s.len() as int), f) == concat_with(s, f),
{
    assert(s.subrange(0, s.len() as int) =~= s);
}

/// The name of the error type of machine `m`.
pub open spec fn error_ident_text(m: Seq<char>) -> Seq<char> {
    m + "Error"@
}

/// The name of the union variant that holds state `s`.
pub open spec fn state_variant_ident_text(s: Seq<char>) -> Seq<char> {
    s + "State"@
}

/// The name of the `i`-th parameter of an event method.
pub open spec fn param_ident_text(i: nat) -> Seq<char> {
    "p"@ + decimal(i)
}

/// A parameter type inside an event variant.
pub open spec fn param_type_fn() -> spec_fn(int, Seq<Token>) -> Seq<char> {
    |i: int, t: Seq<Token>| tokens_text(t) + ", "@
}

/// A parameter declaration of an event method.
pub open spec fn param_decl_fn() -> spec_fn(int, Seq<Token>) -> Seq<char> {
    |i: int, t: Seq<Token>| ", "@ + param_ident_text(i as nat) + ": "@ + tokens_text(t)
}

/// A parameter handed on by an event method.
pub open spec fn param_arg_fn() -> spec_fn(int, Seq<Token>) -> Seq<char> {
    |i: int, t: Seq<Token>| param_ident_text(i as nat) + ", "@
}

/// The variant of the event enum for `e`.
pub open spec fn event_variant_text(e: EventSpec) -> Seq<char> {
    "    "@ + e.ident + (if e.parameters.len() == 0 {
        Seq::empty()
    } else {
        "("@ + concat_with(e.parameters, param_type_fn()) + ")"@
    }) + ",\n"@
}

pub open spec fn event_variant_fn() -> spec_fn(int, EventSpec) -> Seq<char> {
    |i: int, e: EventSpec| event_variant_text(e)
}

/// The variant of the state union for state `s`.
pub open spec fn state_variant_text(s: Seq<char>) -> Seq<char> {
    "    "@ + state_variant_ident_text(s) + "("@ + s + "),\n"@
}

pub open spec fn state_variant_fn() -> spec_fn(int, Seq<char>) -> Seq<char> {
    |i: int, s: Seq<char>| state_variant_text(s)
}

/// How state `s` is lifted into the state union.
pub open spec fn resolve_text(s: Seq<char>) -> Seq<char> {
    "impl ResolvableState for "@ + s
        + " {\n    fn resolve(self) -> InternalStates {\n        InternalStates::"@
        + state_variant_ident_text(s) + "(self)\n    }\n}\n\n"@
}

pub open spec fn resolve_fn() -> spec_fn(int, Seq<char>) -> Seq<char> {
    |i: int, s: Seq<char>| resolve_text(s)
}

/// The match arm that reaches the state held in the variant of `s`.
pub open spec fn arm_text(s: Seq<char>) -> Seq<char> {
    "            InternalStates::"@ + state_variant_ident_text(s) + "(state) => state,\n"@
}

pub open spec fn arm_fn() -> spec_fn(int, Seq<char>) -> Seq<char> {
    |i: int, s: Seq<char>| arm_text(s)
}

/// The method of machine `m` that dispatches event `e`.
pub open spec fn method_text(m: Seq<char>, e: EventSpec) -> Seq<char> {
    "\n    fn "@ + e.ident + "(&mut self"@ + concat_with(e.parameters, param_decl_fn())
        + ") -> Result<(), "@ + error_ident_text(m) + "> {\n        self.handle_event(Event::"@
        + e.ident + (if e.parameters.len() == 0 {
        Seq::empty()
    } else {
        "("@ + concat_with(e.parameters, param_arg_fn()) + ")"@
    }) + ")\n    }\n"@
}

pub open spec fn method_fn(m: Seq<char>) -> spec_fn(int, EventSpec) -> Seq<char> {
    |i: int, e: EventSpec| method_text(m, e)
}

/// The error type `err` with its constructor and its display.
pub open spec fn error_type_text(err: Seq<char>) -> Seq<char> {
    "#[derive(Debug, Clone)]\nstruct "@ + err + " {\n    err: String,\n}\n\nimpl "@ + err
        + " {\n    fn new(error: &str) -> Self {\n        "@ + err
        + " { err: error.to_owned() }\n    }\n}\n\nimpl std::fmt::Display for "@ + err
        + " {\n    fn fmt(&self, f: &mut std::fmt::Formatter) -> std::fmt::Result {\n        f.write_str(&self.err)\n    }\n}\n\n"@
}

/// The state capability, the outcome of handling an event, and the
/// transition that only a declared state can be turned into.
pub open spec fn capability_text(err: Seq<char>) -> Seq<char> {
    "type EventOutcome = Result<Option<Transition>, "@ + err + ">;\n\n"@
        + "trait State {\n    fn enter(&mut self);\n\n    fn exit(&mut self);\n\n    fn handle_event(&mut self, e: Event) -> EventOutcome;\n}\n\n"@
}

pub open spec fn transition_text() -> Seq<char> {
    "struct Transition {\n    target: InternalStates,\n}\n\nimpl Transition {\n    fn to<T: ResolvableState>(state: T) -> Transition {\n        Transition { target: state.resolve() }\n    }\n}\n\n"@
        + "trait ResolvableState: State {\n    fn resolve(self) -> InternalStates;\n}\n\n"@
}

/// The dispatch of machine `m`: construction enters the initial state; an
/// event goes to the current state; an error is returned at once; a
/// transition exits the current state, replaces it and enters the new one.
pub open spec fn dispatch_text(err: Seq<char>) -> Seq<char> {
    "    fn handle_event(&mut self, e: Event) -> Result<(), "@ + err
        + "> {\n        let current_state = self.get_current_state();\n        let event_result = current_state.handle_event(e)?;\n        if let Some(transition) = event_result {\n            current_state.exit();\n            self.states = transition.target;\n            self.get_current_state().enter();\n        }\n        Ok(())\n    }\n"@
}

/// The source text of the runtime generated for machine `f`: its error
/// type, the state capability, its event enum, the transition type, the
/// lifting of each state into the state union, the union itself, and the
/// machine type with its dispatch and one method per event.
pub open spec fn runtime_text(f: FsmSpec) -> Seq<char> {
    error_type_text(error_ident_text(f.ident)) + capability_text(error_ident_text(f.ident))
        + "#[allow(non_camel_case_types)]\nenum Event {\n"@ + concat_with(
        f.events,
        event_variant_fn(),
    ) + "}\n\n"@ + transition_text() + concat_with(f.states, resolve_fn())
        + "enum InternalStates {\n"@ + concat_with(f.states, state_variant_fn()) + "}\n\nstruct "@
        + f.ident + " {\n    states: InternalStates,\n}\n\nimpl "@ + f.ident
        + " {\n    fn new(init: Transition) -> Self {\n        let mut result = Self { states: init.target };\n        result.get_current_state().enter();\n        result\n    }\n\n"@
        + "    fn get_current_state(&mut self) -> &mut dyn State {\n        match &mut self.states {\n"@
        + concat_with(f.states, arm_fn()) + "        }\n    }\n\n"@ + dispatch_text(
        error_ident_text(f.ident),
    ) + concat_with(f.events, method_fn(f.ident)) + "}\n"@
}

fn append_digit(d: usize, out: &mut String)
    requires
        d < 10,
    ensures
        final(out)@ == old(out)@ + digit_text(d as nat),
{
    if d == 0 {
        out.append("0");
    } else if d == 1 {
        out.append("1");
    } else if d == 2 {
        out.append("2");
    } else if d == 3 {
        out.append("3");
    } else if d == 4 {
        out.append("4");
    } else if d == 5 {
        out.append("5");
    } else if d == 6 {
        out.append("6");
    } else if d == 7 {
        out.append("7");
    } else if d == 8 {
        out.append("8");
    } else {
        out.append("9");
    }
}

/// Appends the decimal text of `n` to `out`.
fn append_decimal(n: usize, out: &mut String)
    ensures
        final(out)@ == old(out)@ + decimal(n as nat),
    decreases n,
{
    if n < 10 {
        append_digit(n, out);
    } else {
        let ghost start = out@;
        append_decimal(n / 10, out);
        append_digit(n % 10, out);
        assert(out@ =~= start + decimal(n as nat));
    }
}

/// The name of the error type of machine `machine`.
pub fn error_ident(machine: &String) -> (r: String)
    ensures
        r@ == error_ident_text(machine@),
{
    let mut r = machine.clone();
    r.append("Error");
    r
}

/// The name of the union variant that holds state `state`.
pub fn state_variant_ident(state: &String) -> (r: String)
    ensures
        r@ == state_variant_ident_text(state@),
{
    let mut r = state.clone();
    r.append("State");
    r
}

/// The name of the `i`-th parameter of an event method.
pub fn param_ident(i: usize) -> (r: String)
    ensures
        r@ == param_ident_text(i as nat),
{
    let mut r = String::new();
    r.append("p");
    append_decimal(i, &mut r);
    r
}

fn append_param_types(ps: &Vec<Vec<Token>>, out: &mut String)
    ensures
        final(out)@ == old(out)@ + concat_with(crate::parser::views_of(ps@), param_type_fn()),
{
    let ghost v = crate::parser::views_of(ps@);
    let ghost start = out@;
    let mut i: usize = 0;
    proof {
        assert(out@ =~= start + concat_with(v.subrange(0, 0), param_type_fn()));
    }
    while i < ps.len()
        invariant
            i <= ps@.len(),
            v == crate::parser::views_of(ps@),
            out@ == start + concat_with(v.subrange(0, i as int), param_type_fn()),
        decreases ps@.len() - i,
    {
        append_tokens(&ps[i], out);
        out.append(", ");
        proof {
            lemma_concat_step(v, param_type_fn(), i as int);
            assert(out@ =~= start + concat_with(v.subrange(0, i + 1), param_type_fn()));
        }
        i = i + 1;
    }
    proof {
        lemma_concat_all(v, param_type_fn());
    }
}

fn append_param_decls(ps: &Vec<Vec<Token>>, out: &mut String)
    ensures
        final(out)@ == old(out)@ + concat_with(crate::parser::views_of(ps@), param_decl_fn()),
{
    let ghost v = crate::parser::views_of(ps@);
    let ghost start = out@;
    let mut i: usize = 0;
    proof {
        assert(out@ =~= start + concat_with(v.subrange(0, 0), param_decl_fn()));
    }
    while i < ps.len()
        invariant
            i <= ps@.len(),
            v == crate::parser::views_of(ps@),
            out@ == start + concat_with(v.subrange(0, i as int), param_decl_fn()),
        decreases ps@.len() - i,
    {
        out.append(", ");
        let name = param_ident(i);
        out.append(name.as_str());
        out.append(": ");
        append_tokens(&ps[i], out);
        proof {
            lemma_concat_step(v, param_decl_fn(), i as int);
            assert(out@ =~= start + concat_with(v.subrange(0, i + 1), param_decl_fn()));
        }
        i = i + 1;
    }
    proof {
        lemma_concat_all(v, param_decl_fn());
    }
}

fn append_param_args(ps: &Vec<Vec<Token>>, out: &mut String)
    ensures
        final(out)@ == old(out)@ + concat_with(crate::parser::views_of(ps@), param_arg_fn()),
{
    let ghost v = crate::parser::views_of(ps@);
    let ghost start = out@;
    let mut i: usize = 0;
    proof {
        assert(out@ =~= start + concat_with(v.subrange(0, 0), param_arg_fn()));
    }
    while i < ps.len()
        invariant
            i <= ps@.len(),
            v == crate::parser::views_of(ps@),
            out@ == start + concat_with(v.subrange(0, i as int), param_arg_fn()),
        decreases ps@.len() - i,
    {
        let name = param_ident(i);
        out.append(name.as_str());
        out.append(", ");
        proof {
            lemma_concat_step(v, param_arg_fn(), i as int);
            assert(out@ =~= start + concat_with(v.subrange(0, i + 1), param_arg_fn()));
        }
        i = i + 1;
    }
    proof {
        lemma_concat_all(v, param_arg_fn());
    }
}

fn append_event_variants(events: &Vec<Event>, out: &mut String)
    ensures
        final(out)@ == old(out)@ + concat_with(event_views(events@), event_variant_fn()),
{
    let ghost v = event_views(events@);
    let ghost start = out@;
    let mut i: usize = 0;
    proof {
        assert(out@ =~= start + concat_with(v.subrange(0, 0), event_variant_fn()));
    }
    while i < events.len()
        invariant
            i <= events@.len(),
            v == event_views(events@),
            out@ == start + concat_with(v.subrange(0, i as int), event_variant_fn()),
        decreases events@.len() - i,
    {
        let ghost before = out@;
        let e = &events[i];
        out.append("    ");
        out.append(e.ident.as_str());
        if e.parameters.len() > 0 {
            out.append("(");
            append_param_types(&e.parameters, out);
            out.append(")");
        }
        out.append(",\n");
        proof {
            assert(out@ =~= before + event_variant_text(v[i as int]));
            lemma_concat_step(v, event_variant_fn(), i as int);
            assert(out@ =~= start + concat_with(v.subrange(0, i + 1), event_variant_fn()));
        }
        i = i + 1;
    }
    proof {
        lemma_concat_all(v, event_variant_fn());
    }
}

fn append_state_variants(states: &Vec<State>, out: &mut String)
    ensures
        final(out)@ == old(out)@ + concat_with(state_idents(states@), state_variant_fn()),
{
    let ghost v = state_idents(states@);
    let ghost start = out@;
    let mut i: usize = 0;
    proof {
        assert(out@ =~= start + concat_with(v.subrange(0, 0), state_variant_fn()));
    }
    while i < states.len()
        invariant
            i <= states@.len(),
            v == state_idents(states@),
            out@ == start + concat_with(v.subrange(0, i as int), state_variant_fn()),
        decreases states@.len() - i,
    {
        let ghost before = out@;
        let s = &states[i].ident;
        out.append("    ");
        let variant = state_variant_ident(s);
        out.append(variant.as_str());
        out.append("(");
        out.append(s.as_str());
        out.append("),\n");
        proof {
            assert(out@ =~= before + state_variant_text(v[i as int]));
            lemma_concat_step(v, state_variant_fn(), i as int);
            assert(out@ =~= start + concat_with(v.subrange(0, i + 1), state_variant_fn()));
        }
        i = i + 1;
    }
    proof {
        lemma_concat_all(v, state_variant_fn());
    }
}

fn append_resolves(states: &Vec<State>, out: &mut String)
    ensures
        final(out)@ == old(out)@ + concat_with(state_idents(states@), resolve_fn()),
{
    let ghost v = state_idents(states@);
    let ghost start = out@;
    let mut i: usize = 0;
    proof {
        assert(out@ =~= start + concat_with(v.subrange(0, 0), resolve_fn()));
    }
    while i < states.len()
        invariant
            i <= states@.len(),
            v == state_idents(states@),
            out@ == start + concat_with(v.subrange(0, i as int), resolve_fn()),
        decreases states@.len() - i,
    {
        let ghost before = out@;
        let s = &states[i].ident;
        out.append("impl ResolvableState for ");
        out.append(s.as_str());
        out.append(" {\n    fn resolve(self) -> InternalStates {\n        InternalStates::");
        let variant = state_variant_ident(s);
        out.append(variant.as_str());
        out.append("(self)\n    }\n}\n\n");
        proof {
            assert(out@ =~= before + resolve_text(v[i as int]));
            lemma_concat_step(v, resolve_fn(), i as int);
            assert(out@ =~= start + concat_with(v.subrange(0, i + 1), resolve_fn()));
        }
        i = i + 1;
    }
    proof {
        lemma_concat_all(v, resolve_fn());
    }
}

fn append_arms(states: &Vec<State>, out: &mut String)
    ensures
        final(out)@ == old(out)@ + concat_with(state_idents(states@), arm_fn()),
{
    let ghost v = state_idents(states@);
    let ghost start = out@;
    let mut i: usize = 0;
    proof {
        assert(out@ =~= start + concat_with(v.subrange(0, 0), arm_fn()));
    }
    while i < states.len()
        invariant
            i <= states@.len(),
            v == state_idents(states@),
            out@ == start + concat_with(v.subrange(0, i as int), arm_fn()),
        decreases states@.len() - i,
    {
        let ghost before = out@;
        out.append("            InternalStates::");
        let variant = state_variant_ident(&states[i].ident);
        out.append(variant.as_str());
        out.append("(state) => state,\n");
        proof {
            assert(out@ =~= before + arm_text(v[i as int]));
            lemma_concat_step(v, arm_fn(), i as int);
            assert(out@ =~= start + concat_with(v.subrange(0, i + 1), arm_fn()));
        }
        i = i + 1;
    }
    proof {
        lemma_concat_all(v, arm_fn());
    }
}

fn append_methods(m: &String, events: &Vec<Event>, out: &mut String)
    ensures
        final(out)@ == old(out)@ + concat_with(event_views(events@), method_fn(m@)),
{
    let ghost v = event_views(events@);
    let ghost start = out@;
    let error = error_ident(m);
    let mut i: usize = 0;
    proof {
        assert(out@ =~= start + concat_with(v.subrange(0, 0), method_fn(m@)));
    }
    while i < events.len()
        invariant
            i <= events@.len(),
            v == event_views(events@),
            error@ == error_ident_text(m@),
            out@ == start + concat_with(v.subrange(0, i as int), method_fn(m@)),
        decreases events@.len() - i,
    {
        let ghost before = out@;
        let e = &events[i];
        out.append("\n    fn ");
        out.append(e.ident.as_str());
        out.append("(&mut self");
        append_param_decls(&e.parameters, out);
        out.append(") -> Result<(), ");
        out.append(error.as_str());
        out.append("> {\n        self.handle_event(Event::");
        out.append(e.ident.as_str());
        if e.parameters.len() > 0 {
            out.append("(");
            append_param_args(&e.parameters, out);
            out.append(")");
        }
        out.append(")\n    }\n");
        proof {
            assert(out@ =~= before + method_text(m@, v[i as int]));
            lemma_concat_step(v, method_fn(m@), i as int);
            assert(out@ =~= start + concat_with(v.subrange(0, i + 1), method_fn(m@)));
        }
        i = i + 1;
    }
    proof {
        lemma_concat_all(v, method_fn(m@));
    }
}

fn append_error_type(err: &String, out: &mut String)
    ensures
        final(out)@ == old(out)@ + error_type_text(err@),
{
    let ghost start = out@;
    out.append("#[derive(Debug, Clone)]\nstruct ");
    out.append(err.as_str());
    out.append(" {\n    err: String,\n}\n\nimpl ");
    out.append(err.as_str());
    out.append(" {\n    fn new(error: &str) -> Self {\n        ");
    out.append(err.as_str());
    out.append(" { err: error.to_owned() }\n    }\n}\n\nimpl std::fmt::Display for ");
    out.append(err.as_str());
    out.append(
        " {\n    fn fmt(&self, f: &mut std::fmt::Formatter) -> std::fmt::Result {\n        f.write_str(&self.err)\n    }\n}\n\n",
    );
    assert(out@ =~= start + error_type_text(err@));
}

fn append_capability(err: &String, out: &mut String)
    ensures
        final(out)@ == old(out)@ + capability_text(err@),
{
    let ghost start = out@;
    out.append("type EventOutcome = Result<Option<Transition>, ");
    out.append(err.as_str());
    out.append(">;\n\n");
    out.append(
        "trait State {\n    fn enter(&mut self);\n\n    fn exit(&mut self);\n\n    fn handle_event(&mut self, e: Event) -> EventOutcome;\n}\n\n",
    );
    assert(out@ =~= start + capability_text(err@));
}

fn append_transition(out: &mut String)
    ensures
        final(out)@ == old(out)@ + transition_text(),
{
    let ghost start = out@;
    out.append(
        "struct Transition {\n    target: InternalStates,\n}\n\nimpl Transition {\n    fn to<T: ResolvableState>(state: T) -> Transition {\n        Transition { target: state.resolve() }\n    }\n}\n\n",
    );
    out.append("trait ResolvableState: State {\n    fn resolve(self) -> InternalStates;\n}\n\n");
    assert(out@ =~= start + transition_text());
}

fn append_dispatch(err: &String, out: &mut String)
    ensures
        final(out)@ == old(out)@ + dispatch_text(err@),
{
    let ghost start = out@;
    out.append("    fn handle_event(&mut self, e: Event) -> Result<(), ");
    out.append(err.as_str());
    out.append(
        "> {\n        let current_state = self.get_current_state();\n        let event_result = current_state.handle_event(e)?;\n        if let Some(transition) = event_result {\n            current_state.exit();\n            self.states = transition.target;\n            self.get_current_state().enter();\n        }\n        Ok(())\n    }\n",
    );
    assert(out@ =~= start + dispatch_text(err@));
}

/// The source text of the runtime of machine `f`.
pub fn generate_runtime(f: &FiniteStateMachine) -> (r: String)
    ensures
        r@ == runtime_text(f@),
{
    let mut out = String::new();
    let error = error_ident(&f.ident);
    append_error_type(&error, &mut out);
    append_capability(&error, &mut out);
    out.append("#[allow(non_camel_case_types)]\nenum Event {\n");
    append_event_variants(&f.events, &mut out);
    out.append("}\n\n");
    append_transition(&mut out);
    append_resolves(&f.states, &mut out);
    out.append("enum InternalStates {\n");
    append_state_variants(&f.states, &mut out);
    out.append("}\n\nstruct ");
    out.append(f.ident.as_str());
    out.append(" {\n    states: InternalStates,\n}\n\nimpl ");
    out.append(f.ident.as_str());
    out.append(
        " {\n    fn new(init: Transition) -> Self {\n        let mut result = Self { states: init.target };\n        result.get_current_state().enter();\n        result\n    }\n\n",
    );
    out.append(
        "    fn get_current_state(&mut self) -> &mut dyn State {\n        match &mut self.states {\n",
    );
    append_arms(&f.states, &mut out);
    out.append("        }\n    }\n\n");
    append_dispatch(&error, &mut out);
    append_methods(&f.ident, &f.events, &mut out);
    out.append("}\n");
    assert(out@ =~= runtime_text(f@));
    out
}

/// Reads a machine description from its tokens and generates the source text
/// of its runtime, or says why the description is invalid; nothing is
/// generated then.
pub fn impl_make_fsm(tokens: Vec<Token>) -> (r: Result<String, ParseError>)
    ensures
        match parse_spec(tokens@) {
            Ok(f) => r is Ok && r->Ok_0@ == runtime_text(f),
            Err(e) => r is Err && r->Err_0@ == e,
        },
{
    match FiniteStateMachine::parse(tokens) {
        Ok(f) => Ok(generate_runtime(&f)),
        Err(e) => Err(e),
    }
}

/// Variant names do not collide: distinct states are held in distinct
/// variants of the state union.
pub proof fn lemma_variant_names_distinct(a: Seq<char>, b: Seq<char>)
    requires
        a != b,
    ensures
        state_variant_ident_text(a) != state_variant_ident_text(b),
{
    if state_variant_ident_text(a) == state_variant_ident_text(b) {
        assert(state_variant_ident_text(a).len() == a.len() + "State"@.len());
        assert(state_variant_ident_text(b).len() == b.len() + "State"@.len());
        assert(a =~= state_variant_ident_text(a).subrange(0, a.len() as int));
        assert(b =~= state_variant_ident_text(b).subrange(0, b.len() as int));
        assert(a == b);
    }
}

} // verus!
