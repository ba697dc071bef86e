use vstd::prelude::*;

use crate::render::{append_tokens, tokens_text};

verus! {

/// How a group of tokens is delimited.
#[derive(Debug, Clone, Copy, PartialEq, Eq, Structural)]
pub enum Delimiter {
    Parenthesis,
    Bracket,
    Brace,
    Invisible,
}

/// Whether a punctuation character is joined to the punctuation that
/// follows it, as the two characters of `::` or `->` are.
#[derive(Debug, Clone, Copy, PartialEq, Eq, Structural)]
pub enum Spacing {
    Alone,
    Joint,
}

/// A token tree of a machine description.
#[derive(Debug)]
pub enum Token {
    Ident(String),
    Punct(char, Spacing),
    Literal(String),
    Group(Delimiter, Vec<Token>),
}

/// The token is the punctuation character `c`.
pub open spec fn is_punct(t: Token, c: char) -> bool {
    match t {
        Token::Punct(p, _) => p == c,
        _ => false,
    }
}

/// The token is the punctuation character `c`, joined to what follows.
pub open spec fn is_joint_punct(t: Token, c: char) -> bool {
    match t {
        Token::Punct(p, spacing) => p == c && spacing == Spacing::Joint,
        _ => false,
    }
}

/// The last token of `ts` is a `>` that closes an arrow `->`.
pub open spec fn ends_arrow(ts: Seq<Token>) -> bool {
    ts.len() >= 2 && is_punct(ts.last(), '>') && is_joint_punct(ts[ts.len() - 2], '-')
}

/// How many angle brackets are open after `ts`, where `angle` asks for them
/// to be counted at all; a `>` with none open, or one that ends an arrow
/// `->`, is ignored.
pub open spec fn angle_depth(ts: Seq<Token>, angle: bool) -> nat
    decreases ts.len(),
{
    if !angle || ts.len() == 0 {
        0
    } else {
        let d = angle_depth(ts.drop_last(), angle);
        if is_punct(ts.last(), '<') {
            d + 1
        } else if is_punct(ts.last(), '>') && !ends_arrow(ts) {
            if d > 0 {
                (d - 1) as nat
            } else {
                0
            }
        } else {
            d
        }
    }
}

/// `ts` cut at each comma that stands outside angle brackets (when `angle`
/// holds) into the runs of tokens between them; the commas are dropped.
pub open spec fn split_list(ts: Seq<Token>, angle: bool) -> Seq<Seq<Token>>
    decreases ts.len(),
{
    if ts.len() == 0 {
        seq![Seq::empty()]
    } else {
        let s = split_list(ts.drop_last(), angle);
        if is_punct(ts.last(), ',') && angle_depth(ts.drop_last(), angle) == 0 {
            s.push(Seq::empty())
        } else {
            s.update(s.len() - 1, s.last().push(ts.last()))
        }
    }
}

/// The comma-separated items of `ts`, where a trailing comma (or an empty
/// list) leaves no empty last item.
pub open spec fn list_items(ts: Seq<Token>, angle: bool) -> Seq<Seq<Token>> {
    let s = split_list(ts, angle);
    if s.last().len() == 0 {
        s.drop_last()
    } else {
        s
    }
}

pub open spec fn views_of(parts: Seq<Vec<Token>>) -> Seq<Seq<Token>> {
    parts.map_values(|p: Vec<Token>| p@)
}

/// Cuts `ts` into its comma-separated items.
fn split_items(ts: Vec<Token>, angle: bool) -> (r: Vec<Vec<Token>>)
    ensures
        views_of(r@) == list_items(ts@, angle),
{
    let ghost orig = ts@;
    let mut ts = ts;
    let mut parts: Vec<Vec<Token>> = Vec::new();
    let mut cur: Vec<Token> = Vec::new();
    let mut depth: usize = 0;
    let mut after_dash = false;
    proof {
        assert(orig.len() == ts.len());
        assert(orig.subrange(0, 0) =~= Seq::<Token>::empty());
        assert(views_of(parts@).push(cur@) =~= seq![Seq::<Token>::empty()]);
        assert(orig.subrange(orig.len() - ts.len(), orig.len() as int) =~= orig);
    }
    while ts.len() > 0
        invariant
            orig.len() <= usize::MAX,
            ts@.len() <= orig.len(),
            ts@ == orig.subrange(orig.len() - ts.len(), orig.len() as int),
            split_list(orig.subrange(0, orig.len() - ts.len()), angle) == views_of(parts@).push(
                cur@,
            ),
            depth == angle_depth(orig.subrange(0, orig.len() - ts.len()), angle),
            depth <= orig.len() - ts.len(),
            after_dash == (orig.len() - ts.len() > 0 && is_joint_punct(
                orig[orig.len() - ts.len() - 1],
                '-',
            )),
        decreases ts.len(),
    {
        let ghost done = orig.subrange(0, orig.len() - ts.len());
        let ghost next = orig.subrange(0, orig.len() - ts.len() + 1);
        let t = ts.remove(0);
        proof {
            assert(next.drop_last() =~= done);
            assert(next.last() == t);
            assert(ts@ =~= orig.subrange(orig.len() - ts.len(), orig.len() as int));
        }
        let mut comma = false;
        let mut dash = false;
        match &t {
            Token::Punct(c, spacing) => {
                if angle {
                    if *c == '<' {
                        depth = depth + 1;
                    } else if *c == '>' && !after_dash {
                        if depth > 0 {
                            depth = depth - 1;
                        }
                    }
                }
                comma = *c == ',';
                dash = *c == '-' && *spacing == Spacing::Joint;
            },
            _ => {},
        }
        after_dash = dash;
        proof {
            if orig.len() - ts.len() >= 2 {
                assert(next[next.len() - 2] == orig[orig.len() - ts.len() - 2]);
            }
        }
        if comma && depth == 0 {
            let ghost before = views_of(parts@);
            parts.push(cur);
            cur = Vec::new();
            proof {
                assert(views_of(parts@) =~= before.push(views_of(parts@).last()));
                assert(views_of(parts@).push(cur@) =~= split_list(next, angle));
            }
        } else {
            let ghost before = cur@;
            cur.push(t);
            proof {
                assert(views_of(parts@).push(cur@) =~= split_list(next, angle));
            }
        }
    }
    proof {
        assert(orig.subrange(0, orig.len() as int) =~= orig);
    }
    if cur.len() > 0 {
        parts.push(cur);
    }
    proof {
        assert(views_of(parts@) =~= list_items(orig, angle));
    }
    parts
}

/// Why a token stream is not a valid machine description.
#[derive(Debug, PartialEq, Eq)]
pub enum ParseError {
    /// An identifier was expected: a declaration key, the machine's name,
    /// or a state or event.
    ExpectedIdentifier,
    /// A declaration key is not followed by `:`.
    ExpectedColon,
    /// The key of the declaration at this position (counted from 0 among
    /// the top-level declarations) is none of `name`, `events` and `states`.
    UndefinedIdentifier(String, usize),
    /// A delimited group was expected.
    ExpectedGroup,
    /// Tokens follow a complete value.
    UnexpectedToken,
    /// A parameter is not a type.
    ExpectedType,
    /// No `name` was declared.
    NoName,
    /// No states were declared.
    NoStates,
    /// No events were declared.
    NoEvents,
    /// Two states share this identifier.
    DuplicateState(String),
    /// Two events share this identifier.
    DuplicateEvent(String),
    /// This identifier would collide with an item or a method of the
    /// generated runtime.
    ReservedName(String),
}

/// A parse error with its identifiers as character sequences.
pub ghost enum Failure {
    ExpectedIdentifier,
    ExpectedColon,
    UndefinedIdentifier(Seq<char>, nat),
    ExpectedGroup,
    UnexpectedToken,
    ExpectedType,
    NoName,
    NoStates,
    NoEvents,
    DuplicateState(Seq<char>),
    DuplicateEvent(Seq<char>),
    ReservedName(Seq<char>),
}

impl View for ParseError {
    type V = Failure;

    open spec fn view(&self) -> Failure {
        match self {
            ParseError::ExpectedIdentifier => Failure::ExpectedIdentifier,
            ParseError::ExpectedColon => Failure::ExpectedColon,
            ParseError::UndefinedIdentifier(s, pos) => Failure::UndefinedIdentifier(s@, *pos as nat),
            ParseError::ExpectedGroup => Failure::ExpectedGroup,
            ParseError::UnexpectedToken => Failure::UnexpectedToken,
            ParseError::ExpectedType => Failure::ExpectedType,
            ParseError::NoName => Failure::NoName,
            ParseError::NoStates => Failure::NoStates,
            ParseError::NoEvents => Failure::NoEvents,
            ParseError::DuplicateState(s) => Failure::DuplicateState(s@),
            ParseError::DuplicateEvent(s) => Failure::DuplicateEvent(s@),
            ParseError::ReservedName(s) => Failure::ReservedName(s@),
        }
    }
}

/// A declared state.
#[derive(Debug)]
pub struct State {
    pub ident: String,
}

/// A declared event with the types of its parameters, in order; each type
/// is the run of tokens that spells it.
#[derive(Debug)]
pub struct Event {
    pub ident: String,
    pub parameters: Vec<Vec<Token>>,
}

/// A declared event as values.
pub ghost struct EventSpec {
    pub ident: Seq<char>,
    pub parameters: Seq<Seq<Token>>,
}

impl View for Event {
    type V = EventSpec;

    open spec fn view(&self) -> EventSpec {
        EventSpec { ident: self.ident@, parameters: views_of(self.parameters@) }
    }
}

/// A validated machine description: its name, its states and its events, in
/// the order they were declared.
#[derive(Debug)]
pub struct FiniteStateMachine {
    pub ident: String,
    pub states: Vec<State>,
    pub events: Vec<Event>,
}

/// A machine description as values.
pub ghost struct FsmSpec {
    pub ident: Seq<char>,
    pub states: Seq<Seq<char>>,
    pub events: Seq<EventSpec>,
}

pub open spec fn state_idents(states: Seq<State>) -> Seq<Seq<char>> {
    states.map_values(|s: State| s.ident@)
}

pub open spec fn event_views(events: Seq<Event>) -> Seq<EventSpec> {
    events.map_values(|e: Event| e@)
}

pub open spec fn event_idents(events: Seq<EventSpec>) -> Seq<Seq<char>> {
    events.map_values(|e: EventSpec| e.ident)
}

impl View for FiniteStateMachine {
    type V = FsmSpec;

    open spec fn view(&self) -> FsmSpec {
        FsmSpec {
            ident: self.ident@,
            states: state_idents(self.states@),
            events: event_views(self.events@),
        }
    }
}

/// The identifier that the token is, if it is one.
pub open spec fn ident_of(t: Token) -> Option<Seq<char>> {
    match t {
        Token::Ident(s) => Some(s@),
        _ => None,
    }
}

/// A list element that must be exactly one identifier.
pub open spec fn single_ident(p: Seq<Token>) -> Result<Seq<char>, Failure> {
    if p.len() == 0 || name_of(p[0]) is None {
        Err(Failure::ExpectedIdentifier)
    } else if p.len() > 1 {
        Err(Failure::UnexpectedToken)
    } else {
        Ok(name_of(p[0])->0)
    }
}

/// The states of a `states` group, one identifier per item; the first bad
/// item decides the error.
pub open spec fn parse_states(items: Seq<Seq<Token>>) -> Result<Seq<Seq<char>>, Failure>
    decreases items.len(),
{
    if items.len() == 0 {
        Ok(Seq::empty())
    } else {
        match parse_states(items.drop_last()) {
            Err(e) => Err(e),
            Ok(ss) => match single_ident(items.last()) {
                Err(e) => Err(e),
                Ok(s) => Ok(ss.push(s)),
            },
        }
    }
}

/// Whether `s` is exactly one Rust type, as syn parses types.
pub uninterp spec fn spells_type(s: Seq<char>) -> bool;

/// Whether `s` is exactly one Rust identifier that is not a keyword, as syn
/// parses identifiers.
pub uninterp spec fn spells_ident(s: Seq<char>) -> bool;

/// Relies on `syn::parse_str::<syn::Type>`: whether the text lexes and
/// parses, as a whole, as one type. It depends on the text alone.
#[verifier::external_body]
fn is_type_text(s: &str) -> (r: bool)
    ensures
        r == spells_type(s@),
{
    syn::parse_str::<syn::Type>(s).is_ok()
}

/// Relies on `syn::parse_str::<syn::Ident>`: whether the text is one
/// identifier that is not a keyword. It depends on the text alone.
#[verifier::external_body]
fn is_ident_text(s: &str) -> (r: bool)
    ensures
        r == spells_ident(s@),
{
    syn::parse_str::<syn::Ident>(s).is_ok()
}

/// The identifier that the token is, if it is one that may name a machine,
/// a state or an event.
pub open spec fn name_of(t: Token) -> Option<Seq<char>> {
    match ident_of(t) {
        Some(s) => if spells_ident(s) {
            Some(s)
        } else {
            None
        },
        None => None,
    }
}

/// `t` spells a type: its source text is one type.
pub open spec fn type_run(t: Seq<Token>) -> bool {
    spells_type(tokens_text(t))
}

/// The parameter types of an event: every item must spell a type.
pub open spec fn parse_params(items: Seq<Seq<Token>>) -> Result<Seq<Seq<Token>>, Failure> {
    if exists|i: int| 0 <= i < items.len() && !#[trigger] type_run(items[i]) {
        Err(Failure::ExpectedType)
    } else {
        Ok(items)
    }
}

/// An event: an identifier, optionally followed by a group of parameter
/// types.
pub open spec fn parse_event(p: Seq<Token>) -> Result<EventSpec, Failure> {
    if p.len() == 0 || name_of(p[0]) is None {
        Err(Failure::ExpectedIdentifier)
    } else if p.len() == 1 {
        Ok(EventSpec { ident: name_of(p[0])->0, parameters: Seq::empty() })
    } else {
        match p[1] {
            Token::Group(_, inner) => if p.len() > 2 {
                Err(Failure::UnexpectedToken)
            } else {
                match parse_params(list_items(inner@, true)) {
                    Err(e) => Err(e),
                    Ok(ps) => Ok(EventSpec { ident: name_of(p[0])->0, parameters: ps }),
                }
            },
            _ => Err(Failure::ExpectedGroup),
        }
    }
}

/// The events of an `events` group; the first bad item decides the error.
pub open spec fn parse_events(items: Seq<Seq<Token>>) -> Result<Seq<EventSpec>, Failure>
    decreases items.len(),
{
    if items.len() == 0 {
        Ok(Seq::empty())
    } else {
        match parse_events(items.drop_last()) {
            Err(e) => Err(e),
            Ok(es) => match parse_event(items.last()) {
                Err(e) => Err(e),
                Ok(ev) => Ok(es.push(ev)),
            },
        }
    }
}

/// A value that must be exactly one delimited group: its tokens.
pub open spec fn group_value(v: Seq<Token>) -> Result<Seq<Token>, Failure> {
    if v.len() == 0 {
        Err(Failure::ExpectedGroup)
    } else {
        match v[0] {
            Token::Group(_, inner) => if v.len() > 1 {
                Err(Failure::UnexpectedToken)
            } else {
                Ok(inner@)
            },
            _ => Err(Failure::ExpectedGroup),
        }
    }
}

/// What the declarations read so far have set.
pub ghost struct Decls {
    pub name: Option<Seq<char>>,
    pub states: Seq<Seq<char>>,
    pub events: Seq<EventSpec>,
}

/// The effect of declaration `key: value`, standing at position `pos`; a
/// later declaration of a key replaces an earlier one.
pub open spec fn apply_decl(acc: Decls, p: Seq<Token>, pos: nat) -> Result<Decls, Failure> {
    if p.len() == 0 || ident_of(p[0]) is None {
        Err(Failure::ExpectedIdentifier)
    } else if p.len() < 2 || !is_punct(p[1], ':') {
        Err(Failure::ExpectedColon)
    } else {
        let key = ident_of(p[0])->0;
        let v = p.subrange(2, p.len() as int);
        if key == "name"@ {
            match single_ident(v) {
                Err(e) => Err(e),
                Ok(n) => Ok(Decls { name: Some(n), ..acc }),
            }
        } else if key == "events"@ {
            match group_value(v) {
                Err(e) => Err(e),
                Ok(inner) => match parse_events(list_items(inner, false)) {
                    Err(e) => Err(e),
                    Ok(es) => Ok(Decls { events: es, ..acc }),
                },
            }
        } else if key == "states"@ {
            match group_value(v) {
                Err(e) => Err(e),
                Ok(inner) => match parse_states(list_items(inner, false)) {
                    Err(e) => Err(e),
                    Ok(ss) => Ok(Decls { states: ss, ..acc }),
                },
            }
        } else {
            Err(Failure::UndefinedIdentifier(key, pos))
        }
    }
}

/// The declarations in order, from nothing declared; the first bad one
/// decides the error.
pub open spec fn apply_decls(items: Seq<Seq<Token>>) -> Result<Decls, Failure>
    decreases items.len(),
{
    if items.len() == 0 {
        Ok(Decls { name: None, states: Seq::empty(), events: Seq::empty() })
    } else {
        match apply_decls(items.drop_last()) {
            Err(e) => Err(e),
            Ok(acc) => apply_decl(acc, items.last(), (items.len() - 1) as nat),
        }
    }
}

/// The first identifier of `names` that repeats an earlier one.
pub open spec fn first_repeat(names: Seq<Seq<char>>) -> Option<Seq<char>>
    decreases names.len(),
{
    if names.len() == 0 {
        None
    } else {
        match first_repeat(names.drop_last()) {
            Some(x) => Some(x),
            None => if names.drop_last().contains(names.last()) {
                Some(names.last())
            } else {
                None
            },
        }
    }
}

/// A name the generated runtime gives to one of its own items, or uses for
/// a type it names.
pub open spec fn runtime_item_name(n: Seq<char>) -> bool {
    n == "Event"@ || n == "Transition"@ || n == "InternalStates"@ || n == "State"@ || n
        == "ResolvableState"@ || n == "EventOutcome"@ || n == "Result"@ || n == "Option"@ || n
        == "String"@
}

/// State `s` of machine `m` would collide with a generated item: the
/// machine type, its error type `m` + `Error`, or a runtime item.
pub open spec fn reserved_state(m: Seq<char>, s: Seq<char>) -> bool {
    runtime_item_name(s) || s == m || s == m + "Error"@
}

/// Event `e` would collide with a method the machine type has of its own.
pub open spec fn reserved_method(e: Seq<char>) -> bool {
    e == "new"@ || e == "handle_event"@ || e == "get_current_state"@
}

/// The names that collide, for states (`for_states`) of machine `m` or for
/// events.
pub open spec fn reserved_fn(m: Seq<char>, for_states: bool) -> spec_fn(Seq<char>) -> bool {
    |n: Seq<char>|
        if for_states {
            reserved_state(m, n)
        } else {
            reserved_method(n)
        }
}

/// The first of `names` that `p` holds of.
pub open spec fn first_where(names: Seq<Seq<char>>, p: spec_fn(Seq<char>) -> bool) -> Option<
    Seq<char>,
>
    decreases names.len(),
{
    if names.len() == 0 {
        None
    } else {
        match first_where(names.drop_last(), p) {
            Some(x) => Some(x),
            None => if p(names.last()) {
                Some(names.last())
            } else {
                None
            },
        }
    }
}

/// The machine description that `ts` holds, or why it holds none.
pub open spec fn parse_spec(ts: Seq<Token>) -> Result<FsmSpec, Failure> {
    match apply_decls(list_items(ts, false)) {
        Err(e) => Err(e),
        Ok(d) => if d.name is None {
            Err(Failure::NoName)
        } else if d.states.len() == 0 {
            Err(Failure::NoStates)
        } else if d.events.len() == 0 {
            Err(Failure::NoEvents)
        } else if first_repeat(d.states) is Some {
            Err(Failure::DuplicateState(first_repeat(d.states)->0))
        } else if first_repeat(event_idents(d.events)) is Some {
            Err(Failure::DuplicateEvent(first_repeat(event_idents(d.events))->0))
        } else if runtime_item_name(d.name->0) {
            Err(Failure::ReservedName(d.name->0))
        } else if first_where(d.states, reserved_fn(d.name->0, true)) is Some {
            Err(Failure::ReservedName(first_where(d.states, reserved_fn(d.name->0, true))->0))
        } else if first_where(event_idents(d.events), reserved_fn(d.name->0, false)) is Some {
            Err(
                Failure::ReservedName(
                    first_where(event_idents(d.events), reserved_fn(d.name->0, false))->0,
                ),
            )
        } else {
            Ok(FsmSpec { ident: d.name->0, states: d.states, events: d.events })
        },
    }
}

/// `r` fails exactly where `s` does, with the same error.
pub open spec fn err_agrees<T, V>(r: Result<T, ParseError>, s: Result<V, Failure>) -> bool {
    &&& r is Err <==> s is Err
    &&& r is Err ==> r->Err_0@ == s->Err_0
}

proof fn lemma_states_err_prefix(items: Seq<Seq<Token>>, k: int)
    requires
        0 <= k <= items.len(),
        parse_states(items.subrange(0, k)) is Err,
    ensures
        parse_states(items) == parse_states(items.subrange(0, k)),
    decreases items.len(),
{
    if k < items.len() {
        assert(items.drop_last().subrange(0, k) =~= items.subrange(0, k));
        lemma_states_err_prefix(items.drop_last(), k);
    } else {
        assert(items.subrange(0, k) =~= items);
    }
}

proof fn lemma_events_err_prefix(items: Seq<Seq<Token>>, k: int)
    requires
        0 <= k <= items.len(),
        parse_events(items.subrange(0, k)) is Err,
    ensures
        parse_events(items) == parse_events(items.subrange(0, k)),
    decreases items.len(),
{
    if k < items.len() {
        assert(items.drop_last().subrange(0, k) =~= items.subrange(0, k));
        lemma_events_err_prefix(items.drop_last(), k);
    } else {
        assert(items.subrange(0, k) =~= items);
    }
}

/// Reads a list element that must be exactly one identifier.
fn take_single_ident(p: Vec<Token>) -> (r: Result<String, ParseError>)
    ensures
        err_agrees(r, single_ident(p@)),
        r is Ok ==> r->Ok_0@ == single_ident(p@)->Ok_0,
{
    let mut p = p;
    if p.len() == 0 {
        return Err(ParseError::ExpectedIdentifier);
    }
    let t = p.remove(0);
    match t {
        Token::Ident(s) => if !is_ident_text(s.as_str()) {
            Err(ParseError::ExpectedIdentifier)
        } else if p.len() > 0 {
            Err(ParseError::UnexpectedToken)
        } else {
            Ok(s)
        },
        _ => Err(ParseError::ExpectedIdentifier),
    }
}

/// Reads a value that must be exactly one delimited group.
fn take_group(v: Vec<Token>) -> (r: Result<Vec<Token>, ParseError>)
    ensures
        err_agrees(r, group_value(v@)),
        r is Ok ==> r->Ok_0@ == group_value(v@)->Ok_0,
{
    let mut v = v;
    if v.len() == 0 {
        return Err(ParseError::ExpectedGroup);
    }
    let t = v.remove(0);
    match t {
        Token::Group(_, inner) => if v.len() > 0 {
            Err(ParseError::UnexpectedToken)
        } else {
            Ok(inner)
        },
        _ => Err(ParseError::ExpectedGroup),
    }
}

/// Reads the items of a `states` group.
fn parse_state_list(items: Vec<Vec<Token>>) -> (r: Result<Vec<State>, ParseError>)
    ensures
        err_agrees(r, parse_states(views_of(items@))),
        r is Ok ==> state_idents(r->Ok_0@) == parse_states(views_of(items@))->Ok_0,
{
    let ghost orig = views_of(items@);
    let mut items = items;
    let mut states: Vec<State> = Vec::new();
    proof {
        assert(orig.subrange(0, 0) =~= Seq::<Seq<Token>>::empty());
        assert(state_idents(states@) =~= Seq::<Seq<char>>::empty());
        assert(views_of(items@) =~= orig.subrange(0, orig.len() as int));
    }
    #[verifier::loop_isolation(false)]
    while items.len() > 0
        invariant
            items@.len() <= orig.len(),
            views_of(items@) == orig.subrange(orig.len() - items.len(), orig.len() as int),
            parse_states(orig.subrange(0, orig.len() - items.len())) == Ok::<Seq<Seq<char>>, Failure>(
                state_idents(states@),
            ),
        decreases items.len(),
    {
        let ghost k = orig.len() - items.len();
        let ghost next = orig.subrange(0, k + 1);
        let ghost before = items@;
        let p = items.remove(0);
        proof {
            assert(next.drop_last() =~= orig.subrange(0, k));
            assert(p@ == views_of(before)[0]);
            assert(next.last() == p@);
            assert(items@ =~= before.subrange(1, before.len() as int));
            assert forall|j: int| 0 <= j < items@.len() implies views_of(items@)[j] == orig[k + 1
                + j] by {
                assert(items@[j] == before[j + 1]);
                assert(views_of(before)[j + 1] == orig.subrange(k, orig.len() as int)[j + 1]);
            }
            assert(views_of(items@) =~= orig.subrange(orig.len() - items.len(), orig.len() as int));
        }
        match take_single_ident(p) {
            Err(e) => {
                proof {
                    lemma_states_err_prefix(orig, k + 1);
                }
                return Err(e);
            },
            Ok(s) => {
                let ghost old_states = states@;
                states.push(State { ident: s });
                proof {
                    assert(state_idents(states@) =~= state_idents(old_states).push(s@));
                }
            },
        }
    }
    proof {
        assert(orig.subrange(0, orig.len() as int) =~= orig);
    }
    Ok(states)
}

/// Whether `t` spells a type.
fn is_type_run(t: &Vec<Token>) -> (r: bool)
    ensures
        r == type_run(t@),
{
    let mut text = String::new();
    append_tokens(t, &mut text);
    assert(text@ =~= tokens_text(t@));
    is_type_text(text.as_str())
}

/// Reads one item of an `events` group.
fn parse_event_item(p: Vec<Token>) -> (r: Result<Event, ParseError>)
    ensures
        err_agrees(r, parse_event(p@)),
        r is Ok ==> r->Ok_0@ == parse_event(p@)->Ok_0,
{
    let mut p = p;
    if p.len() == 0 {
        return Err(ParseError::ExpectedIdentifier);
    }
    let ghost orig = p@;
    let t0 = p.remove(0);
    proof {
        assert(orig[0] == t0);
    }
    let ident = match t0 {
        Token::Ident(s) => s,
        _ => {
            return Err(ParseError::ExpectedIdentifier);
        },
    };
    if !is_ident_text(ident.as_str()) {
        return Err(ParseError::ExpectedIdentifier);
    }
    if p.len() == 0 {
        let r = Event { ident, parameters: Vec::new() };
        proof {
            assert(r@.parameters =~= Seq::<Seq<Token>>::empty());
        }
        return Ok(r);
    }
    let t1 = p.remove(0);
    proof {
        assert(orig[1] == t1);
        assert(p@.len() == orig.len() - 2);
    }
    match t1 {
        Token::Group(_, inner) => {
            if p.len() > 0 {
                return Err(ParseError::UnexpectedToken);
            }
            let ghost inner_view = inner@;
            let params = split_items(inner, true);
            let mut i: usize = 0;
            #[verifier::loop_isolation(false)]
            while i < params.len()
                invariant
                    i <= params@.len(),
                    forall|j: int| 0 <= j < i ==> #[trigger] type_run(views_of(params@)[j]),
                decreases params@.len() - i,
            {
                if !is_type_run(&params[i]) {
                    proof {
                        assert(!type_run(views_of(params@)[i as int]));
                        assert(!type_run(list_items(inner_view, true)[i as int]));
                    }
                    return Err(ParseError::ExpectedType);
                }
                i = i + 1;
            }
            Ok(Event { ident, parameters: params })
        },
        _ => Err(ParseError::ExpectedGroup),
    }
}

/// Reads the items of an `events` group.
fn parse_event_list(items: Vec<Vec<Token>>) -> (r: Result<Vec<Event>, ParseError>)
    ensures
        err_agrees(r, parse_events(views_of(items@))),
        r is Ok ==> event_views(r->Ok_0@) == parse_events(views_of(items@))->Ok_0,
{
    let ghost orig = views_of(items@);
    let mut items = items;
    let mut events: Vec<Event> = Vec::new();
    proof {
        assert(orig.subrange(0, 0) =~= Seq::<Seq<Token>>::empty());
        assert(event_views(events@) =~= Seq::<EventSpec>::empty());
        assert(views_of(items@) =~= orig.subrange(0, orig.len() as int));
    }
    #[verifier::loop_isolation(false)]
    while items.len() > 0
        invariant
            items@.len() <= orig.len(),
            views_of(items@) == orig.subrange(orig.len() - items.len(), orig.len() as int),
            parse_events(orig.subrange(0, orig.len() - items.len())) == Ok::<Seq<EventSpec>, Failure>(
                event_views(events@),
            ),
        decreases items.len(),
    {
        let ghost k = orig.len() - items.len();
        let ghost next = orig.subrange(0, k + 1);
        let ghost before = items@;
        let p = items.remove(0);
        proof {
            assert(next.drop_last() =~= orig.subrange(0, k));
            assert(p@ == views_of(before)[0]);
            assert(next.last() == p@);
            assert(items@ =~= before.subrange(1, before.len() as int));
            assert forall|j: int| 0 <= j < items@.len() implies views_of(items@)[j] == orig[k + 1
                + j] by {
                assert(items@[j] == before[j + 1]);
                assert(views_of(before)[j + 1] == orig.subrange(k, orig.len() as int)[j + 1]);
            }
            assert(views_of(items@) =~= orig.subrange(orig.len() - items.len(), orig.len() as int));
        }
        match parse_event_item(p) {
            Err(e) => {
                proof {
                    lemma_events_err_prefix(orig, k + 1);
                }
                return Err(e);
            },
            Ok(ev) => {
                let ghost old_events = events@;
                let ghost evv = ev@;
                events.push(ev);
                proof {
                    assert(event_views(events@) =~= event_views(old_events).push(evv));
                }
            },
        }
    }
    proof {
        assert(orig.subrange(0, orig.len() as int) =~= orig);
    }
    Ok(events)
}

proof fn lemma_decls_err_prefix(items: Seq<Seq<Token>>, k: int)
    requires
        0 <= k <= items.len(),
        apply_decls(items.subrange(0, k)) is Err,
    ensures
        apply_decls(items) == apply_decls(items.subrange(0, k)),
    decreases items.len(),
{
    if k < items.len() {
        assert(items.drop_last().subrange(0, k) =~= items.subrange(0, k));
        lemma_decls_err_prefix(items.drop_last(), k);
    } else {
        assert(items.subrange(0, k) =~= items);
    }
}

proof fn lemma_repeat_prefix(names: Seq<Seq<char>>, k: int)
    requires
        0 <= k <= names.len(),
        first_repeat(names.subrange(0, k)) is Some,
    ensures
        first_repeat(names) == first_repeat(names.subrange(0, k)),
    decreases names.len(),
{
    if k < names.len() {
        assert(names.drop_last().subrange(0, k) =~= names.subrange(0, k));
        lemma_repeat_prefix(names.drop_last(), k);
    } else {
        assert(names.subrange(0, k) =~= names);
    }
}

/// The declarations read so far.
struct DeclsBuilder {
    name: Option<String>,
    states: Vec<State>,
    events: Vec<Event>,
}

spec fn decls_view(d: DeclsBuilder) -> Decls {
    Decls {
        name: match d.name {
            Some(n) => Some(n@),
            None => None,
        },
        states: state_idents(d.states@),
        events: event_views(d.events@),
    }
}

/// Reads one declaration `key: value` into `acc`.
fn apply_decl_item(acc: DeclsBuilder, p: Vec<Token>, pos: usize) -> (r: Result<
    DeclsBuilder,
    ParseError,
>)
    ensures
        err_agrees(r, apply_decl(decls_view(acc), p@, pos as nat)),
        r is Ok ==> decls_view(r->Ok_0) == apply_decl(decls_view(acc), p@, pos as nat)->Ok_0,
{
    let mut p = p;
    let ghost orig = p@;
    if p.len() == 0 {
        return Err(ParseError::ExpectedIdentifier);
    }
    let t0 = p.remove(0);
    proof {
        assert(orig[0] == t0);
    }
    let key = match t0 {
        Token::Ident(s) => s,
        _ => {
            return Err(ParseError::ExpectedIdentifier);
        },
    };
    if p.len() == 0 {
        return Err(ParseError::ExpectedColon);
    }
    let t1 = p.remove(0);
    proof {
        assert(orig[1] == t1);
        assert(p@ =~= orig.subrange(2, orig.len() as int));
    }
    let colon = match t1 {
        Token::Punct(c, _) => c == ':',
        _ => false,
    };
    if !colon {
        return Err(ParseError::ExpectedColon);
    }
    let mut acc = acc;
    let name_key = String::from_str("name");
    let events_key = String::from_str("events");
    let states_key = String::from_str("states");
    if key == name_key {
        match take_single_ident(p) {
            Err(e) => Err(e),
            Ok(n) => {
                acc.name = Some(n);
                Ok(acc)
            },
        }
    } else if key == events_key {
        match take_group(p) {
            Err(e) => Err(e),
            Ok(inner) => match parse_event_list(split_items(inner, false)) {
                Err(e) => Err(e),
                Ok(es) => {
                    acc.events = es;
                    Ok(acc)
                },
            },
        }
    } else if key == states_key {
        match take_group(p) {
            Err(e) => Err(e),
            Ok(inner) => match parse_state_list(split_items(inner, false)) {
                Err(e) => Err(e),
                Ok(ss) => {
                    acc.states = ss;
                    Ok(acc)
                },
            },
        }
    } else {
        Err(ParseError::UndefinedIdentifier(key, pos))
    }
}

/// Reads the top-level declarations in order.
fn apply_decl_items(items: Vec<Vec<Token>>) -> (r: Result<DeclsBuilder, ParseError>)
    ensures
        err_agrees(r, apply_decls(views_of(items@))),
        r is Ok ==> decls_view(r->Ok_0) == apply_decls(views_of(items@))->Ok_0,
{
    let ghost orig = views_of(items@);
    let mut items = items;
    let mut acc = DeclsBuilder { name: None, states: Vec::new(), events: Vec::new() };
    proof {
        assert(orig.subrange(0, 0) =~= Seq::<Seq<Token>>::empty());
        assert(state_idents(acc.states@) =~= Seq::<Seq<char>>::empty());
        assert(event_views(acc.events@) =~= Seq::<EventSpec>::empty());
        assert(views_of(items@) =~= orig.subrange(0, orig.len() as int));
    }
    let total = items.len();
    assert(orig.len() == total);
    #[verifier::loop_isolation(false)]
    while items.len() > 0
        invariant
            items@.len() <= orig.len(),
            total == orig.len(),
            views_of(items@) == orig.subrange(orig.len() - items.len(), orig.len() as int),
            apply_decls(orig.subrange(0, orig.len() - items.len())) == Ok::<Decls, Failure>(
                decls_view(acc),
            ),
        decreases items.len(),
    {
        let ghost k = orig.len() - items.len();
        let ghost next = orig.subrange(0, k + 1);
        let ghost before = items@;
        let pos = total - items.len();
        let p = items.remove(0);
        proof {
            assert(next.drop_last() =~= orig.subrange(0, k));
            assert(p@ == views_of(before)[0]);
            assert(next.last() == p@);
            assert(items@ =~= before.subrange(1, before.len() as int));
            assert forall|j: int| 0 <= j < items@.len() implies views_of(items@)[j] == orig[k + 1
                + j] by {
                assert(items@[j] == before[j + 1]);
                assert(views_of(before)[j + 1] == orig.subrange(k, orig.len() as int)[j + 1]);
            }
            assert(views_of(items@) =~= orig.subrange(orig.len() - items.len(), orig.len() as int));
        }
        match apply_decl_item(acc, p, pos) {
            Err(e) => {
                proof {
                    lemma_decls_err_prefix(orig, k + 1);
                }
                return Err(e);
            },
            Ok(next_acc) => {
                acc = next_acc;
            },
        }
    }
    proof {
        assert(orig.subrange(0, orig.len() as int) =~= orig);
    }
    Ok(acc)
}

pub open spec fn strings_view(names: Seq<String>) -> Seq<Seq<char>> {
    names.map_values(|n: String| n@)
}

/// The position of the first name that repeats an earlier one.
fn find_repeat(names: &Vec<String>) -> (r: Option<usize>)
    ensures
        match first_repeat(strings_view(names@)) {
            None => r is None,
            Some(x) => r is Some && r->0 < names@.len() && names@[r->0 as int]@ == x,
        },
{
    let ghost ns = strings_view(names@);
    let mut j: usize = 0;
    proof {
        assert(ns.subrange(0, 0) =~= Seq::<Seq<char>>::empty());
    }
    #[verifier::loop_isolation(false)]
    while j < names.len()
        invariant
            j <= names@.len(),
            first_repeat(ns.subrange(0, j as int)) is None,
        decreases names@.len() - j,
    {
        let mut i: usize = 0;
        #[verifier::loop_isolation(false)]
        while i < j
            invariant
                i <= j,
                forall|a: int| 0 <= a < i ==> ns[a] != ns[j as int],
            decreases j - i,
        {
            if names[i] == names[j] {
                proof {
                    let next = ns.subrange(0, j + 1);
                    assert(next.drop_last() =~= ns.subrange(0, j as int));
                    assert(next.drop_last()[i as int] == next.last());
                    lemma_repeat_prefix(ns, j + 1);
                }
                return Some(j);
            }
            i = i + 1;
        }
        proof {
            let next = ns.subrange(0, j + 1);
            assert(next.drop_last() =~= ns.subrange(0, j as int));
            assert(!next.drop_last().contains(next.last()));
        }
        j = j + 1;
    }
    proof {
        assert(ns.subrange(0, names@.len() as int) =~= ns);
    }
    None
}

proof fn lemma_where_prefix(names: Seq<Seq<char>>, p: spec_fn(Seq<char>) -> bool, k: int)
    requires
        0 <= k <= names.len(),
        first_where(names.subrange(0, k), p) is Some,
    ensures
        first_where(names, p) == first_where(names.subrange(0, k), p),
    decreases names.len(),
{
    if k < names.len() {
        assert(names.drop_last().subrange(0, k) =~= names.subrange(0, k));
        lemma_where_prefix(names.drop_last(), p, k);
    } else {
        assert(names.subrange(0, k) =~= names);
    }
}

fn is_runtime_item_name(n: &String) -> (r: bool)
    ensures
        r == runtime_item_name(n@),
{
    *n == String::from_str("Event") || *n == String::from_str("Transition") || *n
        == String::from_str("InternalStates") || *n == String::from_str("State") || *n
        == String::from_str("ResolvableState") || *n == String::from_str("EventOutcome") || *n
        == String::from_str("Result") || *n == String::from_str("Option") || *n
        == String::from_str("String")
}

fn is_reserved(m: &String, n: &String, for_states: bool) -> (r: bool)
    ensures
        r == reserved_fn(m@, for_states)(n@),
{
    if for_states {
        let mut error = m.clone();
        error.append("Error");
        is_runtime_item_name(n) || *n == *m || *n == error
    } else {
        *n == String::from_str("new") || *n == String::from_str("handle_event") || *n
            == String::from_str("get_current_state")
    }
}

/// The position of the first name that collides with the runtime of
/// machine `m`.
fn find_reserved(m: &String, names: &Vec<String>, for_states: bool) -> (r: Option<usize>)
    ensures
        match first_where(strings_view(names@), reserved_fn(m@, for_states)) {
            None => r is None,
            Some(x) => r is Some && r->0 < names@.len() && names@[r->0 as int]@ == x,
        },
{
    let ghost ns = strings_view(names@);
    let ghost p = reserved_fn(m@, for_states);
    let mut j: usize = 0;
    proof {
        assert(ns.subrange(0, 0) =~= Seq::<Seq<char>>::empty());
    }
    #[verifier::loop_isolation(false)]
    while j < names.len()
        invariant
            j <= names@.len(),
            first_where(ns.subrange(0, j as int), p) is None,
        decreases names@.len() - j,
    {
        let next = is_reserved(m, &names[j], for_states);
        proof {
            let n = ns.subrange(0, j + 1);
            assert(n.drop_last() =~= ns.subrange(0, j as int));
            assert(n.last() == names@[j as int]@);
        }
        if next {
            proof {
                lemma_where_prefix(ns, p, j + 1);
            }
            return Some(j);
        }
        j = j + 1;
    }
    proof {
        assert(ns.subrange(0, names@.len() as int) =~= ns);
    }
    None
}

/// The identifiers of `states`, in order.
fn state_names(states: &Vec<State>) -> (r: Vec<String>)
    ensures
        strings_view(r@) == state_idents(states@),
{
    let mut r: Vec<String> = Vec::new();
    let mut i: usize = 0;
    while i < states.len()
        invariant
            i <= states@.len(),
            r@.len() == i,
            forall|k: int| 0 <= k < i ==> #[trigger] r@[k]@ == states@[k].ident@,
        decreases states@.len() - i,
    {
        r.push(states[i].ident.clone());
        i = i + 1;
    }
    proof {
        assert(strings_view(r@) =~= state_idents(states@));
    }
    r
}

/// The identifiers of `events`, in order.
fn event_names(events: &Vec<Event>) -> (r: Vec<String>)
    ensures
        strings_view(r@) == event_idents(event_views(events@)),
{
    let mut r: Vec<String> = Vec::new();
    let mut i: usize = 0;
    while i < events.len()
        invariant
            i <= events@.len(),
            r@.len() == i,
            forall|k: int| 0 <= k < i ==> #[trigger] r@[k]@ == events@[k].ident@,
        decreases events@.len() - i,
    {
        r.push(events[i].ident.clone());
        i = i + 1;
    }
    proof {
        assert(strings_view(r@) =~= event_idents(event_views(events@)));
    }
    r
}

impl FiniteStateMachine {
    /// Reads a machine description from its tokens: comma-separated
    /// declarations `name: <identifier>`, `events: [<event>, ...]` and
    /// `states: [<identifier>, ...]`, where an event is an identifier,
    /// optionally followed by a group of parameter types.
    ///
    /// The first malformed declaration decides the error. A key declared
    /// twice keeps its last value. Then a missing name, no states, no events,
    /// a repeated state, a repeated event, and a name that collides with the
    /// generated runtime are reported, in that order.
    pub fn parse(tokens: Vec<Token>) -> (r: Result<FiniteStateMachine, ParseError>)
        ensures
            err_agrees(r, parse_spec(tokens@)),
            r is Ok ==> r->Ok_0@ == parse_spec(tokens@)->Ok_0,
    {
        let d = match apply_decl_items(split_items(tokens, false)) {
            Err(e) => {
                return Err(e);
            },
            Ok(d) => d,
        };
        let ident = match d.name {
            None => {
                return Err(ParseError::NoName);
            },
            Some(n) => n,
        };
        if d.states.len() == 0 {
            return Err(ParseError::NoStates);
        }
        if d.events.len() == 0 {
            return Err(ParseError::NoEvents);
        }
        let names = state_names(&d.states);
        match find_repeat(&names) {
            Some(i) => {
                return Err(ParseError::DuplicateState(names[i].clone()));
            },
            None => {},
        }
        let names = event_names(&d.events);
        match find_repeat(&names) {
            Some(i) => {
                return Err(ParseError::DuplicateEvent(names[i].clone()));
            },
            None => {},
        }
        if is_runtime_item_name(&ident) {
            return Err(ParseError::ReservedName(ident));
        }
        let names = state_names(&d.states);
        match find_reserved(&ident, &names, true) {
            Some(i) => {
                return Err(ParseError::ReservedName(names[i].clone()));
            },
            None => {},
        }
        let names = event_names(&d.events);
        match find_reserved(&ident, &names, false) {
            Some(i) => {
                return Err(ParseError::ReservedName(names[i].clone()));
            },
            None => {},
        }
        Ok(FiniteStateMachine { ident, states: d.states, events: d.events })
    }
}

/// Some item of `items` is a declaration of `key`.
pub open spec fn declares(items: Seq<Seq<Token>>, key: Seq<char>) -> bool {
    exists|i: int|
        0 <= i < items.len() && #[trigger] items[i].len() > 0 && ident_of(items[i][0]) == Some(key)
}

proof fn lemma_declares_last(items: Seq<Seq<Token>>, key: Seq<char>)
    requires
        items.len() > 0,
    ensures
        declares(items, key) <==> (declares(items.drop_last(), key) || (items.last().len() > 0
            && ident_of(items.last()[0]) == Some(key))),
{
    let init = items.drop_last();
    if declares(items, key) {
        let i = choose|i: int|
            0 <= i < items.len() && #[trigger] items[i].len() > 0 && ident_of(items[i][0]) == Some(
                key,
            );
        if i < items.len() - 1 {
            assert(init[i] == items[i]);
        }
    }
    if declares(init, key) {
        let i = choose|i: int|
            0 <= i < init.len() && #[trigger] init[i].len() > 0 && ident_of(init[i][0]) == Some(key);
        assert(items[i] == init[i]);
    }
    if items.last().len() > 0 && ident_of(items.last()[0]) == Some(key) {
        assert(items[items.len() - 1] == items.last());
    }
}

proof fn lemma_decls_keys(items: Seq<Seq<Token>>)
    requires
        apply_decls(items) is Ok,
    ensures
        apply_decls(items)->Ok_0.name is Some <==> declares(items, "name"@),
        !declares(items, "states"@) ==> apply_decls(items)->Ok_0.states.len() == 0,
        !declares(items, "events"@) ==> apply_decls(items)->Ok_0.events.len() == 0,
    decreases items.len(),
{
    if items.len() > 0 {
        lemma_decls_keys(items.drop_last());
        lemma_declares_last(items, "name"@);
        lemma_declares_last(items, "states"@);
        lemma_declares_last(items, "events"@);
    }
}

/// Grammar validity: where every declaration is well formed, a missing
/// `name` is reported as such; with a name, missing `states` are; with a
/// name and states, missing `events` are.
pub proof fn lemma_missing_declarations(ts: Seq<Token>)
    requires
        apply_decls(list_items(ts, false)) is Ok,
    ensures
        !declares(list_items(ts, false), "name"@) ==> parse_spec(ts) == Err::<FsmSpec, Failure>(
            Failure::NoName,
        ),
        declares(list_items(ts, false), "name"@) && !declares(list_items(ts, false), "states"@)
            ==> parse_spec(ts) == Err::<FsmSpec, Failure>(Failure::NoStates),
        declares(list_items(ts, false), "name"@) && apply_decls(list_items(ts, false))->Ok_0.states.len()
            > 0 && !declares(list_items(ts, false), "events"@) ==> parse_spec(ts) == Err::<
            FsmSpec,
            Failure,
        >(Failure::NoEvents),
{
    lemma_decls_keys(list_items(ts, false));
}

/// Declaration order: the states read from a group are the identifiers of
/// its items, in the order they stand.
pub proof fn lemma_states_in_order(items: Seq<Seq<Token>>)
    requires
        parse_states(items) is Ok,
    ensures
        parse_states(items)->Ok_0.len() == items.len(),
        forall|i: int|
            0 <= i < items.len() ==> #[trigger] parse_states(items)->Ok_0[i] == ident_of(
                items[i][0],
            )->0,
    decreases items.len(),
{
    if items.len() > 0 {
        lemma_states_in_order(items.drop_last());
        assert forall|i: int| 0 <= i < items.len() implies #[trigger] parse_states(items)->Ok_0[i]
            == ident_of(items[i][0])->0 by {
            if i < items.len() - 1 {
                assert(items.drop_last()[i] == items[i]);
                assert(parse_states(items.drop_last())->Ok_0[i] == ident_of(items[i][0])->0);
            }
        }
    }
}

/// Declaration order: the events read from a group are its items, in the
/// order they stand, each with its parameter types in order.
pub proof fn lemma_events_in_order(items: Seq<Seq<Token>>)
    requires
        parse_events(items) is Ok,
    ensures
        parse_events(items)->Ok_0.len() == items.len(),
        forall|i: int|
            0 <= i < items.len() ==> #[trigger] parse_events(items)->Ok_0[i] == parse_event(
                items[i],
            )->Ok_0,
        forall|i: int|
            0 <= i < items.len() ==> #[trigger] parse_events(items)->Ok_0[i].ident == ident_of(
                items[i][0],
            )->0,
    decreases items.len(),
{
    if items.len() > 0 {
        lemma_events_in_order(items.drop_last());
        assert forall|i: int| 0 <= i < items.len() implies #[trigger] parse_events(items)->Ok_0[i]
            == parse_event(items[i])->Ok_0 by {
            if i < items.len() - 1 {
                assert(items.drop_last()[i] == items[i]);
                assert(parse_events(items.drop_last())->Ok_0[i] == parse_event(items[i])->Ok_0);
            }
        }
    }
}

/// The tokens of the group that declaration `p` gives as its value.
pub open spec fn decl_group(p: Seq<Token>) -> Seq<Token> {
    group_value(p.subrange(2, p.len() as int))->Ok_0
}

/// `p` declares `states`, and `states` are the identifiers of its group's
/// items, in the order they stand.
pub open spec fn states_in_order(states: Seq<Seq<char>>, p: Seq<Token>) -> bool {
    let g = list_items(decl_group(p), false);
    &&& p.len() > 0
    &&& ident_of(p[0]) == Some("states"@)
    &&& states.len() == g.len()
    &&& forall|k: int| 0 <= k < g.len() ==> #[trigger] states[k] == ident_of(g[k][0])->0
}

/// `p` declares `events`, and `events` are its group's items, in the order
/// they stand.
pub open spec fn events_in_order(events: Seq<EventSpec>, p: Seq<Token>) -> bool {
    let g = list_items(decl_group(p), false);
    &&& p.len() > 0
    &&& ident_of(p[0]) == Some("events"@)
    &&& events.len() == g.len()
    &&& forall|k: int| 0 <= k < g.len() ==> #[trigger] events[k] == parse_event(g[k])->Ok_0
    &&& forall|k: int| 0 <= k < g.len() ==> #[trigger] events[k].ident == ident_of(g[k][0])->0
}

proof fn lemma_decls_source(items: Seq<Seq<Token>>)
    requires
        apply_decls(items) is Ok,
    ensures
        apply_decls(items)->Ok_0.states.len() > 0 ==> exists|i: int|
            0 <= i < items.len() && states_in_order(apply_decls(items)->Ok_0.states, #[trigger] items[i]),
        apply_decls(items)->Ok_0.events.len() > 0 ==> exists|i: int|
            0 <= i < items.len() && events_in_order(apply_decls(items)->Ok_0.events, #[trigger] items[i]),
    decreases items.len(),
{
    if items.len() > 0 {
        let init = items.drop_last();
        let p = items.last();
        let d = apply_decls(items)->Ok_0;
        let prev = apply_decls(init)->Ok_0;
        lemma_decls_source(init);
        let key = ident_of(p[0])->0;
        assert(items[items.len() - 1] == p);
        reveal_strlit("name");
        reveal_strlit("events");
        reveal_strlit("states");
        assert("states"@.len() != "name"@.len());
        assert("events"@.len() != "name"@.len());
        assert("states"@[0] != "events"@[0]);
        if key == "states"@ {
            lemma_states_in_order(list_items(decl_group(p), false));
            assert(states_in_order(d.states, items[items.len() - 1]));
        } else if d.states.len() > 0 {
            assert(d.states == prev.states);
            let i = choose|i: int| 0 <= i < init.len() && states_in_order(prev.states, #[trigger] init[i]);
            assert(items[i] == init[i]);
        }
        if key == "events"@ {
            lemma_events_in_order(list_items(decl_group(p), false));
            assert(events_in_order(d.events, items[items.len() - 1]));
        } else if d.events.len() > 0 {
            assert(d.events == prev.events);
            let i = choose|i: int| 0 <= i < init.len() && events_in_order(prev.events, #[trigger] init[i]);
            assert(items[i] == init[i]);
        }
    }
}

/// Declaration order: a machine read from tokens lists its states as the
/// items of one of its `states` declarations and its events as the items of
/// one of its `events` declarations, in the order they stand there.
pub proof fn lemma_declaration_order(ts: Seq<Token>)
    requires
        parse_spec(ts) is Ok,
    ensures
        exists|i: int|
            0 <= i < list_items(ts, false).len() && states_in_order(
                parse_spec(ts)->Ok_0.states,
                #[trigger] list_items(ts, false)[i],
            ),
        exists|i: int|
            0 <= i < list_items(ts, false).len() && events_in_order(
                parse_spec(ts)->Ok_0.events,
                #[trigger] list_items(ts, false)[i],
            ),
{
    lemma_decls_source(list_items(ts, false));
}

/// The diagnostic text of a parse error.
pub open spec fn failure_message(f: Failure) -> Seq<char> {
    match f {
        Failure::ExpectedIdentifier => "expected identifier"@,
        Failure::ExpectedColon => "expected `:`"@,
        Failure::UndefinedIdentifier(key, _) => "Undefined identifier: "@ + key,
        Failure::ExpectedGroup => "expected a delimited group"@,
        Failure::UnexpectedToken => "unexpected token"@,
        Failure::ExpectedType => "expected a type"@,
        Failure::NoName => "No name specified"@,
        Failure::NoStates => "No states specified"@,
        Failure::NoEvents => "No events specified"@,
        Failure::DuplicateState(s) => "Duplicate state: "@ + s,
        Failure::DuplicateEvent(e) => "Duplicate event: "@ + e,
        Failure::ReservedName(n) => "Reserved name: "@ + n,
    }
}

impl ParseError {
    /// The diagnostic text of this error.
    pub fn message(&self) -> (r: String)
        ensures
            r@ == failure_message(self@),
    {
        match self {
            ParseError::ExpectedIdentifier => String::from_str("expected identifier"),
            ParseError::ExpectedColon => String::from_str("expected `:`"),
            ParseError::UndefinedIdentifier(key, _) => {
                let mut r = String::from_str("Undefined identifier: ");
                r.append(key.as_str());
                r
            },
            ParseError::ExpectedGroup => String::from_str("expected a delimited group"),
            ParseError::UnexpectedToken => String::from_str("unexpected token"),
            ParseError::ExpectedType => String::from_str("expected a type"),
            ParseError::NoName => String::from_str("No name specified"),
            ParseError::NoStates => String::from_str("No states specified"),
            ParseError::NoEvents => String::from_str("No events specified"),
            ParseError::DuplicateState(s) => {
                let mut r = String::from_str("Duplicate state: ");
                r.append(s.as_str());
                r
            },
            ParseError::DuplicateEvent(e) => {
                let mut r = String::from_str("Duplicate event: ");
                r.append(e.as_str());
                r
            },
            ParseError::ReservedName(n) => {
                let mut r = String::from_str("Reserved name: ");
                r.append(n.as_str());
                r
            },
        }
    }
}

} // verus!
