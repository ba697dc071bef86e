use rsfsm::generator::{error_ident, generate_runtime, impl_make_fsm, param_ident, state_variant_ident};
use rsfsm::parser::{Delimiter, FiniteStateMachine, ParseError, Spacing, Token};

fn ident(s: &str) -> Token {
    Token::Ident(s.to_string())
}

fn punct(c: char) -> Token {
    Token::Punct(c, Spacing::Alone)
}

fn joint(c: char) -> Token {
    Token::Punct(c, Spacing::Joint)
}

fn one_param_machine(params: Vec<Token>) -> Vec<Token> {
    let events = group(
        Delimiter::Bracket,
        vec![ident("load"), group(Delimiter::Parenthesis, params)],
    );
    join(vec![decl("name", ident("M")), decl("events", events), decl("states", coin_states())])
}

fn group(d: Delimiter, ts: Vec<Token>) -> Token {
    Token::Group(d, ts)
}

fn decl(key: &str, value: Token) -> Vec<Token> {
    vec![ident(key), punct(':'), value]
}

fn join(decls: Vec<Vec<Token>>) -> Vec<Token> {
    let mut out = Vec::new();
    for (i, d) in decls.into_iter().enumerate() {
        if i > 0 {
            out.push(punct(','));
        }
        out.extend(d);
    }
    out
}

fn coin_events() -> Token {
    group(
        Delimiter::Bracket,
        vec![
            ident("push"),
            group(Delimiter::Parenthesis, vec![]),
            punct(','),
            ident("insert_coins"),
            group(Delimiter::Parenthesis, vec![ident("u8")]),
            punct(','),
            ident("see_balance"),
            group(Delimiter::Parenthesis, vec![]),
            punct(','),
        ],
    )
}

fn coin_states() -> Token {
    group(Delimiter::Bracket, vec![ident("Locked"), punct(','), ident("Unlocked")])
}

fn coin_tokens() -> Vec<Token> {
    join(vec![
        decl("name", ident("CoinMachine")),
        decl("events", coin_events()),
        decl("states", coin_states()),
    ])
}

fn parse_err(tokens: Vec<Token>) -> ParseError {
    FiniteStateMachine::parse(tokens).unwrap_err()
}

#[test]
fn parses_coin_machine_in_declaration_order() {
    let fsm = FiniteStateMachine::parse(coin_tokens()).unwrap();
    assert_eq!(fsm.ident, "CoinMachine");
    let states: Vec<&str> = fsm.states.iter().map(|s| s.ident.as_str()).collect();
    assert_eq!(states, vec!["Locked", "Unlocked"]);
    let events: Vec<&str> = fsm.events.iter().map(|e| e.ident.as_str()).collect();
    assert_eq!(events, vec!["push", "insert_coins", "see_balance"]);
    assert!(fsm.events[0].parameters.is_empty());
    assert_eq!(fsm.events[1].parameters.len(), 1);
    assert!(matches!(&fsm.events[1].parameters[0][..], [Token::Ident(t)] if t == "u8"));
}

#[test]
fn declarations_may_come_in_any_order_with_trailing_comma() {
    let mut tokens = join(vec![
        decl("states", coin_states()),
        decl("events", coin_events()),
        decl("name", ident("Turnstile")),
    ]);
    tokens.push(punct(','));
    let fsm = FiniteStateMachine::parse(tokens).unwrap();
    assert_eq!(fsm.ident, "Turnstile");
    assert_eq!(fsm.states.len(), 2);
    assert_eq!(fsm.events.len(), 3);
}

#[test]
fn bare_event_identifiers_are_parameterless() {
    let events = group(
        Delimiter::Bracket,
        vec![ident("push"), punct(','), ident("insert_coin")],
    );
    let tokens = join(vec![decl("name", ident("M")), decl("events", events), decl("states", coin_states())]);
    let fsm = FiniteStateMachine::parse(tokens).unwrap();
    assert_eq!(fsm.events.len(), 2);
    assert!(fsm.events.iter().all(|e| e.parameters.is_empty()));
}

#[test]
fn generic_parameter_types_keep_their_commas() {
    let params = vec![
        ident("HashMap"),
        punct('<'),
        ident("u8"),
        punct(','),
        ident("String"),
        punct('>'),
        punct(','),
        ident("bool"),
    ];
    let events = group(
        Delimiter::Bracket,
        vec![ident("load"), group(Delimiter::Parenthesis, params)],
    );
    let tokens = join(vec![decl("name", ident("M")), decl("events", events), decl("states", coin_states())]);
    let fsm = FiniteStateMachine::parse(tokens).unwrap();
    assert_eq!(fsm.events[0].parameters.len(), 2);
    assert_eq!(fsm.events[0].parameters[0].len(), 6);
    assert_eq!(fsm.events[0].parameters[1].len(), 1);
}

#[test]
fn later_declaration_replaces_earlier() {
    let tokens = join(vec![
        decl("name", ident("First")),
        decl("events", coin_events()),
        decl("states", coin_states()),
        decl("name", ident("Second")),
    ]);
    assert_eq!(FiniteStateMachine::parse(tokens).unwrap().ident, "Second");
}

#[test]
fn missing_name_is_reported() {
    let tokens = join(vec![decl("events", coin_events()), decl("states", coin_states())]);
    let err = parse_err(tokens);
    assert_eq!(err, ParseError::NoName);
    assert_eq!(err.message(), "No name specified");
}

#[test]
fn missing_states_are_reported() {
    let tokens = join(vec![decl("name", ident("M")), decl("events", coin_events())]);
    let err = parse_err(tokens);
    assert_eq!(err, ParseError::NoStates);
    assert_eq!(err.message(), "No states specified");
}

#[test]
fn empty_states_group_is_reported() {
    let tokens = join(vec![
        decl("name", ident("M")),
        decl("events", coin_events()),
        decl("states", group(Delimiter::Bracket, vec![])),
    ]);
    assert_eq!(parse_err(tokens), ParseError::NoStates);
}

#[test]
fn missing_events_are_reported() {
    let tokens = join(vec![decl("name", ident("M")), decl("states", coin_states())]);
    let err = parse_err(tokens);
    assert_eq!(err, ParseError::NoEvents);
    assert_eq!(err.message(), "No events specified");
}

#[test]
fn empty_input_lacks_a_name() {
    assert_eq!(parse_err(vec![]), ParseError::NoName);
}

#[test]
fn unknown_key_is_an_undefined_identifier() {
    let mut tokens = coin_tokens();
    tokens.push(punct(','));
    tokens.extend(decl("colour", ident("Red")));
    let err = parse_err(tokens);
    assert_eq!(err, ParseError::UndefinedIdentifier("colour".to_string(), 3));
    assert_eq!(err.message(), "Undefined identifier: colour");
}

#[test]
fn key_without_colon_is_reported() {
    let tokens = vec![ident("name"), ident("M")];
    assert_eq!(parse_err(tokens), ParseError::ExpectedColon);
}

#[test]
fn non_identifier_name_is_reported() {
    let tokens = decl("name", Token::Literal("\"M\"".to_string()));
    assert_eq!(parse_err(tokens), ParseError::ExpectedIdentifier);
}

#[test]
fn doubled_comma_is_an_empty_declaration() {
    let mut tokens = decl("name", ident("M"));
    tokens.push(punct(','));
    tokens.push(punct(','));
    assert_eq!(parse_err(tokens), ParseError::ExpectedIdentifier);
}

#[test]
fn states_value_must_be_a_group() {
    let tokens = join(vec![decl("name", ident("M")), decl("states", ident("Locked"))]);
    assert_eq!(parse_err(tokens), ParseError::ExpectedGroup);
}

#[test]
fn tokens_after_a_value_are_reported() {
    let mut tokens = decl("name", ident("M"));
    tokens.push(ident("N"));
    assert_eq!(parse_err(tokens), ParseError::UnexpectedToken);
}

#[test]
fn empty_parameter_type_is_reported() {
    let params = vec![ident("u8"), punct(','), punct(','), ident("u8")];
    let events = group(
        Delimiter::Bracket,
        vec![ident("go"), group(Delimiter::Parenthesis, params)],
    );
    let tokens = join(vec![decl("name", ident("M")), decl("events", events), decl("states", coin_states())]);
    assert_eq!(parse_err(tokens), ParseError::ExpectedType);
}

#[test]
fn repeated_state_is_reported() {
    let states = group(
        Delimiter::Bracket,
        vec![ident("Locked"), punct(','), ident("Unlocked"), punct(','), ident("Locked")],
    );
    let tokens = join(vec![decl("name", ident("M")), decl("events", coin_events()), decl("states", states)]);
    let err = parse_err(tokens);
    assert_eq!(err, ParseError::DuplicateState("Locked".to_string()));
    assert_eq!(err.message(), "Duplicate state: Locked");
}

#[test]
fn repeated_event_is_reported() {
    let events = group(Delimiter::Bracket, vec![ident("push"), punct(','), ident("push")]);
    let tokens = join(vec![decl("name", ident("M")), decl("events", events), decl("states", coin_states())]);
    assert_eq!(parse_err(tokens), ParseError::DuplicateEvent("push".to_string()));
}

#[test]
fn first_bad_declaration_decides_the_error() {
    let tokens = join(vec![
        decl("colour", ident("Red")),
        decl("states", ident("Locked")),
    ]);
    assert_eq!(parse_err(tokens), ParseError::UndefinedIdentifier("colour".to_string(), 0));
}

#[test]
fn names_are_derived_by_suffix() {
    assert_eq!(error_ident(&"CoinMachine".to_string()), "CoinMachineError");
    assert_eq!(state_variant_ident(&"Locked".to_string()), "LockedState");
    assert_eq!(param_ident(0), "p0");
    assert_eq!(param_ident(12), "p12");
    assert_eq!(param_ident(305), "p305");
}

#[test]
fn generates_runtime_for_a_small_machine() {
    let tokens = join(vec![
        decl("name", ident("M")),
        decl("events", group(Delimiter::Bracket, vec![ident("go")])),
        decl("states", group(Delimiter::Bracket, vec![ident("A")])),
    ]);
    let text = impl_make_fsm(tokens).unwrap();
    let expected = [
        "#[derive(Debug, Clone)]\nstruct MError {\n    err: String,\n}\n\n",
        "impl MError {\n    fn new(error: &str) -> Self {\n        MError { err: error.to_owned() }\n    }\n}\n\n",
        "impl std::fmt::Display for MError {\n",
        "    fn fmt(&self, f: &mut std::fmt::Formatter) -> std::fmt::Result {\n",
        "        f.write_str(&self.err)\n    }\n}\n\n",
        "type EventOutcome = Result<Option<Transition>, MError>;\n\n",
        "trait State {\n    fn enter(&mut self);\n\n    fn exit(&mut self);\n\n",
        "    fn handle_event(&mut self, e: Event) -> EventOutcome;\n}\n\n",
        "#[allow(non_camel_case_types)]\nenum Event {\n    go,\n}\n\n",
        "struct Transition {\n    target: InternalStates,\n}\n\n",
        "impl Transition {\n    fn to<T: ResolvableState>(state: T) -> Transition {\n",
        "        Transition { target: state.resolve() }\n    }\n}\n\n",
        "trait ResolvableState: State {\n    fn resolve(self) -> InternalStates;\n}\n\n",
        "impl ResolvableState for A {\n    fn resolve(self) -> InternalStates {\n",
        "        InternalStates::AState(self)\n    }\n}\n\n",
        "enum InternalStates {\n    AState(A),\n}\n\n",
        "struct M {\n    states: InternalStates,\n}\n\n",
        "impl M {\n    fn new(init: Transition) -> Self {\n",
        "        let mut result = Self { states: init.target };\n",
        "        result.get_current_state().enter();\n        result\n    }\n\n",
        "    fn get_current_state(&mut self) -> &mut dyn State {\n",
        "        match &mut self.states {\n",
        "            InternalStates::AState(state) => state,\n        }\n    }\n\n",
        "    fn handle_event(&mut self, e: Event) -> Result<(), MError> {\n",
        "        let current_state = self.get_current_state();\n",
        "        let event_result = current_state.handle_event(e)?;\n",
        "        if let Some(transition) = event_result {\n",
        "            current_state.exit();\n",
        "            self.states = transition.target;\n",
        "            self.get_current_state().enter();\n        }\n        Ok(())\n    }\n",
        "\n    fn go(&mut self) -> Result<(), MError> {\n",
        "        self.handle_event(Event::go)\n    }\n",
        "}\n",
    ]
    .concat();
    assert_eq!(text, expected);
}

#[test]
fn generated_methods_take_typed_parameters() {
    let text = generate_runtime(&FiniteStateMachine::parse(coin_tokens()).unwrap());
    assert!(text.contains("struct CoinMachineError {\n"));
    assert!(text.contains("    insert_coins(u8 , ),\n"));
    assert!(text.contains("    LockedState(Locked),\n    UnlockedState(Unlocked),\n"));
    assert!(text.contains("            InternalStates::LockedState(state) => state,\n            InternalStates::UnlockedState(state) => state,\n"));
    assert!(text.contains("impl ResolvableState for Unlocked {\n"));
    assert!(text.contains(
        "    fn insert_coins(&mut self, p0: u8 ) -> Result<(), CoinMachineError> {\n        self.handle_event(Event::insert_coins(p0, ))\n    }\n"
    ));
    assert!(text.contains(
        "    fn push(&mut self) -> Result<(), CoinMachineError> {\n        self.handle_event(Event::push)\n    }\n"
    ));
}

#[test]
fn nested_groups_render_with_their_delimiters() {
    let params = vec![group(Delimiter::Parenthesis, vec![ident("u8"), punct(','), ident("u8")])];
    let events = group(
        Delimiter::Bracket,
        vec![ident("pair"), group(Delimiter::Parenthesis, params)],
    );
    let tokens = join(vec![decl("name", ident("M")), decl("events", events), decl("states", coin_states())]);
    let text = impl_make_fsm(tokens).unwrap();
    assert!(text.contains("    pair((u8 , u8 ) , ),\n"));
}

#[test]
fn invalid_description_generates_nothing() {
    let tokens = join(vec![decl("name", ident("M")), decl("states", coin_states())]);
    assert_eq!(impl_make_fsm(tokens).unwrap_err(), ParseError::NoEvents);
}

#[test]
fn generation_is_deterministic() {
    let a = impl_make_fsm(coin_tokens()).unwrap();
    let b = impl_make_fsm(coin_tokens()).unwrap();
    assert_eq!(a, b);
}

#[test]
fn path_types_keep_joined_punctuation() {
    let params = vec![
        ident("std"),
        joint(':'),
        punct(':'),
        ident("string"),
        joint(':'),
        punct(':'),
        ident("String"),
    ];
    let text = impl_make_fsm(one_param_machine(params)).unwrap();
    assert!(text.contains("    load(std :: string :: String , ),\n"));
    assert!(text.contains("fn load(&mut self, p0: std :: string :: String ) -> Result<(), MError>"));
}

#[test]
fn arrows_and_lifetimes_stay_whole() {
    let params = vec![
        ident("Box"),
        punct('<'),
        ident("dyn"),
        ident("Fn"),
        group(Delimiter::Parenthesis, vec![]),
        joint('-'),
        punct('>'),
        ident("u8"),
        punct('>'),
        punct(','),
        punct('&'),
        joint('\''),
        ident("static"),
        ident("str"),
    ];
    let tokens = one_param_machine(params);
    let fsm = FiniteStateMachine::parse(one_param_machine(vec![
        ident("Box"),
        punct('<'),
        ident("dyn"),
        ident("Fn"),
        group(Delimiter::Parenthesis, vec![]),
        joint('-'),
        punct('>'),
        ident("u8"),
        punct('>'),
        punct(','),
        punct('&'),
        joint('\''),
        ident("static"),
        ident("str"),
    ]))
    .unwrap();
    assert_eq!(fsm.events[0].parameters.len(), 2);
    let text = impl_make_fsm(tokens).unwrap();
    assert!(text.contains("    load(Box < dyn Fn () -> u8 > , & 'static str , ),\n"));
}

#[test]
fn words_side_by_side_are_not_a_type() {
    let err = parse_err(one_param_machine(vec![ident("u8"), ident("u16")]));
    assert_eq!(err, ParseError::ExpectedType);
    assert_eq!(err.message(), "expected a type");
}

#[test]
fn literal_is_not_a_type() {
    let params = vec![Token::Literal("1".to_string())];
    assert_eq!(parse_err(one_param_machine(params)), ParseError::ExpectedType);
}

#[test]
fn keywords_and_lifetimes_may_precede_words() {
    let params = vec![
        punct('&'),
        joint('\''),
        ident("a"),
        ident("mut"),
        ident("Vec"),
        punct('<'),
        ident("u8"),
        punct('>'),
        punct(','),
        ident("Box"),
        punct('<'),
        ident("dyn"),
        ident("Send"),
        punct('>'),
        punct(','),
        group(Delimiter::Bracket, vec![ident("u8"), punct(';'), Token::Literal("4".to_string())]),
    ];
    let fsm = FiniteStateMachine::parse(one_param_machine(params)).unwrap();
    assert_eq!(fsm.events[0].parameters.len(), 3);
}

#[test]
fn arrow_inside_angle_brackets_does_not_close_them() {
    let params = vec![
        ident("HashMap"),
        punct('<'),
        ident("Box"),
        punct('<'),
        ident("dyn"),
        ident("Fn"),
        group(Delimiter::Parenthesis, vec![]),
        joint('-'),
        punct('>'),
        ident("u8"),
        punct('>'),
        punct(','),
        ident("u16"),
        punct('>'),
    ];
    let fsm = FiniteStateMachine::parse(one_param_machine(params)).unwrap();
    assert_eq!(fsm.events[0].parameters.len(), 1);
    assert_eq!(fsm.events[0].parameters[0].len(), 14);
}

#[test]
fn state_named_like_the_error_type_is_reserved() {
    let states = group(Delimiter::Bracket, vec![ident("Locked"), punct(','), ident("MError")]);
    let tokens = join(vec![decl("name", ident("M")), decl("events", coin_events()), decl("states", states)]);
    let err = parse_err(tokens);
    assert_eq!(err, ParseError::ReservedName("MError".to_string()));
    assert_eq!(err.message(), "Reserved name: MError");
}

#[test]
fn state_named_like_a_runtime_item_is_reserved() {
    let states = group(Delimiter::Bracket, vec![ident("Transition")]);
    let tokens = join(vec![decl("name", ident("M")), decl("events", coin_events()), decl("states", states)]);
    assert_eq!(parse_err(tokens), ParseError::ReservedName("Transition".to_string()));
}

#[test]
fn event_named_like_a_machine_method_is_reserved() {
    let events = group(Delimiter::Bracket, vec![ident("push"), punct(','), ident("new")]);
    let tokens = join(vec![decl("name", ident("M")), decl("events", events), decl("states", coin_states())]);
    assert_eq!(parse_err(tokens), ParseError::ReservedName("new".to_string()));
}

#[test]
fn machine_named_like_a_runtime_item_is_reserved() {
    let tokens = join(vec![decl("name", ident("Event")), decl("events", coin_events()), decl("states", coin_states())]);
    assert_eq!(parse_err(tokens), ParseError::ReservedName("Event".to_string()));
}

#[test]
fn const_generic_arguments_are_types() {
    let params = vec![ident("Foo"), punct('<'), Token::Literal("3".to_string()), punct('>')];
    let fsm = FiniteStateMachine::parse(one_param_machine(params)).unwrap();
    assert_eq!(fsm.events[0].parameters[0].len(), 4);
}

#[test]
fn qualified_paths_and_foreign_functions_are_types() {
    let params = vec![
        punct('<'),
        ident("T"),
        ident("as"),
        ident("Trait"),
        punct('>'),
        joint(':'),
        punct(':'),
        ident("Out"),
        punct(','),
        ident("extern"),
        Token::Literal("\"C\"".to_string()),
        ident("fn"),
        group(Delimiter::Parenthesis, vec![]),
    ];
    let fsm = FiniteStateMachine::parse(one_param_machine(params)).unwrap();
    assert_eq!(fsm.events[0].parameters.len(), 2);
}

#[test]
fn lone_punctuation_is_not_a_type() {
    assert_eq!(parse_err(one_param_machine(vec![punct(':')])), ParseError::ExpectedType);
    assert_eq!(parse_err(one_param_machine(vec![punct('&')])), ParseError::ExpectedType);
}

#[test]
fn keyword_cannot_name_a_state() {
    let states = group(Delimiter::Bracket, vec![ident("Locked"), punct(','), ident("fn")]);
    let tokens = join(vec![decl("name", ident("M")), decl("events", coin_events()), decl("states", states)]);
    assert_eq!(parse_err(tokens), ParseError::ExpectedIdentifier);
}

#[test]
fn keyword_cannot_name_the_machine() {
    let tokens = join(vec![decl("name", ident("struct")), decl("events", coin_events()), decl("states", coin_states())]);
    assert_eq!(parse_err(tokens), ParseError::ExpectedIdentifier);
}
