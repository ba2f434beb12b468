use tinylang::interpreter::interpret_expr;
use tinylang::interpreter::BuiltinRegistry;
use tinylang::interpreter::Flow;
use tinylang::interpreter::Interpreter;
use tinylang::interpreter::NoBuiltins;
use tinylang::interpreter::RuntimeError;
use tinylang::interpreter::EVAL_FUEL;
use tinylang::parser::Expr;
use tinylang::parser::Operator;
use tinylang::parser::ParseError;
use tinylang::parser::Parser;
use tinylang::scope::Scope;
use tinylang::token::Token;
use tinylang::interpreter::get_valuetype_from;
use tinylang::value::Value;
use tinylang::value::ValueType;

fn ident(s: &str) -> Token {
    Token::Identifier(s.to_string())
}

fn op(s: &str) -> Token {
    Token::Operator(s.to_string())
}

fn parse_all(tokens: Vec<Token>) -> Result<Vec<Expr>, ParseError> {
    Parser::new(tokens).parse()
}

/// Parses a program and runs it with no built-ins, returning the final
/// interpreter (whose top-level scope can then be inspected).
fn run_program(tokens: Vec<Token>) -> Result<Interpreter, RuntimeError> {
    let exprs = parse_all(tokens).expect("program should parse");
    let mut reg = NoBuiltins;
    let mut interp = Interpreter::new(exprs, &mut reg);
    interp.run(&mut reg)?;
    Ok(interp)
}

/// Evaluates a single non-terminated expression in a fresh scope.
fn eval_one(tokens: Vec<Token>) -> Result<Flow, RuntimeError> {
    let (expr, _) = Parser::parse_expr(&tokens, 0, false).expect("expression should parse");
    let mut scope = Scope::new();
    let mut reg = NoBuiltins;
    interpret_expr(&expr, &mut scope, &mut reg, EVAL_FUEL)
}

#[test]
fn roundtrip_int_literal() {
    let exprs = parse_all(vec![Token::Num(5), Token::Semicolon]).unwrap();
    assert_eq!(exprs, vec![Expr::Token(Token::Num(5))]);
    let r = eval_one(vec![Token::Num(5)]);
    assert_eq!(r, Ok(Flow::Val(Value::Int(5))));
}

#[test]
fn roundtrip_string_literal() {
    let exprs = parse_all(vec![Token::Str("hi".to_string()), Token::Semicolon]).unwrap();
    assert_eq!(exprs, vec![Expr::Token(Token::Str("hi".to_string()))]);
    let r = eval_one(vec![Token::Str("hi".to_string())]);
    assert_eq!(r, Ok(Flow::Val(Value::Str("hi".to_string()))));
}

#[test]
fn roundtrip_bool_literal() {
    let exprs = parse_all(vec![Token::Bool(true), Token::Semicolon]).unwrap();
    assert_eq!(exprs, vec![Expr::Token(Token::Bool(true))]);
    let r = eval_one(vec![Token::Bool(true)]);
    assert_eq!(r, Ok(Flow::Val(Value::Bool(true))));
}

#[test]
fn assign_then_lookup() {
    // x := 5;
    let interp = run_program(vec![ident("x"), Token::SetVal, Token::Num(5), Token::Semicolon])
        .unwrap();
    assert_eq!(interp.state.toplevel_scope.get(&"x".to_string()), Some(&Value::Int(5)));
}

#[test]
fn rebinding_last_write_wins() {
    // x := 5; x := 6;
    let interp = run_program(vec![
        ident("x"),
        Token::SetVal,
        Token::Num(5),
        Token::Semicolon,
        ident("x"),
        Token::SetVal,
        Token::Num(6),
        Token::Semicolon,
    ])
    .unwrap();
    assert_eq!(interp.state.toplevel_scope.get(&"x".to_string()), Some(&Value::Int(6)));
}

#[test]
fn addition_of_ints() {
    let r = eval_one(vec![Token::Num(2), op("+"), Token::Num(3)]);
    assert_eq!(r, Ok(Flow::Val(Value::Int(5))));
}

#[test]
fn addition_concatenates_strings() {
    // "a" + "b" cannot be written directly (no operator chains after a
    // string literal), so bind the left side first: x := "a"; then x + "b".
    let exprs = parse_all(vec![
        ident("x"),
        Token::SetVal,
        Token::Str("a".to_string()),
        Token::Semicolon,
    ])
    .unwrap();
    let mut reg = NoBuiltins;
    let mut scope = Scope::new();
    let r = interpret_expr(&exprs[0], &mut scope, &mut reg, EVAL_FUEL);
    assert_eq!(r, Ok(Flow::Val(Value::Nothing)));
    let (call, _) = Parser::parse_expr(
        &vec![ident("x"), op("+"), Token::Str("b".to_string())],
        0,
        false,
    )
    .unwrap();
    let r = interpret_expr(&call, &mut scope, &mut reg, EVAL_FUEL);
    assert_eq!(r, Ok(Flow::Val(Value::Str("ab".to_string()))));
}

#[test]
fn addition_of_int_and_string_is_a_type_error() {
    let r = eval_one(vec![Token::Num(2), op("+"), Token::Str("b".to_string())]);
    assert_eq!(r, Err(RuntimeError::TypeMismatch(Operator::Add)));
}

#[test]
fn division_truncates() {
    let r = eval_one(vec![Token::Num(7), op("/"), Token::Num(2)]);
    assert_eq!(r, Ok(Flow::Val(Value::Int(3))));
}

#[test]
fn division_by_zero_fails() {
    let r = eval_one(vec![Token::Num(5), op("/"), Token::Num(0)]);
    assert_eq!(r, Err(RuntimeError::DivisionByZero));
}

#[test]
fn addition_overflow_fails() {
    let r = eval_one(vec![Token::Num(i64::MAX), op("+"), Token::Num(1)]);
    assert_eq!(r, Err(RuntimeError::Overflow));
}

#[test]
fn division_overflow_fails() {
    let r = eval_one(vec![Token::Num(i64::MIN), op("/"), Token::Num(-1)]);
    assert_eq!(r, Err(RuntimeError::Overflow));
}

#[test]
fn equality_of_ints() {
    let r = eval_one(vec![Token::Num(3), op("=="), Token::Num(3)]);
    assert_eq!(r, Ok(Flow::Val(Value::Bool(true))));
}

#[test]
fn inequality_of_ints() {
    let r = eval_one(vec![Token::Num(3), op("!="), Token::Num(4)]);
    assert_eq!(r, Ok(Flow::Val(Value::Bool(true))));
}

#[test]
fn cross_type_comparison_is_a_type_error() {
    let r = eval_one(vec![Token::Num(3), op("=="), Token::Str("3".to_string())]);
    assert_eq!(r, Err(RuntimeError::TypeMismatch(Operator::Eq)));
}

#[test]
fn string_comparison_through_a_variable() {
    let mut reg = NoBuiltins;
    let mut scope = Scope::new();
    let (assign, _) = Parser::parse_expr(
        &vec![ident("x"), Token::SetVal, Token::Str("a".to_string())],
        0,
        false,
    )
    .unwrap();
    interpret_expr(&assign, &mut scope, &mut reg, EVAL_FUEL).unwrap();
    let (cmp, _) = Parser::parse_expr(
        &vec![ident("x"), op("=="), Token::Str("a".to_string())],
        0,
        false,
    )
    .unwrap();
    let r = interpret_expr(&cmp, &mut scope, &mut reg, EVAL_FUEL);
    assert_eq!(r, Ok(Flow::Val(Value::Bool(true))));
}

#[test]
fn rightward_grouping_quirk() {
    // 2 - 3 - 4 parses as 2 - (3 - 4): no left-associative precedence
    // climbing, the whole remainder is the right-hand side.
    let exprs = parse_all(vec![
        Token::Num(2),
        op("-"),
        Token::Num(3),
        op("-"),
        Token::Num(4),
        Token::Semicolon,
    ])
    .unwrap();
    let expected = Expr::BinaryExpr {
        op: Operator::Sub,
        lhs: Box::new(Expr::Token(Token::Num(2))),
        rhs: Box::new(Expr::BinaryExpr {
            op: Operator::Sub,
            lhs: Box::new(Expr::Token(Token::Num(3))),
            rhs: Box::new(Expr::Token(Token::Num(4))),
        }),
    };
    assert_eq!(exprs, vec![expected]);
    let r = eval_one(vec![Token::Num(2), op("-"), Token::Num(3), op("-"), Token::Num(4)]);
    assert_eq!(r, Ok(Flow::Val(Value::Int(3))));
}

fn add_fn_def_tokens() -> Vec<Token> {
    // func add(int a, int b) -> int { return a + b; }
    vec![
        Token::Func,
        ident("add"),
        Token::LParen,
        Token::Type("int".to_string()),
        ident("a"),
        Token::Comma,
        Token::Type("int".to_string()),
        ident("b"),
        Token::RParen,
        Token::ReturnType,
        Token::Type("int".to_string()),
        Token::LBrace,
        Token::Return,
        ident("a"),
        op("+"),
        ident("b"),
        Token::Semicolon,
        Token::RBrace,
    ]
}

fn call_tokens(name: &str, args: Vec<Token>) -> Vec<Token> {
    let mut t = vec![ident(name), Token::LParen];
    let n = args.len();
    for (i, a) in args.into_iter().enumerate() {
        t.push(a);
        if i + 1 < n {
            t.push(Token::Comma);
        }
    }
    t.push(Token::RParen);
    t
}

#[test]
fn function_definition_and_call() {
    let mut reg = NoBuiltins;
    let mut scope = Scope::new();
    let (def, _) = Parser::parse_expr(&add_fn_def_tokens(), 0, true).unwrap();
    interpret_expr(&def, &mut scope, &mut reg, EVAL_FUEL).unwrap();
    let (call, _) = Parser::parse_expr(
        &call_tokens("add", vec![Token::Num(2), Token::Num(3)]),
        0,
        false,
    )
    .unwrap();
    let r = interpret_expr(&call, &mut scope, &mut reg, EVAL_FUEL);
    assert_eq!(r, Ok(Flow::Val(Value::Int(5))));
}

#[test]
fn call_with_too_few_arguments_fails() {
    let mut reg = NoBuiltins;
    let mut scope = Scope::new();
    let (def, _) = Parser::parse_expr(&add_fn_def_tokens(), 0, true).unwrap();
    interpret_expr(&def, &mut scope, &mut reg, EVAL_FUEL).unwrap();
    let (call, _) = Parser::parse_expr(&call_tokens("add", vec![Token::Num(2)]), 0, false)
        .unwrap();
    let r = interpret_expr(&call, &mut scope, &mut reg, EVAL_FUEL);
    assert_eq!(r, Err(RuntimeError::ArityMismatch { expected: 2, got: 1 }));
}

#[test]
fn call_of_undefined_function_fails() {
    let r = eval_one(call_tokens("foo", vec![]));
    assert_eq!(r, Err(RuntimeError::UndefinedFunction("foo".to_string())));
}

#[test]
fn call_of_non_callable_fails() {
    let mut reg = NoBuiltins;
    let mut scope = Scope::new();
    scope.set("x".to_string(), Value::Int(5));
    let (call, _) = Parser::parse_expr(&call_tokens("x", vec![]), 0, false).unwrap();
    let r = interpret_expr(&call, &mut scope, &mut reg, EVAL_FUEL);
    assert_eq!(r, Err(RuntimeError::NotCallable("x".to_string())));
}

#[test]
fn call_scope_is_a_snapshot_at_call_time() {
    // func f() -> int { return x; } is defined before x exists at all:
    // with capture at definition time the call could never see x, but the
    // call scope is a copy of the caller's scope at call time.
    let mut reg = NoBuiltins;
    let mut scope = Scope::new();
    let def_tokens = vec![
        Token::Func,
        ident("f"),
        Token::LParen,
        Token::RParen,
        Token::ReturnType,
        Token::Type("int".to_string()),
        Token::LBrace,
        Token::Return,
        ident("x"),
        Token::Semicolon,
        Token::RBrace,
    ];
    let (def, _) = Parser::parse_expr(&def_tokens, 0, true).unwrap();
    interpret_expr(&def, &mut scope, &mut reg, EVAL_FUEL).unwrap();
    scope.set("x".to_string(), Value::Int(1));
    let (call, _) = Parser::parse_expr(&call_tokens("f", vec![]), 0, false).unwrap();
    assert_eq!(
        interpret_expr(&call, &mut scope, &mut reg, EVAL_FUEL),
        Ok(Flow::Val(Value::Int(1)))
    );
    // a later rebinding is seen by a later call, because each call takes a
    // fresh snapshot
    scope.set("x".to_string(), Value::Int(2));
    assert_eq!(
        interpret_expr(&call, &mut scope, &mut reg, EVAL_FUEL),
        Ok(Flow::Val(Value::Int(2)))
    );
}

#[test]
fn callee_bindings_do_not_leak_to_the_caller() {
    // func g() { y := 9; } g(); — the body's binding of y lives in the
    // call's private copy of the scope and is discarded with it.
    let mut reg = NoBuiltins;
    let mut scope = Scope::new();
    let def_tokens = vec![
        Token::Func,
        ident("g"),
        Token::LParen,
        Token::RParen,
        Token::LBrace,
        ident("y"),
        Token::SetVal,
        Token::Num(9),
        Token::Semicolon,
        Token::RBrace,
    ];
    let (def, _) = Parser::parse_expr(&def_tokens, 0, true).unwrap();
    interpret_expr(&def, &mut scope, &mut reg, EVAL_FUEL).unwrap();
    let (call, _) = Parser::parse_expr(&call_tokens("g", vec![]), 0, false).unwrap();
    assert_eq!(
        interpret_expr(&call, &mut scope, &mut reg, EVAL_FUEL),
        Ok(Flow::Val(Value::Nothing))
    );
    assert_eq!(scope.get(&"y".to_string()), None);
}

#[test]
fn body_without_return_yields_nothing() {
    let mut reg = NoBuiltins;
    let mut scope = Scope::new();
    let def_tokens = vec![
        Token::Func,
        ident("h"),
        Token::LParen,
        Token::RParen,
        Token::LBrace,
        ident("y"),
        Token::SetVal,
        Token::Num(1),
        Token::Semicolon,
        Token::RBrace,
    ];
    let (def, _) = Parser::parse_expr(&def_tokens, 0, true).unwrap();
    interpret_expr(&def, &mut scope, &mut reg, EVAL_FUEL).unwrap();
    let (call, _) = Parser::parse_expr(&call_tokens("h", vec![]), 0, false).unwrap();
    let r = interpret_expr(&call, &mut scope, &mut reg, EVAL_FUEL);
    assert_eq!(r, Ok(Flow::Val(Value::Nothing)));
}

#[test]
fn return_stops_the_body_early() {
    // func f() -> int { return 1; x := boom(); } — the statement after the
    // return is never evaluated, so the undefined call cannot fail.
    let mut reg = NoBuiltins;
    let mut scope = Scope::new();
    let def_tokens = vec![
        Token::Func,
        ident("f"),
        Token::LParen,
        Token::RParen,
        Token::ReturnType,
        Token::Type("int".to_string()),
        Token::LBrace,
        Token::Return,
        Token::Num(1),
        Token::Semicolon,
        ident("x"),
        Token::SetVal,
        ident("boom"),
        Token::LParen,
        Token::RParen,
        Token::Semicolon,
        Token::RBrace,
    ];
    let (def, _) = Parser::parse_expr(&def_tokens, 0, true).unwrap();
    interpret_expr(&def, &mut scope, &mut reg, EVAL_FUEL).unwrap();
    let (call, _) = Parser::parse_expr(&call_tokens("f", vec![]), 0, false).unwrap();
    assert_eq!(
        interpret_expr(&call, &mut scope, &mut reg, EVAL_FUEL),
        Ok(Flow::Val(Value::Int(1)))
    );
}

#[test]
fn return_at_top_level_is_an_error() {
    let exprs = parse_all(vec![Token::Return, Token::Num(5), Token::Semicolon]).unwrap();
    let mut reg = NoBuiltins;
    let mut interp = Interpreter::new(exprs, &mut reg);
    assert_eq!(interp.run(&mut reg), Err(RuntimeError::ReturnOutsideFunction));
}

#[test]
fn undefined_variable_fails() {
    let r = eval_one(vec![ident("nope")]);
    assert_eq!(r, Err(RuntimeError::UndefinedVariable("nope".to_string())));
}

#[test]
fn unknown_return_type_fails() {
    let def_tokens = vec![
        Token::Func,
        ident("f"),
        Token::LParen,
        Token::RParen,
        Token::ReturnType,
        Token::Type("float".to_string()),
        Token::LBrace,
        Token::Return,
        Token::Num(1),
        Token::Semicolon,
        Token::RBrace,
    ];
    let (def, _) = Parser::parse_expr(&def_tokens, 0, true).unwrap();
    let mut reg = NoBuiltins;
    let mut scope = Scope::new();
    let r = interpret_expr(&def, &mut scope, &mut reg, EVAL_FUEL);
    assert_eq!(r, Err(RuntimeError::UnknownType("float".to_string())));
}

struct OneBuiltin {
    calls: Vec<(String, Vec<Value>)>,
}

impl BuiltinRegistry for OneBuiltin {
    fn populate(&mut self, scope: &mut Scope) {
        scope.set(
            "answer".to_string(),
            Value::Func(tinylang::value::FnType::Builtin(tinylang::value::BuiltinFn {
                name: "answer".to_string(),
                return_type: Box::new(Value::Int(0)),
            })),
        );
    }

    fn call_builtin(
        &mut self,
        name: &String,
        args: Vec<Value>,
        _return_type: Value,
    ) -> Result<Value, RuntimeError> {
        self.calls.push((name.clone(), args));
        Ok(Value::Int(42))
    }
}

#[test]
fn builtin_calls_are_delegated_to_the_registry() {
    let tokens = call_tokens("answer", vec![Token::Num(7)]);
    let mut t = tokens.clone();
    t.push(Token::Semicolon);
    let exprs = parse_all(t).unwrap();
    let mut reg = OneBuiltin { calls: Vec::new() };
    let mut interp = Interpreter::new(exprs, &mut reg);
    assert_eq!(interp.run(&mut reg), Ok(()));
    assert_eq!(reg.calls, vec![("answer".to_string(), vec![Value::Int(7)])]);
}

#[test]
fn missing_semicolon_is_a_parse_error() {
    assert_eq!(parse_all(vec![Token::Num(5)]), Err(ParseError::ExpectedSemicolon));
}

#[test]
fn unknown_operator_is_a_parse_error() {
    assert_eq!(
        parse_all(vec![ident("x"), op("@"), Token::Num(1), Token::Semicolon]),
        Err(ParseError::UnknownOperator)
    );
}

#[test]
fn assignment_symbol_after_a_number_is_a_parse_error() {
    assert_eq!(
        parse_all(vec![Token::Num(1), op(":="), Token::Num(2), Token::Semicolon]),
        Err(ParseError::ExpectedOperator)
    );
}

#[test]
fn function_without_name_is_a_parse_error() {
    assert_eq!(
        parse_all(vec![Token::Func, Token::LParen, Token::RParen]),
        Err(ParseError::ExpectedIdentifier)
    );
}

#[test]
fn parameter_without_type_is_a_parse_error() {
    assert_eq!(
        parse_all(vec![Token::Func, ident("f"), Token::LParen, ident("a"), Token::RParen]),
        Err(ParseError::ExpectedType)
    );
}

#[test]
fn operator_from_str_maps_symbols() {
    assert_eq!(Operator::from_str("+"), Some(Operator::Add));
    assert_eq!(Operator::from_str("-"), Some(Operator::Sub));
    assert_eq!(Operator::from_str("*"), Some(Operator::Mul));
    assert_eq!(Operator::from_str("/"), Some(Operator::Div));
    assert_eq!(Operator::from_str("=="), Some(Operator::Eq));
    assert_eq!(Operator::from_str("!="), Some(Operator::Neq));
    assert_eq!(Operator::from_str(":="), Some(Operator::SetVal));
    assert_eq!(Operator::from_str("?"), None);
}

#[test]
fn get_valuetype_from_maps_names() {
    assert_eq!(get_valuetype_from("int"), Ok(ValueType::Int));
    assert_eq!(get_valuetype_from("string"), Ok(ValueType::Str));
    assert_eq!(get_valuetype_from("bool"), Ok(ValueType::Bool));
    assert_eq!(get_valuetype_from("_none"), Ok(ValueType::Nothing));
    assert_eq!(
        get_valuetype_from("float"),
        Err(RuntimeError::UnknownType("float".to_string()))
    );
}

#[test]
fn error_token_evaluates_to_nothing() {
    // the deliberately permissive fallback: an unexpected leaf becomes an
    // error token, which evaluates to no value
    let r = eval_one(vec![Token::Comma]);
    assert_eq!(r, Ok(Flow::Val(Value::Nothing)));
}
#[test]
fn empty_token_stream_parses_to_no_statements() {
    assert_eq!(parse_all(vec![]), Ok(vec![]));
}

#[test]
fn nested_calls_evaluate_inside_out() {
    let mut reg = NoBuiltins;
    let mut scope = Scope::new();
    let (def, _) = Parser::parse_expr(&add_fn_def_tokens(), 0, true).unwrap();
    interpret_expr(&def, &mut scope, &mut reg, EVAL_FUEL).unwrap();
    // add(add(1, 2), 3)
    let tokens = vec![
        ident("add"),
        Token::LParen,
        ident("add"),
        Token::LParen,
        Token::Num(1),
        Token::Comma,
        Token::Num(2),
        Token::RParen,
        Token::Comma,
        Token::Num(3),
        Token::RParen,
    ];
    let (call, _) = Parser::parse_expr(&tokens, 0, false).unwrap();
    let r = interpret_expr(&call, &mut scope, &mut reg, EVAL_FUEL);
    assert_eq!(r, Ok(Flow::Val(Value::Int(6))));
}

#[test]
fn multiplication_of_bool_is_a_type_error() {
    let r = eval_one(vec![Token::Num(2), op("*"), Token::Bool(true)]);
    assert_eq!(r, Err(RuntimeError::TypeMismatch(Operator::Mul)));
}

#[test]
fn assignment_to_a_non_name_fails() {
    let expr = Expr::BinaryExpr {
        op: Operator::SetVal,
        lhs: Box::new(Expr::Token(Token::Num(1))),
        rhs: Box::new(Expr::Token(Token::Num(2))),
    };
    let mut reg = NoBuiltins;
    let mut scope = Scope::new();
    let r = interpret_expr(&expr, &mut scope, &mut reg, EVAL_FUEL);
    assert_eq!(r, Err(RuntimeError::InvalidAssignTarget));
}

#[test]
fn non_type_annotation_fails() {
    let expr = Expr::FnDef {
        name: "f".to_string(),
        args: vec![("a".to_string(), Expr::Token(Token::Num(1)))],
        body: vec![],
        return_type: "_none".to_string(),
    };
    let mut reg = NoBuiltins;
    let mut scope = Scope::new();
    let r = interpret_expr(&expr, &mut scope, &mut reg, EVAL_FUEL);
    assert_eq!(r, Err(RuntimeError::InvalidAnnotation));
}

#[test]
fn zero_fuel_hits_the_step_limit() {
    let mut reg = NoBuiltins;
    let mut scope = Scope::new();
    let r = interpret_expr(&Expr::Token(Token::Num(1)), &mut scope, &mut reg, 0);
    assert_eq!(r, Err(RuntimeError::StepLimit));
}

#[test]
fn unbounded_recursion_hits_the_step_limit() {
    // func f() { f(); } f() — each call copies the scope, which still binds
    // f, so the recursion never ends on its own.
    let mut reg = NoBuiltins;
    let mut scope = Scope::new();
    let def_tokens = vec![
        Token::Func,
        ident("f"),
        Token::LParen,
        Token::RParen,
        Token::LBrace,
        ident("f"),
        Token::LParen,
        Token::RParen,
        Token::Semicolon,
        Token::RBrace,
    ];
    let (def, _) = Parser::parse_expr(&def_tokens, 0, true).unwrap();
    interpret_expr(&def, &mut scope, &mut reg, EVAL_FUEL).unwrap();
    let (call, _) = Parser::parse_expr(&call_tokens("f", vec![]), 0, false).unwrap();
    let r = interpret_expr(&call, &mut scope, &mut reg, 200);
    assert_eq!(r, Err(RuntimeError::StepLimit));
}

#[test]
fn function_name_without_paren_is_a_parse_error() {
    assert_eq!(
        parse_all(vec![Token::Func, ident("f"), Token::RBrace]),
        Err(ParseError::ExpectedLParen)
    );
}

#[test]
fn missing_comma_in_parameters_is_a_parse_error() {
    assert_eq!(
        parse_all(vec![
            Token::Func,
            ident("f"),
            Token::LParen,
            Token::Type("int".to_string()),
            ident("a"),
            Token::Type("int".to_string()),
        ]),
        Err(ParseError::ExpectedCommaOrRParen)
    );
}

#[test]
fn missing_brace_after_return_type_is_a_parse_error() {
    assert_eq!(
        parse_all(vec![
            Token::Func,
            ident("f"),
            Token::LParen,
            Token::RParen,
            Token::ReturnType,
            Token::Type("int".to_string()),
            Token::Num(5),
        ]),
        Err(ParseError::ExpectedLBrace)
    );
}

#[test]
fn missing_return_type_and_brace_is_a_parse_error() {
    assert_eq!(
        parse_all(vec![Token::Func, ident("f"), Token::LParen, Token::RParen, Token::Num(5)]),
        Err(ParseError::ExpectedReturnTypeOrBrace)
    );
}

#[test]
fn arguments_bind_by_position() {
    // func sub2(int a, int b) -> int { return a - b; } sub2(10, 4) = 6
    let mut reg = NoBuiltins;
    let mut scope = Scope::new();
    let def_tokens = vec![
        Token::Func,
        ident("sub2"),
        Token::LParen,
        Token::Type("int".to_string()),
        ident("a"),
        Token::Comma,
        Token::Type("int".to_string()),
        ident("b"),
        Token::RParen,
        Token::ReturnType,
        Token::Type("int".to_string()),
        Token::LBrace,
        Token::Return,
        ident("a"),
        op("-"),
        ident("b"),
        Token::Semicolon,
        Token::RBrace,
    ];
    let (def, _) = Parser::parse_expr(&def_tokens, 0, true).unwrap();
    interpret_expr(&def, &mut scope, &mut reg, EVAL_FUEL).unwrap();
    let (call, _) = Parser::parse_expr(
        &call_tokens("sub2", vec![Token::Num(10), Token::Num(4)]),
        0,
        false,
    )
    .unwrap();
    let r = interpret_expr(&call, &mut scope, &mut reg, EVAL_FUEL);
    assert_eq!(r, Ok(Flow::Val(Value::Int(6))));
}
