//! Recursive-descent construction of the abstract syntax tree.
//!
//! The grammar has no operator-precedence table: a binary expression always
//! takes the entire remainder of the current expression context as its
//! right-hand side, so chains of operators group rightward (`2 - 3 - 4`
//! parses as `2 - (3 - 4)`). This shape is deliberate and is pinned down by
//! the specification-level parser ([`spec_parse_expr`] and friends), against
//! which every executable parsing function is proved.

use crate::token::Token;
use crate::token::TokenView;
use vstd::prelude::*;
use vstd::string::StringExecFns;

verus! {

/// A binary operator of the language, constructed from its symbol.
#[derive(Debug, Clone, Copy, PartialEq, Eq, Structural)]
pub enum Operator {
    Add,
    Sub,
    Mul,
    Div,
    Eq,
    Neq,
    SetVal,
}

/// The reason a parse failed. Parsing fails fast: the first structural
/// violation aborts the whole parse and no partial tree is produced.
#[derive(Debug, Clone, Copy, PartialEq, Eq, Structural)]
pub enum ParseError {
    /// A statement was not followed by `;`.
    ExpectedSemicolon,
    /// An operator symbol was not one of the known symbols.
    UnknownOperator,
    /// After an integer literal, something other than a chainable operator.
    ExpectedOperator,
    /// A function name or parameter name was missing.
    ExpectedIdentifier,
    /// The `(` opening a parameter list was missing.
    ExpectedLParen,
    /// A type name was missing in a parameter list or return-type clause.
    ExpectedType,
    /// A parameter or argument list was not continued or closed properly.
    ExpectedCommaOrRParen,
    /// The `{` opening a function body was missing.
    ExpectedLBrace,
    /// After a parameter list, neither a return-type arrow nor `{`.
    ExpectedReturnTypeOrBrace,
}

/// Which [`Operator`] a symbol string denotes, if any.
pub open spec fn spec_operator_of(s: Seq<char>) -> Option<Operator> {
    if s == "+"@ {
        Some(Operator::Add)
    } else if s == "-"@ {
        Some(Operator::Sub)
    } else if s == "*"@ {
        Some(Operator::Mul)
    } else if s == "/"@ {
        Some(Operator::Div)
    } else if s == "=="@ {
        Some(Operator::Eq)
    } else if s == "!="@ {
        Some(Operator::Neq)
    } else if s == ":="@ {
        Some(Operator::SetVal)
    } else {
        None
    }
}

impl Operator {
    /// Builds an operator from its symbol; any other symbol is a parse error,
    /// reported as `None`.
    pub fn from_str(s: &str) -> (r: Option<Operator>)
        ensures
            r == spec_operator_of(s@),
    {
        let t = s.to_owned();
        if t == "+".to_owned() {
            Some(Operator::Add)
        } else if t == "-".to_owned() {
            Some(Operator::Sub)
        } else if t == "*".to_owned() {
            Some(Operator::Mul)
        } else if t == "/".to_owned() {
            Some(Operator::Div)
        } else if t == "==".to_owned() {
            Some(Operator::Eq)
        } else if t == "!=".to_owned() {
            Some(Operator::Neq)
        } else if t == ":=".to_owned() {
            Some(Operator::SetVal)
        } else {
            None
        }
    }
}

/// An AST node. Every tree is finite and acyclic; subtrees are exclusively
/// owned by their parent node.
#[derive(Debug, PartialEq)]
pub enum Expr {
    /// A literal or identifier leaf (or an error leaf).
    Token(Token),
    /// A binary expression; for `SetVal` the left side is the name assigned.
    BinaryExpr { op: Operator, lhs: Box<Expr>, rhs: Box<Expr> },
    /// A call of a named function with an ordered argument list.
    FnCall { name: String, args: Vec<Expr> },
    /// A function definition. `args` holds, in positional order, each
    /// parameter's name together with its type-annotation expression
    /// (a `Token::Type` leaf). `return_type` defaults to `"_none"` when the
    /// definition has no return-type clause.
    FnDef { name: String, args: Vec<(String, Expr)>, body: Vec<Expr>, return_type: String },
    /// A `return` statement wrapping the expression whose value ends the
    /// enclosing function body early.
    Return { inner: Box<Expr> },
}

/// Specification-level model of an [`Expr`]: strings become character
/// sequences and vectors become sequences.
pub enum ExprView {
    Token(TokenView),
    BinaryExpr { op: Operator, lhs: Box<ExprView>, rhs: Box<ExprView> },
    FnCall { name: Seq<char>, args: Seq<ExprView> },
    FnDef {
        name: Seq<char>,
        args: Seq<(Seq<char>, ExprView)>,
        body: Seq<ExprView>,
        return_type: Seq<char>,
    },
    Return { inner: Box<ExprView> },
}

/// The model of one expression node.
pub open spec fn expr_view(e: Expr) -> ExprView
    decreases e,
    via expr_view_decreases
{
    match e {
        Expr::Token(t) => ExprView::Token(t@),
        Expr::BinaryExpr { op, lhs, rhs } => ExprView::BinaryExpr {
            op,
            lhs: Box::new(expr_view(*lhs)),
            rhs: Box::new(expr_view(*rhs)),
        },
        Expr::FnCall { name, args } => ExprView::FnCall {
            name: name@,
            args: exprs_view(args@),
        },
        Expr::FnDef { name, args, body, return_type } => ExprView::FnDef {
            name: name@,
            args: params_view(args@),
            body: exprs_view(body@),
            return_type: return_type@,
        },
        Expr::Return { inner } => ExprView::Return { inner: Box::new(expr_view(*inner)) },
    }
}

#[via_fn]
proof fn expr_view_decreases(e: Expr) {
    match e {
        Expr::FnCall { name, args } => {
            assert(decreases_to!(e => args));
            assert(decreases_to!(args => args@));
        },
        Expr::FnDef { name, args, body, return_type } => {
            assert(decreases_to!(e => args));
            assert(decreases_to!(args => args@));
            assert(decreases_to!(e => body));
            assert(decreases_to!(body => body@));
        },
        _ => (),
    }
}

/// The models of a sequence of expressions, elementwise.
pub open spec fn exprs_view(s: Seq<Expr>) -> Seq<ExprView>
    decreases s,
    via exprs_view_decreases
{
    if s.len() == 0 {
        Seq::<ExprView>::empty()
    } else {
        seq![expr_view(s[0])] + exprs_view(s.drop_first())
    }
}

#[via_fn]
proof fn exprs_view_decreases(s: Seq<Expr>) {
    if s.len() > 0 {
        assert(decreases_to!(s => s[0]));
        assert(s.drop_first() == s.subrange(1, s.len() as int));
        assert(decreases_to!(s => s.subrange(1, s.len() as int)));
    }
}

/// The models of a parameter list: each parameter's name with the model of
/// its type-annotation expression.
pub open spec fn params_view(s: Seq<(String, Expr)>) -> Seq<(Seq<char>, ExprView)>
    decreases s,
    via params_view_decreases
{
    if s.len() == 0 {
        Seq::<(Seq<char>, ExprView)>::empty()
    } else {
        seq![(s[0].0@, expr_view(s[0].1))] + params_view(s.drop_first())
    }
}

#[via_fn]
proof fn params_view_decreases(s: Seq<(String, Expr)>) {
    if s.len() > 0 {
        assert(decreases_to!(s => s[0]));
        assert(decreases_to!(s[0] => s[0].1));
        assert(s.drop_first() == s.subrange(1, s.len() as int));
        assert(decreases_to!(s => s.subrange(1, s.len() as int)));
    }
}

impl View for Expr {
    type V = ExprView;

    open spec fn view(&self) -> ExprView {
        expr_view(*self)
    }
}

/// `exprs_view` is the elementwise model of its argument.
pub broadcast proof fn lemma_exprs_view(s: Seq<Expr>)
    ensures
        (#[trigger] exprs_view(s)).len() == s.len(),
        forall|k: int| 0 <= k < s.len() ==> exprs_view(s)[k] == expr_view(s[k]),
    decreases s.len(),
{
    if s.len() > 0 {
        lemma_exprs_view(s.drop_first());
    }
}

/// `params_view` is the elementwise model of its argument.
pub broadcast proof fn lemma_params_view(s: Seq<(String, Expr)>)
    ensures
        (#[trigger] params_view(s)).len() == s.len(),
        forall|k: int|
            0 <= k < s.len() ==> params_view(s)[k] == (s[k].0@, expr_view(s[k].1)),
    decreases s.len(),
{
    if s.len() > 0 {
        lemma_params_view(s.drop_first());
    }
}

/// Deep copy of one expression node, preserving its model.
pub fn clone_expr(e: &Expr) -> (r: Expr)
    ensures
        r@ == e@,
    decreases *e,
{
    match e {
        Expr::Token(t) => Expr::Token(t.clone()),
        Expr::BinaryExpr { op, lhs, rhs } => Expr::BinaryExpr {
            op: *op,
            lhs: Box::new(clone_expr(lhs)),
            rhs: Box::new(clone_expr(rhs)),
        },
        Expr::FnCall { name, args } => Expr::FnCall {
            name: name.clone(),
            args: clone_exprs(args),
        },
        Expr::FnDef { name, args, body, return_type } => Expr::FnDef {
            name: name.clone(),
            args: clone_params(args),
            body: clone_exprs(body),
            return_type: return_type.clone(),
        },
        Expr::Return { inner } => Expr::Return { inner: Box::new(clone_expr(inner)) },
    }
}

/// Deep copy of an expression vector, preserving the models elementwise.
pub fn clone_exprs(v: &Vec<Expr>) -> (r: Vec<Expr>)
    ensures
        exprs_view(r@) == exprs_view(v@),
    decreases *v,
{
    let mut out: Vec<Expr> = Vec::new();
    let mut k: usize = 0;
    while k < v.len()
        invariant
            k <= v@.len(),
            out@.len() == k as int,
            forall|m: int| 0 <= m < k as int ==> expr_view(out@[m]) == expr_view(v@[m]),
        decreases v@.len() - k,
    {
        proof {
            assert(decreases_to!(*v => v@));
            assert(decreases_to!(v@ => v@[k as int]));
            assert(decreases_to!(*v => v@[k as int]));
        }
        out.push(clone_expr(&v[k]));
        k = k + 1;
    }
    proof {
        lemma_exprs_view(out@);
        lemma_exprs_view(v@);
        assert(exprs_view(out@) =~= exprs_view(v@));
    }
    out
}

/// Deep copy of a parameter list, preserving the models elementwise.
pub fn clone_params(v: &Vec<(String, Expr)>) -> (r: Vec<(String, Expr)>)
    ensures
        params_view(r@) == params_view(v@),
    decreases *v,
{
    let mut out: Vec<(String, Expr)> = Vec::new();
    let mut k: usize = 0;
    while k < v.len()
        invariant
            k <= v@.len(),
            out@.len() == k as int,
            forall|m: int| 0 <= m < k as int ==> out@[m].0@ == v@[m].0@ && expr_view(out@[m].1)
                == expr_view(v@[m].1),
        decreases v@.len() - k,
    {
        proof {
            assert(decreases_to!(*v => v@));
            assert(decreases_to!(v@ => v@[k as int]));
            assert(decreases_to!(v@[k as int] => v@[k as int].1));
            assert(decreases_to!(*v => v@[k as int].1));
        }
        let pair = &v[k];
        out.push((pair.0.clone(), clone_expr(&pair.1)));
        k = k + 1;
    }
    proof {
        lemma_params_view(out@);
        lemma_params_view(v@);
        assert(params_view(out@) =~= params_view(v@));
    }
    out
}

impl Clone for Expr {
    /// Cloning an expression preserves its model.
    fn clone(&self) -> (r: Expr)
        ensures
            r@ == self@,
    {
        clone_expr(self)
    }
}

/// The specification-level parser for one expression or statement, starting
/// at position `i`. On success it yields the node's model and the position
/// one past the consumed tokens. With `sc` the expression is a statement and
/// must be followed by a terminator, except that a function definition
/// consumes its own closing brace instead.
pub open spec fn spec_parse_expr(toks: Seq<TokenView>, i: int, sc: bool) -> Result<
    (ExprView, int),
    ParseError,
>
    decreases toks.len() - i, 0int,
{
    let sc_eff = sc && !(0 <= i < toks.len() && toks[i] is Func);
    let head: Result<(ExprView, int), ParseError> = if !(0 <= i < toks.len()) {
        Ok((ExprView::Token(TokenView::Error), i))
    } else {
        match toks[i] {
            TokenView::Return => match spec_parse_expr(toks, i + 1, false) {
                Ok((e, j)) => Ok((ExprView::Return { inner: Box::new(e) }, j)),
                Err(p) => Err(p),
            },
            TokenView::Identifier(x) => if i + 1 < toks.len() {
                match toks[i + 1] {
                    TokenView::SetVal => match spec_parse_expr(toks, i + 2, false) {
                        Ok((e, j)) => Ok(
                            (
                                ExprView::BinaryExpr {
                                    op: Operator::SetVal,
                                    lhs: Box::new(ExprView::Token(TokenView::Identifier(x))),
                                    rhs: Box::new(e),
                                },
                                j,
                            ),
                        ),
                        Err(p) => Err(p),
                    },
                    TokenView::LParen => match spec_parse_args(toks, i + 2) {
                        Ok((args, j)) => Ok((ExprView::FnCall { name: x, args }, j)),
                        Err(p) => Err(p),
                    },
                    TokenView::Operator(sym) => match spec_operator_of(sym) {
                        Some(op) => match spec_parse_expr(toks, i + 2, false) {
                            Ok((e, j)) => Ok(
                                (
                                    ExprView::BinaryExpr {
                                        op,
                                        lhs: Box::new(
                                            ExprView::Token(TokenView::Identifier(x)),
                                        ),
                                        rhs: Box::new(e),
                                    },
                                    j,
                                ),
                            ),
                            Err(p) => Err(p),
                        },
                        None => Err(ParseError::UnknownOperator),
                    },
                    _ => Ok((ExprView::Token(TokenView::Identifier(x)), i + 1)),
                }
            } else {
                Ok((ExprView::Token(TokenView::Identifier(x)), i + 1))
            },
            TokenView::Num(n) => if i + 1 < toks.len() {
                match toks[i + 1] {
                    TokenView::Operator(sym) => match spec_operator_of(sym) {
                        Some(op) => if op is SetVal {
                            Err(ParseError::ExpectedOperator)
                        } else {
                            match spec_parse_expr(toks, i + 2, false) {
                                Ok((e, j)) => Ok(
                                    (
                                        ExprView::BinaryExpr {
                                            op,
                                            lhs: Box::new(ExprView::Token(TokenView::Num(n))),
                                            rhs: Box::new(e),
                                        },
                                        j,
                                    ),
                                ),
                                Err(p) => Err(p),
                            }
                        },
                        None => Err(ParseError::ExpectedOperator),
                    },
                    _ => Ok((ExprView::Token(TokenView::Num(n)), i + 1)),
                }
            } else {
                Ok((ExprView::Token(TokenView::Num(n)), i + 1))
            },
            TokenView::Bool(b) => Ok((ExprView::Token(TokenView::Bool(b)), i + 1)),
            TokenView::Str(s) => Ok((ExprView::Token(TokenView::Str(s)), i + 1)),
            TokenView::Func => spec_parse_fn_def(toks, i + 1),
            _ => Ok((ExprView::Token(TokenView::Error), i + 1)),
        }
    };
    if sc_eff {
        match head {
            Ok((e, j)) => if 0 <= j < toks.len() && toks[j] is Semicolon {
                Ok((e, j + 1))
            } else {
                Err(ParseError::ExpectedSemicolon)
            },
            Err(p) => Err(p),
        }
    } else {
        head
    }
}

/// The specification-level parser for a function definition, entered just
/// after the `func` keyword.
pub open spec fn spec_parse_fn_def(toks: Seq<TokenView>, i: int) -> Result<
    (ExprView, int),
    ParseError,
>
    decreases toks.len() - i, 0int,
{
    if !(0 <= i < toks.len() && toks[i] is Identifier) {
        Err(ParseError::ExpectedIdentifier)
    } else {
        match toks[i] {
            TokenView::Identifier(name) => if !(i + 1 < toks.len() && toks[i + 1] is LParen) {
                Err(ParseError::ExpectedLParen)
            } else {
                let params_r: Result<(Seq<(Seq<char>, ExprView)>, int), ParseError> = if i + 2
                    < toks.len() && toks[i + 2] is RParen {
                    Ok((Seq::<(Seq<char>, ExprView)>::empty(), i + 3))
                } else {
                    spec_parse_params(toks, i + 2)
                };
                match params_r {
                    Err(p) => Err(p),
                    Ok((params, p0)) => {
                        let p = if i + 2 < p0 && p0 <= toks.len() {
                            p0
                        } else {
                            i + 3
                        };
                        if p < toks.len() && toks[p] is ReturnType {
                            if p + 1 < toks.len() && toks[p + 1] is Type {
                                match toks[p + 1] {
                                    TokenView::Type(rt) => if p + 2 < toks.len() && toks[p
                                        + 2] is LBrace {
                                        match spec_parse_block(toks, p + 3) {
                                            Ok((body, j)) => Ok(
                                                (
                                                    ExprView::FnDef {
                                                        name,
                                                        args: params,
                                                        body,
                                                        return_type: rt,
                                                    },
                                                    j,
                                                ),
                                            ),
                                            Err(pp) => Err(pp),
                                        }
                                    } else {
                                        Err(ParseError::ExpectedLBrace)
                                    },
                                    _ => Err(ParseError::ExpectedType),
                                }
                            } else {
                                Err(ParseError::ExpectedType)
                            }
                        } else if p < toks.len() && toks[p] is LBrace {
                            match spec_parse_block(toks, p + 1) {
                                Ok((body, j)) => Ok(
                                    (
                                        ExprView::FnDef {
                                            name,
                                            args: params,
                                            body,
                                            return_type: "_none"@,
                                        },
                                        j,
                                    ),
                                ),
                                Err(pp) => Err(pp),
                            }
                        } else {
                            Err(ParseError::ExpectedReturnTypeOrBrace)
                        }
                    },
                }
            },
            _ => Err(ParseError::ExpectedIdentifier),
        }
    }
}

/// The specification-level parser for a non-empty parameter list:
/// `(type identifier)` pairs separated by commas, closed by `)`.
pub open spec fn spec_parse_params(toks: Seq<TokenView>, i: int) -> Result<
    (Seq<(Seq<char>, ExprView)>, int),
    ParseError,
>
    decreases toks.len() - i, 0int,
{
    if !(0 <= i < toks.len()) {
        Err(ParseError::ExpectedType)
    } else {
        match toks[i] {
            TokenView::Type(t) => if i + 1 < toks.len() {
                match toks[i + 1] {
                    TokenView::Identifier(x) => if i + 2 < toks.len() {
                        match toks[i + 2] {
                            TokenView::Comma => match spec_parse_params(toks, i + 3) {
                                Ok((rest, p)) => Ok(
                                    (
                                        seq![(x, ExprView::Token(TokenView::Type(t)))] + rest,
                                        p,
                                    ),
                                ),
                                Err(e) => Err(e),
                            },
                            TokenView::RParen => Ok(
                                (seq![(x, ExprView::Token(TokenView::Type(t)))], i + 3),
                            ),
                            _ => Err(ParseError::ExpectedCommaOrRParen),
                        }
                    } else {
                        Err(ParseError::ExpectedCommaOrRParen)
                    },
                    _ => Err(ParseError::ExpectedIdentifier),
                }
            } else {
                Err(ParseError::ExpectedIdentifier)
            },
            _ => Err(ParseError::ExpectedType),
        }
    }
}

/// The specification-level parser for a function body: statements (each with
/// its terminator) up to and including the closing `}`.
pub open spec fn spec_parse_block(toks: Seq<TokenView>, i: int) -> Result<
    (Seq<ExprView>, int),
    ParseError,
>
    decreases toks.len() - i, 1int,
{
    match spec_parse_expr(toks, i, true) {
        Err(p) => Err(p),
        Ok((e, j)) => if 0 <= j < toks.len() && toks[j] is RBrace {
            Ok((seq![e], j + 1))
        } else {
            let j2 = if i < j && j <= toks.len() {
                j
            } else {
                i + 1
            };
            if i + 1 <= toks.len() {
                match spec_parse_block(toks, j2) {
                    Ok((rest, p)) => Ok((seq![e] + rest, p)),
                    Err(pp) => Err(pp),
                }
            } else {
                Err(ParseError::ExpectedSemicolon)
            }
        },
    }
}

/// The specification-level parser for a call argument list, entered just
/// after the `(`: either an immediate `)`, or expressions separated by
/// commas and closed by `)`.
pub open spec fn spec_parse_args(toks: Seq<TokenView>, i: int) -> Result<
    (Seq<ExprView>, int),
    ParseError,
>
    decreases toks.len() - i, 1int,
{
    if 0 <= i < toks.len() && toks[i] is RParen {
        Ok((Seq::<ExprView>::empty(), i + 1))
    } else {
        match spec_parse_expr(toks, i, false) {
            Err(p) => Err(p),
            Ok((e, j)) => if 0 <= j < toks.len() {
                match toks[j] {
                    TokenView::Comma => if i <= j {
                        match spec_parse_args(toks, j + 1) {
                            Ok((rest, p)) => Ok((seq![e] + rest, p)),
                            Err(pp) => Err(pp),
                        }
                    } else {
                        Err(ParseError::ExpectedCommaOrRParen)
                    },
                    TokenView::RParen => Ok((seq![e], j + 1)),
                    _ => Err(ParseError::ExpectedCommaOrRParen),
                }
            } else {
                Err(ParseError::ExpectedCommaOrRParen)
            },
        }
    }
}

/// The specification-level parser for a whole program: statements parsed
/// one after another until the token sequence is exhausted.
pub open spec fn spec_parse_program(toks: Seq<TokenView>, i: int) -> Result<
    Seq<ExprView>,
    ParseError,
>
    decreases toks.len() - i, 1int,
{
    if !(0 <= i < toks.len()) {
        Ok(Seq::<ExprView>::empty())
    } else {
        match spec_parse_expr(toks, i, true) {
            Err(p) => Err(p),
            Ok((e, j)) => {
                let j2 = if i < j && j <= toks.len() {
                    j
                } else {
                    i + 1
                };
                match spec_parse_program(toks, j2) {
                    Ok(rest) => Ok(seq![e] + rest),
                    Err(p) => Err(p),
                }
            },
        }
    }
}

/// The parser: holds the full token sequence of one program.
#[derive(Debug, PartialEq)]
pub struct Parser {
    tokens: Vec<Token>,
}

impl View for Parser {
    type V = Seq<TokenView>;

    closed spec fn view(&self) -> Seq<TokenView> {
        self.tokens.deep_view()
    }
}

impl Parser {
    /// Wraps a lexed token sequence, ready to parse.
    pub fn new(tokens: Vec<Token>) -> (p: Parser)
        ensures
            p@ == tokens.deep_view(),
    {
        Parser { tokens }
    }

    /// Parses the entire token stream into the ordered sequence of top-level
    /// statements, or reports the first structural violation.
    pub fn parse(&self) -> (r: Result<Vec<Expr>, ParseError>)
        ensures
            match spec_parse_program(self@, 0) {
                Ok(es) => r matches Ok(v) && exprs_view(v@) == es,
                Err(p) => r == Err::<Vec<Expr>, ParseError>(p),
            },
    {
        Self::parse_stmts(&self.tokens, 0)
    }

    /// Parses statements from position `i` to the end of the stream.
    fn parse_stmts(tokens: &Vec<Token>, i: usize) -> (r: Result<Vec<Expr>, ParseError>)
        ensures
            match spec_parse_program(tokens.deep_view(), i as int) {
                Ok(es) => r matches Ok(v) && exprs_view(v@) == es,
                Err(p) => r == Err::<Vec<Expr>, ParseError>(p),
            },
        decreases tokens@.len() - i, 1int,
    {
        if i >= tokens.len() {
            let r: Vec<Expr> = Vec::new();
            proof {
                assert(exprs_view(r@) =~= Seq::<ExprView>::empty());
            }
            Ok(r)
        } else {
            match Self::parse_expr(tokens, i, true) {
                Err(p) => Err(p),
                Ok((e, j)) => match Self::parse_stmts(tokens, j) {
                    Err(p) => Err(p),
                    Ok(mut rest) => {
                        let ghost rest0 = rest@;
                        let mut out: Vec<Expr> = Vec::new();
                        out.push(e);
                        out.append(&mut rest);
                        proof {
                            lemma_exprs_view(out@);
                            lemma_exprs_view(rest0);
                            assert(exprs_view(out@) =~= seq![e@] + exprs_view(rest0));
                        }
                        Ok(out)
                    },
                },
            }
        }
    }

    /// Parses one expression or statement starting at position `i`; with
    /// `sc_check` it must be followed by a terminator, except that a
    /// function definition consumes its own closing brace instead.
    #[verifier::rlimit(100)]
    pub fn parse_expr(tokens: &Vec<Token>, i: usize, sc_check: bool) -> (r: Result<
        (Expr, usize),
        ParseError,
    >)
        ensures
            ({
                let s = spec_parse_expr(tokens.deep_view(), i as int, sc_check);
                &&& (r matches Ok(ej) ==> {
                    &&& s matches Ok(sj)
                    &&& sj.0 == ej.0@
                    &&& sj.1 == ej.1 as int
                    &&& i <= ej.1
                    &&& (i <= tokens@.len() ==> ej.1 <= tokens@.len())
                    &&& (sc_check ==> i < ej.1 && ej.1 <= tokens@.len())
                })
                &&& (r matches Err(p) ==> s == Err::<(ExprView, int), ParseError>(p))
            }),
        decreases tokens@.len() - i, 0int,
    {
        proof {
            reveal_with_fuel(expr_view, 3);
        }
        let n = tokens.len();
        let sc_eff = sc_check && !(i < n && matches!(&tokens[i], Token::Func));
        let head: Result<(Expr, usize), ParseError> = if i >= n {
            Ok((Expr::Token(Token::Error), i))
        } else {
            match &tokens[i] {
                Token::Return => match Self::parse_expr(tokens, i + 1, false) {
                    Ok((e, j)) => Ok((Expr::Return { inner: Box::new(e) }, j)),
                    Err(p) => Err(p),
                },
                Token::Identifier(ident) => if i + 1 < n {
                    match &tokens[i + 1] {
                        Token::SetVal => match Self::parse_expr(tokens, i + 2, false) {
                            Ok((e, j)) => Ok(
                                (
                                    Expr::BinaryExpr {
                                        op: Operator::SetVal,
                                        lhs: Box::new(
                                            Expr::Token(Token::Identifier(ident.clone())),
                                        ),
                                        rhs: Box::new(e),
                                    },
                                    j,
                                ),
                            ),
                            Err(p) => Err(p),
                        },
                        Token::LParen => Self::parse_fn_call(ident.clone(), tokens, i + 2),
                        Token::Operator(sym) => match Operator::from_str(sym.as_str()) {
                            Some(op) => match Self::parse_expr(tokens, i + 2, false) {
                                Ok((e, j)) => Ok(
                                    (
                                        Expr::BinaryExpr {
                                            op,
                                            lhs: Box::new(
                                                Expr::Token(Token::Identifier(ident.clone())),
                                            ),
                                            rhs: Box::new(e),
                                        },
                                        j,
                                    ),
                                ),
                                Err(p) => Err(p),
                            },
                            None => Err(ParseError::UnknownOperator),
                        },
                        _ => Ok((Expr::Token(Token::Identifier(ident.clone())), i + 1)),
                    }
                } else {
                    Ok((Expr::Token(Token::Identifier(ident.clone())), i + 1))
                },
                Token::Num(num) => if i + 1 < n {
                    match &tokens[i + 1] {
                        Token::Operator(sym) => match Operator::from_str(sym.as_str()) {
                            Some(op) => if matches!(op, Operator::SetVal) {
                                Err(ParseError::ExpectedOperator)
                            } else {
                                match Self::parse_expr(tokens, i + 2, false) {
                                    Ok((e, j)) => Ok(
                                        (
                                            Expr::BinaryExpr {
                                                op,
                                                lhs: Box::new(Expr::Token(Token::Num(*num))),
                                                rhs: Box::new(e),
                                            },
                                            j,
                                        ),
                                    ),
                                    Err(p) => Err(p),
                                }
                            },
                            None => Err(ParseError::ExpectedOperator),
                        },
                        _ => Ok((Expr::Token(Token::Num(*num)), i + 1)),
                    }
                } else {
                    Ok((Expr::Token(Token::Num(*num)), i + 1))
                },
                Token::Bool(b) => Ok((Expr::Token(Token::Bool(*b)), i + 1)),
                Token::Str(s) => Ok((Expr::Token(Token::Str(s.clone())), i + 1)),
                Token::Func => Self::parse_fn_def(tokens, i + 1),
                _ => Ok((Expr::Token(Token::Error), i + 1)),
            }
        };
        if sc_eff {
            match head {
                Ok((e, j)) => if j < n && matches!(&tokens[j], Token::Semicolon) {
                    Ok((e, j + 1))
                } else {
                    Err(ParseError::ExpectedSemicolon)
                },
                Err(p) => Err(p),
            }
        } else {
            head
        }
    }

    /// Parses a function definition, entered just after the `func` keyword:
    /// `name ( params ) [-> type] { body }`.
    pub fn parse_fn_def(tokens: &Vec<Token>, i: usize) -> (r: Result<(Expr, usize), ParseError>)
        ensures
            ({
                let s = spec_parse_fn_def(tokens.deep_view(), i as int);
                &&& (r matches Ok(ej) ==> {
                    &&& s matches Ok(sj)
                    &&& sj.0 == ej.0@
                    &&& sj.1 == ej.1 as int
                    &&& i < ej.1 <= tokens@.len()
                })
                &&& (r matches Err(p) ==> s == Err::<(ExprView, int), ParseError>(p))
            }),
        decreases tokens@.len() - i, 0int,
    {
        let n = tokens.len();
        if !(i < n && matches!(&tokens[i], Token::Identifier(_))) {
            return Err(ParseError::ExpectedIdentifier);
        }
        match &tokens[i] {
            Token::Identifier(name) => {
                if !(i + 1 < n && matches!(&tokens[i + 1], Token::LParen)) {
                    return Err(ParseError::ExpectedLParen);
                }
                let params_r: Result<(Vec<(String, Expr)>, usize), ParseError> = if i + 2 < n
                    && matches!(&tokens[i + 2], Token::RParen) {
                    let params: Vec<(String, Expr)> = Vec::new();
                    proof {
                        assert(params_view(params@) =~= Seq::<(Seq<char>, ExprView)>::empty());
                    }
                    Ok((params, i + 3))
                } else {
                    Self::parse_params(tokens, i + 2)
                };
                match params_r {
                    Err(p) => Err(p),
                    Ok((params, p)) => {
                        if p < n && matches!(&tokens[p], Token::ReturnType) {
                            if p + 1 < n {
                                match &tokens[p + 1] {
                                    Token::Type(rt) => {
                                        if p + 2 < n && matches!(&tokens[p + 2], Token::LBrace) {
                                            match Self::handle_func_block(tokens, p + 3) {
                                                Ok((body, j)) => Ok(
                                                    (
                                                        Expr::FnDef {
                                                            name: name.clone(),
                                                            args: params,
                                                            body,
                                                            return_type: rt.clone(),
                                                        },
                                                        j,
                                                    ),
                                                ),
                                                Err(pp) => Err(pp),
                                            }
                                        } else {
                                            Err(ParseError::ExpectedLBrace)
                                        }
                                    },
                                    _ => Err(ParseError::ExpectedType),
                                }
                            } else {
                                Err(ParseError::ExpectedType)
                            }
                        } else if p < n && matches!(&tokens[p], Token::LBrace) {
                            match Self::handle_func_block(tokens, p + 1) {
                                Ok((body, j)) => Ok(
                                    (
                                        Expr::FnDef {
                                            name: name.clone(),
                                            args: params,
                                            body,
                                            return_type: String::from_str("_none"),
                                        },
                                        j,
                                    ),
                                ),
                                Err(pp) => Err(pp),
                            }
                        } else {
                            Err(ParseError::ExpectedReturnTypeOrBrace)
                        }
                    },
                }
            },
            _ => Err(ParseError::ExpectedIdentifier),
        }
    }

    /// Parses a non-empty parameter list: `(type identifier)` pairs
    /// separated by commas, up to and including the closing `)`.
    fn parse_params(tokens: &Vec<Token>, i: usize) -> (r: Result<
        (Vec<(String, Expr)>, usize),
        ParseError,
    >)
        ensures
            ({
                let s = spec_parse_params(tokens.deep_view(), i as int);
                &&& (r matches Ok(ej) ==> {
                    &&& s matches Ok(sj)
                    &&& sj.0 == params_view(ej.0@)
                    &&& sj.1 == ej.1 as int
                    &&& i + 3 <= ej.1 <= tokens@.len()
                })
                &&& (r matches Err(p) ==> s == Err::<
                    (Seq<(Seq<char>, ExprView)>, int),
                    ParseError,
                >(p))
            }),
        decreases tokens@.len() - i, 0int,
    {
        let n = tokens.len();
        if !(i < n) {
            return Err(ParseError::ExpectedType);
        }
        match &tokens[i] {
            Token::Type(t) => if i + 1 < n {
                match &tokens[i + 1] {
                    Token::Identifier(x) => if i + 2 < n {
                        match &tokens[i + 2] {
                            Token::Comma => match Self::parse_params(tokens, i + 3) {
                                Ok((rest, p)) => {
                                    let ghost rest0 = rest@;
                                    let mut rest = rest;
                                    let mut out: Vec<(String, Expr)> = Vec::new();
                                    out.push((x.clone(), Expr::Token(Token::Type(t.clone()))));
                                    out.append(&mut rest);
                                    proof {
                                        lemma_params_view(out@);
                                        lemma_params_view(rest0);
                                        assert(params_view(out@) =~= seq![
                                            (x@, ExprView::Token(TokenView::Type(t@))),
                                        ] + params_view(rest0));
                                    }
                                    Ok((out, p))
                                },
                                Err(e) => Err(e),
                            },
                            Token::RParen => {
                                let mut out: Vec<(String, Expr)> = Vec::new();
                                out.push((x.clone(), Expr::Token(Token::Type(t.clone()))));
                                proof {
                                    lemma_params_view(out@);
                                    assert(params_view(out@) =~= seq![
                                        (x@, ExprView::Token(TokenView::Type(t@))),
                                    ]);
                                }
                                Ok((out, i + 3))
                            },
                            _ => Err(ParseError::ExpectedCommaOrRParen),
                        }
                    } else {
                        Err(ParseError::ExpectedCommaOrRParen)
                    },
                    _ => Err(ParseError::ExpectedIdentifier),
                }
            } else {
                Err(ParseError::ExpectedIdentifier)
            },
            _ => Err(ParseError::ExpectedType),
        }
    }

    /// Parses a function body: statements (each requiring its terminator)
    /// up to and including the closing `}`.
    pub fn handle_func_block(tokens: &Vec<Token>, i: usize) -> (r: Result<
        (Vec<Expr>, usize),
        ParseError,
    >)
        ensures
            ({
                let s = spec_parse_block(tokens.deep_view(), i as int);
                &&& (r matches Ok(ej) ==> {
                    &&& s matches Ok(sj)
                    &&& sj.0 == exprs_view(ej.0@)
                    &&& sj.1 == ej.1 as int
                    &&& i < ej.1 <= tokens@.len()
                })
                &&& (r matches Err(p) ==> s == Err::<(Seq<ExprView>, int), ParseError>(p))
            }),
        decreases tokens@.len() - i, 1int,
    {
        match Self::parse_expr(tokens, i, true) {
            Err(p) => Err(p),
            Ok((e, j)) => {
                if j < tokens.len() && matches!(&tokens[j], Token::RBrace) {
                    let mut out: Vec<Expr> = Vec::new();
                    out.push(e);
                    proof {
                        lemma_exprs_view(out@);
                        assert(exprs_view(out@) =~= seq![e@]);
                    }
                    Ok((out, j + 1))
                } else {
                    match Self::handle_func_block(tokens, j) {
                        Ok((rest, p)) => {
                            let ghost rest0 = rest@;
                            let mut rest = rest;
                            let mut out: Vec<Expr> = Vec::new();
                            out.push(e);
                            out.append(&mut rest);
                            proof {
                                lemma_exprs_view(out@);
                                lemma_exprs_view(rest0);
                                assert(exprs_view(out@) =~= seq![e@] + exprs_view(rest0));
                            }
                            Ok((out, p))
                        },
                        Err(pp) => Err(pp),
                    }
                }
            },
        }
    }

    /// Parses a call of `ident`, entered just after the `(`: the argument
    /// list up to and including the closing `)`.
    pub fn parse_fn_call(ident: String, tokens: &Vec<Token>, i: usize) -> (r: Result<
        (Expr, usize),
        ParseError,
    >)
        ensures
            ({
                let s = spec_parse_args(tokens.deep_view(), i as int);
                &&& (r matches Ok(ej) ==> {
                    &&& s matches Ok(sj)
                    &&& ej.0@ == (ExprView::FnCall { name: ident@, args: sj.0 })
                    &&& sj.1 == ej.1 as int
                    &&& i <= ej.1 <= tokens@.len()
                })
                &&& (r matches Err(p) ==> s == Err::<(Seq<ExprView>, int), ParseError>(p))
            }),
        decreases tokens@.len() - i, 2int,
    {
        match Self::parse_args(tokens, i) {
            Ok((args, j)) => {
                let r = Expr::FnCall { name: ident, args };
                Ok((r, j))
            },
            Err(p) => Err(p),
        }
    }

    /// Parses a call argument list, entered just after the `(`: either an
    /// immediate `)`, or comma-separated expressions closed by `)`.
    fn parse_args(tokens: &Vec<Token>, i: usize) -> (r: Result<(Vec<Expr>, usize), ParseError>)
        ensures
            ({
                let s = spec_parse_args(tokens.deep_view(), i as int);
                &&& (r matches Ok(ej) ==> {
                    &&& s matches Ok(sj)
                    &&& sj.0 == exprs_view(ej.0@)
                    &&& sj.1 == ej.1 as int
                    &&& i <= ej.1 <= tokens@.len()
                })
                &&& (r matches Err(p) ==> s == Err::<(Seq<ExprView>, int), ParseError>(p))
            }),
        decreases tokens@.len() - i, 1int,
    {
        let n = tokens.len();
        if i < n && matches!(&tokens[i], Token::RParen) {
            let out: Vec<Expr> = Vec::new();
            proof {
                assert(exprs_view(out@) =~= Seq::<ExprView>::empty());
            }
            Ok((out, i + 1))
        } else {
            match Self::parse_expr(tokens, i, false) {
                Err(p) => Err(p),
                Ok((e, j)) => if j < n {
                    match &tokens[j] {
                        Token::Comma => match Self::parse_args(tokens, j + 1) {
                            Ok((rest, p)) => {
                                let ghost rest0 = rest@;
                                let mut rest = rest;
                                let mut out: Vec<Expr> = Vec::new();
                                out.push(e);
                                out.append(&mut rest);
                                proof {
                                    lemma_exprs_view(out@);
                                    lemma_exprs_view(rest0);
                                    assert(exprs_view(out@) =~= seq![e@] + exprs_view(rest0));
                                }
                                Ok((out, p))
                            },
                            Err(pp) => Err(pp),
                        },
                        Token::RParen => {
                            let mut out: Vec<Expr> = Vec::new();
                            out.push(e);
                            proof {
                                lemma_exprs_view(out@);
                                assert(exprs_view(out@) =~= seq![e@]);
                            }
                            Ok((out, j + 1))
                        },
                        _ => Err(ParseError::ExpectedCommaOrRParen),
                    }
                } else {
                    Err(ParseError::ExpectedCommaOrRParen)
                },
            }
        }
    }
}

} // verus!
