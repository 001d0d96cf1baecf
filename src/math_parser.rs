//! Operator-precedence parser for the arithmetic expression language.
//!
//! Grammar:
//!
//! ```text
//! Exp     := Term (BinOp Term)*
//! Term    := '-' Term | Primary Postfix*
//! Primary := Id | Num | '(' Exp ')'
//! Postfix := '(' Exp ')'
//! ```
//!
//! Binary operators are folded by precedence climbing: `*`, `/` and `%` bind
//! tighter than `+` and `-`, and operators of one level associate to the left.
//!
//! Recursion depth grows with the nesting of the input (parentheses, runs of
//! unary minus, operator chains); very deep input can exhaust the call stack.

use vstd::prelude::*;
use crate::math_ast::{AstNode, BinOp, Number};

verus! {

/// The lexical categories that the parser consumes.
#[derive(Debug, PartialEq)]
pub enum TokenKind {
    Eof,
    LParen,
    RParen,
    Plus,
    Minus,
    Times,
    Divide,
    Modulo,
    Id(String),
    NumLit(Number),
}

/// Binding strength of a binary operator, from weakest to strongest.
#[derive(Clone, Copy, Debug, PartialEq, Eq, Structural)]
pub enum Precedence {
    /// Below every real level: the token is not a binary operator.
    Nothing,
    /// `+` and `-`.
    Add,
    /// `*`, `/` and `%`.
    Mul,
}

impl Precedence {
    pub open spec fn level(self) -> int {
        match self {
            Precedence::Nothing => 0,
            Precedence::Add => 1,
            Precedence::Mul => 2,
        }
    }

    fn rank(&self) -> (r: u8)
        ensures
            r as int == self.level(),
    {
        match self {
            Precedence::Nothing => 0,
            Precedence::Add => 1,
            Precedence::Mul => 2,
        }
    }

    /// `self >= other` in binding strength.
    pub fn is_at_least(&self, other: Precedence) -> (r: bool)
        ensures
            r == (self.level() >= other.level()),
    {
        self.rank() >= other.rank()
    }

    /// `self > other` in binding strength.
    pub fn is_higher_than(&self, other: Precedence) -> (r: bool)
        ensures
            r == (self.level() > other.level()),
    {
        self.rank() > other.rank()
    }
}

/// The weakest real precedence: every binary operator reaches it.
pub const MIN_PRECEDENCE: Precedence = Precedence::Add;

impl TokenKind {
    pub open spec fn prec(self) -> Precedence {
        match self {
            TokenKind::Plus | TokenKind::Minus => Precedence::Add,
            TokenKind::Times | TokenKind::Divide | TokenKind::Modulo => Precedence::Mul,
            _ => Precedence::Nothing,
        }
    }

    pub open spec fn is_operator(self) -> bool {
        self.prec() != Precedence::Nothing
    }

    pub open spec fn op(self) -> BinOp
        recommends
            self.is_operator(),
    {
        match self {
            TokenKind::Plus => BinOp::Add,
            TokenKind::Minus => BinOp::Sub,
            TokenKind::Times => BinOp::Mul,
            TokenKind::Divide => BinOp::Div,
            _ => BinOp::Mod,
        }
    }

    /// The precedence of this token as a binary operator; `Nothing` for
    /// every token that is not one.
    pub fn precedence(&self) -> (r: Precedence)
        ensures
            r == self.prec(),
    {
        match self {
            TokenKind::Plus | TokenKind::Minus => Precedence::Add,
            TokenKind::Times | TokenKind::Divide | TokenKind::Modulo => Precedence::Mul,
            _ => Precedence::Nothing,
        }
    }

    /// The operator that this token stands for. Only operator tokens have one.
    pub fn to_binop(&self) -> (r: BinOp)
        requires
            self.is_operator(),
        ensures
            r == self.op(),
    {
        match self {
            TokenKind::Plus => BinOp::Add,
            TokenKind::Minus => BinOp::Sub,
            TokenKind::Times => BinOp::Mul,
            TokenKind::Divide => BinOp::Div,
            _ => BinOp::Mod,
        }
    }

    /// A copy of this token.
    pub fn copy(&self) -> (r: TokenKind)
        ensures
            r == *self,
    {
        match self {
            TokenKind::Eof => TokenKind::Eof,
            TokenKind::LParen => TokenKind::LParen,
            TokenKind::RParen => TokenKind::RParen,
            TokenKind::Plus => TokenKind::Plus,
            TokenKind::Minus => TokenKind::Minus,
            TokenKind::Times => TokenKind::Times,
            TokenKind::Divide => TokenKind::Divide,
            TokenKind::Modulo => TokenKind::Modulo,
            TokenKind::Id(s) => TokenKind::Id(s.clone()),
            TokenKind::NumLit(n) => TokenKind::NumLit(*n),
        }
    }
}

/// Why a parse failed. Each reason carries the token that was found.
#[derive(Debug, PartialEq)]
pub enum ParseError {
    /// A primary expression was required, but the token cannot start one.
    ExpectedPrimary(TokenKind),
    /// A parenthesis was opened, but its inner expression is not followed by
    /// a right parenthesis.
    ExpectedRParen(TokenKind),
    /// A whole expression was parsed, but input remains after it.
    ExpectedEof(TokenKind),
}


/// Outcome of a parsing rule on a token sequence: the tree and the position
/// just past what the rule consumed.
pub type Parsed = Result<(AstNode, int), ParseError>;

/// The token at position `p`; past the end of the sequence, `Eof`.
pub open spec fn cur(ts: Seq<TokenKind>, p: int) -> TokenKind {
    if 0 <= p < ts.len() {
        ts[p]
    } else {
        TokenKind::Eof
    }
}

/// `q` lies past `p` and within the sequence.
///
/// Every rule that succeeds from `p` stops at such a position. The rules
/// below test it before they go on from a position that another rule
/// returned, which is what makes their definitions terminate; on the
/// positions that the rules actually return, the test always holds.
pub open spec fn advanced(ts: Seq<TokenKind>, p: int, q: int) -> bool {
    p < q <= ts.len()
}

/// `Exp := Term (BinOp Term)*`, starting at position `p`.
pub open spec fn exp_at(ts: Seq<TokenKind>, p: int) -> Parsed
    decreases ts.len() - p, 3int,
{
    match term_at(ts, p) {
        Err(e) => Err(e),
        Ok((lhs, q)) => if advanced(ts, p, q) {
            binops_at(ts, q, lhs, MIN_PRECEDENCE)
        } else {
            Ok((lhs, q))
        },
    }
}

/// Folds into `lhs` every binary operator at position `p` and after whose
/// precedence is at least `min`, letting stronger operators to the right
/// bind first.
pub open spec fn binops_at(ts: Seq<TokenKind>, p: int, lhs: AstNode, min: Precedence) -> Parsed
    decreases ts.len() - p, 0int,
{
    let op = cur(ts, p);
    if op.is_operator() && op.prec().level() >= min.level() {
        match term_at(ts, p + 1) {
            Err(e) => Err(e),
            Ok((rhs, q)) => if advanced(ts, p, q) {
                match climb_at(ts, q, rhs, op.prec()) {
                    Err(e) => Err(e),
                    Ok((rhs2, q2)) => {
                        let folded = AstNode::Binary { op: op.op(), lhs: Box::new(lhs), rhs: Box::new(rhs2) };
                        if advanced(ts, p, q2) {
                            binops_at(ts, q2, folded, min)
                        } else {
                            Ok((folded, q2))
                        }
                    },
                }
            } else {
                Ok((rhs, q))
            },
        }
    } else {
        Ok((lhs, p))
    }
}

/// Extends the right operand `rhs` of an operator of precedence `opp` with
/// every following chain of operators that bind tighter than it.
pub open spec fn climb_at(ts: Seq<TokenKind>, p: int, rhs: AstNode, opp: Precedence) -> Parsed
    decreases ts.len() - p, 1int,
{
    let next = cur(ts, p).prec();
    if next.level() > opp.level() {
        match binops_at(ts, p, rhs, next) {
            Err(e) => Err(e),
            Ok((rhs2, q)) => if advanced(ts, p, q) {
                climb_at(ts, q, rhs2, opp)
            } else {
                Ok((rhs2, q))
            },
        }
    } else {
        Ok((rhs, p))
    }
}

/// `Term := '-' Term | Primary Postfix*`, starting at position `p`.
pub open spec fn term_at(ts: Seq<TokenKind>, p: int) -> Parsed
    decreases ts.len() - p, 2int,
{
    match cur(ts, p) {
        TokenKind::Minus => match term_at(ts, p + 1) {
            Err(e) => Err(e),
            Ok((operand, q)) => Ok((AstNode::Negate { lhs: Box::new(operand) }, q)),
        },
        _ => match primary_at(ts, p) {
            Err(e) => Err(e),
            Ok((pri, q)) => if advanced(ts, p, q) {
                postfix_at(ts, q, pri)
            } else {
                Ok((pri, q))
            },
        },
    }
}

/// `Primary := Id | Num | '(' Exp ')'`, starting at position `p`.
pub open spec fn primary_at(ts: Seq<TokenKind>, p: int) -> Parsed
    decreases ts.len() - p, 1int,
{
    match cur(ts, p) {
        TokenKind::Id(name) => Ok((AstNode::Ident { name }, p + 1)),
        TokenKind::NumLit(val) => Ok((AstNode::Const { val }, p + 1)),
        TokenKind::LParen => match exp_at(ts, p + 1) {
            Err(e) => Err(e),
            Ok((inner, q)) => if cur(ts, q) is RParen {
                Ok((inner, q + 1))
            } else {
                Err(ParseError::ExpectedRParen(cur(ts, q)))
            },
        },
        t => Err(ParseError::ExpectedPrimary(t)),
    }
}

/// Applies to `lhs` every call `'(' Exp ')'` that follows at position `p`.
pub open spec fn postfix_at(ts: Seq<TokenKind>, p: int, lhs: AstNode) -> Parsed
    decreases ts.len() - p, 0int,
{
    match cur(ts, p) {
        TokenKind::LParen => match exp_at(ts, p + 1) {
            Err(e) => Err(e),
            Ok((arg, q)) => if cur(ts, q) is RParen {
                let called = AstNode::Call { callee: Box::new(lhs), arg: Box::new(arg) };
                if advanced(ts, p, q + 1) {
                    postfix_at(ts, q + 1, called)
                } else {
                    Ok((called, q + 1))
                }
            } else {
                Err(ParseError::ExpectedRParen(cur(ts, q)))
            },
        },
        _ => Ok((lhs, p)),
    }
}

/// The result of parsing the whole sequence `ts` as one expression.
pub open spec fn parse_spec(ts: Seq<TokenKind>) -> Result<AstNode, ParseError> {
    match exp_at(ts, 0) {
        Err(e) => Err(e),
        Ok((t, q)) => if cur(ts, q) is Eof {
            Ok(t)
        } else {
            Err(ParseError::ExpectedEof(cur(ts, q)))
        },
    }
}


/// `r`, an executable rule's outcome, is `s` with the tree unboxed and the
/// position widened.
pub open spec fn agrees(r: Result<(Box<AstNode>, usize), ParseError>, s: Parsed) -> bool {
    match r {
        Ok((t, q)) => s == Ok::<(AstNode, int), ParseError>((*t, q as int)),
        Err(e) => s == Err::<(AstNode, int), ParseError>(e),
    }
}

/// The position that a successful rule stopped at.
pub open spec fn end_of(r: Result<(Box<AstNode>, usize), ParseError>) -> int {
    match r {
        Ok((_, q)) => q as int,
        Err(_) => 0,
    }
}

/// Parses `tokens` as exactly one expression followed by the end of input.
///
/// The end of input is either an `Eof` token or the end of the sequence.
pub fn parse_exp(tokens: &[TokenKind]) -> (r: Result<Box<AstNode>, ParseError>)
    ensures
        match r {
            Ok(t) => parse_spec(tokens@) == Ok::<AstNode, ParseError>(*t),
            Err(e) => parse_spec(tokens@) == Err::<AstNode, ParseError>(e),
        },
{
    let (ret, q) = match parse_expression(tokens, 0) {
        Ok(x) => x,
        Err(e) => return Err(e),
    };
    match expect_eof(tokens, q) {
        Ok(()) => Ok(ret),
        Err(e) => Err(e),
    }
}

/// The token under the cursor, or `Eof` past the end.
fn cur_token(tokens: &[TokenKind], pos: usize) -> (r: TokenKind)
    ensures
        r == cur(tokens@, pos as int),
        tokens@.len() <= usize::MAX,
{
    if pos < tokens.len() {
        tokens[pos].copy()
    } else {
        TokenKind::Eof
    }
}

/// Steps over a `)`, or fails.
fn expect_rparen(tokens: &[TokenKind], pos: usize) -> (r: Result<usize, ParseError>)
    ensures
        cur(tokens@, pos as int) is RParen ==> r == Ok::<usize, ParseError>((pos + 1) as usize),
        !(cur(tokens@, pos as int) is RParen) ==> r == Err::<usize, ParseError>(
            ParseError::ExpectedRParen(cur(tokens@, pos as int)),
        ),
{
    match cur_token(tokens, pos) {
        TokenKind::RParen => Ok(pos + 1),
        t => Err(ParseError::ExpectedRParen(t)),
    }
}

/// Checks that the input ends at `pos`.
fn expect_eof(tokens: &[TokenKind], pos: usize) -> (r: Result<(), ParseError>)
    ensures
        cur(tokens@, pos as int) is Eof ==> r is Ok,
        !(cur(tokens@, pos as int) is Eof) ==> r == Err::<(), ParseError>(
            ParseError::ExpectedEof(cur(tokens@, pos as int)),
        ),
{
    match cur_token(tokens, pos) {
        TokenKind::Eof => Ok(()),
        t => Err(ParseError::ExpectedEof(t)),
    }
}

/// `Exp := Term (BinOp Term)*`
fn parse_expression(tokens: &[TokenKind], pos: usize) -> (r: Result<(Box<AstNode>, usize), ParseError>)
    requires
        pos <= tokens@.len(),
    ensures
        agrees(r, exp_at(tokens@, pos as int)),
        r is Ok ==> advanced(tokens@, pos as int, end_of(r)),
    decreases tokens@.len() - pos, 3int,
{
    let (lhs, q) = match parse_term(tokens, pos) {
        Ok(x) => x,
        Err(e) => return Err(e),
    };
    parse_binops(tokens, q, lhs, MIN_PRECEDENCE)
}

/// Folds the binary operators after `lhs`. The inner loop lets a chain of
/// operators that bind tighter than `op` complete before `op` folds.
fn parse_binops(tokens: &[TokenKind], pos: usize, lhs0: Box<AstNode>, min: Precedence) -> (r: Result<(Box<AstNode>, usize), ParseError>)
    requires
        pos <= tokens@.len(),
        min.level() >= 1,
    ensures
        agrees(r, binops_at(tokens@, pos as int, *lhs0, min)),
        r is Ok ==> pos <= end_of(r) <= tokens@.len(),
        r is Ok && cur(tokens@, pos as int).prec().level() >= min.level() ==> pos < end_of(r),
    decreases tokens@.len() - pos, 0int,
{
    let ghost ts = tokens@;
    let mut lhs = lhs0;
    let mut p = pos;
    loop
        invariant
            ts == tokens@,
            pos <= p <= ts.len(),
            min.level() >= 1,
            binops_at(ts, pos as int, *lhs0, min) == binops_at(ts, p as int, *lhs, min),
        decreases ts.len() - p,
    {
        let op = cur_token(tokens, p);
        let op_prec = op.precedence();
        if !op_prec.is_at_least(min) {
            return Ok((lhs, p));
        }
        let (rhs0, q) = match parse_term(tokens, p + 1) {
            Ok(x) => x,
            Err(e) => return Err(e),
        };
        let mut rhs = rhs0;
        let mut q2 = q;
        loop
            invariant
                ts == tokens@,
                pos <= p < q <= q2 <= ts.len(),
                min.level() >= 1,
                binops_at(ts, pos as int, *lhs0, min) == binops_at(ts, p as int, *lhs, min),
                op == cur(ts, p as int),
                op_prec.level() >= min.level(),
                term_at(ts, p + 1) == Ok::<(AstNode, int), ParseError>((*rhs0, q as int)),
                op_prec == op.prec(),
                climb_at(ts, q as int, *rhs0, op_prec) == climb_at(ts, q2 as int, *rhs, op_prec),
            ensures
                climb_at(ts, q2 as int, *rhs, op_prec) == Ok::<(AstNode, int), ParseError>((*rhs, q2 as int)),
            decreases ts.len() - q2,
        {
            let next_prec = cur_token(tokens, q2).precedence();
            if !next_prec.is_higher_than(op_prec) {
                break;
            }
            let (r2, q3) = match parse_binops(tokens, q2, rhs, next_prec) {
                Ok(x) => x,
                Err(e) => return Err(e),
            };
            rhs = r2;
            q2 = q3;
        }
        lhs = AstNode::bin(lhs, op.to_binop(), rhs);
        p = q2;
    }
}

/// `Term := '-' Term | Primary Postfix*`. Negation takes a whole term, so
/// runs of `-` nest to the right.
fn parse_term(tokens: &[TokenKind], pos: usize) -> (r: Result<(Box<AstNode>, usize), ParseError>)
    requires
        pos <= tokens@.len(),
    ensures
        agrees(r, term_at(tokens@, pos as int)),
        r is Ok ==> advanced(tokens@, pos as int, end_of(r)),
    decreases tokens@.len() - pos, 2int,
{
    match cur_token(tokens, pos) {
        TokenKind::Minus => match parse_term(tokens, pos + 1) {
            Ok((operand, q)) => Ok((AstNode::neg(operand), q)),
            Err(e) => Err(e),
        },
        _ => match parse_primary(tokens, pos) {
            Ok((pri, q)) => parse_postfix(tokens, q, pri),
            Err(e) => Err(e),
        },
    }
}

/// `Primary := Id | Num | '(' Exp ')'`. Parentheses make no node.
fn parse_primary(tokens: &[TokenKind], pos: usize) -> (r: Result<(Box<AstNode>, usize), ParseError>)
    requires
        pos <= tokens@.len(),
    ensures
        agrees(r, primary_at(tokens@, pos as int)),
        r is Ok ==> advanced(tokens@, pos as int, end_of(r)),
    decreases tokens@.len() - pos, 1int,
{
    match cur_token(tokens, pos) {
        TokenKind::Id(name) => Ok((Box::new(AstNode::Ident { name }), pos + 1)),
        TokenKind::NumLit(val) => Ok((AstNode::num(val), pos + 1)),
        TokenKind::LParen => {
            let (ret, q) = match parse_expression(tokens, pos + 1) {
                Ok(x) => x,
                Err(e) => return Err(e),
            };
            match expect_rparen(tokens, q) {
                Ok(q2) => Ok((ret, q2)),
                Err(e) => Err(e),
            }
        },
        t => Err(ParseError::ExpectedPrimary(t)),
    }
}

/// `Postfix* := ('(' Exp ')')*`: each call wraps what came before it.
fn parse_postfix(tokens: &[TokenKind], pos: usize, lhs0: Box<AstNode>) -> (r: Result<(Box<AstNode>, usize), ParseError>)
    requires
        pos <= tokens@.len(),
    ensures
        agrees(r, postfix_at(tokens@, pos as int, *lhs0)),
        r is Ok ==> pos <= end_of(r) <= tokens@.len(),
    decreases tokens@.len() - pos, 0int,
{
    let ghost ts = tokens@;
    let mut lhs = lhs0;
    let mut p = pos;
    loop
        invariant
            ts == tokens@,
            pos <= p <= ts.len(),
            postfix_at(ts, pos as int, *lhs0) == postfix_at(ts, p as int, *lhs),
        decreases ts.len() - p,
    {
        match cur_token(tokens, p) {
            TokenKind::LParen => {
                let (arg, q) = match parse_expression(tokens, p + 1) {
                    Ok(x) => x,
                    Err(e) => return Err(e),
                };
                p = match expect_rparen(tokens, q) {
                    Ok(q2) => q2,
                    Err(e) => return Err(e),
                };
                lhs = AstNode::call(lhs, arg);
            },
            _ => return Ok((lhs, p)),
        }
    }
}

} // verus!
