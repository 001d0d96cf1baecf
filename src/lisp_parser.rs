//! Recursive-descent parser for parenthesised lists.
//!
//! Grammar:
//!
//! ```text
//! Program  := Exp Eof
//! Exp      := Id | Num | ParenExp
//! ParenExp := '(' Exp+ ')'
//! ```

use vstd::prelude::*;

verus! {

/// The lexical categories that the list parser consumes.
#[derive(Debug, PartialEq, Eq)]
pub enum TokenKind {
    Eof,
    LParen,
    RParen,
    Id(String),
    IntLit(i64),
}

impl TokenKind {
    /// A copy of this token.
    pub fn copy(&self) -> (r: TokenKind)
        ensures
            r == *self,
    {
        match self {
            TokenKind::Eof => TokenKind::Eof,
            TokenKind::LParen => TokenKind::LParen,
            TokenKind::RParen => TokenKind::RParen,
            TokenKind::Id(s) => TokenKind::Id(s.clone()),
            TokenKind::IntLit(i) => TokenKind::IntLit(*i),
        }
    }
}

/// A list expression: a name, a number, or a non-empty parenthesised list.
#[derive(Debug, PartialEq)]
pub enum Exp {
    Id(String),
    Num(i64),
    Parens(Vec<Box<Exp>>),
}

/// The value of an [`Exp`], with names as character sequences and lists as
/// sequences.
pub enum SExp {
    Id(Seq<char>),
    Num(i64),
    List(Seq<SExp>),
}

/// The value of `e`.
pub open spec fn exp_view(e: Exp) -> SExp
    decreases e, 0int,
{
    match e {
        Exp::Id(s) => SExp::Id(s@),
        Exp::Num(i) => SExp::Num(i),
        Exp::Parens(v) => SExp::List(list_view(v@, v@.len() as int)),
    }
}

/// The values of the first `n` expressions of `v`.
pub open spec fn list_view(v: Seq<Box<Exp>>, n: int) -> Seq<SExp>
    decreases v, n,
{
    if 0 < n <= v.len() {
        list_view(v, n - 1).push(exp_view(*v[n - 1]))
    } else {
        seq![]
    }
}

proof fn lemma_list_view_prefix(v: Seq<Box<Exp>>, w: Seq<Box<Exp>>, n: int)
    requires
        0 <= n <= v.len(),
        n <= w.len(),
        forall|k: int| 0 <= k < n ==> v[k] == w[k],
    ensures
        list_view(v, n) == list_view(w, n),
    decreases n,
{
    if n > 0 {
        lemma_list_view_prefix(v, w, n - 1);
    }
}

impl Exp {
    pub fn new_id(s: &str) -> (r: Box<Self>)
        ensures
            exp_view(*r) == SExp::Id(s@),
    {
        Box::new(Exp::Id(s.to_owned()))
    }

    pub fn new_num(i: i64) -> (r: Box<Self>)
        ensures
            *r == Exp::Num(i),
    {
        Box::new(Exp::Num(i))
    }

    pub fn new_parens(exps: Vec<Box<Exp>>) -> (r: Box<Self>)
        ensures
            *r == Exp::Parens(exps),
    {
        Box::new(Exp::Parens(exps))
    }
}

/// Why a parse failed.
///
/// A list is read item by item up to its `)`, so input that ends inside a
/// list fails as `ExpectedExpression`; `parse` never reports the two
/// parenthesis errors, which only the cursor's own checks can raise.
#[derive(Debug, PartialEq, Eq, Structural)]
pub enum ParseError {
    /// The token cannot start an expression.
    ExpectedExpression,
    /// A parenthesised list must start with `(`.
    ExpectedLParen,
    /// A parenthesised list must end with `)`.
    ExpectedRParen,
    /// Input remains after the expression.
    ExpectedEof,
}

/// The token at position `p`; past the end of the sequence, `Eof`.
pub open spec fn cur(ts: Seq<TokenKind>, p: int) -> TokenKind {
    if 0 <= p < ts.len() {
        ts[p]
    } else {
        TokenKind::Eof
    }
}

/// `Exp` at position `p`: its value and the position after it.
pub open spec fn exp_at(ts: Seq<TokenKind>, p: int) -> Result<(SExp, int), ParseError>
    decreases ts.len() - p, 0int,
{
    match cur(ts, p) {
        TokenKind::Id(s) => Ok((SExp::Id(s@), p + 1)),
        TokenKind::IntLit(i) => Ok((SExp::Num(i), p + 1)),
        TokenKind::LParen => match exp_at(ts, p + 1) {
            Err(e) => Err(e),
            Ok((first, q)) => if p < q <= ts.len() {
                items_at(ts, q, seq![first])
            } else {
                Ok((first, q))
            },
        },
        _ => Err(ParseError::ExpectedExpression),
    }
}

/// The rest of a list from position `p`, after the items `acc`: more items
/// up to the closing `)`, and the position after it.
pub open spec fn items_at(ts: Seq<TokenKind>, p: int, acc: Seq<SExp>) -> Result<(SExp, int), ParseError>
    decreases ts.len() - p, 1int,
{
    if cur(ts, p) is RParen {
        Ok((SExp::List(acc), p + 1))
    } else {
        match exp_at(ts, p) {
            Err(e) => Err(e),
            Ok((x, q)) => if p < q <= ts.len() {
                items_at(ts, q, acc.push(x))
            } else {
                Ok((x, q))
            },
        }
    }
}

/// The value that parsing all of `ts` gives, or why it fails.
pub open spec fn parse_spec(ts: Seq<TokenKind>) -> Result<SExp, ParseError> {
    match exp_at(ts, 0) {
        Err(e) => Err(e),
        Ok((x, q)) => if cur(ts, q) is Eof {
            Ok(x)
        } else {
            Err(ParseError::ExpectedEof)
        },
    }
}

/// `r`, an executable outcome, has value and position of `s`.
pub open spec fn agrees(r: Result<(Box<Exp>, usize), ParseError>, s: Result<(SExp, int), ParseError>) -> bool {
    match r {
        Ok((e, q)) => s == Ok::<(SExp, int), ParseError>((exp_view(*e), q as int)),
        Err(err) => s == Err::<(SExp, int), ParseError>(err),
    }
}

/// A cursor over a token sequence.
pub struct Parser {
    pos: usize,
}

impl Parser {
    /// Parses `tokens` as one expression followed by the end of input (an
    /// `Eof` token or the end of the sequence).
    pub fn parse(tokens: &[TokenKind]) -> (r: Result<Box<Exp>, ParseError>)
        ensures
            match r {
                Ok(e) => parse_spec(tokens@) == Ok::<SExp, ParseError>(exp_view(*e)),
                Err(err) => parse_spec(tokens@) == Err::<SExp, ParseError>(err),
            },
    {
        let mut p = Parser::new();
        p.parse_program(tokens)
    }

    fn new() -> (r: Self)
        ensures
            r.pos == 0,
    {
        Parser { pos: 0 }
    }

    fn next(&mut self, tokens: &[TokenKind])
        requires
            old(self).pos < tokens@.len(),
        ensures
            final(self).pos == old(self).pos + 1,
    {
        if self.pos < tokens.len() {
            self.pos = self.pos + 1;
        }
    }

    fn cur(&self, tokens: &[TokenKind]) -> (r: TokenKind)
        ensures
            r == cur(tokens@, self.pos as int),
    {
        if self.pos < tokens.len() {
            tokens[self.pos].copy()
        } else {
            TokenKind::Eof
        }
    }

    fn parse_program(&mut self, tokens: &[TokenKind]) -> (r: Result<Box<Exp>, ParseError>)
        requires
            old(self).pos == 0,
        ensures
            match r {
                Ok(e) => parse_spec(tokens@) == Ok::<SExp, ParseError>(exp_view(*e)),
                Err(err) => parse_spec(tokens@) == Err::<SExp, ParseError>(err),
            },
    {
        let ret = match self.parse_exp(tokens) {
            Ok(e) => e,
            Err(err) => return Err(err),
        };
        match self.expect_eof(tokens) {
            Ok(()) => Ok(ret),
            Err(err) => Err(err),
        }
    }

    fn parse_exp(&mut self, tokens: &[TokenKind]) -> (r: Result<Box<Exp>, ParseError>)
        requires
            old(self).pos <= tokens@.len(),
        ensures
            agrees(
                match r {
                    Ok(e) => Ok((e, final(self).pos)),
                    Err(err) => Err(err),
                },
                exp_at(tokens@, old(self).pos as int),
            ),
            r is Ok ==> old(self).pos < final(self).pos <= tokens@.len(),
        decreases tokens@.len() - old(self).pos, 2int,
    {
        match self.cur(tokens) {
            TokenKind::Id(s) => {
                self.next(tokens);
                Ok(Box::new(Exp::Id(s)))
            },
            TokenKind::IntLit(i) => {
                self.next(tokens);
                Ok(Exp::new_num(i))
            },
            TokenKind::LParen => self.parse_paren_exp(tokens),
            _ => Err(ParseError::ExpectedExpression),
        }
    }

    fn parse_paren_exp(&mut self, tokens: &[TokenKind]) -> (r: Result<Box<Exp>, ParseError>)
        requires
            old(self).pos < tokens@.len(),
            cur(tokens@, old(self).pos as int) is LParen,
        ensures
            agrees(
                match r {
                    Ok(e) => Ok((e, final(self).pos)),
                    Err(err) => Err(err),
                },
                exp_at(tokens@, old(self).pos as int),
            ),
            r is Ok ==> old(self).pos < final(self).pos <= tokens@.len(),
        decreases tokens@.len() - old(self).pos, 1int,
    {
        let ghost ts = tokens@;
        let ghost p0 = self.pos as int;
        match self.expect_lparen(tokens) {
            Ok(()) => {},
            Err(err) => return Err(err),
        }
        let mut exps: Vec<Box<Exp>> = Vec::new();
        let first = match self.parse_exp(tokens) {
            Ok(e) => e,
            Err(err) => return Err(err),
        };
        exps.push(first);
        proof {
            reveal_with_fuel(list_view, 2);
            assert(list_view(exps@, 1) =~= seq![exp_view(*exps@[0])]);
        }
        loop
            invariant
                ts == tokens@,
                p0 == old(self).pos,
                p0 < self.pos <= ts.len(),
                exp_at(ts, p0) == items_at(ts, self.pos as int, list_view(exps@, exps@.len() as int)),
            ensures
                cur(ts, self.pos as int) is RParen,
            decreases ts.len() - self.pos,
        {
            if let TokenKind::RParen = self.cur(tokens) {
                break;
            }
            let ghost before = exps@;
            let e = match self.parse_exp(tokens) {
                Ok(e) => e,
                Err(err) => return Err(err),
            };
            exps.push(e);
            proof {
                lemma_list_view_prefix(exps@, before, before.len() as int);
            }
        }
        match self.expect_rparen(tokens) {
            Ok(()) => {},
            Err(err) => return Err(err),
        }
        Ok(Exp::new_parens(exps))
    }

    fn expect_lparen(&mut self, tokens: &[TokenKind]) -> (r: Result<(), ParseError>)
        ensures
            cur(tokens@, old(self).pos as int) is LParen ==> r is Ok && final(self).pos == old(self).pos + 1,
            !(cur(tokens@, old(self).pos as int) is LParen) ==> r == Err::<(), ParseError>(
                ParseError::ExpectedLParen,
            ) && final(self).pos == old(self).pos,
    {
        match self.cur(tokens) {
            TokenKind::LParen => {
                self.next(tokens);
                Ok(())
            },
            _ => Err(ParseError::ExpectedLParen),
        }
    }

    fn expect_rparen(&mut self, tokens: &[TokenKind]) -> (r: Result<(), ParseError>)
        ensures
            cur(tokens@, old(self).pos as int) is RParen ==> r is Ok && final(self).pos == old(self).pos + 1,
            !(cur(tokens@, old(self).pos as int) is RParen) ==> r == Err::<(), ParseError>(
                ParseError::ExpectedRParen,
            ) && final(self).pos == old(self).pos,
    {
        match self.cur(tokens) {
            TokenKind::RParen => {
                self.next(tokens);
                Ok(())
            },
            _ => Err(ParseError::ExpectedRParen),
        }
    }

    fn expect_eof(&mut self, tokens: &[TokenKind]) -> (r: Result<(), ParseError>)
        ensures
            cur(tokens@, old(self).pos as int) is Eof ==> r is Ok,
            !(cur(tokens@, old(self).pos as int) is Eof) ==> r == Err::<(), ParseError>(
                ParseError::ExpectedEof,
            ),
            final(self).pos == old(self).pos,
    {
        match self.cur(tokens) {
            TokenKind::Eof => Ok(()),
            _ => Err(ParseError::ExpectedEof),
        }
    }
}

} // verus!
