//! Fully parenthesised rendering of expression trees, and the laws that tie
//! it and grouping parentheses to the parser.

use vstd::prelude::*;
use crate::math_ast::{AstNode, BinOp};
use crate::math_parser::{
    TokenKind, Parsed, ParseError, cur, exp_at, term_at, primary_at, postfix_at, binops_at,
    climb_at, parse_spec, Precedence, MIN_PRECEDENCE,
};

verus! {

/// The token that spells a binary operator.
pub open spec fn op_token(op: BinOp) -> TokenKind {
    match op {
        BinOp::Add => TokenKind::Plus,
        BinOp::Sub => TokenKind::Minus,
        BinOp::Mul => TokenKind::Times,
        BinOp::Div => TokenKind::Divide,
        BinOp::Mod => TokenKind::Modulo,
    }
}

/// The fully parenthesised token form of a tree: leaves stand alone, and
/// every other node is enclosed in one pair of parentheses.
pub open spec fn render(t: AstNode) -> Seq<TokenKind>
    decreases t,
{
    match t {
        AstNode::Const { val } => seq![TokenKind::NumLit(val)],
        AstNode::Ident { name } => seq![TokenKind::Id(name)],
        AstNode::Negate { lhs } => seq![TokenKind::LParen, TokenKind::Minus] + render(*lhs) + seq![
            TokenKind::RParen,
        ],
        AstNode::Binary { op, lhs, rhs } => seq![TokenKind::LParen] + render(*lhs) + seq![op_token(op)]
            + render(*rhs) + seq![TokenKind::RParen],
        AstNode::Call { callee, arg } => seq![TokenKind::LParen] + render(*callee) + seq![
            TokenKind::LParen,
        ] + render(*arg) + seq![TokenKind::RParen, TokenKind::RParen],
    }
}

impl BinOp {
    /// The token that spells this operator.
    pub fn to_token(&self) -> (r: TokenKind)
        ensures
            r == op_token(*self),
    {
        match self {
            BinOp::Add => TokenKind::Plus,
            BinOp::Sub => TokenKind::Minus,
            BinOp::Mul => TokenKind::Times,
            BinOp::Div => TokenKind::Divide,
            BinOp::Mod => TokenKind::Modulo,
        }
    }
}

impl AstNode {
    /// The fully parenthesised token form of this tree.
    pub fn to_tokens(&self) -> (r: Vec<TokenKind>)
        ensures
            r@ == render(*self),
    {
        let mut out: Vec<TokenKind> = Vec::new();
        self.render_into(&mut out);
        assert(out@ =~= render(*self));
        out
    }

    /// Appends the fully parenthesised token form of this tree to `out`.
    pub fn render_into(&self, out: &mut Vec<TokenKind>)
        ensures
            final(out)@ == old(out)@ + render(*self),
        decreases self,
    {
        match self {
            AstNode::Const { val } => {
                out.push(TokenKind::NumLit(*val));
            },
            AstNode::Ident { name } => {
                out.push(TokenKind::Id(name.clone()));
            },
            AstNode::Negate { lhs } => {
                out.push(TokenKind::LParen);
                out.push(TokenKind::Minus);
                (**lhs).render_into(out);
                out.push(TokenKind::RParen);
            },
            AstNode::Binary { op, lhs, rhs } => {
                out.push(TokenKind::LParen);
                (**lhs).render_into(out);
                out.push(op.to_token());
                (**rhs).render_into(out);
                out.push(TokenKind::RParen);
            },
            AstNode::Call { callee, arg } => {
                out.push(TokenKind::LParen);
                (**callee).render_into(out);
                out.push(TokenKind::LParen);
                (**arg).render_into(out);
                out.push(TokenKind::RParen);
                out.push(TokenKind::RParen);
            },
        }
        assert(out@ =~= old(out)@ + render(*self));
    }
}

/// A token that no rule continues an expression with: neither a binary
/// operator nor the start of a call.
pub open spec fn ends_expression(t: TokenKind) -> bool {
    !t.is_operator() && !(t is LParen)
}

/// `ts` holds `s` from position `p` on.
pub open spec fn holds_at(ts: Seq<TokenKind>, p: int, s: Seq<TokenKind>) -> bool {
    0 <= p && p + s.len() <= ts.len() && ts.subrange(p, p + s.len()) == s
}

proof fn lemma_render_starts(t: AstNode)
    ensures
        render(t).len() >= 1,
        render(t)[0] is NumLit || render(t)[0] is Id || render(t)[0] is LParen,
    decreases t,
{
}

proof fn lemma_holds_cur(ts: Seq<TokenKind>, p: int, s: Seq<TokenKind>, k: int)
    requires
        holds_at(ts, p, s),
        0 <= k < s.len(),
    ensures
        cur(ts, p + k) == s[k],
{
    assert(ts.subrange(p, p + s.len())[k] == ts[p + k]);
}

proof fn lemma_holds_part(ts: Seq<TokenKind>, p: int, s: Seq<TokenKind>, a: int, b: int)
    requires
        holds_at(ts, p, s),
        0 <= a <= b <= s.len(),
    ensures
        holds_at(ts, p + a, s.subrange(a, b)),
{
    assert(ts.subrange(p + a, p + b) =~= s.subrange(a, b)) by {
        assert forall|k: int| 0 <= k < b - a implies ts.subrange(p + a, p + b)[k] == s.subrange(a, b)[k] by {
            assert(ts.subrange(p, p + s.len())[a + k] == ts[p + a + k]);
        }
    }
}

/// A primary expression at `p` is parsed back from the rendering of `t`.
proof fn lemma_primary_render(ts: Seq<TokenKind>, p: int, t: AstNode)
    requires
        holds_at(ts, p, render(t)),
    ensures
        primary_at(ts, p) == Ok::<(AstNode, int), ParseError>((t, p + render(t).len())),
    decreases t, 2int,
{
    lemma_holds_cur(ts, p, render(t), 0);
    match t {
        AstNode::Negate { .. } => lemma_negate_render(ts, p, t),
        AstNode::Binary { .. } => lemma_binary_render(ts, p, t),
        AstNode::Call { .. } => lemma_call_render(ts, p, t),
        _ => {},
    }
}

proof fn lemma_negate_render(ts: Seq<TokenKind>, p: int, t: AstNode)
    requires
        holds_at(ts, p, render(t)),
        t is Negate,
    ensures
        exp_at(ts, p + 1) == Ok::<(AstNode, int), ParseError>((t, p + render(t).len() - 1)),
        cur(ts, p + render(t).len() - 1) is RParen,
    decreases t, 1int,
{
    let n: int = render(t).len() as int;
    match t {
        AstNode::Negate { lhs } => {
            let x = *lhs;
            let nx: int = render(x).len() as int;
            assert(render(t).subrange(2, 2 + nx) =~= render(x));
            lemma_holds_part(ts, p, render(t), 2, 2 + nx);
            lemma_holds_cur(ts, p, render(t), 1);
            lemma_holds_cur(ts, p, render(t), 2 + nx);
            lemma_render_starts(x);
            lemma_holds_cur(ts, p, render(t), 2);
            lemma_primary_render(ts, p + 2, x);
            assert(postfix_at(ts, p + 2 + nx, x) == Ok::<(AstNode, int), ParseError>((x, p + 2 + nx)));
            assert(term_at(ts, p + 2) == Ok::<(AstNode, int), ParseError>((x, p + 2 + nx)));
            assert(term_at(ts, p + 1) == Ok::<(AstNode, int), ParseError>((t, p + 2 + nx)));
            assert(binops_at(ts, p + 2 + nx, t, MIN_PRECEDENCE) == Ok::<(AstNode, int), ParseError>((t, p + 2 + nx)));
            assert(exp_at(ts, p + 1) == Ok::<(AstNode, int), ParseError>((t, p + 2 + nx)));
        },
        _ => {},
    }
}

proof fn lemma_binary_render(ts: Seq<TokenKind>, p: int, t: AstNode)
    requires
        holds_at(ts, p, render(t)),
        t is Binary,
    ensures
        exp_at(ts, p + 1) == Ok::<(AstNode, int), ParseError>((t, p + render(t).len() - 1)),
        cur(ts, p + render(t).len() - 1) is RParen,
    decreases t, 1int,
{
    let n: int = render(t).len() as int;
    match t {
        AstNode::Binary { op, lhs, rhs } => {
            let l = *lhs;
            let r = *rhs;
            let nl: int = render(l).len() as int;
            let nr: int = render(r).len() as int;
            assert(render(t).subrange(1, 1 + nl) =~= render(l));
            assert(render(t).subrange(2 + nl, 2 + nl + nr) =~= render(r));
            lemma_holds_part(ts, p, render(t), 1, 1 + nl);
            lemma_holds_part(ts, p, render(t), 2 + nl, 2 + nl + nr);
            lemma_holds_cur(ts, p, render(t), 1 + nl);
            lemma_holds_cur(ts, p, render(t), 2 + nl + nr);
            lemma_render_starts(l);
            lemma_render_starts(r);
            lemma_holds_cur(ts, p, render(t), 1);
            lemma_holds_cur(ts, p, render(t), 2 + nl);
            lemma_primary_render(ts, p + 1, l);
            lemma_primary_render(ts, p + 2 + nl, r);
            let q = p + 1 + nl;
            let e = p + 2 + nl + nr;
            assert(term_at(ts, p + 1) == Ok::<(AstNode, int), ParseError>((l, q)));
            assert(render(t).subrange(2 + nl, 2 + nl + nr)[0] == render(t)[2 + nl]);
            assert(cur(ts, q + 1) == render(r)[0]);
            assert(postfix_at(ts, e, r) == Ok::<(AstNode, int), ParseError>((r, e)));
            assert(term_at(ts, q + 1) == Ok::<(AstNode, int), ParseError>((r, e)));
            assert(climb_at(ts, e, r, cur(ts, q).prec()) == Ok::<(AstNode, int), ParseError>((r, e)));
            assert(cur(ts, q).op() == op);
            assert(binops_at(ts, e, t, MIN_PRECEDENCE) == Ok::<(AstNode, int), ParseError>((t, e)));
            assert(binops_at(ts, q, l, MIN_PRECEDENCE) == Ok::<(AstNode, int), ParseError>((t, e)));
            assert(exp_at(ts, p + 1) == Ok::<(AstNode, int), ParseError>((t, e)));
        },
        _ => {},
    }
}

proof fn lemma_call_render(ts: Seq<TokenKind>, p: int, t: AstNode)
    requires
        holds_at(ts, p, render(t)),
        t is Call,
    ensures
        exp_at(ts, p + 1) == Ok::<(AstNode, int), ParseError>((t, p + render(t).len() - 1)),
        cur(ts, p + render(t).len() - 1) is RParen,
    decreases t, 1int,
{
    let n: int = render(t).len() as int;
    match t {
        AstNode::Call { callee, arg } => {
            let c = *callee;
            let a = *arg;
            let nc: int = render(c).len() as int;
            let na: int = render(a).len() as int;
            assert(render(t).subrange(1, 1 + nc) =~= render(c));
            assert(render(t).subrange(2 + nc, 2 + nc + na) =~= render(a));
            lemma_holds_part(ts, p, render(t), 1, 1 + nc);
            lemma_holds_part(ts, p, render(t), 2 + nc, 2 + nc + na);
            lemma_holds_cur(ts, p, render(t), 1 + nc);
            lemma_holds_cur(ts, p, render(t), 2 + nc + na);
            lemma_holds_cur(ts, p, render(t), 3 + nc + na);
            lemma_render_starts(c);
            lemma_holds_cur(ts, p, render(t), 1);
            lemma_primary_render(ts, p + 1, c);
            lemma_exp_render(ts, p + 2 + nc, a);
            let q = p + 1 + nc;
            let e = p + 3 + nc + na;
            assert(postfix_at(ts, e, t) == Ok::<(AstNode, int), ParseError>((t, e)));
            assert(postfix_at(ts, q, c) == Ok::<(AstNode, int), ParseError>((t, e)));
            assert(term_at(ts, p + 1) == Ok::<(AstNode, int), ParseError>((t, e)));
            assert(binops_at(ts, e, t, MIN_PRECEDENCE) == Ok::<(AstNode, int), ParseError>((t, e)));
            assert(exp_at(ts, p + 1) == Ok::<(AstNode, int), ParseError>((t, e)));
        },
        _ => {},
    }
}

/// A whole expression at `p` is parsed back from the rendering of `t` when
/// the token after it cannot continue an expression.
proof fn lemma_exp_render(ts: Seq<TokenKind>, p: int, t: AstNode)
    requires
        holds_at(ts, p, render(t)),
        ends_expression(cur(ts, p + render(t).len())),
    ensures
        exp_at(ts, p) == Ok::<(AstNode, int), ParseError>((t, p + render(t).len())),
    decreases t, 3int,
{
    let n: int = render(t).len() as int;
    lemma_render_starts(t);
    lemma_holds_cur(ts, p, render(t), 0);
    lemma_primary_render(ts, p, t);
    assert(postfix_at(ts, p + n, t) == Ok::<(AstNode, int), ParseError>((t, p + n)));
    assert(term_at(ts, p) == Ok::<(AstNode, int), ParseError>((t, p + n)));
    assert(binops_at(ts, p + n, t, MIN_PRECEDENCE) == Ok::<(AstNode, int), ParseError>((t, p + n)));
}

/// Parsing the fully parenthesised rendering of any tree gives back that
/// tree.
pub proof fn lemma_parse_render(t: AstNode)
    ensures
        parse_spec(render(t)) == Ok::<AstNode, ParseError>(t),
{
    let ts = render(t);
    assert(ts.subrange(0, ts.len() as int) =~= ts);
    lemma_exp_render(ts, 0, t);
}

/// `wrapped` is `ts` enclosed in one pair of parentheses.
pub open spec fn shifted(ts: Seq<TokenKind>, wrapped: Seq<TokenKind>) -> bool {
    &&& wrapped.len() == ts.len() + 2
    &&& forall|i: int| 0 <= i < ts.len() ==> wrapped[i + 1] == ts[i]
    &&& wrapped[ts.len() + 1int] is RParen
}

/// A rule's outcome with its end position moved one token to the right.
pub open spec fn shift(r: Parsed) -> Parsed {
    match r {
        Ok((t, q)) => Ok((t, q + 1)),
        Err(e) => Err(e),
    }
}

/// The end position of a successful outcome.
pub open spec fn pos_of(r: Parsed) -> int {
    match r {
        Ok((_, q)) => q,
        Err(_) => 0,
    }
}

proof fn lemma_shift_cur(ts: Seq<TokenKind>, wrapped: Seq<TokenKind>, i: int)
    requires
        shifted(ts, wrapped),
        0 <= i <= ts.len(),
    ensures
        i < ts.len() ==> cur(wrapped, i + 1) == cur(ts, i),
        i == ts.len() ==> cur(ts, i) is Eof && cur(wrapped, i + 1) is RParen,
        cur(wrapped, i + 1).prec() == cur(ts, i).prec(),
        (cur(wrapped, i + 1) is LParen) == (cur(ts, i) is LParen),
        (cur(wrapped, i + 1) is Minus) == (cur(ts, i) is Minus),
{
}

proof fn lemma_exp_shift(ts: Seq<TokenKind>, wrapped: Seq<TokenKind>, p: int)
    requires
        shifted(ts, wrapped),
        0 <= p <= ts.len(),
        exp_at(ts, p) is Ok,
    ensures
        exp_at(wrapped, p + 1) == shift(exp_at(ts, p)),
        p < pos_of(exp_at(ts, p)) <= ts.len(),
    decreases ts.len() - p, 3int,
{
    lemma_term_shift(ts, wrapped, p);
    let (lhs, q) = term_at(ts, p)->Ok_0;
    lemma_binops_shift(ts, wrapped, q, lhs, MIN_PRECEDENCE);
}

proof fn lemma_term_shift(ts: Seq<TokenKind>, wrapped: Seq<TokenKind>, p: int)
    requires
        shifted(ts, wrapped),
        0 <= p <= ts.len(),
        term_at(ts, p) is Ok,
    ensures
        term_at(wrapped, p + 1) == shift(term_at(ts, p)),
        p < pos_of(term_at(ts, p)) <= ts.len(),
    decreases ts.len() - p, 2int,
{
    lemma_shift_cur(ts, wrapped, p);
    if cur(ts, p) is Minus {
        lemma_term_shift(ts, wrapped, p + 1);
    } else {
        lemma_primary_shift(ts, wrapped, p);
        let (pri, q) = primary_at(ts, p)->Ok_0;
        lemma_postfix_shift(ts, wrapped, q, pri);
    }
}

proof fn lemma_primary_shift(ts: Seq<TokenKind>, wrapped: Seq<TokenKind>, p: int)
    requires
        shifted(ts, wrapped),
        0 <= p <= ts.len(),
        primary_at(ts, p) is Ok,
    ensures
        primary_at(wrapped, p + 1) == shift(primary_at(ts, p)),
        p < pos_of(primary_at(ts, p)) <= ts.len(),
    decreases ts.len() - p, 1int,
{
    lemma_shift_cur(ts, wrapped, p);
    if cur(ts, p) is LParen {
        lemma_exp_shift(ts, wrapped, p + 1);
        let q = pos_of(exp_at(ts, p + 1));
        lemma_shift_cur(ts, wrapped, q);
    }
}

proof fn lemma_postfix_shift(ts: Seq<TokenKind>, wrapped: Seq<TokenKind>, p: int, lhs: AstNode)
    requires
        shifted(ts, wrapped),
        0 <= p <= ts.len(),
        postfix_at(ts, p, lhs) is Ok,
    ensures
        postfix_at(wrapped, p + 1, lhs) == shift(postfix_at(ts, p, lhs)),
        p <= pos_of(postfix_at(ts, p, lhs)) <= ts.len(),
    decreases ts.len() - p, 0int,
{
    lemma_shift_cur(ts, wrapped, p);
    if cur(ts, p) is LParen {
        lemma_exp_shift(ts, wrapped, p + 1);
        let (arg, q) = exp_at(ts, p + 1)->Ok_0;
        lemma_shift_cur(ts, wrapped, q);
        let called = AstNode::Call { callee: Box::new(lhs), arg: Box::new(arg) };
        lemma_postfix_shift(ts, wrapped, q + 1, called);
    }
}

proof fn lemma_binops_shift(ts: Seq<TokenKind>, wrapped: Seq<TokenKind>, p: int, lhs: AstNode, min: Precedence)
    requires
        shifted(ts, wrapped),
        0 <= p <= ts.len(),
        binops_at(ts, p, lhs, min) is Ok,
    ensures
        binops_at(wrapped, p + 1, lhs, min) == shift(binops_at(ts, p, lhs, min)),
        p <= pos_of(binops_at(ts, p, lhs, min)) <= ts.len(),
        cur(ts, p).is_operator() && cur(ts, p).prec().level() >= min.level() ==> p < pos_of(
            binops_at(ts, p, lhs, min),
        ),
    decreases ts.len() - p, 0int,
{
    lemma_shift_cur(ts, wrapped, p);
    let op = cur(ts, p);
    if op.is_operator() && op.prec().level() >= min.level() {
        lemma_term_shift(ts, wrapped, p + 1);
        let (rhs, q) = term_at(ts, p + 1)->Ok_0;
        lemma_climb_shift(ts, wrapped, q, rhs, op.prec());
        let (rhs2, q2) = climb_at(ts, q, rhs, op.prec())->Ok_0;
        let folded = AstNode::Binary { op: op.op(), lhs: Box::new(lhs), rhs: Box::new(rhs2) };
        lemma_binops_shift(ts, wrapped, q2, folded, min);
    }
}

proof fn lemma_climb_shift(ts: Seq<TokenKind>, wrapped: Seq<TokenKind>, p: int, rhs: AstNode, opp: Precedence)
    requires
        shifted(ts, wrapped),
        0 <= p <= ts.len(),
        climb_at(ts, p, rhs, opp) is Ok,
    ensures
        climb_at(wrapped, p + 1, rhs, opp) == shift(climb_at(ts, p, rhs, opp)),
        p <= pos_of(climb_at(ts, p, rhs, opp)) <= ts.len(),
    decreases ts.len() - p, 1int,
{
    lemma_shift_cur(ts, wrapped, p);
    let next = cur(ts, p).prec();
    if next.level() > opp.level() {
        lemma_binops_shift(ts, wrapped, p, rhs, next);
        let (rhs2, q) = binops_at(ts, p, rhs, next)->Ok_0;
        lemma_climb_shift(ts, wrapped, q, rhs2, opp);
    }
}

/// Enclosing the tokens of a valid expression in one more pair of
/// parentheses gives the same tree. The tokens hold no explicit `Eof`
/// marker: the expression runs to the end of the sequence.
pub proof fn lemma_grouping(ts: Seq<TokenKind>)
    requires
        parse_spec(ts) is Ok,
        forall|i: int| 0 <= i < ts.len() ==> !(ts[i] is Eof),
    ensures
        parse_spec(seq![TokenKind::LParen] + ts + seq![TokenKind::RParen]) == parse_spec(ts),
{
    let wrapped = seq![TokenKind::LParen] + ts + seq![TokenKind::RParen];
    assert(shifted(ts, wrapped));
    lemma_exp_shift(ts, wrapped, 0);
    let (t, q) = exp_at(ts, 0)->Ok_0;
    assert(q == ts.len());
    lemma_shift_cur(ts, wrapped, q);
    let e: int = ts.len() + 2int;
    assert(primary_at(wrapped, 0) == Ok::<(AstNode, int), ParseError>((t, e)));
    assert(postfix_at(wrapped, e, t) == Ok::<(AstNode, int), ParseError>((t, e)));
    assert(term_at(wrapped, 0) == Ok::<(AstNode, int), ParseError>((t, e)));
    assert(binops_at(wrapped, e, t, MIN_PRECEDENCE) == Ok::<(AstNode, int), ParseError>((t, e)));
    assert(exp_at(wrapped, 0) == Ok::<(AstNode, int), ParseError>((t, e)));
}

} // verus!
