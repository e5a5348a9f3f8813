//! The expression tree: a tagged, recursive node type produced by a parser
//! and walked by an evaluator.
//!
//! Each node carries a tag ([`ExprType`]), the [`Token`] it was built from,
//! and an ordered sequence of owned child nodes. The number of children a
//! node has is fixed by its tag: an assignment, a unary operation, and a
//! grouping each hold one child, a binary operation holds two, a literal
//! holds none, and a variable holds none (a bare reference) or one (a
//! declaration with an initializer).

use vstd::prelude::*;

use crate::token::{Token, TokenType, TokenV};

verus! {

/// The tag of an expression node. The set is closed: every traversal
/// matches on all six variants.
#[derive(Clone, Copy, Debug, PartialEq, Eq, Structural)]
pub enum ExprType {
    Assign,
    Binary,
    Unary,
    Grouping,
    Literal,
    Variable,
}

/// One node of an expression tree. A node owns its children outright, so a
/// tree is acyclic by construction.
#[derive(Debug)]
pub struct Expr {
    pub etype: ExprType,
    pub token: Token,
    pub children: Vec<Expr>,
}

/// Structural equality of two trees: the tags agree, the tokens carry the
/// same kind, lexeme and line, and the children agree pairwise, in order.
pub open spec fn tree_eq(a: Expr, b: Expr) -> bool
    decreases a,
{
    &&& a.etype == b.etype
    &&& a.token@ == b.token@
    &&& a.children@.len() == b.children@.len()
    &&& forall|i: int|
        0 <= i < a.children@.len() ==> tree_eq(#[trigger] a.children@[i], b.children@[i])
}

impl Clone for Expr {
    /// A clone is a deep copy: structurally equal to the original, sharing
    /// nothing with it.
    fn clone(&self) -> (res: Self)
        ensures
            tree_eq(res, *self),
        decreases *self,
    {
        let mut kids: Vec<Expr> = Vec::new();
        let mut i: usize = 0;
        while i < self.children.len()
            invariant
                i <= self.children@.len(),
                kids@.len() == i,
                forall|j: int| 0 <= j < i ==> tree_eq(#[trigger] kids@[j], self.children@[j]),
            decreases self.children@.len() - i,
        {
            kids.push(self.children[i].clone());
            i += 1;
        }
        Expr { etype: self.etype, token: self.token.clone(), children: kids }
    }
}

impl Expr {
    /// Builds an assignment node: the token names the target, the single
    /// child is the value expression (moved in).
    pub fn new_assign(token: Token, val: Expr) -> (e: Expr)
        ensures
            e.etype == ExprType::Assign,
            e.token == token,
            e.children@ == seq![val],
    {
        let e = Expr { etype: ExprType::Assign, token: token, children: vec![val] };
        e
    }

    /// Builds a binary-operation node: the token is the operator, the
    /// children are the left and right operands, in that order.
    pub fn new_binary(token: Token, left: Expr, right: Expr) -> (e: Expr)
        ensures
            e.etype == ExprType::Binary,
            e.token == token,
            e.children@ == seq![left, right],
    {
        let e = Expr { etype: ExprType::Binary, token: token, children: vec![left, right] };
        e
    }

    /// Builds a unary-operation node: the token is the operator, the single
    /// child is the operand.
    pub fn new_unary(token: Token, node: Expr) -> (e: Expr)
        ensures
            e.etype == ExprType::Unary,
            e.token == token,
            e.children@ == seq![node],
    {
        let e = Expr { etype: ExprType::Unary, token: token, children: vec![node] };
        e
    }

    /// Builds a grouping node around a deep copy of `expr`; the caller keeps
    /// its own tree untouched. A grouping has no operator of its own, so the
    /// node carries a placeholder token: end-of-input kind, empty lexeme,
    /// line 0. Downstream code must not read that token as meaningful.
    pub fn new_grouping(expr: &Expr) -> (e: Expr)
        ensures
            e.etype == ExprType::Grouping,
            e.token@ == (TokenV { ttype: TokenType::EOF, lexeme: Seq::<char>::empty(), line: 0 }),
            e.children@.len() == 1,
            tree_eq(e.children@[0], *expr),
    {
        proof {
            reveal_strlit("");
        }
        let e = Expr {
            etype: ExprType::Grouping,
            token: Token::new(TokenType::EOF, "", 0),
            children: vec![expr.clone()],
        };
        proof {
            assert(e.token@.lexeme =~= Seq::<char>::empty());
        }
        e
    }

    /// Builds a literal node: the token carries the value; there are no
    /// children.
    pub fn new_literal(token: Token) -> (e: Expr)
        ensures
            e.etype == ExprType::Literal,
            e.token == token,
            e.children@ == Seq::<Expr>::empty(),
    {
        let e = Expr { etype: ExprType::Literal, token: token, children: vec![] };
        e
    }

    /// Builds a variable node in its declaration-with-initializer form: the
    /// token names the variable, the single child is a deep copy of the
    /// initializer; the caller keeps its own tree untouched.
    pub fn new_var_init(token: Token, initializer: &Expr) -> (e: Expr)
        ensures
            e.etype == ExprType::Variable,
            e.token == token,
            e.children@.len() == 1,
            tree_eq(e.children@[0], *initializer),
    {
        let e = Expr {
            etype: ExprType::Variable,
            token: token,
            children: vec![initializer.clone()],
        };
        e
    }

    /// Builds a variable node in its bare-reference form: the token names
    /// the variable; there are no children.
    pub fn new_var(token: Token) -> (e: Expr)
        ensures
            e.etype == ExprType::Variable,
            e.token == token,
            e.children@ == Seq::<Expr>::empty(),
    {
        let e = Expr { etype: ExprType::Variable, token: token, children: vec![] };
        e
    }
}

} // verus!
