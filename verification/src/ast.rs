//! The statement/expression tree that an external parser produces and the
//! code generator consumes.

use vstd::prelude::*;

verus! {

/// The binary operator kinds: arithmetic and comparison.
#[derive(Clone, Copy, PartialEq, Eq, Structural, Debug)]
pub enum BinaryOperator {
    Plus,
    Sub,
    Mul,
    Div,
    Neq,
    Equal,
    Leq,
    Le,
    Ge,
    Geq,
}

impl BinaryOperator {
    /// The operator's source-text spelling.
    pub fn symbol(&self) -> (r: String)
        ensures
            r@ == spec_operator_symbol(*self),
    {
        match self {
            BinaryOperator::Plus => "+".to_owned(),
            BinaryOperator::Sub => "-".to_owned(),
            BinaryOperator::Mul => "*".to_owned(),
            BinaryOperator::Div => "/".to_owned(),
            BinaryOperator::Neq => "!=".to_owned(),
            BinaryOperator::Equal => "==".to_owned(),
            BinaryOperator::Leq => "<=".to_owned(),
            BinaryOperator::Le => "<".to_owned(),
            BinaryOperator::Ge => ">".to_owned(),
            BinaryOperator::Geq => ">=".to_owned(),
        }
    }
}

pub open spec fn spec_operator_symbol(op: BinaryOperator) -> Seq<char> {
    match op {
        BinaryOperator::Plus => "+"@,
        BinaryOperator::Sub => "-"@,
        BinaryOperator::Mul => "*"@,
        BinaryOperator::Div => "/"@,
        BinaryOperator::Neq => "!="@,
        BinaryOperator::Equal => "=="@,
        BinaryOperator::Leq => "<="@,
        BinaryOperator::Le => "<"@,
        BinaryOperator::Ge => ">"@,
        BinaryOperator::Geq => ">="@,
    }
}

/// A binary-operation node: the left operand is evaluated strictly before the
/// right one.
pub struct BinOp {
    pub op: BinaryOperator,
    pub left: Box<Expression>,
    pub right: Box<Expression>,
}

/// A local declaration `name = expr`, binding `name` to a fresh register.
pub struct Declaration {
    pub name: String,
    pub expression: Expression,
}

/// An assignment to an already-declared local: the existing register is
/// updated, no new register is allocated.
pub struct Assignment {
    pub name: String,
    pub expression: Expression,
}

/// A nested function declaration.  The code generator does not lower these;
/// it rejects them with an explicit diagnostic.
pub struct FunctionDecl {
    pub name: String,
    pub statements: Vec<Box<Statement>>,
    pub typ: String,
}

/// An expression node.  Float constants are carried as their IEEE 754 bit
/// patterns; the surrounding program converts to and from `f64`.
pub enum Expression {
    ConstInt { value: i64 },
    ConstFloat { bits: u64 },
    ConstString { value: String },
    BinOp(BinOp),
    Symbol(String),
    Call { name: String, args: Vec<Expression> },
}

/// A statement node.
pub enum Statement {
    FunctionDecl(FunctionDecl),
    Return(Expression),
    Expr(Expression),
    Assignment(Assignment),
    Declaration(Declaration),
}

pub type Statements = Vec<Box<Statement>>;

} // verus!
