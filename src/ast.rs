use vstd::prelude::*;

verus! {

/// A (line, column) pair in the source text.
#[derive(Clone, Copy, Debug, PartialEq, Eq, Structural)]
pub struct SourceLocation {
    pub line: usize,
    pub col: usize,
}

/// Types that annotations and parameters may carry. Lowering does not read them.
#[derive(Debug)]
pub enum DataType {
    Int64,
    Bool,
    Str,
    String,
    Unit,
    Ref(Option<String>, Box<DataType>),
    MutRef(Option<String>, Box<DataType>),
}

#[derive(Clone, Debug)]
pub enum Literal {
    IntLiteral(i64),
    BoolLiteral(bool),
    StringLiteral(String),
    UnitLiteral,
}

#[derive(Clone, Copy, Debug, PartialEq, Eq, Structural)]
pub enum UnaryOperator {
    Not,
    UnaryMinus,
    ImmutableBorrow,
    MutableBorrow,
    Dereference,
    StringFrom,
    Drop,
    Len,
    AsStr,
    PushStr,
}

#[derive(Clone, Copy, Debug, PartialEq, Eq, Structural)]
pub enum BinaryOperator {
    Plus,
    Minus,
    Times,
    Divide,
    Equal,
    NotEqual,
    Greater,
    GreaterOrEqual,
    Less,
    LessOrEqual,
    And,
    Or,
}

#[derive(Clone, Copy, Debug, PartialEq, Eq, Structural)]
pub enum VariadicOperator {
    Println,
}

#[derive(Debug)]
pub enum PrimitiveOperation {
    UnaryOperation { operator: UnaryOperator, operand: Expr },
    BinaryOperation { operator: BinaryOperator, first_operand: Expr, second_operand: Expr },
    VariadicOperation { operator: VariadicOperator, operands: Vec<Expr> },
}

#[derive(Debug)]
pub enum Expr {
    IdentifierExpr(String, SourceLocation),
    LiteralExpr(Literal, SourceLocation),
    BlockExpr(Box<Block>, SourceLocation),
    PrimitiveOperationExpr(Box<PrimitiveOperation>, SourceLocation),
    AssignmentExpr { assignee: Box<Expr>, value: Box<Expr>, position: SourceLocation },
    ApplicationExpr { callee: Box<Expr>, arguments: Vec<Expr>, position: SourceLocation },
    ReturnExpr(Box<Expr>, SourceLocation),
}

#[derive(Debug)]
pub enum Stmt {
    LetStmt {
        name: Expr,
        is_mutable: bool,
        annotation: Option<DataType>,
        value: Option<Expr>,
        position: SourceLocation,
    },
    FuncDeclaration {
        name: Expr,
        lifetime_params: Vec<String>,
        parameters: Vec<(Expr, DataType)>,
        return_type: Option<DataType>,
        body: Block,
        position: SourceLocation,
    },
    ExprStmt(Expr),
}

/// One element of a block: a bare statement or a nested block.
#[derive(Debug)]
pub enum SequenceStmt {
    Stmt(Stmt),
    Block(Block),
}

#[derive(Debug)]
pub struct Block {
    pub statements: Vec<SequenceStmt>,
}

} // verus!
