use vstd::prelude::*;
use crate::ast::{
    BinaryOperator, Block, Expr, Literal, PrimitiveOperation, SequenceStmt, SourceLocation, Stmt,
    UnaryOperator, VariadicOperator,
};
use crate::error::{ErrorKind, Fault, fault};
use crate::instructions::{Instruction, BLOCK_FRAME, FUNCTION_FRAME};
use crate::scope::{lookup_result, resolve};

verus! {

/// The outcome of lowering a node: its instructions, or the first fault met.
pub type Lowered = Result<Seq<Instruction>, Fault>;

/// Runs two lowerings in order: the first fault wins, else the instructions
/// are concatenated.
pub open spec fn then(a: Lowered, b: Lowered) -> Lowered {
    match a {
        Err(e) => Err(e),
        Ok(x) => match b {
            Err(e) => Err(e),
            Ok(y) => Ok(x + y),
        },
    }
}

pub open spec fn emit(i: Instruction) -> Lowered {
    Ok(seq![i])
}

/// The name held by a declaration's name node.
pub open spec fn ident_name(e: Expr) -> Result<Seq<char>, Fault> {
    match e {
        Expr::IdentifierExpr(name, _) => Ok(name@),
        _ => Err(
            fault(
                ErrorKind::MalformedDeclaration,
                "Expected an identifier to get a name from"@,
                None,
            ),
        ),
    }
}

/// The name held by the target of an assignment or a call.
pub open spec fn target_name(e: Expr, message: Seq<char>, position: SourceLocation) -> Result<
    Seq<char>,
    Fault,
> {
    match e {
        Expr::IdentifierExpr(name, _) => Ok(name@),
        _ => Err(fault(ErrorKind::UnsupportedConstruct, message, Some(position))),
    }
}

pub open spec fn assign_target_message() -> Seq<char> {
    "Only a plain identifier can be assigned to"@
}

pub open spec fn callee_message() -> Seq<char> {
    "Only a named function can be called"@
}

/// The names that one statement declares.
pub open spec fn stmt_names(s: Stmt) -> Result<Seq<Seq<char>>, Fault> {
    match s {
        Stmt::LetStmt { name, .. } => match ident_name(name) {
            Ok(n) => Ok(seq![n]),
            Err(e) => Err(e),
        },
        Stmt::FuncDeclaration { name, .. } => match ident_name(name) {
            Ok(n) => Ok(seq![n]),
            Err(e) => Err(e),
        },
        Stmt::ExprStmt(_) => Ok(Seq::empty()),
    }
}

/// Joins two name scans: the first fault wins.
pub open spec fn join_names(a: Result<Seq<Seq<char>>, Fault>, b: Result<Seq<Seq<char>>, Fault>) -> Result<
    Seq<Seq<char>>,
    Fault,
> {
    match a {
        Err(e) => Err(e),
        Ok(x) => match b {
            Err(e) => Err(e),
            Ok(y) => Ok(x + y),
        },
    }
}

/// The names declared by `let` and function statements, in source order.
pub open spec fn scan_names(stmts: Seq<Stmt>) -> Result<Seq<Seq<char>>, Fault>
    decreases stmts.len(),
{
    if stmts.len() == 0 {
        Ok(Seq::empty())
    } else {
        join_names(scan_names(stmts.drop_last()), stmt_names(stmts.last()))
    }
}

/// The names declared by the bare statements of a block; nested blocks are
/// not entered.
pub open spec fn scan_block_names(elems: Seq<SequenceStmt>) -> Result<Seq<Seq<char>>, Fault>
    decreases elems.len(),
{
    if elems.len() == 0 {
        Ok(Seq::empty())
    } else {
        join_names(
            scan_block_names(elems.drop_last()),
            match elems.last() {
                SequenceStmt::Stmt(s) => stmt_names(s),
                SequenceStmt::Block(_) => Ok(Seq::empty()),
            },
        )
    }
}

/// The names of a function's parameters, in order.
pub open spec fn param_names<T>(params: Seq<(Expr, T)>) -> Result<Seq<Seq<char>>, Fault>
    decreases params.len(),
{
    if params.len() == 0 {
        Ok(Seq::empty())
    } else {
        join_names(
            param_names(params.drop_last()),
            match ident_name(params.last().0) {
                Ok(n) => Ok(seq![n]),
                Err(e) => Err(e),
            },
        )
    }
}

/// Drops for the listed names, each resolved against `t`.
pub open spec fn drop_list(names: Seq<String>, t: Seq<Seq<char>>, position: SourceLocation) -> Lowered
    decreases names.len(),
{
    if names.len() == 0 {
        Ok(Seq::empty())
    } else {
        then(
            drop_list(names.drop_last(), t, position),
            match lookup_result(t, names.last()@, Some(position)) {
                Ok(slot) => emit(Instruction::DROP(slot)),
                Err(e) => Err(e),
            },
        )
    }
}

/// The drops due at a position: one for each name whose lifetime ends on
/// its line.
pub open spec fn drops(position: SourceLocation, t: Seq<Seq<char>>, d: Map<usize, Vec<String>>) -> Lowered {
    if d.contains_key(position.line) {
        drop_list(d[position.line]@, t, position)
    } else {
        Ok(Seq::empty())
    }
}

pub open spec fn lower_literal(l: Literal) -> Lowered {
    match l {
        Literal::IntLiteral(v) => emit(Instruction::LDCI(v)),
        Literal::BoolLiteral(b) => emit(Instruction::LDCB(b)),
        Literal::UnitLiteral => emit(Instruction::LDCU),
        Literal::StringLiteral(_) => Err(
            fault(ErrorKind::UnsupportedConstruct, "String literals are presently unsupported"@, None),
        ),
    }
}

pub open spec fn unary_instruction(op: UnaryOperator) -> Option<Instruction> {
    match op {
        UnaryOperator::Not => Some(Instruction::NOT),
        UnaryOperator::UnaryMinus => Some(Instruction::UMINUS),
        _ => None,
    }
}

pub open spec fn binary_instructions(op: BinaryOperator) -> Seq<Instruction> {
    match op {
        BinaryOperator::Plus => seq![Instruction::PLUS],
        BinaryOperator::Minus => seq![Instruction::MINUS],
        BinaryOperator::Times => seq![Instruction::TIMES],
        BinaryOperator::Divide => seq![Instruction::DIV],
        BinaryOperator::Equal => seq![Instruction::EQUAL],
        BinaryOperator::NotEqual => seq![Instruction::EQUAL, Instruction::NOT],
        BinaryOperator::Greater => seq![Instruction::GREATER],
        BinaryOperator::GreaterOrEqual => seq![Instruction::GEQ],
        BinaryOperator::Less => seq![Instruction::LESS],
        BinaryOperator::LessOrEqual => seq![Instruction::LEQ],
        BinaryOperator::And => seq![Instruction::AND],
        BinaryOperator::Or => seq![Instruction::OR],
    }
}

pub open spec fn unsupported_operator() -> Fault {
    fault(ErrorKind::UnsupportedConstruct, "The operator is presently unsupported"@, None)
}

/// A block body closed so that it ends in a return: an empty body yields
/// the unit value.
pub open spec fn close_body(body: Seq<Instruction>) -> Seq<Instruction> {
    if body.len() == 0 {
        seq![Instruction::LDCU, Instruction::RTN]
    } else if body.last() == Instruction::RTN {
        body
    } else {
        body.push(Instruction::RTN)
    }
}

/// Lowering of an expression in scope `t`; `d` maps a line to the names
/// that expire on it.
pub open spec fn lower_expr(e: Expr, t: Seq<Seq<char>>, d: Map<usize, Vec<String>>) -> Lowered
    decreases e,
{
    match e {
        Expr::IdentifierExpr(name, position) => match lookup_result(t, name@, Some(position)) {
            Ok(slot) => emit(Instruction::LD(slot)),
            Err(f) => Err(f),
        },
        Expr::LiteralExpr(l, position) => then(lower_literal(l), drops(position, t, d)),
        Expr::BlockExpr(b, position) => then(lower_block(*b, t, d), drops(position, t, d)),
        Expr::PrimitiveOperationExpr(op, position) => then(lower_op(*op, t, d), drops(position, t, d)),
        Expr::AssignmentExpr { assignee, value, position } => match target_name(
            *assignee,
            assign_target_message(),
            position,
        ) {
            Err(f) => Err(f),
            Ok(name) => match lookup_result(t, name, Some(position)) {
                Err(f) => Err(f),
                Ok(slot) => then(
                    then(lower_expr(*value, t, d), emit(Instruction::ASSIGN(slot))),
                    drops(position, t, d),
                ),
            },
        },
        Expr::ApplicationExpr { callee, arguments, position } => match target_name(
            *callee,
            callee_message(),
            position,
        ) {
            Err(f) => Err(f),
            Ok(name) => match lookup_result(t, name, Some(position)) {
                Err(f) => Err(f),
                Ok(slot) => then(
                    then(
                        then(emit(Instruction::LD(slot)), lower_exprs(arguments@, t, d)),
                        emit(Instruction::CALL(arguments@.len() as usize)),
                    ),
                    drops(position, t, d),
                ),
            },
        },
        Expr::ReturnExpr(inner, position) => then(
            then(lower_expr(*inner, t, d), drops(position, t, d)),
            emit(Instruction::RTN),
        ),
    }
}

/// Lowering of expressions in order, concatenated; the first fault wins.
pub open spec fn lower_exprs(es: Seq<Expr>, t: Seq<Seq<char>>, d: Map<usize, Vec<String>>) -> Lowered
    decreases es,
{
    if es.len() == 0 {
        Ok(Seq::empty())
    } else {
        then(lower_exprs(es.drop_last(), t, d), lower_expr(es.last(), t, d))
    }
}

pub open spec fn lower_op(op: PrimitiveOperation, t: Seq<Seq<char>>, d: Map<usize, Vec<String>>) -> Lowered
    decreases op,
{
    match op {
        PrimitiveOperation::UnaryOperation { operator, operand } => match unary_instruction(operator) {
            None => Err(unsupported_operator()),
            Some(i) => then(lower_expr(operand, t, d), emit(i)),
        },
        PrimitiveOperation::BinaryOperation { operator, first_operand, second_operand } => then(
            then(lower_expr(first_operand, t, d), lower_expr(second_operand, t, d)),
            Ok(binary_instructions(operator)),
        ),
        PrimitiveOperation::VariadicOperation { .. } => Err(unsupported_operator()),
    }
}

pub open spec fn unbound_message(name: Seq<char>) -> Seq<char> {
    "Unbounded declaration \""@ + name + "\" found and is presently unsupported"@
}

/// Lowering of a statement: it leaves one value on the stack, unless it is
/// a return.
pub open spec fn lower_stmt(s: Stmt, t: Seq<Seq<char>>, d: Map<usize, Vec<String>>) -> Lowered
    decreases s,
{
    match s {
        Stmt::LetStmt { name, value, position, .. } => match value {
            Some(v) => match ident_name(name) {
                Err(f) => Err(f),
                Ok(n) => match lookup_result(t, n, Some(position)) {
                    Err(f) => Err(f),
                    Ok(slot) => then(
                        then(
                            then(lower_expr(v, t, d), emit(Instruction::ASSIGN(slot))),
                            drops(position, t, d),
                        ),
                        emit(Instruction::LDCU),
                    ),
                },
            },
            None => match ident_name(name) {
                Err(f) => Err(f),
                Ok(n) => Err(fault(ErrorKind::UnsupportedConstruct, unbound_message(n), Some(position))),
            },
        },
        Stmt::FuncDeclaration { name, parameters, body, position, .. } => match param_names(
            parameters@,
        ) {
            Err(f) => Err(f),
            Ok(ps) => match lower_block(body, t + ps, d) {
                Err(f) => Err(f),
                Ok(code) => match ident_name(name) {
                    Err(f) => Err(f),
                    Ok(n) => match lookup_result(t + ps, n, Some(position)) {
                        Err(f) => Err(f),
                        Ok(slot) => then(
                            Ok(
                                seq![
                                    Instruction::LDF(0, FUNCTION_FRAME, ps.len() as usize),
                                    Instruction::ASSIGN(slot),
                                    Instruction::GOTOR((code.len() + 1) as usize),
                                ] + code,
                            ),
                            then(drops(position, t, d), emit(Instruction::LDCU)),
                        ),
                    },
                },
            },
        },
        Stmt::ExprStmt(e) => match e {
            Expr::ReturnExpr(..) => lower_expr(e, t, d),
            _ => then(lower_expr(e, t, d), Ok(seq![Instruction::POP, Instruction::LDCU])),
        },
    }
}

/// Lowering of the first elements of a block of `total` elements: a bare
/// statement other than the block's last is followed by a `POP`.
pub open spec fn lower_elems(
    elems: Seq<SequenceStmt>,
    total: int,
    t: Seq<Seq<char>>,
    d: Map<usize, Vec<String>>,
) -> Lowered
    decreases elems,
{
    if elems.len() == 0 {
        Ok(Seq::empty())
    } else {
        then(
            lower_elems(elems.drop_last(), total, t, d),
            match elems.last() {
                SequenceStmt::Stmt(s) => then(
                    lower_stmt(s, t, d),
                    if elems.len() < total {
                        emit(Instruction::POP)
                    } else {
                        Ok(Seq::empty())
                    },
                ),
                SequenceStmt::Block(b) => lower_block(b, t, d),
            },
        )
    }
}

/// Lowering of a block as a closure of no arguments that is called at once.
pub open spec fn lower_block(b: Block, t: Seq<Seq<char>>, d: Map<usize, Vec<String>>) -> Lowered
    decreases b,
{
    match scan_block_names(b.statements@) {
        Err(f) => Err(f),
        Ok(locals) => match lower_elems(
            b.statements@,
            b.statements@.len() as int,
            t + locals,
            d,
        ) {
            Err(f) => Err(f),
            Ok(code) => Ok(
                seq![Instruction::LDF(0, BLOCK_FRAME, locals.len() as usize), Instruction::CALL(0)]
                    + close_body(code),
            ),
        },
    }
}

/// Lowering of one top-level statement, which must declare a function.
pub open spec fn lower_top_level(s: Stmt, t: Seq<Seq<char>>, d: Map<usize, Vec<String>>) -> Lowered {
    match s {
        Stmt::FuncDeclaration { .. } => then(lower_stmt(s, t, d), emit(Instruction::POP)),
        _ => Err(
            fault(
                ErrorKind::UnsupportedConstruct,
                "Only function declarations are allowed at the top-level"@,
                None,
            ),
        ),
    }
}

pub open spec fn lower_top_levels(stmts: Seq<Stmt>, t: Seq<Seq<char>>, d: Map<usize, Vec<String>>) -> Lowered
    decreases stmts.len(),
{
    if stmts.len() == 0 {
        Ok(Seq::empty())
    } else {
        then(lower_top_levels(stmts.drop_last(), t, d), lower_top_level(stmts.last(), t, d))
    }
}

/// The slot of the entry point: the last top-level declaration named `main`.
pub open spec fn main_slot(names: Seq<Seq<char>>) -> Option<int> {
    resolve(names, "main"@)
}

/// Lowering of a whole program. The top-level names take slots in order of
/// declaration; a program without `main` is just start and done.
pub open spec fn lower_program(ast: Seq<Stmt>, d: Map<usize, Vec<String>>) -> Lowered {
    match scan_names(ast) {
        Err(f) => Err(f),
        Ok(names) => match main_slot(names) {
            None => Ok(seq![Instruction::START, Instruction::DONE]),
            Some(m) => then(
                then(emit(Instruction::START), lower_top_levels(ast, names, d)),
                Ok(seq![Instruction::LD(m as usize), Instruction::CALL(0), Instruction::DONE]),
            ),
        },
    }
}

// A fault in a prefix of a sequence is the fault of the whole sequence.

pub proof fn lemma_scan_names_prefix_fault(s: Seq<Stmt>, i: int)
    requires
        0 <= i <= s.len(),
        scan_names(s.subrange(0, i)) is Err,
    ensures
        scan_names(s) == scan_names(s.subrange(0, i)),
    decreases s.len(),
{
    if i < s.len() {
        assert(s.drop_last().subrange(0, i) =~= s.subrange(0, i));
        lemma_scan_names_prefix_fault(s.drop_last(), i);
    } else {
        assert(s.subrange(0, i) =~= s);
    }
}

pub proof fn lemma_scan_block_names_prefix_fault(s: Seq<SequenceStmt>, i: int)
    requires
        0 <= i <= s.len(),
        scan_block_names(s.subrange(0, i)) is Err,
    ensures
        scan_block_names(s) == scan_block_names(s.subrange(0, i)),
    decreases s.len(),
{
    if i < s.len() {
        assert(s.drop_last().subrange(0, i) =~= s.subrange(0, i));
        lemma_scan_block_names_prefix_fault(s.drop_last(), i);
    } else {
        assert(s.subrange(0, i) =~= s);
    }
}

pub proof fn lemma_param_names_prefix_fault<T>(s: Seq<(Expr, T)>, i: int)
    requires
        0 <= i <= s.len(),
        param_names(s.subrange(0, i)) is Err,
    ensures
        param_names(s) == param_names(s.subrange(0, i)),
    decreases s.len(),
{
    if i < s.len() {
        assert(s.drop_last().subrange(0, i) =~= s.subrange(0, i));
        lemma_param_names_prefix_fault(s.drop_last(), i);
    } else {
        assert(s.subrange(0, i) =~= s);
    }
}

pub proof fn lemma_drop_list_prefix_fault(
    s: Seq<String>,
    i: int,
    t: Seq<Seq<char>>,
    position: SourceLocation,
)
    requires
        0 <= i <= s.len(),
        drop_list(s.subrange(0, i), t, position) is Err,
    ensures
        drop_list(s, t, position) == drop_list(s.subrange(0, i), t, position),
    decreases s.len(),
{
    if i < s.len() {
        assert(s.drop_last().subrange(0, i) =~= s.subrange(0, i));
        lemma_drop_list_prefix_fault(s.drop_last(), i, t, position);
    } else {
        assert(s.subrange(0, i) =~= s);
    }
}

pub proof fn lemma_exprs_prefix_fault(
    s: Seq<Expr>,
    i: int,
    t: Seq<Seq<char>>,
    d: Map<usize, Vec<String>>,
)
    requires
        0 <= i <= s.len(),
        lower_exprs(s.subrange(0, i), t, d) is Err,
    ensures
        lower_exprs(s, t, d) == lower_exprs(s.subrange(0, i), t, d),
    decreases s.len(),
{
    if i < s.len() {
        assert(s.drop_last().subrange(0, i) =~= s.subrange(0, i));
        lemma_exprs_prefix_fault(s.drop_last(), i, t, d);
    } else {
        assert(s.subrange(0, i) =~= s);
    }
}

pub proof fn lemma_elems_prefix_fault(
    s: Seq<SequenceStmt>,
    i: int,
    total: int,
    t: Seq<Seq<char>>,
    d: Map<usize, Vec<String>>,
)
    requires
        0 <= i <= s.len(),
        lower_elems(s.subrange(0, i), total, t, d) is Err,
    ensures
        lower_elems(s, total, t, d) == lower_elems(s.subrange(0, i), total, t, d),
    decreases s.len(),
{
    if i < s.len() {
        assert(s.drop_last().subrange(0, i) =~= s.subrange(0, i));
        lemma_elems_prefix_fault(s.drop_last(), i, total, t, d);
    } else {
        assert(s.subrange(0, i) =~= s);
    }
}

pub proof fn lemma_top_levels_prefix_fault(
    s: Seq<Stmt>,
    i: int,
    t: Seq<Seq<char>>,
    d: Map<usize, Vec<String>>,
)
    requires
        0 <= i <= s.len(),
        lower_top_levels(s.subrange(0, i), t, d) is Err,
    ensures
        lower_top_levels(s, t, d) == lower_top_levels(s.subrange(0, i), t, d),
    decreases s.len(),
{
    if i < s.len() {
        assert(s.drop_last().subrange(0, i) =~= s.subrange(0, i));
        lemma_top_levels_prefix_fault(s.drop_last(), i, t, d);
    } else {
        assert(s.subrange(0, i) =~= s);
    }
}

} // verus!
