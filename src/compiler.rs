use vstd::prelude::*;
use std::collections::HashMap;
use crate::ast::{
    BinaryOperator, Block, Expr, Literal, PrimitiveOperation, SequenceStmt, SourceLocation, Stmt,
    UnaryOperator,
};
use crate::error::{Error, ErrorKind, Fault};
use crate::instructions::{Instruction, BLOCK_FRAME, FUNCTION_FRAME};
use crate::lowering::{
    binary_instructions, close_body, drop_list, drops, ident_name, lemma_drop_list_prefix_fault,
    lemma_elems_prefix_fault, lemma_exprs_prefix_fault, lemma_param_names_prefix_fault,
    lemma_scan_block_names_prefix_fault, lemma_scan_names_prefix_fault,
    lemma_top_levels_prefix_fault, lower_block, lower_elems, lower_expr, lower_exprs, lower_literal,
    lower_op, lower_program, main_slot, lower_stmt, lower_top_level, lower_top_levels, param_names,
    scan_block_names, scan_names, then, Lowered,
};
use crate::scope::{names_of, ScopeTable};

verus! {

broadcast use vstd::std_specs::hash::group_hash_axioms;

/// For each source line, the names whose lifetime ends on it.
pub type ExpiredLifetimes = HashMap<usize, Vec<String>>;

/// The mathematical value of a lowering's outcome.
pub open spec fn lowered(r: Result<Vec<Instruction>, Error>) -> Lowered {
    match r {
        Ok(v) => Ok(v@),
        Err(e) => Err(e@),
    }
}

/// The mathematical value of a scan for names.
pub open spec fn scanned(r: Result<Vec<String>, Error>) -> Result<Seq<Seq<char>>, Fault> {
    match r {
        Ok(v) => Ok(names_of(v@)),
        Err(e) => Err(e@),
    }
}

pub open spec fn named(r: Result<String, Error>) -> Result<Seq<char>, Fault> {
    match r {
        Ok(n) => Ok(n@),
        Err(e) => Err(e@),
    }
}

/// The name held by an identifier node.
fn get_identifier_name(expr: &Expr) -> (r: Result<String, Error>)
    ensures
        named(r) == ident_name(*expr),
{
    match expr {
        Expr::IdentifierExpr(name, _) => Ok(name.clone()),
        _ => Err(
            Error::new(
                ErrorKind::MalformedDeclaration,
                String::from_str("Expected an identifier to get a name from"),
                None,
            ),
        ),
    }
}

/// A sequence of one instruction.
fn single(i: Instruction) -> (r: Vec<Instruction>)
    ensures
        r@ == seq![i],
{
    let mut r: Vec<Instruction> = Vec::new();
    r.push(i);
    assert(r@ =~= seq![i]);
    r
}

/// A sequence of two instructions.
fn pair(i: Instruction, j: Instruction) -> (r: Vec<Instruction>)
    ensures
        r@ == seq![i, j],
{
    let mut r: Vec<Instruction> = Vec::new();
    r.push(i);
    r.push(j);
    assert(r@ =~= seq![i, j]);
    r
}

/// Concatenates two lowerings; the first fault wins.
fn accumulate_bytecode(
    acc: Result<Vec<Instruction>, Error>,
    result: Result<Vec<Instruction>, Error>,
) -> (r: Result<Vec<Instruction>, Error>)
    ensures
        lowered(r) == then(lowered(acc), lowered(result)),
{
    match acc {
        Ok(mut code) => match result {
            Ok(mut more) => {
                code.append(&mut more);
                Ok(code)
            },
            Err(e) => Err(e),
        },
        Err(e) => Err(e),
    }
}

/// The names declared at the top of a statement sequence, in order.
fn scan_declaration_names(stmts: &Vec<Stmt>) -> (r: Result<Vec<String>, Error>)
    ensures
        scanned(r) == scan_names(stmts@),
{
    let mut names: Vec<String> = Vec::new();
    let mut i: usize = 0;
    assert(names_of(names@) =~= Seq::<Seq<char>>::empty());
    while i < stmts.len()
        invariant
            i <= stmts@.len(),
            scan_names(stmts@.subrange(0, i as int)) == Ok::<Seq<Seq<char>>, Fault>(names_of(names@)),
        decreases stmts@.len() - i,
    {
        assert(stmts@.subrange(0, i + 1).drop_last() =~= stmts@.subrange(0, i as int));
        let found = match &stmts[i] {
            Stmt::LetStmt { name, .. } => Some(get_identifier_name(name)),
            Stmt::FuncDeclaration { name, .. } => Some(get_identifier_name(name)),
            Stmt::ExprStmt(_) => None,
        };
        match found {
            Some(Ok(n)) => {
                let ghost before = names@;
                names.push(n);
                assert(names_of(names@) =~= names_of(before) + seq![n@]);
            },
            Some(Err(e)) => {
                proof {
                    lemma_scan_names_prefix_fault(stmts@, i + 1);
                }
                return Err(e);
            },
            None => {
                assert(names_of(names@) + Seq::<Seq<char>>::empty() =~= names_of(names@));
            },
        }
        i = i + 1;
    }
    assert(stmts@.subrange(0, i as int) =~= stmts@);
    Ok(names)
}

/// The names declared by the bare statements of a block, in order; nested
/// blocks are not entered.
fn scan_declaration_names_from_block(block: &Block) -> (r: Result<Vec<String>, Error>)
    ensures
        scanned(r) == scan_block_names(block.statements@),
{
    let mut names: Vec<String> = Vec::new();
    let mut i: usize = 0;
    assert(names_of(names@) =~= Seq::<Seq<char>>::empty());
    while i < block.statements.len()
        invariant
            i <= block.statements@.len(),
            scan_block_names(block.statements@.subrange(0, i as int)) == Ok::<Seq<Seq<char>>, Fault>(
                names_of(names@),
            ),
        decreases block.statements@.len() - i,
    {
        assert(block.statements@.subrange(0, i + 1).drop_last() =~= block.statements@.subrange(0, i as int));
        assert(block.statements@.subrange(0, i + 1).last() == block.statements@[i as int]);
        let found = match &block.statements[i] {
            SequenceStmt::Stmt(stmt) => match stmt {
                Stmt::LetStmt { name, .. } => Some(get_identifier_name(name)),
                Stmt::FuncDeclaration { name, .. } => Some(get_identifier_name(name)),
                Stmt::ExprStmt(_) => None,
            },
            SequenceStmt::Block(_) => None,
        };
        match found {
            Some(Ok(n)) => {
                let ghost before = names@;
                names.push(n);
                assert(names_of(names@) =~= names_of(before) + seq![n@]);
            },
            Some(Err(e)) => {
                proof {
                    lemma_scan_block_names_prefix_fault(block.statements@, i + 1);
                }
                return Err(e);
            },
            None => {
                assert(names_of(names@) + Seq::<Seq<char>>::empty() =~= names_of(names@));
            },
        }
        i = i + 1;
    }
    assert(block.statements@.subrange(0, i as int) =~= block.statements@);
    Ok(names)
}

/// The names of a function's parameters, in order.
fn parameter_names<T>(params: &Vec<(Expr, T)>) -> (r: Result<Vec<String>, Error>)
    ensures
        scanned(r) == param_names(params@),
{
    let mut names: Vec<String> = Vec::new();
    let mut i: usize = 0;
    assert(names_of(names@) =~= Seq::<Seq<char>>::empty());
    while i < params.len()
        invariant
            i <= params@.len(),
            param_names(params@.subrange(0, i as int)) == Ok::<Seq<Seq<char>>, Fault>(
                names_of(names@),
            ),
        decreases params@.len() - i,
    {
        assert(params@.subrange(0, i + 1).drop_last() =~= params@.subrange(0, i as int));
        match get_identifier_name(&params[i].0) {
            Ok(n) => {
                let ghost before = names@;
                names.push(n);
                assert(names_of(names@) =~= names_of(before) + seq![n@]);
            },
            Err(e) => {
                proof {
                    lemma_param_names_prefix_fault(params@, i + 1);
                }
                return Err(e);
            },
        }
        i = i + 1;
    }
    assert(params@.subrange(0, i as int) =~= params@);
    Ok(names)
}

/// The drops due at `position`: for each name whose lifetime ends on that
/// line, a `DROP` of its slot.
pub fn compile_drops(position: &SourceLocation, drop_at: &ExpiredLifetimes, table: &ScopeTable) -> (r:
    Result<Vec<Instruction>, Error>)
    ensures
        lowered(r) == drops(*position, table@, drop_at@),
{
    match drop_at.get(&position.line) {
        None => Ok(Vec::new()),
        Some(expired) => {
            let mut code: Vec<Instruction> = Vec::new();
            let mut i: usize = 0;
            while i < expired.len()
                invariant
                    i <= expired@.len(),
                    drop_at@.contains_key(position.line),
                    drop_at@[position.line] == *expired,
                    drop_list(expired@.subrange(0, i as int), table@, *position) == Ok::<
                        Seq<Instruction>,
                        Fault,
                    >(code@),
                decreases expired@.len() - i,
            {
                assert(expired@.subrange(0, i + 1).drop_last() =~= expired@.subrange(0, i as int));
                match table.lookup(&expired[i], Some(*position)) {
                    Ok(slot) => {
                        let ghost before = code@;
                        code.push(Instruction::DROP(slot));
                        assert(code@ =~= before + seq![Instruction::DROP(slot)]);
                    },
                    Err(e) => {
                        proof {
                            lemma_drop_list_prefix_fault(expired@, i + 1, table@, *position);
                        }
                        return Err(e);
                    },
                }
                i = i + 1;
            }
            assert(expired@.subrange(0, i as int) =~= expired@);
            Ok(code)
        },
    }
}

fn compile_literal(literal: &Literal) -> (r: Result<Vec<Instruction>, Error>)
    ensures
        lowered(r) == lower_literal(*literal),
{
    match literal {
        Literal::IntLiteral(v) => Ok(single(Instruction::LDCI(*v))),
        Literal::BoolLiteral(b) => Ok(single(Instruction::LDCB(*b))),
        Literal::UnitLiteral => Ok(single(Instruction::LDCU)),
        Literal::StringLiteral(_) => Err(
            Error::new(
                ErrorKind::UnsupportedConstruct,
                String::from_str("String literals are presently unsupported"),
                None,
            ),
        ),
    }
}

fn binary_instructions_of(operator: BinaryOperator) -> (r: Vec<Instruction>)
    ensures
        r@ == binary_instructions(operator),
{
    match operator {
        BinaryOperator::Plus => single(Instruction::PLUS),
        BinaryOperator::Minus => single(Instruction::MINUS),
        BinaryOperator::Times => single(Instruction::TIMES),
        BinaryOperator::Divide => single(Instruction::DIV),
        BinaryOperator::Equal => single(Instruction::EQUAL),
        BinaryOperator::NotEqual => pair(Instruction::EQUAL, Instruction::NOT),
        BinaryOperator::Greater => single(Instruction::GREATER),
        BinaryOperator::GreaterOrEqual => single(Instruction::GEQ),
        BinaryOperator::Less => single(Instruction::LESS),
        BinaryOperator::LessOrEqual => single(Instruction::LEQ),
        BinaryOperator::And => single(Instruction::AND),
        BinaryOperator::Or => single(Instruction::OR),
    }
}

fn unsupported_operator_error() -> (r: Error)
    ensures
        r@ == crate::lowering::unsupported_operator(),
{
    Error::new(
        ErrorKind::UnsupportedConstruct,
        String::from_str("The operator is presently unsupported"),
        None,
    )
}

/// Lowers an expression. The scope table comes back as it was.
pub fn compile_expr(expr: &Expr, drop_at: &ExpiredLifetimes, table: &mut ScopeTable) -> (r: Result<
    Vec<Instruction>,
    Error,
>)
    ensures
        final(table)@ == old(table)@,
        lowered(r) == lower_expr(*expr, old(table)@, drop_at@),
    decreases expr,
{
    match expr {
        Expr::IdentifierExpr(name, position) => match table.lookup(name, Some(*position)) {
            Ok(slot) => Ok(single(Instruction::LD(slot))),
            Err(e) => Err(e),
        },
        Expr::LiteralExpr(literal, position) => {
            let code = compile_literal(literal);
            accumulate_bytecode(code, compile_drops(position, drop_at, table))
        },
        Expr::BlockExpr(block, position) => {
            let code = compile_block(block, drop_at, table);
            accumulate_bytecode(code, compile_drops(position, drop_at, table))
        },
        Expr::PrimitiveOperationExpr(op, position) => {
            let code = compile_op(op, drop_at, table);
            accumulate_bytecode(code, compile_drops(position, drop_at, table))
        },
        Expr::AssignmentExpr { assignee, value, position } => {
            let name = match &**assignee {
                Expr::IdentifierExpr(name, _) => name,
                _ => {
                    return Err(
                        Error::new(
                            ErrorKind::UnsupportedConstruct,
                            String::from_str("Only a plain identifier can be assigned to"),
                            Some(*position),
                        ),
                    );
                },
            };
            let slot = match table.lookup(name, Some(*position)) {
                Ok(slot) => slot,
                Err(e) => {
                    return Err(e);
                },
            };
            let code = compile_expr(value, drop_at, table);
            let code = accumulate_bytecode(code, Ok(single(Instruction::ASSIGN(slot))));
            accumulate_bytecode(code, compile_drops(position, drop_at, table))
        },
        Expr::ApplicationExpr { callee, arguments, position } => {
            let name = match &**callee {
                Expr::IdentifierExpr(name, _) => name,
                _ => {
                    return Err(
                        Error::new(
                            ErrorKind::UnsupportedConstruct,
                            String::from_str("Only a named function can be called"),
                            Some(*position),
                        ),
                    );
                },
            };
            let slot = match table.lookup(name, Some(*position)) {
                Ok(slot) => slot,
                Err(e) => {
                    return Err(e);
                },
            };
            let args = compile_exprs(arguments, drop_at, table);
            let code = accumulate_bytecode(Ok(single(Instruction::LD(slot))), args);
            let code = accumulate_bytecode(code, Ok(single(Instruction::CALL(arguments.len()))));
            accumulate_bytecode(code, compile_drops(position, drop_at, table))
        },
        Expr::ReturnExpr(inner, position) => {
            let code = compile_expr(inner, drop_at, table);
            let code = accumulate_bytecode(code, compile_drops(position, drop_at, table));
            accumulate_bytecode(code, Ok(single(Instruction::RTN)))
        },
    }
}

/// Lowers expressions in order and concatenates them; the first fault wins.
fn compile_exprs(exprs: &Vec<Expr>, drop_at: &ExpiredLifetimes, table: &mut ScopeTable) -> (r: Result<
    Vec<Instruction>,
    Error,
>)
    ensures
        final(table)@ == old(table)@,
        lowered(r) == lower_exprs(exprs@, old(table)@, drop_at@),
    decreases exprs,
{
    let mut code: Vec<Instruction> = Vec::new();
    let mut i: usize = 0;
    while i < exprs.len()
        invariant
            i <= exprs@.len(),
            table@ == old(table)@,
            lower_exprs(exprs@.subrange(0, i as int), old(table)@, drop_at@) == Ok::<
                Seq<Instruction>,
                Fault,
            >(code@),
        decreases exprs@.len() - i,
    {
        assert(exprs@.subrange(0, i + 1).drop_last() =~= exprs@.subrange(0, i as int));
        match compile_expr(&exprs[i], drop_at, table) {
            Ok(mut more) => {
                code.append(&mut more);
            },
            Err(e) => {
                proof {
                    lemma_exprs_prefix_fault(exprs@, i + 1, old(table)@, drop_at@);
                }
                return Err(e);
            },
        }
        i = i + 1;
    }
    assert(exprs@.subrange(0, i as int) =~= exprs@);
    Ok(code)
}

/// Lowers a primitive operation: the operands in order, then the operator.
pub fn compile_op(op: &PrimitiveOperation, drop_at: &ExpiredLifetimes, table: &mut ScopeTable) -> (r:
    Result<Vec<Instruction>, Error>)
    ensures
        final(table)@ == old(table)@,
        lowered(r) == lower_op(*op, old(table)@, drop_at@),
    decreases op,
{
    match op {
        PrimitiveOperation::UnaryOperation { operator, operand } => {
            let instruction = match operator {
                UnaryOperator::Not => Instruction::NOT,
                UnaryOperator::UnaryMinus => Instruction::UMINUS,
                _ => {
                    return Err(unsupported_operator_error());
                },
            };
            let code = compile_expr(operand, drop_at, table);
            accumulate_bytecode(code, Ok(single(instruction)))
        },
        PrimitiveOperation::BinaryOperation { operator, first_operand, second_operand } => {
            let first = compile_expr(first_operand, drop_at, table);
            let second = compile_expr(second_operand, drop_at, table);
            let code = accumulate_bytecode(first, second);
            accumulate_bytecode(code, Ok(binary_instructions_of(*operator)))
        },
        PrimitiveOperation::VariadicOperation { .. } => Err(unsupported_operator_error()),
    }
}

/// Lowers a statement. The scope table comes back as it was.
pub fn compile_stmt(stmt: &Stmt, drop_at: &ExpiredLifetimes, table: &mut ScopeTable) -> (r: Result<
    Vec<Instruction>,
    Error,
>)
    ensures
        final(table)@ == old(table)@,
        lowered(r) == lower_stmt(*stmt, old(table)@, drop_at@),
    decreases stmt,
{
    match stmt {
        Stmt::LetStmt { name, value, position, .. } => match value {
            Some(v) => {
                let n = match get_identifier_name(name) {
                    Ok(n) => n,
                    Err(e) => {
                        return Err(e);
                    },
                };
                let slot = match table.lookup(&n, Some(*position)) {
                    Ok(slot) => slot,
                    Err(e) => {
                        return Err(e);
                    },
                };
                let code = compile_expr(v, drop_at, table);
                let code = accumulate_bytecode(code, Ok(single(Instruction::ASSIGN(slot))));
                let code = accumulate_bytecode(code, compile_drops(position, drop_at, table));
                accumulate_bytecode(code, Ok(single(Instruction::LDCU)))
            },
            None => {
                let n = match get_identifier_name(name) {
                    Ok(n) => n,
                    Err(e) => {
                        return Err(e);
                    },
                };
                let message = String::from_str("Unbounded declaration \"").concat(n.as_str()).concat(
                    "\" found and is presently unsupported",
                );
                Err(Error::new(ErrorKind::UnsupportedConstruct, message, Some(*position)))
            },
        },
        Stmt::FuncDeclaration { name, parameters, body, position, .. } => {
            let params = match parameter_names(parameters) {
                Ok(p) => p,
                Err(e) => {
                    return Err(e);
                },
            };
            let num_of_params = params.len();
            table.push_names(&params);
            let ghost inner = table@;
            let mut body_code = match compile_block(body, drop_at, table) {
                Ok(c) => c,
                Err(e) => {
                    table.pop_n(num_of_params);
                    assert(table@ =~= old(table)@);
                    return Err(e);
                },
            };
            let func_name = match get_identifier_name(name) {
                Ok(n) => n,
                Err(e) => {
                    table.pop_n(num_of_params);
                    assert(table@ =~= old(table)@);
                    return Err(e);
                },
            };
            let func_slot = match table.lookup(&func_name, Some(*position)) {
                Ok(slot) => slot,
                Err(e) => {
                    table.pop_n(num_of_params);
                    assert(table@ =~= old(table)@);
                    return Err(e);
                },
            };
            table.pop_n(num_of_params);
            assert(table@ =~= old(table)@);
            let body_len = body_code.len();
            let mut code = vec![
                Instruction::LDF(0, FUNCTION_FRAME, num_of_params),
                Instruction::ASSIGN(func_slot),
                Instruction::GOTOR(0),
            ];
            code.append(&mut body_code);
            let total = code.len();
            assert(total == 3 + body_len);
            code.set(2, Instruction::GOTOR(body_len + 1));
            let tail = accumulate_bytecode(
                compile_drops(position, drop_at, table),
                Ok(single(Instruction::LDCU)),
            );
            assert(code@ =~= seq![
                Instruction::LDF(0, FUNCTION_FRAME, num_of_params),
                Instruction::ASSIGN(func_slot),
                Instruction::GOTOR((body_len + 1) as usize),
            ] + lower_block(*body, inner, drop_at@)->Ok_0);
            accumulate_bytecode(Ok(code), tail)
        },
        Stmt::ExprStmt(e) => match e {
            Expr::ReturnExpr(..) => compile_expr(e, drop_at, table),
            _ => {
                let code = compile_expr(e, drop_at, table);
                accumulate_bytecode(code, Ok(pair(Instruction::POP, Instruction::LDCU)))
            },
        },
    }
}

/// Lowers the elements of a block in order: a bare statement other than the
/// last is followed by a `POP`.
fn compile_elems(elems: &Vec<SequenceStmt>, drop_at: &ExpiredLifetimes, table: &mut ScopeTable) -> (r:
    Result<Vec<Instruction>, Error>)
    ensures
        final(table)@ == old(table)@,
        lowered(r) == lower_elems(elems@, elems@.len() as int, old(table)@, drop_at@),
    decreases elems,
{
    let mut code: Vec<Instruction> = Vec::new();
    let mut i: usize = 0;
    while i < elems.len()
        invariant
            i <= elems@.len(),
            table@ == old(table)@,
            lower_elems(elems@.subrange(0, i as int), elems@.len() as int, old(table)@, drop_at@)
                == Ok::<Seq<Instruction>, Fault>(code@),
        decreases elems@.len() - i,
    {
        assert(elems@.subrange(0, i + 1).drop_last() =~= elems@.subrange(0, i as int));
        assert(elems@.subrange(0, i + 1).last() == elems@[i as int]);
        let lowered_elem = match &elems[i] {
            SequenceStmt::Stmt(s) => {
                let c = compile_stmt(s, drop_at, table);
                if i + 1 < elems.len() {
                    accumulate_bytecode(c, Ok(single(Instruction::POP)))
                } else {
                    accumulate_bytecode(c, Ok(Vec::new()))
                }
            },
            SequenceStmt::Block(b) => compile_block(b, drop_at, table),
        };
        match lowered_elem {
            Ok(mut more) => {
                code.append(&mut more);
            },
            Err(e) => {
                proof {
                    lemma_elems_prefix_fault(
                        elems@,
                        i + 1,
                        elems@.len() as int,
                        old(table)@,
                        drop_at@,
                    );
                }
                return Err(e);
            },
        }
        i = i + 1;
    }
    assert(elems@.subrange(0, i as int) =~= elems@);
    Ok(code)
}

/// Lowers a block as a closure of no arguments that is called at once: its
/// local names are bound for the body and released after it.
pub fn compile_block(block: &Block, drop_at: &ExpiredLifetimes, table: &mut ScopeTable) -> (r: Result<
    Vec<Instruction>,
    Error,
>)
    ensures
        final(table)@ == old(table)@,
        lowered(r) == lower_block(*block, old(table)@, drop_at@),
    decreases block,
{
    let locals = match scan_declaration_names_from_block(block) {
        Ok(l) => l,
        Err(e) => {
            return Err(e);
        },
    };
    let num_of_locals = locals.len();
    table.push_names(&locals);
    let body = compile_elems(&block.statements, drop_at, table);
    table.pop_n(num_of_locals);
    assert(table@ =~= old(table)@);
    let mut body = match body {
        Ok(c) => c,
        Err(e) => {
            return Err(e);
        },
    };
    let mut code = pair(Instruction::LDF(0, BLOCK_FRAME, num_of_locals), Instruction::CALL(0));
    let ghost body_view = body@;
    if body.len() == 0 {
        code.push(Instruction::LDCU);
        code.push(Instruction::RTN);
    } else {
        let ends_in_return = match body[body.len() - 1] {
            Instruction::RTN => true,
            _ => false,
        };
        code.append(&mut body);
        if !ends_in_return {
            code.push(Instruction::RTN);
        }
    }
    assert(code@ =~= seq![Instruction::LDF(0, BLOCK_FRAME, num_of_locals), Instruction::CALL(0)]
        + close_body(body_view));
    Ok(code)
}

/// Lowers one top-level statement, which must declare a function; the value
/// the declaration leaves is popped.
fn compile_top_level(stmt: &Stmt, drop_at: &ExpiredLifetimes, table: &mut ScopeTable) -> (r: Result<
    Vec<Instruction>,
    Error,
>)
    ensures
        final(table)@ == old(table)@,
        lowered(r) == lower_top_level(*stmt, old(table)@, drop_at@),
{
    match stmt {
        Stmt::FuncDeclaration { .. } => {
            let code = compile_stmt(stmt, drop_at, table);
            accumulate_bytecode(code, Ok(single(Instruction::POP)))
        },
        _ => Err(
            Error::new(
                ErrorKind::UnsupportedConstruct,
                String::from_str("Only function declarations are allowed at the top-level"),
                None,
            ),
        ),
    }
}

/// Lowers the top-level statements in order and concatenates them; the
/// first fault wins.
fn compile_top_levels(ast: &Vec<Stmt>, drop_at: &ExpiredLifetimes, table: &mut ScopeTable) -> (r:
    Result<Vec<Instruction>, Error>)
    ensures
        final(table)@ == old(table)@,
        lowered(r) == lower_top_levels(ast@, old(table)@, drop_at@),
{
    let mut body: Vec<Instruction> = Vec::new();
    let mut j: usize = 0;
    while j < ast.len()
        invariant
            j <= ast@.len(),
            table@ == old(table)@,
            lower_top_levels(ast@.subrange(0, j as int), old(table)@, drop_at@) == Ok::<
                Seq<Instruction>,
                Fault,
            >(body@),
        decreases ast@.len() - j,
    {
        assert(ast@.subrange(0, j + 1).drop_last() =~= ast@.subrange(0, j as int));
        match compile_top_level(&ast[j], drop_at, table) {
            Ok(mut more) => {
                body.append(&mut more);
            },
            Err(e) => {
                proof {
                    lemma_top_levels_prefix_fault(ast@, j + 1, old(table)@, drop_at@);
                }
                return Err(e);
            },
        }
        j = j + 1;
    }
    assert(ast@.subrange(0, j as int) =~= ast@);
    Ok(body)
}

/// Binds the top-level names in order, and finds the slot of the last one
/// named `main`.
fn register_top_level(names: &Vec<String>) -> (r: (ScopeTable, Option<usize>))
    ensures
        r.0@ == names_of(names@),
        r.1 matches Some(m) ==> main_slot(names_of(names@)) == Some(m as int),
        r.1 is None ==> main_slot(names_of(names@)) is None,
{
    let main_name = String::from_str("main");
    let mut index_table = ScopeTable::new();
    let mut main_function_index: Option<usize> = None;
    let mut i: usize = 0;
    assert(names_of(names@.subrange(0, 0)) =~= Seq::<Seq<char>>::empty());
    while i < names.len()
        invariant
            i <= names@.len(),
            main_name@ == "main"@,
            index_table@ == names_of(names@.subrange(0, i as int)),
            main_function_index matches Some(m) ==> main_slot(index_table@) == Some(m as int),
            main_function_index is None ==> main_slot(index_table@) is None,
        decreases names@.len() - i,
    {
        let ghost before = index_table@;
        if names[i] == main_name {
            main_function_index = Some(i);
        }
        index_table.push(names[i].clone());
        assert(index_table@.drop_last() =~= before);
        assert(names_of(names@.subrange(0, i + 1)) =~= names_of(names@.subrange(0, i as int)).push(
            names@[i as int]@,
        ));
        i = i + 1;
    }
    assert(names@.subrange(0, i as int) =~= names@);
    (index_table, main_function_index)
}

/// Compiles a program. Each top-level name takes as its slot its place in
/// declaration order. A program that declares no `main` compiles to start
/// and done alone; otherwise the declarations are lowered in order, between
/// a start and a call of `main` followed by done.
pub fn compile(ast: &Vec<Stmt>, drop_at: &ExpiredLifetimes) -> (r: Result<Vec<Instruction>, Error>)
    ensures
        lowered(r) == lower_program(ast@, drop_at@),
{
    let names = match scan_declaration_names(ast) {
        Ok(n) => n,
        Err(e) => {
            return Err(e);
        },
    };
    let (mut index_table, main_function) = register_top_level(&names);
    let main_function_index = match main_function {
        None => {
            return Ok(pair(Instruction::START, Instruction::DONE));
        },
        Some(m) => m,
    };
    let body = compile_top_levels(ast, drop_at, &mut index_table);
    let code = accumulate_bytecode(Ok(single(Instruction::START)), body);
    let mut end = pair(Instruction::LD(main_function_index), Instruction::CALL(0));
    end.push(Instruction::DONE);
    assert(end@ =~= seq![
        Instruction::LD(main_function_index),
        Instruction::CALL(0),
        Instruction::DONE,
    ]);
    accumulate_bytecode(code, Ok(end))
}

/// Lowering of a syntax node to instructions, with the scope table threaded
/// through and given back as it was.
pub trait Compile {
    /// What lowering the node in scope `t` yields.
    spec fn lowering(&self, t: Seq<Seq<char>>, d: Map<usize, Vec<String>>) -> Lowered;

    fn compile(&self, drop_at: &ExpiredLifetimes, index_table: &mut ScopeTable) -> (r: Result<
        Vec<Instruction>,
        Error,
    >)
        ensures
            final(index_table)@ == old(index_table)@,
            lowered(r) == self.lowering(old(index_table)@, drop_at@),
    ;

    /// The drops due at `position`.
    fn compile_drops(
        &self,
        position: &SourceLocation,
        drop_at: &ExpiredLifetimes,
        index_table: &ScopeTable,
    ) -> (r: Result<Vec<Instruction>, Error>)
        ensures
            lowered(r) == drops(*position, index_table@, drop_at@),
    {
        compile_drops(position, drop_at, index_table)
    }
}

impl Compile for Stmt {
    open spec fn lowering(&self, t: Seq<Seq<char>>, d: Map<usize, Vec<String>>) -> Lowered {
        lower_stmt(*self, t, d)
    }

    fn compile(&self, drop_at: &ExpiredLifetimes, index_table: &mut ScopeTable) -> (r: Result<
        Vec<Instruction>,
        Error,
    >) {
        compile_stmt(self, drop_at, index_table)
    }
}

impl Compile for Expr {
    open spec fn lowering(&self, t: Seq<Seq<char>>, d: Map<usize, Vec<String>>) -> Lowered {
        lower_expr(*self, t, d)
    }

    fn compile(&self, drop_at: &ExpiredLifetimes, index_table: &mut ScopeTable) -> (r: Result<
        Vec<Instruction>,
        Error,
    >) {
        compile_expr(self, drop_at, index_table)
    }
}

impl Compile for SequenceStmt {
    open spec fn lowering(&self, t: Seq<Seq<char>>, d: Map<usize, Vec<String>>) -> Lowered {
        match *self {
            SequenceStmt::Stmt(s) => lower_stmt(s, t, d),
            SequenceStmt::Block(b) => lower_block(b, t, d),
        }
    }

    fn compile(&self, drop_at: &ExpiredLifetimes, index_table: &mut ScopeTable) -> (r: Result<
        Vec<Instruction>,
        Error,
    >) {
        match self {
            SequenceStmt::Stmt(s) => compile_stmt(s, drop_at, index_table),
            SequenceStmt::Block(b) => compile_block(b, drop_at, index_table),
        }
    }
}

impl Compile for Block {
    open spec fn lowering(&self, t: Seq<Seq<char>>, d: Map<usize, Vec<String>>) -> Lowered {
        lower_block(*self, t, d)
    }

    fn compile(&self, drop_at: &ExpiredLifetimes, index_table: &mut ScopeTable) -> (r: Result<
        Vec<Instruction>,
        Error,
    >) {
        compile_block(self, drop_at, index_table)
    }
}

impl Compile for PrimitiveOperation {
    open spec fn lowering(&self, t: Seq<Seq<char>>, d: Map<usize, Vec<String>>) -> Lowered {
        lower_op(*self, t, d)
    }

    fn compile(&self, drop_at: &ExpiredLifetimes, index_table: &mut ScopeTable) -> (r: Result<
        Vec<Instruction>,
        Error,
    >) {
        compile_op(self, drop_at, index_table)
    }
}

impl Compile for Literal {
    open spec fn lowering(&self, t: Seq<Seq<char>>, d: Map<usize, Vec<String>>) -> Lowered {
        lower_literal(*self)
    }

    fn compile(&self, drop_at: &ExpiredLifetimes, index_table: &mut ScopeTable) -> (r: Result<
        Vec<Instruction>,
        Error,
    >) {
        compile_literal(self)
    }
}

} // verus!
