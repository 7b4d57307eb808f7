use std::collections::HashMap;

use oxido::ast::{
    BinaryOperator, Block, DataType, Expr, Literal, PrimitiveOperation, SequenceStmt,
    SourceLocation, Stmt, UnaryOperator, VariadicOperator,
};
use oxido::compiler::{compile, Compile, ExpiredLifetimes};
use oxido::error::ErrorKind;
use oxido::instructions::Instruction::{
    self, AND, ASSIGN, CALL, DIV, DONE, DROP, EQUAL, GEQ, GOTOR, GREATER, LD, LDCB, LDCI, LDCU, LDF,
    LEQ, LESS, MINUS, NOT, OR, PLUS, POP, RTN, START, TIMES, UMINUS,
};
use oxido::scope::ScopeTable;

fn at(line: usize) -> SourceLocation {
    SourceLocation { line, col: 0 }
}

fn ident(name: &str, line: usize) -> Expr {
    Expr::IdentifierExpr(String::from(name), at(line))
}

fn num(v: i64, line: usize) -> Expr {
    Expr::LiteralExpr(Literal::IntLiteral(v), at(line))
}

fn binary(operator: BinaryOperator, a: Expr, b: Expr, line: usize) -> Expr {
    Expr::PrimitiveOperationExpr(
        Box::new(PrimitiveOperation::BinaryOperation {
            operator,
            first_operand: a,
            second_operand: b,
        }),
        at(line),
    )
}

fn let_stmt(name: &str, value: Option<Expr>, line: usize) -> Stmt {
    Stmt::LetStmt {
        name: ident(name, line),
        is_mutable: false,
        annotation: None,
        value,
        position: at(line),
    }
}

fn func(name: &str, params: &[&str], body: Vec<SequenceStmt>, line: usize) -> Stmt {
    Stmt::FuncDeclaration {
        name: ident(name, line),
        lifetime_params: vec![],
        parameters: params.iter().map(|p| (ident(p, line), DataType::Int64)).collect(),
        return_type: None,
        body: Block { statements: body },
        position: at(line),
    }
}

fn call(name: &str, args: Vec<Expr>, line: usize) -> Expr {
    Expr::ApplicationExpr {
        callee: Box::new(ident(name, line)),
        arguments: args,
        position: at(line),
    }
}

fn no_drops() -> ExpiredLifetimes {
    HashMap::new()
}

fn table_of(names: &[&str]) -> ScopeTable {
    let mut t = ScopeTable::new();
    for n in names {
        t.push(String::from(*n));
    }
    t
}

#[test]
fn let_of_sum_lowers_to_constants_plus_store_unit() {
    let body = vec![SequenceStmt::Stmt(let_stmt(
        "x",
        Some(binary(BinaryOperator::Plus, num(1, 2), num(2, 2), 2)),
        2,
    ))];
    let ast = vec![func("main", &[], body, 1)];
    let code = compile(&ast, &no_drops()).unwrap();
    assert_eq!(
        code,
        vec![
            START,
            LDF(0, 3, 0),
            ASSIGN(0),
            GOTOR(9),
            LDF(0, 2, 1),
            CALL(0),
            LDCI(1),
            LDCI(2),
            PLUS,
            ASSIGN(1),
            LDCU,
            RTN,
            LDCU,
            POP,
            LD(0),
            CALL(0),
            DONE,
        ]
    );
}

#[test]
fn let_statement_alone_in_scope() {
    let stmt = let_stmt("x", Some(binary(BinaryOperator::Plus, num(1, 2), num(2, 2), 2)), 2);
    let mut table = table_of(&["main", "x"]);
    let code = stmt.compile(&no_drops(), &mut table).unwrap();
    assert_eq!(code, vec![LDCI(1), LDCI(2), PLUS, ASSIGN(1), LDCU]);
}

#[test]
fn program_without_main_is_start_done() {
    let ast = vec![
        func("helper", &["a"], vec![SequenceStmt::Stmt(Stmt::ExprStmt(ident("a", 2)))], 1),
        func("other", &[], vec![], 3),
    ];
    assert_eq!(compile(&ast, &no_drops()).unwrap(), vec![START, DONE]);
}

#[test]
fn empty_program_is_start_done() {
    assert_eq!(compile(&vec![], &no_drops()).unwrap(), vec![START, DONE]);
}

#[test]
fn empty_main_program() {
    let ast = vec![func("main", &[], vec![], 1)];
    assert_eq!(
        compile(&ast, &no_drops()).unwrap(),
        vec![
            START,
            LDF(0, 3, 0),
            ASSIGN(0),
            GOTOR(5),
            LDF(0, 2, 0),
            CALL(0),
            LDCU,
            RTN,
            LDCU,
            POP,
            LD(0),
            CALL(0),
            DONE,
        ]
    );
}

#[test]
fn main_slot_is_its_declaration_index() {
    let ast = vec![func("helper", &[], vec![], 1), func("main", &[], vec![], 2)];
    let code = compile(&ast, &no_drops()).unwrap();
    let n = code.len();
    assert_eq!(code[n - 3..].to_vec(), vec![LD(1), CALL(0), DONE]);
}

#[test]
fn self_recursive_function_resolves_its_own_name() {
    let body = vec![SequenceStmt::Stmt(Stmt::ExprStmt(call("f", vec![ident("n", 2)], 2)))];
    let ast = vec![func("f", &["n"], body, 1), func("main", &[], vec![], 3)];
    let code = compile(&ast, &no_drops()).unwrap();
    // f takes slot 0, main slot 1, the parameter n slot 2.
    assert_eq!(
        code[..12].to_vec(),
        vec![
            START,
            LDF(0, 3, 1),
            ASSIGN(0),
            GOTOR(9),
            LDF(0, 2, 0),
            CALL(0),
            LD(0),
            LD(2),
            CALL(1),
            POP,
            LDCU,
            RTN,
        ]
    );
}

#[test]
fn empty_block_pushes_unit_and_returns() {
    let block = Block { statements: vec![] };
    let mut table = ScopeTable::new();
    let code = block.compile(&no_drops(), &mut table).unwrap();
    assert_eq!(code, vec![LDF(0, 2, 0), CALL(0), LDCU, RTN]);
}

#[test]
fn block_ending_in_return_gets_no_second_return() {
    let ret = Stmt::ExprStmt(Expr::ReturnExpr(Box::new(num(5, 1)), at(1)));
    let block = Block { statements: vec![SequenceStmt::Stmt(ret)] };
    let mut table = ScopeTable::new();
    let code = block.compile(&no_drops(), &mut table).unwrap();
    assert_eq!(code, vec![LDF(0, 2, 0), CALL(0), LDCI(5), RTN]);
}

#[test]
fn block_discards_all_but_last_statement_value() {
    let block = Block {
        statements: vec![
            SequenceStmt::Stmt(let_stmt("a", Some(num(1, 1)), 1)),
            SequenceStmt::Block(Block { statements: vec![] }),
            SequenceStmt::Stmt(Stmt::ExprStmt(ident("a", 2))),
        ],
    };
    let mut table = table_of(&["main"]);
    let code = block.compile(&no_drops(), &mut table).unwrap();
    assert_eq!(
        code,
        vec![
            LDF(0, 2, 1),
            CALL(0),
            LDCI(1),
            ASSIGN(1),
            LDCU,
            POP,
            LDF(0, 2, 0),
            CALL(0),
            LDCU,
            RTN,
            LD(1),
            POP,
            LDCU,
            RTN,
        ]
    );
}

#[test]
fn block_and_function_leave_table_size_unchanged() {
    let mut table = table_of(&["main", "g"]);
    let block = Block {
        statements: vec![
            SequenceStmt::Stmt(let_stmt("a", Some(num(1, 1)), 1)),
            SequenceStmt::Stmt(let_stmt("b", Some(num(2, 1)), 1)),
        ],
    };
    block.compile(&no_drops(), &mut table).unwrap();
    assert_eq!(table.len(), 2);
    let f = func("g", &["p", "q"], vec![SequenceStmt::Stmt(Stmt::ExprStmt(ident("q", 2)))], 1);
    f.compile(&no_drops(), &mut table).unwrap();
    assert_eq!(table.len(), 2);
    let bad = func("g", &["p"], vec![SequenceStmt::Stmt(Stmt::ExprStmt(ident("zz", 2)))], 1);
    assert!(bad.compile(&no_drops(), &mut table).is_err());
    assert_eq!(table.len(), 2);
}

#[test]
fn fail_fast_reports_the_failing_statement_error() {
    let good = let_stmt("a", Some(num(1, 1)), 1);
    let bad = Stmt::ExprStmt(ident("missing", 2));
    let after = Stmt::ExprStmt(ident("also_missing", 3));
    let block = Block {
        statements: vec![
            SequenceStmt::Stmt(good),
            SequenceStmt::Stmt(bad),
            SequenceStmt::Stmt(after),
        ],
    };
    let mut table = ScopeTable::new();
    let e = block.compile(&no_drops(), &mut table).unwrap_err();
    let mut alone_table = table_of(&["a"]);
    let alone = Stmt::ExprStmt(ident("missing", 2))
        .compile(&no_drops(), &mut alone_table)
        .unwrap_err();
    assert_eq!(e.kind, ErrorKind::UnresolvedName);
    assert_eq!(e.kind, alone.kind);
    assert_eq!(e.message, alone.message);
    assert_eq!(e.position, alone.position);
    assert_eq!(e.position, Some(at(2)));
}

#[test]
fn not_equal_is_equal_then_not() {
    let e = binary(BinaryOperator::NotEqual, num(1, 1), num(2, 1), 1);
    let mut table = ScopeTable::new();
    let code = e.compile(&no_drops(), &mut table).unwrap();
    assert_eq!(code, vec![LDCI(1), LDCI(2), EQUAL, NOT]);
}

#[test]
fn unary_minus_and_not() {
    let neg = PrimitiveOperation::UnaryOperation { operator: UnaryOperator::UnaryMinus, operand: num(3, 1) };
    let not = PrimitiveOperation::UnaryOperation {
        operator: UnaryOperator::Not,
        operand: Expr::LiteralExpr(Literal::BoolLiteral(true), at(1)),
    };
    let mut table = ScopeTable::new();
    assert_eq!(neg.compile(&no_drops(), &mut table).unwrap(), vec![LDCI(3), UMINUS]);
    assert_eq!(not.compile(&no_drops(), &mut table).unwrap(), vec![LDCB(true), NOT]);
}

#[test]
fn comparison_and_logic_operators() {
    let cases = [
        (BinaryOperator::Minus, MINUS),
        (BinaryOperator::Times, TIMES),
        (BinaryOperator::Divide, DIV),
        (BinaryOperator::Equal, EQUAL),
        (BinaryOperator::Greater, GREATER),
        (BinaryOperator::GreaterOrEqual, GEQ),
        (BinaryOperator::Less, LESS),
        (BinaryOperator::LessOrEqual, LEQ),
        (BinaryOperator::And, AND),
        (BinaryOperator::Or, OR),
    ];
    let mut table = ScopeTable::new();
    for (op, instr) in cases {
        let e = binary(op, num(1, 1), num(2, 1), 1);
        assert_eq!(e.compile(&no_drops(), &mut table).unwrap(), vec![LDCI(1), LDCI(2), instr]);
    }
}

#[test]
fn assignment_stores_to_resolved_slot() {
    let e = Expr::AssignmentExpr {
        assignee: Box::new(ident("y", 1)),
        value: Box::new(num(7, 1)),
        position: at(1),
    };
    let mut table = table_of(&["x", "y"]);
    assert_eq!(e.compile(&no_drops(), &mut table).unwrap(), vec![LDCI(7), ASSIGN(1)]);
}

#[test]
fn unit_literal_and_return() {
    let e = Expr::ReturnExpr(Box::new(Expr::LiteralExpr(Literal::UnitLiteral, at(1))), at(1));
    let mut table = ScopeTable::new();
    assert_eq!(e.compile(&no_drops(), &mut table).unwrap(), vec![LDCU, RTN]);
}

#[test]
fn expired_names_are_dropped_at_their_line() {
    let stmt = let_stmt("x", Some(num(1, 3)), 2);
    let mut drop_at: ExpiredLifetimes = HashMap::new();
    drop_at.insert(2, vec![String::from("x")]);
    let mut table = table_of(&["main", "x"]);
    let code = stmt.compile(&drop_at, &mut table).unwrap();
    assert_eq!(code, vec![LDCI(1), ASSIGN(1), DROP(1), LDCU]);
}

#[test]
fn compile_drops_lists_each_expired_slot() {
    let mut drop_at: ExpiredLifetimes = HashMap::new();
    drop_at.insert(5, vec![String::from("b"), String::from("a")]);
    let table = table_of(&["a", "b"]);
    let lit = Literal::UnitLiteral;
    assert_eq!(lit.compile_drops(&at(5), &drop_at, &table).unwrap(), vec![DROP(1), DROP(0)]);
    assert_eq!(lit.compile_drops(&at(6), &drop_at, &table).unwrap(), Vec::<Instruction>::new());
}

#[test]
fn expired_unknown_name_is_unresolved() {
    let mut drop_at: ExpiredLifetimes = HashMap::new();
    drop_at.insert(5, vec![String::from("ghost")]);
    let mut table = ScopeTable::new();
    let e = num(1, 5).compile(&drop_at, &mut table).unwrap_err();
    assert_eq!(e.kind, ErrorKind::UnresolvedName);
    assert_eq!(e.position, Some(at(5)));
}

#[test]
fn unresolved_identifier_fails() {
    let mut table = ScopeTable::new();
    let e = ident("nope", 9).compile(&no_drops(), &mut table).unwrap_err();
    assert_eq!(e.kind, ErrorKind::UnresolvedName);
    assert_eq!(e.message, "The name \"nope\" is not found");
    assert_eq!(e.position, Some(at(9)));
}

#[test]
fn string_literal_is_unsupported() {
    let mut table = ScopeTable::new();
    let e = Expr::LiteralExpr(Literal::StringLiteral(String::from("hi")), at(1))
        .compile(&no_drops(), &mut table)
        .unwrap_err();
    assert_eq!(e.kind, ErrorKind::UnsupportedConstruct);
}

#[test]
fn borrow_operator_is_unsupported() {
    let op = PrimitiveOperation::UnaryOperation {
        operator: UnaryOperator::ImmutableBorrow,
        operand: num(1, 1),
    };
    let mut table = ScopeTable::new();
    let e = op.compile(&no_drops(), &mut table).unwrap_err();
    assert_eq!(e.kind, ErrorKind::UnsupportedConstruct);
}

#[test]
fn println_is_unsupported() {
    let op = PrimitiveOperation::VariadicOperation {
        operator: VariadicOperator::Println,
        operands: vec![num(1, 1)],
    };
    let mut table = ScopeTable::new();
    let e = op.compile(&no_drops(), &mut table).unwrap_err();
    assert_eq!(e.kind, ErrorKind::UnsupportedConstruct);
}

#[test]
fn let_without_initializer_is_unsupported() {
    let stmt = let_stmt("x", None, 4);
    let mut table = table_of(&["x"]);
    let e = stmt.compile(&no_drops(), &mut table).unwrap_err();
    assert_eq!(e.kind, ErrorKind::UnsupportedConstruct);
    assert_eq!(e.message, "Unbounded declaration \"x\" found and is presently unsupported");
    assert_eq!(e.position, Some(at(4)));
}

#[test]
fn top_level_non_function_is_rejected() {
    let ast = vec![func("main", &[], vec![], 1), let_stmt("x", Some(num(1, 2)), 2)];
    let e = compile(&ast, &no_drops()).unwrap_err();
    assert_eq!(e.kind, ErrorKind::UnsupportedConstruct);
    assert_eq!(e.message, "Only function declarations are allowed at the top-level");
}

#[test]
fn non_identifier_callee_is_unsupported() {
    let e = Expr::ApplicationExpr {
        callee: Box::new(num(1, 1)),
        arguments: vec![],
        position: at(1),
    };
    let mut table = ScopeTable::new();
    let err = e.compile(&no_drops(), &mut table).unwrap_err();
    assert_eq!(err.kind, ErrorKind::UnsupportedConstruct);
}

#[test]
fn declaration_with_non_identifier_name_is_malformed() {
    let stmt = Stmt::LetStmt {
        name: num(1, 1),
        is_mutable: false,
        annotation: None,
        value: Some(num(2, 1)),
        position: at(1),
    };
    let ast = vec![func("main", &[], vec![SequenceStmt::Stmt(stmt)], 1)];
    let e = compile(&ast, &no_drops()).unwrap_err();
    assert_eq!(e.kind, ErrorKind::MalformedDeclaration);
    assert_eq!(e.position, None);
}

#[test]
fn call_with_arguments_in_order() {
    let e = call("f", vec![num(1, 1), num(2, 1)], 1);
    let mut table = table_of(&["f"]);
    assert_eq!(
        e.compile(&no_drops(), &mut table).unwrap(),
        vec![LD(0), LDCI(1), LDCI(2), CALL(2)]
    );
}

#[test]
fn sequence_element_block_lowers_as_block() {
    let elem = SequenceStmt::Block(Block { statements: vec![] });
    let mut table = ScopeTable::new();
    assert_eq!(
        elem.compile(&no_drops(), &mut table).unwrap(),
        vec![LDF(0, 2, 0), CALL(0), LDCU, RTN]
    );
}
