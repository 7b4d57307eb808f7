use vstd::prelude::*;
use crate::ast::{Block, DataType, Expr, SequenceStmt, SourceLocation, Stmt};
use crate::error::Fault;
use crate::instructions::{Instruction, BLOCK_FRAME};
use crate::lowering::{
    drops, lemma_elems_prefix_fault, lower_block, lower_elems, lower_program, lower_stmt, main_slot,
    param_names, scan_block_names, scan_names,
};
use crate::scope::resolve;

verus! {

/// A name resolves to nothing exactly when no entry binds it.
pub proof fn lemma_resolve_none(t: Seq<Seq<char>>, x: Seq<char>)
    ensures
        resolve(t, x) is None <==> forall|i: int| 0 <= i < t.len() ==> t[i] != x,
    decreases t.len(),
{
    if t.len() > 0 {
        lemma_resolve_none(t.drop_last(), x);
        assert forall|i: int| 0 <= i < t.len() - 1 implies t.drop_last()[i] == t[i] by {}
    }
}

/// Shadowing: after two bindings of one name, the name resolves to the later
/// slot; once that binding is removed, it resolves to the earlier one again.
pub proof fn law_shadowing(t: Seq<Seq<char>>, x: Seq<char>)
    ensures
        resolve(t.push(x).push(x), x) == Some(t.len() as int + 1),
        resolve(t.push(x).push(x).subrange(0, t.len() as int + 1), x) == Some(t.len() as int),
{
    assert(t.push(x).push(x).drop_last() =~= t.push(x));
    assert(t.push(x).push(x).subrange(0, t.len() as int + 1) =~= t.push(x));
}

/// Slot monotonicity: binding names one after another, with no removal in
/// between, gives each the size of the table at that moment as its slot, so
/// the slots strictly increase; each slot then holds its name.
pub proof fn law_slot_monotonicity(t: Seq<Seq<char>>, names: Seq<Seq<char>>)
    ensures
        forall|i: int|
            0 <= i <= names.len() ==> #[trigger] (t + names.subrange(0, i)).len() == t.len() + i,
        forall|i: int, j: int|
            0 <= i < j <= names.len() ==> #[trigger] (t + names.subrange(0, i)).len() < #[trigger] (t
                + names.subrange(0, j)).len(),
        forall|i: int| 0 <= i < names.len() ==> #[trigger] (t + names)[t.len() + i] == names[i],
{
}

/// Fail-fast: when the statements before a bare statement lower without
/// fault and that statement alone lowers to a fault, the whole sequence
/// lowers to that same fault, and so to no instructions at all.
pub proof fn law_fail_fast(
    elems: Seq<SequenceStmt>,
    i: int,
    total: int,
    t: Seq<Seq<char>>,
    d: Map<usize, Vec<String>>,
    f: Fault,
)
    requires
        0 <= i < elems.len(),
        lower_elems(elems.subrange(0, i), total, t, d) is Ok,
        elems[i] matches SequenceStmt::Stmt(s) && lower_stmt(s, t, d) == Err::<Seq<Instruction>, Fault>(
            f,
        ),
    ensures
        lower_elems(elems, total, t, d) == Err::<Seq<Instruction>, Fault>(f),
{
    assert(elems.subrange(0, i + 1).drop_last() =~= elems.subrange(0, i));
    lemma_elems_prefix_fault(elems, i + 1, total, t, d);
}

/// Entry-point short-circuit: a program whose declarations are well formed
/// and none of which is named `main` compiles to start and done alone.
pub proof fn law_entry_point_short_circuit(ast: Seq<Stmt>, d: Map<usize, Vec<String>>)
    requires
        scan_names(ast) matches Ok(names) && forall|i: int| 0 <= i < names.len() ==> names[i] != "main"@,
    ensures
        lower_program(ast, d) == Ok::<Seq<Instruction>, Fault>(
            seq![Instruction::START, Instruction::DONE],
        ),
{
    let names = scan_names(ast)->Ok_0;
    lemma_resolve_none(names, "main"@);
    assert(main_slot(names) is None);
}

/// Self-reference: a name bound in a scope, as each declaration is before any
/// body is lowered, resolves in every scope nested inside it, so a function's
/// body can name the function itself.
pub proof fn law_self_reference(t: Seq<Seq<char>>, inner: Seq<Seq<char>>, x: Seq<char>)
    requires
        t.contains(x),
    ensures
        resolve(t + inner, x) is Some,
{
    let i = choose|i: int| 0 <= i < t.len() && t[i] == x;
    assert((t + inner)[i] == x);
    lemma_resolve_none(t + inner, x);
}

/// Self-reference: a function declaration whose name is bound in its scope,
/// as the top-level pass and block lowering bind every declared name before
/// any body is lowered, lowers without fault whenever its parameters, its
/// body and its drops do: looking up its own name cannot fail.
pub proof fn law_declaration_resolves_itself(
    n: String,
    name_position: SourceLocation,
    lifetime_params: Vec<String>,
    parameters: Vec<(Expr, DataType)>,
    return_type: Option<DataType>,
    body: Block,
    position: SourceLocation,
    t: Seq<Seq<char>>,
    d: Map<usize, Vec<String>>,
)
    requires
        t.contains(n@),
        param_names(parameters@) is Ok,
        lower_block(body, t + param_names(parameters@)->Ok_0, d) is Ok,
        drops(position, t, d) is Ok,
    ensures
        lower_stmt(
            (Stmt::FuncDeclaration {
                name: Expr::IdentifierExpr(n, name_position),
                lifetime_params,
                parameters,
                return_type,
                body,
                position,
            }),
            t,
            d,
        ) is Ok,
{
    law_self_reference(t, param_names(parameters@)->Ok_0, n@);
}

/// Return placement: an empty block lowers to a call of a closure that
/// pushes the unit value and returns.
pub proof fn law_empty_block_returns_unit(b: Block, t: Seq<Seq<char>>, d: Map<usize, Vec<String>>)
    requires
        b.statements@.len() == 0,
    ensures
        lower_block(b, t, d) == Ok::<Seq<Instruction>, Fault>(
            seq![
                Instruction::LDF(0, BLOCK_FRAME, 0),
                Instruction::CALL(0),
                Instruction::LDCU,
                Instruction::RTN,
            ],
        ),
{
    assert(scan_block_names(b.statements@) == Ok::<Seq<Seq<char>>, Fault>(Seq::empty()));
    assert(seq![Instruction::LDF(0, BLOCK_FRAME, 0), Instruction::CALL(0)] + seq![
        Instruction::LDCU,
        Instruction::RTN,
    ] =~= seq![
        Instruction::LDF(0, BLOCK_FRAME, 0),
        Instruction::CALL(0),
        Instruction::LDCU,
        Instruction::RTN,
    ]);
}

/// Return placement: a block that lowers ends in a return.
pub proof fn law_block_ends_in_return(b: Block, t: Seq<Seq<char>>, d: Map<usize, Vec<String>>)
    ensures
        lower_block(b, t, d) matches Ok(code) ==> code.len() > 0 && code.last() == Instruction::RTN,
{
}

/// Return placement: a block whose body already ends in a return gets no
/// second one.
pub proof fn law_no_duplicate_return(
    b: Block,
    t: Seq<Seq<char>>,
    d: Map<usize, Vec<String>>,
    locals: Seq<Seq<char>>,
    body: Seq<Instruction>,
)
    requires
        scan_block_names(b.statements@) == Ok::<Seq<Seq<char>>, Fault>(locals),
        lower_elems(b.statements@, b.statements@.len() as int, t + locals, d) == Ok::<
            Seq<Instruction>,
            Fault,
        >(body),
        body.len() > 0,
        body.last() == Instruction::RTN,
    ensures
        lower_block(b, t, d) == Ok::<Seq<Instruction>, Fault>(
            seq![Instruction::LDF(0, BLOCK_FRAME, locals.len() as usize), Instruction::CALL(0)]
                + body,
        ),
{
}

} // verus!
