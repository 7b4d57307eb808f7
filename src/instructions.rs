use vstd::prelude::*;

verus! {

/// Frame kind of a closure made for a function body.
pub const FUNCTION_FRAME: usize = 3;

/// Frame kind of a closure made for a lexical block.
pub const BLOCK_FRAME: usize = 2;

/// One operation of the stack machine.
#[allow(non_camel_case_types)]
#[derive(Clone, Copy, Debug, PartialEq, Eq, Structural)]
pub enum Instruction {
    /// Program start.
    START,
    /// Program end.
    DONE,
    /// Push the value held in a slot.
    LD(usize),
    /// Store the top of the stack into a slot.
    ASSIGN(usize),
    /// Call the closure below the given number of arguments.
    CALL(usize),
    /// Make a closure: capture distance, frame kind, arity or local count.
    LDF(usize, usize, usize),
    /// Jump forward by the given offset.
    GOTOR(usize),
    /// Push an integer constant.
    LDCI(i64),
    /// Push a boolean constant.
    LDCB(bool),
    /// Push the unit value.
    LDCU,
    /// Release the value held in a slot whose owner has expired.
    DROP(usize),
    POP,
    RTN,
    NOT,
    UMINUS,
    PLUS,
    MINUS,
    TIMES,
    DIV,
    EQUAL,
    GREATER,
    GEQ,
    LESS,
    LEQ,
    AND,
    OR,
}

} // verus!
