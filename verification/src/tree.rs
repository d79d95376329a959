//! The compiled form of a script: instructions, the expression nodes that
//! they hold, and the accessors that name a variable.

use vstd::prelude::*;
use crate::error::Error;
use crate::operator::BinaryOperator;
use crate::operator::UnaryOperator;
use crate::value::Value;
use crate::variable::InstanceVariable;

verus! {

/// A compiled instruction; roughly a line of code.
#[derive(Debug)]
#[allow(inconsistent_fields)]
pub enum Instruction {
    SetField { accessor: FieldAccessor, value: Node },
    SetVariable { accessor: VariableAccessor, value: Node },
    EvalExpression { node: Node },
    IfElse { cond: Node, if_body: Vec<Instruction>, else_body: Vec<Instruction> },
    LoopUntil { cond: Node, body: Vec<Instruction> },
    LoopWhile { cond: Node, body: Vec<Instruction> },
    LoopFor { cond: Node, body: Vec<Instruction>, step: Vec<Instruction> },
    Return { return_type: ReturnType },
    Repeat { count: Node, body: Vec<Instruction> },
    SetReturnValue { value: Node },
    /// Each case is a value and the place in `body` where its code starts.
    Switch { input: Node, cases: Vec<(Node, usize)>, default: Option<usize>, body: Vec<Instruction> },
    With { target: Node, body: Vec<Instruction> },
    GlobalVar { fields: Vec<usize> },
    /// An error found at compile time, raised when execution gets here.
    RuntimeError { error: Error },
}

/// One value in an expression.
#[derive(Debug)]
#[allow(inconsistent_fields)]
pub enum Node {
    Literal { value: Value },
    Constant { constant_id: usize },
    /// A call of a built-in function, by its number.
    Function { args: Vec<Node>, function: usize },
    Script { args: Vec<Node>, script_id: usize },
    Field { accessor: FieldAccessor },
    Variable { accessor: VariableAccessor },
    Binary { left: Box<Node>, right: Box<Node>, operator: BinaryOperator },
    Unary { child: Box<Node>, operator: UnaryOperator },
    /// An error found at compile time, raised when evaluation gets here.
    RuntimeError { error: Error },
}

/// Why the execution of a block stopped.
#[derive(Clone, Copy, Debug, PartialEq, Eq, Structural)]
pub enum ReturnType {
    Normal,
    Continue,
    Break,
    Exit,
}

/// A user variable that can be read or set.
#[derive(Debug)]
pub struct FieldAccessor {
    pub index: usize,
    pub array: ArrayAccessor,
    pub owner: InstanceIdentifier,
}

/// A built-in variable that can be read or set.
#[derive(Debug)]
pub struct VariableAccessor {
    pub var: InstanceVariable,
    pub array: ArrayAccessor,
    pub owner: InstanceIdentifier,
}

/// The index part of an accessor, of one or two dimensions. Without one the
/// accessor means index 0.
#[derive(Debug)]
pub enum ArrayAccessor {
    NoIndex,
    Single(Box<Node>),
    Double(Box<Node>, Box<Node>),
}

/// Names the instance or instances that an accessor is about. What the
/// compiler could tell is kept as a variant; the rest is evaluated when the
/// accessor is used.
#[derive(Debug)]
pub enum InstanceIdentifier {
    Unknown,
    Own,
    Other,
    Global,
    Local,
    Expression(Box<Node>),
}

} // verus!
