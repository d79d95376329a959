//! Runtime errors and the names that their messages use.

use vstd::prelude::*;
use crate::value::Value;
use crate::value::ValueModel;
use crate::variable::InstanceVariable;

verus! {

/// An operator of the language as it is written in source text.
#[derive(Clone, Copy, Debug, PartialEq, Eq, Structural)]
pub enum Operator {
    Add,
    Subtract,
    Multiply,
    Divide,
    IntDivide,
    BitwiseAnd,
    BitwiseOr,
    BitwiseXor,
    Assign,
    Not,
    LessThan,
    GreaterThan,
    AssignAdd,
    AssignSubtract,
    AssignMultiply,
    AssignDivide,
    AssignBitwiseAnd,
    AssignBitwiseOr,
    AssignBitwiseXor,
    Complement,
    Modulo,
    And,
    Or,
    Xor,
    Equal,
    NotEqual,
    LessThanOrEqual,
    GreaterThanOrEqual,
    BinaryShiftLeft,
    BinaryShiftRight,
    Index,
    Deref,
}

impl Operator {
    /// The operator as scripts write it.
    pub open spec fn spec_symbol(self) -> Seq<char> {
        match self {
            Operator::Add => "+"@,
            Operator::Subtract => "-"@,
            Operator::Multiply => "*"@,
            Operator::Divide => "/"@,
            Operator::IntDivide => "div"@,
            Operator::BitwiseAnd => "&"@,
            Operator::BitwiseOr => "|"@,
            Operator::BitwiseXor => "^"@,
            Operator::Assign => "="@,
            Operator::Not => "!"@,
            Operator::LessThan => "<"@,
            Operator::GreaterThan => ">"@,
            Operator::AssignAdd => "+="@,
            Operator::AssignSubtract => "-="@,
            Operator::AssignMultiply => "*="@,
            Operator::AssignDivide => "/="@,
            Operator::AssignBitwiseAnd => "&="@,
            Operator::AssignBitwiseOr => "|="@,
            Operator::AssignBitwiseXor => "^="@,
            Operator::Complement => "~"@,
            Operator::Modulo => "mod"@,
            Operator::And => "&&"@,
            Operator::Or => "||"@,
            Operator::Xor => "^^"@,
            Operator::Equal => "=="@,
            Operator::NotEqual => "!="@,
            Operator::LessThanOrEqual => "<="@,
            Operator::GreaterThanOrEqual => ">="@,
            Operator::BinaryShiftLeft => "<<"@,
            Operator::BinaryShiftRight => ">>"@,
            Operator::Index => "["@,
            Operator::Deref => "."@,
        }
    }

    pub fn symbol(self) -> (r: &'static str)
        ensures
            r@ == self.spec_symbol(),
    {
        match self {
            Operator::Add => "+",
            Operator::Subtract => "-",
            Operator::Multiply => "*",
            Operator::Divide => "/",
            Operator::IntDivide => "div",
            Operator::BitwiseAnd => "&",
            Operator::BitwiseOr => "|",
            Operator::BitwiseXor => "^",
            Operator::Assign => "=",
            Operator::Not => "!",
            Operator::LessThan => "<",
            Operator::GreaterThan => ">",
            Operator::AssignAdd => "+=",
            Operator::AssignSubtract => "-=",
            Operator::AssignMultiply => "*=",
            Operator::AssignDivide => "/=",
            Operator::AssignBitwiseAnd => "&=",
            Operator::AssignBitwiseOr => "|=",
            Operator::AssignBitwiseXor => "^=",
            Operator::Complement => "~",
            Operator::Modulo => "mod",
            Operator::And => "&&",
            Operator::Or => "||",
            Operator::Xor => "^^",
            Operator::Equal => "==",
            Operator::NotEqual => "!=",
            Operator::LessThanOrEqual => "<=",
            Operator::GreaterThanOrEqual => ">=",
            Operator::BinaryShiftLeft => "<<",
            Operator::BinaryShiftRight => ">>",
            Operator::Index => "[",
            Operator::Deref => ".",
        }
    }
}

/// The kinds of asset that a game holds.
#[derive(Clone, Copy, Debug, PartialEq, Eq, Structural)]
pub enum AssetType {
    Sprite,
    Sound,
    Background,
    Path,
    Script,
    Font,
    Timeline,
    Object,
    Room,
    Constant,
}

impl AssetType {
    pub open spec fn spec_name(self) -> Seq<char> {
        match self {
            AssetType::Sprite => "sprite"@,
            AssetType::Sound => "sound"@,
            AssetType::Background => "background"@,
            AssetType::Path => "path"@,
            AssetType::Script => "script"@,
            AssetType::Font => "font"@,
            AssetType::Timeline => "timeline"@,
            AssetType::Object => "object"@,
            AssetType::Room => "room"@,
            AssetType::Constant => "constant"@,
        }
    }

    pub fn name(self) -> (r: &'static str)
        ensures
            r@ == self.spec_name(),
    {
        match self {
            AssetType::Sprite => "sprite",
            AssetType::Sound => "sound",
            AssetType::Background => "background",
            AssetType::Path => "path",
            AssetType::Script => "script",
            AssetType::Font => "font",
            AssetType::Timeline => "timeline",
            AssetType::Object => "object",
            AssetType::Room => "room",
            AssetType::Constant => "constant",
        }
    }
}

/// What can go wrong while a script runs.
#[derive(Debug)]
pub enum Error {
    EndOfRoomOrder,
    InvalidOperandsUnary(Operator, Value),
    InvalidOperandsBinary(Operator, Value, Value),
    InvalidUnaryOperator(Operator),
    InvalidBinaryOperator(Operator),
    InvalidAssignment(String),
    InvalidArrayAccessor(String),
    InvalidArrayIndex(i32),
    InvalidDeref(String),
    InvalidIndexLhs(String),
    InvalidIndex(String),
    InvalidRoomSpeed(i32),
    InvalidSwitchBody(String),
    NonexistentAsset(AssetType, i32),
    ReadOnlyVariable(InstanceVariable),
    UnknownFunction(String),
    UnexpectedASTExpr(String),
    UninitializedVariable(String, u32),
    UninitializedArgument(usize),
    TooManyArrayDimensions(usize),
    WrongArgumentCount(usize, usize),
    FunctionError(String, String),
    ReplayError(String),
    BadDirectoryError(String),
    /// The run used up its budget of loop iterations and script calls.
    BudgetExhausted,
}

/// What an `Error` stands for in contracts.
pub enum ErrorModel {
    EndOfRoomOrder,
    InvalidOperandsUnary(Operator, ValueModel),
    InvalidOperandsBinary(Operator, ValueModel, ValueModel),
    InvalidUnaryOperator(Operator),
    InvalidBinaryOperator(Operator),
    InvalidAssignment(Seq<char>),
    InvalidArrayAccessor(Seq<char>),
    InvalidArrayIndex(i32),
    InvalidDeref(Seq<char>),
    InvalidIndexLhs(Seq<char>),
    InvalidIndex(Seq<char>),
    InvalidRoomSpeed(i32),
    InvalidSwitchBody(Seq<char>),
    NonexistentAsset(AssetType, i32),
    ReadOnlyVariable(InstanceVariable),
    UnknownFunction(Seq<char>),
    UnexpectedASTExpr(Seq<char>),
    UninitializedVariable(Seq<char>, u32),
    UninitializedArgument(usize),
    TooManyArrayDimensions(usize),
    WrongArgumentCount(usize, usize),
    FunctionError(Seq<char>, Seq<char>),
    ReplayError(Seq<char>),
    BadDirectoryError(Seq<char>),
    BudgetExhausted,
}

impl View for Error {
    type V = ErrorModel;

    open spec fn view(&self) -> ErrorModel {
        match self {
            Error::EndOfRoomOrder => ErrorModel::EndOfRoomOrder,
            Error::InvalidOperandsUnary(a, b) => ErrorModel::InvalidOperandsUnary(*a, b@),
            Error::InvalidOperandsBinary(a, b, c) => ErrorModel::InvalidOperandsBinary(*a, b@, c@),
            Error::InvalidUnaryOperator(a) => ErrorModel::InvalidUnaryOperator(*a),
            Error::InvalidBinaryOperator(a) => ErrorModel::InvalidBinaryOperator(*a),
            Error::InvalidAssignment(a) => ErrorModel::InvalidAssignment(a@),
            Error::InvalidArrayAccessor(a) => ErrorModel::InvalidArrayAccessor(a@),
            Error::InvalidArrayIndex(a) => ErrorModel::InvalidArrayIndex(*a),
            Error::InvalidDeref(a) => ErrorModel::InvalidDeref(a@),
            Error::InvalidIndexLhs(a) => ErrorModel::InvalidIndexLhs(a@),
            Error::InvalidIndex(a) => ErrorModel::InvalidIndex(a@),
            Error::InvalidRoomSpeed(a) => ErrorModel::InvalidRoomSpeed(*a),
            Error::InvalidSwitchBody(a) => ErrorModel::InvalidSwitchBody(a@),
            Error::NonexistentAsset(a, b) => ErrorModel::NonexistentAsset(*a, *b),
            Error::ReadOnlyVariable(a) => ErrorModel::ReadOnlyVariable(*a),
            Error::UnknownFunction(a) => ErrorModel::UnknownFunction(a@),
            Error::UnexpectedASTExpr(a) => ErrorModel::UnexpectedASTExpr(a@),
            Error::UninitializedVariable(a, b) => ErrorModel::UninitializedVariable(a@, *b),
            Error::UninitializedArgument(a) => ErrorModel::UninitializedArgument(*a),
            Error::TooManyArrayDimensions(a) => ErrorModel::TooManyArrayDimensions(*a),
            Error::WrongArgumentCount(a, b) => ErrorModel::WrongArgumentCount(*a, *b),
            Error::FunctionError(a, b) => ErrorModel::FunctionError(a@, b@),
            Error::ReplayError(a) => ErrorModel::ReplayError(a@),
            Error::BadDirectoryError(a) => ErrorModel::BadDirectoryError(a@),
            Error::BudgetExhausted => ErrorModel::BudgetExhausted,
        }
    }
}

impl Error {
    /// A copy of the error.
    pub fn duplicate(&self) -> (r: Error)
        ensures
            r@ == self@,
    {
        match self {
            Error::EndOfRoomOrder => Error::EndOfRoomOrder,
            Error::InvalidOperandsUnary(a, b) => Error::InvalidOperandsUnary(*a, b.duplicate()),
            Error::InvalidOperandsBinary(a, b, c) => Error::InvalidOperandsBinary(*a, b.duplicate(), c.duplicate()),
            Error::InvalidUnaryOperator(a) => Error::InvalidUnaryOperator(*a),
            Error::InvalidBinaryOperator(a) => Error::InvalidBinaryOperator(*a),
            Error::InvalidAssignment(a) => Error::InvalidAssignment(a.clone()),
            Error::InvalidArrayAccessor(a) => Error::InvalidArrayAccessor(a.clone()),
            Error::InvalidArrayIndex(a) => Error::InvalidArrayIndex(*a),
            Error::InvalidDeref(a) => Error::InvalidDeref(a.clone()),
            Error::InvalidIndexLhs(a) => Error::InvalidIndexLhs(a.clone()),
            Error::InvalidIndex(a) => Error::InvalidIndex(a.clone()),
            Error::InvalidRoomSpeed(a) => Error::InvalidRoomSpeed(*a),
            Error::InvalidSwitchBody(a) => Error::InvalidSwitchBody(a.clone()),
            Error::NonexistentAsset(a, b) => Error::NonexistentAsset(*a, *b),
            Error::ReadOnlyVariable(a) => Error::ReadOnlyVariable(*a),
            Error::UnknownFunction(a) => Error::UnknownFunction(a.clone()),
            Error::UnexpectedASTExpr(a) => Error::UnexpectedASTExpr(a.clone()),
            Error::UninitializedVariable(a, b) => Error::UninitializedVariable(a.clone(), *b),
            Error::UninitializedArgument(a) => Error::UninitializedArgument(*a),
            Error::TooManyArrayDimensions(a) => Error::TooManyArrayDimensions(*a),
            Error::WrongArgumentCount(a, b) => Error::WrongArgumentCount(*a, *b),
            Error::FunctionError(a, b) => Error::FunctionError(a.clone(), b.clone()),
            Error::ReplayError(a) => Error::ReplayError(a.clone()),
            Error::BadDirectoryError(a) => Error::BadDirectoryError(a.clone()),
            Error::BudgetExhausted => Error::BudgetExhausted,
        }
    }
}

impl Clone for Error {
    fn clone(&self) -> (r: Error)
        ensures
            r@ == self@,
    {
        self.duplicate()
    }
}

/// The view of a result: the view of what it holds.
pub open spec fn value_result(r: Result<Value, Error>) -> Result<ValueModel, ErrorModel> {
    match r {
        Ok(v) => Ok(v@),
        Err(e) => Err(e@),
    }
}

/// The view of a result that holds a plain value.
pub open spec fn plain_result<T>(r: Result<T, Error>) -> Result<T, ErrorModel> {
    match r {
        Ok(v) => Ok(v),
        Err(e) => Err(e@),
    }
}

} // verus!
