//! Plain values crossing the dispatch boundary, and their mathematical model.

use vstd::prelude::*;

verus! {

/// An argument or result value of a command invocation.
#[derive(Debug, PartialEq, Eq)]
pub enum Value {
    Str(String),
    Int(i64),
    Bool(bool),
}

/// The kind (runtime type) of a `Value`.
#[derive(Debug, Clone, Copy, PartialEq, Eq, Structural)]
pub enum ValKind {
    Str,
    Int,
    Bool,
}

/// Mathematical model of a `Value`.
pub enum ValueModel {
    Str(Seq<char>),
    Int(int),
    Bool(bool),
}

impl View for Value {
    type V = ValueModel;

    open spec fn view(&self) -> ValueModel {
        match self {
            Value::Str(s) => ValueModel::Str(s@),
            Value::Int(i) => ValueModel::Int(*i as int),
            Value::Bool(b) => ValueModel::Bool(*b),
        }
    }
}

/// The kind of a modeled value.
pub open spec fn kind_of(v: ValueModel) -> ValKind {
    match v {
        ValueModel::Str(_) => ValKind::Str,
        ValueModel::Int(_) => ValKind::Int,
        ValueModel::Bool(_) => ValKind::Bool,
    }
}

/// The models of a sequence of values, position by position.
pub open spec fn models_of(args: Seq<Value>) -> Seq<ValueModel> {
    Seq::new(args.len(), |i: int| args[i]@)
}

impl Value {
    /// The kind of this value.
    pub fn kind(&self) -> (k: ValKind)
        ensures
            k == kind_of(self@),
    {
        match self {
            Value::Str(_) => ValKind::Str,
            Value::Int(_) => ValKind::Int,
            Value::Bool(_) => ValKind::Bool,
        }
    }
}

} // verus!
