//! Constant values of declarations: what has to be done to find the value
//! of a node, decided from the node and its binding in the parameter
//! environment.

use crate::value::{ValueData, ValueModel};
use vstd::prelude::*;

verus! {

/// The identifier of a node.
pub type NodeId = usize;

/// The identifier of a parameter environment.
pub type ParamEnv = usize;

/// A node, as far as constant evaluation reads it.
#[derive(Clone, Copy, Debug, PartialEq, Eq)]
pub enum HirNode {
    /// An expression.
    Expr(NodeId),
    /// A value parameter and its default expression, if it has one.
    ValueParam { default: Option<NodeId> },
    /// A genvar declaration and its initializer, if it has one.
    GenvarDecl { init: Option<NodeId> },
    /// A variable declaration.
    VarDecl,
    /// An enum variant, its explicit value if it has one, and its position
    /// in the enum.
    EnumVariant { value: Option<NodeId>, index: usize },
    /// Any other node.
    Other,
}

/// What a parameter environment binds a node to.
#[derive(Debug)]
pub enum ParamEnvBinding {
    /// A value.
    Direct(ValueData),
    /// The value of another node in another environment.
    Indirect(NodeId, ParamEnv),
}

/// Why a node has no constant value.
#[derive(Clone, Copy, Debug, PartialEq, Eq, Structural)]
pub enum ConstError {
    /// A parameter that is not assigned and has no default.
    NotAssigned,
    /// A genvar that is not initialized.
    NotInitialized,
    /// A declaration that has no constant value.
    NoConstantValue,
    /// A node whose constant value is not implemented.
    Unimplemented,
}

/// What has to be done to find the constant value of a node.
#[derive(Debug)]
pub enum ConstStep {
    /// Lower the expression under the node's environment and fold it.
    Lower(NodeId),
    /// The value is that of this node under the node's own environment.
    Recurse(NodeId),
    /// The value is that of this node under this other environment.
    Follow(NodeId, ParamEnv),
    /// The value is known.
    Known(ValueData),
    /// The value is this integer in the type of the node.
    EnumIndex(usize),
    /// There is no value, for the reason given.
    Fail(ConstError),
}

/// The mathematical value of a [`ParamEnvBinding`].
pub enum BindingModel {
    Direct(ValueModel),
    Indirect(NodeId, ParamEnv),
}

/// The mathematical value of a [`ConstStep`].
pub enum ConstStepModel {
    Lower(NodeId),
    Recurse(NodeId),
    Follow(NodeId, ParamEnv),
    Known(ValueModel),
    EnumIndex(usize),
    Fail(ConstError),
}

impl View for ParamEnvBinding {
    type V = BindingModel;

    open spec fn view(&self) -> BindingModel {
        match self {
            ParamEnvBinding::Direct(v) => BindingModel::Direct(v@),
            ParamEnvBinding::Indirect(n, e) => BindingModel::Indirect(*n, *e),
        }
    }
}

impl View for ConstStep {
    type V = ConstStepModel;

    open spec fn view(&self) -> ConstStepModel {
        match self {
            ConstStep::Lower(n) => ConstStepModel::Lower(*n),
            ConstStep::Recurse(n) => ConstStepModel::Recurse(*n),
            ConstStep::Follow(n, e) => ConstStepModel::Follow(*n, *e),
            ConstStep::Known(v) => ConstStepModel::Known(v@),
            ConstStep::EnumIndex(i) => ConstStepModel::EnumIndex(*i),
            ConstStep::Fail(e) => ConstStepModel::Fail(*e),
        }
    }
}

/// The view of a binding that may be absent.
pub open spec fn binding_model(b: Option<&ParamEnvBinding>) -> Option<BindingModel> {
    match b {
        Some(b) => Some(b@),
        None => None,
    }
}

/// What a binding says of the value of a parameter or genvar, if anything.
pub open spec fn bound_step(binding: Option<BindingModel>) -> Option<ConstStepModel> {
    match binding {
        Some(BindingModel::Indirect(n, e)) => Some(ConstStepModel::Follow(n, e)),
        Some(BindingModel::Direct(v)) => Some(ConstStepModel::Known(v)),
        None => None,
    }
}

/// What a fallback expression says of a value, or the failure if there is
/// none.
pub open spec fn fallback_step(fallback: Option<NodeId>, error: ConstError) -> ConstStepModel {
    match fallback {
        Some(n) => ConstStepModel::Recurse(n),
        None => ConstStepModel::Fail(error),
    }
}

/// What has to be done to find the constant value of a node: an expression
/// is lowered and folded; a parameter or genvar has the value that the
/// environment binds it to, else that of its default or initializer; an
/// enum variant has its explicit value, else its position; a variable has
/// none; nothing else is implemented.
pub open spec fn const_step(hir: HirNode, binding: Option<BindingModel>) -> ConstStepModel {
    match hir {
        HirNode::Expr(n) => ConstStepModel::Lower(n),
        HirNode::ValueParam { default } => match bound_step(binding) {
            Some(s) => s,
            None => fallback_step(default, ConstError::NotAssigned),
        },
        HirNode::GenvarDecl { init } => match bound_step(binding) {
            Some(s) => s,
            None => fallback_step(init, ConstError::NotInitialized),
        },
        HirNode::VarDecl => ConstStepModel::Fail(ConstError::NoConstantValue),
        HirNode::EnumVariant { value, index } => match value {
            Some(n) => ConstStepModel::Recurse(n),
            None => ConstStepModel::EnumIndex(index),
        },
        HirNode::Other => ConstStepModel::Fail(ConstError::Unimplemented),
    }
}

/// What a binding says of the value of a parameter or genvar, if anything.
fn bound(binding: Option<&ParamEnvBinding>) -> (r: Option<ConstStep>)
    ensures
        match bound_step(binding_model(binding)) {
            Some(s) => r is Some && r->0@ == s,
            None => r is None,
        },
{
    match binding {
        Some(ParamEnvBinding::Indirect(n, e)) => Some(ConstStep::Follow(*n, *e)),
        Some(ParamEnvBinding::Direct(v)) => Some(ConstStep::Known(v.duplicate())),
        None => None,
    }
}

/// What a fallback expression says of a value.
fn fallback(expr: Option<NodeId>, error: ConstError) -> (r: ConstStep)
    ensures
        r@ == fallback_step(expr, error),
{
    match expr {
        Some(n) => ConstStep::Recurse(n),
        None => ConstStep::Fail(error),
    }
}

/// Decides what has to be done to find the constant value of a node, given
/// what the parameter environment binds the node to.
pub fn const_node(hir: &HirNode, binding: Option<&ParamEnvBinding>) -> (r: ConstStep)
    ensures
        r@ == const_step(*hir, binding_model(binding)),
{
    match hir {
        HirNode::Expr(n) => ConstStep::Lower(*n),
        HirNode::ValueParam { default } => match bound(binding) {
            Some(s) => s,
            None => fallback(*default, ConstError::NotAssigned),
        },
        HirNode::GenvarDecl { init } => match bound(binding) {
            Some(s) => s,
            None => fallback(*init, ConstError::NotInitialized),
        },
        HirNode::VarDecl => ConstStep::Fail(ConstError::NoConstantValue),
        HirNode::EnumVariant { value, index } => match value {
            Some(n) => ConstStep::Recurse(*n),
            None => ConstStep::EnumIndex(*index),
        },
        HirNode::Other => ConstStep::Fail(ConstError::Unimplemented),
    }
}

/// Whether a node has a constant value: a value parameter, a genvar
/// declaration and an enum variant have one.
pub fn is_constant(hir: &HirNode) -> (r: bool)
    ensures
        r == (hir is ValueParam || hir is GenvarDecl || hir is EnumVariant),
{
    match hir {
        HirNode::ValueParam { .. } => true,
        HirNode::GenvarDecl { .. } => true,
        HirNode::EnumVariant { .. } => true,
        _ => false,
    }
}

} // verus!
