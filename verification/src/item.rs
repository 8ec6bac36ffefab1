//! Items: functions and foreign blocks, as far as the checks read them.

use vstd::prelude::*;
use crate::span::Span;

verus! {

/// A calling convention.
#[derive(Clone, Copy, Debug, PartialEq, Eq, Structural)]
pub enum Abi {
    C,
    Other,
}

/// What the host knows of the struct, enum or union that a type names:
/// where it is declared and which layout attributes it carries.
#[derive(Clone, Copy, Debug, PartialEq, Eq, Structural)]
pub struct AdtFacts {
    pub def_span: Span,
    pub repr_c: bool,
    pub repr_transparent: bool,
    pub repr_packed: bool,
    pub repr_align: bool,
}

/// The type of a parameter: its range, and what it names once pointers
/// around it are taken off.
#[derive(Clone, Copy, Debug, PartialEq, Eq, Structural)]
pub struct ParamTy {
    pub span: Span,
    pub adt: Option<AdtFacts>,
}

/// An item of a foreign block; `inputs` are the parameter types where it
/// is a function.
#[derive(Debug)]
pub struct ForeignItem {
    pub id: u64,
    pub name: String,
    pub inputs: Option<Vec<ParamTy>>,
}

#[derive(Debug)]
pub enum ItemKind {
    Fn { abi: Abi, inputs: Vec<ParamTy> },
    /// A foreign block; `explicit_abi` tells whether its calling
    /// convention was written out.
    ForeignMod { abi: Abi, explicit_abi: bool, items: Vec<ForeignItem> },
    Other,
}

#[derive(Debug)]
pub struct Item {
    pub span: Span,
    pub kind: ItemKind,
}

} // verus!
