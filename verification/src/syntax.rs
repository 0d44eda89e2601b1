//! The syntax tree of an interface-definition document.
//!
//! A parsing front end produces this tree; every node that the analysis
//! addresses carries the span of source text it was read from.
use crate::span::Span;
use vstd::prelude::*;

verus! {

/// The built-in primitive types.
#[derive(Clone, Copy, Debug, PartialEq, Eq, Hash, Structural)]
pub enum PrimType {
    Nat,
    Nat8,
    Nat16,
    Nat32,
    Nat64,
    Int,
    Int8,
    Int16,
    Int32,
    Int64,
    Float32,
    Float64,
    Bool,
    Text,
    Null,
    Reserved,
    Empty,
}

/// The annotations a function type may carry after its results.
#[derive(Clone, Copy, Debug, PartialEq, Eq, Hash, Structural)]
pub enum FuncMode {
    Oneway,
    Query,
    CompositeQuery,
}

/// The label of a record or variant field.
#[derive(Clone, Debug, PartialEq, Eq)]
pub enum Label {
    Id(u32),
    Named(String),
    Unnamed(u32),
}

/// A type expression together with the span it occupies.
#[derive(Debug)]
pub struct IDLTypeWithSpan {
    pub kind: IDLType,
    pub span: Span,
}

#[derive(Debug)]
pub enum IDLType {
    PrimT(PrimType),
    VarT(String),
    FuncT(FuncType),
    OptT(Box<IDLTypeWithSpan>),
    VecT(Box<IDLTypeWithSpan>),
    RecordT(Vec<TypeField>),
    VariantT(Vec<TypeField>),
    ServT(Vec<Binding>),
    ClassT(Vec<IDLTypeWithSpan>, Box<IDLTypeWithSpan>),
    PrincipalT,
}

#[derive(Debug)]
pub struct FuncType {
    pub modes: Vec<FuncMode>,
    pub args: Vec<IDLTypeWithSpan>,
    pub rets: Vec<IDLTypeWithSpan>,
}

#[derive(Debug)]
pub struct TypeField {
    pub label: Label,
    pub typ: IDLTypeWithSpan,
    pub docs: Vec<String>,
    pub span: Span,
}

/// A named type: a top-level `type` declaration or a method of a service.
#[derive(Debug)]
pub struct Binding {
    pub id: String,
    pub typ: IDLTypeWithSpan,
    pub docs: Vec<String>,
    pub span: Span,
}

/// A top-level declaration.
#[derive(Debug)]
pub enum Dec {
    TypD(Binding),
    ImportType { path: String, span: Span },
    ImportServ { path: String, span: Span },
}

/// The document's top-level service declaration.
#[derive(Debug)]
pub struct IDLActorType {
    pub typ: IDLTypeWithSpan,
    pub docs: Vec<String>,
    pub span: Span,
}

/// A parsed document: its declarations in source order and its actor, if any.
#[derive(Debug)]
pub struct IDLProg {
    pub decs: Vec<Dec>,
    pub actor: Option<IDLActorType>,
}

} // verus!
