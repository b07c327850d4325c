//! The parts of rustdoc's JSON data model that rendering and normalization
//! read, held as plain values. Names follow the rustdoc JSON format; item ids
//! are its numeric ids.
use vstd::prelude::*;

verus! {

/// A type as rustdoc describes it.
#[derive(Debug)]
pub enum Type {
    ResolvedPath(Path),
    DynTrait(DynTrait),
    Generic(String),
    Primitive(String),
    FunctionPointer(Box<FunctionPointer>),
    Tuple(Vec<Type>),
    Slice(Box<Type>),
    Array { type_: Box<Type>, len: String },
    Pat { type_: Box<Type> },
    ImplTrait(Vec<GenericBound>),
    Infer,
    RawPointer { is_mutable: bool, type_: Box<Type> },
    BorrowedRef { lifetime: Option<String>, is_mutable: bool, type_: Box<Type> },
    QualifiedPath {
        name: String,
        args: Option<Box<GenericArgs>>,
        self_type: Box<Type>,
        trait_: Option<Path>,
    },
}

/// A path to an item, with its generic arguments.
#[derive(Debug)]
pub struct Path {
    pub path: String,
    pub id: u32,
    pub args: Option<Box<GenericArgs>>,
}

/// Generic arguments of a path.
#[derive(Debug)]
pub enum GenericArgs {
    AngleBracketed { args: Vec<GenericArg>, constraints: Vec<AssocItemConstraint> },
    Parenthesized { inputs: Vec<Type>, output: Option<Type> },
    ReturnTypeNotation,
}

/// One generic argument.
#[derive(Debug)]
pub enum GenericArg {
    Lifetime(String),
    Type(Type),
    Const(Constant),
    Infer,
}

/// A constant expression, with its evaluated value when known.
#[derive(Debug)]
pub struct Constant {
    pub expr: String,
    pub value: Option<String>,
}

/// An associated item constraint, `Name = T` or `Name: Bounds`.
#[derive(Debug)]
pub struct AssocItemConstraint {
    pub name: String,
    pub binding: AssocItemConstraintKind,
}

#[derive(Debug)]
pub enum AssocItemConstraintKind {
    Equality(Term),
    Constraint(Vec<GenericBound>),
}

#[derive(Debug)]
pub enum Term {
    Type(Type),
    Constant(Constant),
}

/// A bound on a generic parameter.
#[derive(Debug)]
pub enum GenericBound {
    TraitBound { trait_: Path },
    Outlives(String),
    Use,
}

/// A `dyn` type: its traits and optional lifetime.
#[derive(Debug)]
pub struct DynTrait {
    pub traits: Vec<PolyTrait>,
    pub lifetime: Option<String>,
}

#[derive(Debug)]
pub struct PolyTrait {
    pub trait_: Path,
}

#[derive(Debug)]
pub struct FunctionPointer {
    pub sig: FunctionSignature,
}

/// Parameters (name and type), return type and C-variadic flag.
#[derive(Debug)]
pub struct FunctionSignature {
    pub inputs: Vec<(String, Type)>,
    pub output: Option<Type>,
    pub is_c_variadic: bool,
}

#[derive(Debug)]
pub struct FunctionHeader {
    pub is_const: bool,
    pub is_unsafe: bool,
    pub is_async: bool,
    pub abi: Abi,
}

/// A function's ABI.
#[derive(Debug)]
pub enum Abi {
    Rust,
    C { unwind: bool },
    Cdecl { unwind: bool },
    Stdcall { unwind: bool },
    Fastcall { unwind: bool },
    Aapcs { unwind: bool },
    Win64 { unwind: bool },
    SysV64 { unwind: bool },
    System { unwind: bool },
    Other(String),
}

/// A function item.
#[derive(Debug)]
pub struct Function {
    pub sig: FunctionSignature,
    pub generics: Generics,
    pub header: FunctionHeader,
}

#[derive(Debug)]
pub struct Generics {
    pub params: Vec<GenericParamDef>,
}

#[derive(Debug)]
pub struct GenericParamDef {
    pub name: String,
    pub kind: GenericParamDefKind,
}

#[derive(Debug)]
pub enum GenericParamDefKind {
    Lifetime { outlives: Vec<String> },
    Type { bounds: Vec<GenericBound>, is_synthetic: bool },
    Const { type_: Type },
}

/// Visibility of an item.
#[derive(Clone, Copy, Debug, PartialEq, Eq, Structural)]
pub enum Visibility {
    Public,
    Default,
    Crate,
    Restricted,
}

/// A source location: file name and 1-based (line, column) of its start and
/// end.
#[derive(Debug)]
pub struct Span {
    pub filename: String,
    pub begin: (usize, usize),
    pub end: (usize, usize),
}

/// The kind of a procedural macro.
#[derive(Clone, Copy, Debug, PartialEq, Eq, Structural)]
pub enum MacroKind {
    Bang,
    Attr,
    Derive,
}

/// An impl block.
#[derive(Debug)]
pub struct Impl {
    /// Compiler-generated (derive or auto-trait) impl.
    pub is_synthetic: bool,
    /// The implemented trait, for trait impls.
    pub trait_: Option<Path>,
    /// The type the impl is for.
    pub for_: Type,
    pub items: Vec<u32>,
}

/// What an item is, with the parts the walk reads.
#[derive(Debug)]
pub enum ItemEnum {
    Module { is_crate: bool, items: Vec<u32> },
    Struct { impls: Vec<u32> },
    Enum { variants: Vec<u32>, impls: Vec<u32> },
    Union { impls: Vec<u32> },
    Trait { items: Vec<u32> },
    Function(Function),
    TypeAlias,
    Constant,
    Static,
    Variant,
    Macro,
    ProcMacro(MacroKind),
    Impl(Impl),
    /// Re-exports, extern crates, struct fields, extern types, trait
    /// aliases, associated constants and types, primitives.
    Other,
}

/// One item of a crate.
#[derive(Debug)]
pub struct Item {
    pub id: u32,
    /// 0 for the documented crate; other values name external crates.
    pub crate_id: u32,
    pub name: Option<String>,
    pub span: Option<Span>,
    pub visibility: Visibility,
    pub docs: Option<String>,
    /// Targets of the intra-doc links of the item's docs.
    pub links: Vec<u32>,
    pub inner: ItemEnum,
}

/// A documented crate: its root module, its items, and the paths of items
/// (local and external) it knows.
#[derive(Debug)]
pub struct DocCrate {
    pub root: u32,
    pub index: Vec<Item>,
    pub paths: Vec<(u32, Vec<String>)>,
    pub format_version: u32,
}

} // verus!
