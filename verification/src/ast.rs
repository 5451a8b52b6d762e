//! The syntax tree of a program in the class language.

use vstd::prelude::*;

verus! {

/// A name as written in the source: a class, a method, a field, a type.
pub struct Identifier {
    pub str: String,
}

/// A whole program: the classes it declares, in order.
pub struct Program {
    pub classes: Vec<Class>,
}

/// `class Name: Parent { members }`.
pub struct Class {
    pub name: Identifier,
    pub extends: Option<Path>,
    pub members: Vec<Member>,
}

/// What a class body may hold.
pub enum Member {
    /// `struct NamePrivate { fields }`: the per-instance private data.
    PrivateStruct(PrivateStruct),
    /// The body of `private_init()`, which builds the private data.
    PrivateInit(CodeBlock),
    /// `fn name(&self, args) -> ty { code }`.
    Method(Method),
    /// `signal fn name(&self, args) -> ty;`.
    Signal(Signal),
}

pub struct PrivateStruct {
    pub name: Identifier,
    pub fields: Vec<VarTy>,
}

pub struct Method {
    pub name: Identifier,
    pub fn_def: FnDef,
}

pub struct FnDef {
    pub sig: FnSig,
    pub code: CodeBlock,
}

pub struct Signal {
    pub name: Identifier,
    pub sig: FnSig,
    pub code: Option<CodeBlock>,
}

/// The part of a method's signature after `&self`.
pub struct FnSig {
    pub args: Vec<VarTy>,
    pub return_ty: Option<Type>,
}

/// `name: ty`.
pub struct VarTy {
    pub name: Identifier,
    pub ty: Type,
}

/// A block of code, kept as the tokens it was written with.
pub struct CodeBlock {
    pub tokens: quote::Tokens,
}

pub enum Type {
    /// A type named by a path, such as `glib::Object` or `Vec<u32>`.
    Path(Path),
    /// `[ty]`.
    Array(Box<Type>),
    /// `ty + ty + ...`.
    Sum(Vec<Type>),
}

pub enum Path {
    /// `::`
    FromRoot,
    /// `self`
    FromSelf,
    /// `super`
    FromSuper,
    /// `<Ty as Trait>::item`
    FromTraitItem(TraitItemId),
    /// `name<tys>`
    From(PathId),
    /// `base::name<tys>`
    Extend(Box<Path>, PathId),
}

/// One segment of a path: a name with its generic arguments.
pub struct PathId {
    pub name: Identifier,
    pub tys: Vec<Type>,
}

/// `<self_ty as trait_ref>::item`.
pub struct TraitItemId {
    pub self_ty: Box<Type>,
    pub trait_ref: Box<Path>,
    pub item: Identifier,
}

} // verus!
