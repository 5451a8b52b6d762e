//! How the pieces of the syntax tree are written out as Rust tokens.

use vstd::prelude::*;
use crate::ast::{Identifier, Type, Path, PathId, TraitItemId, VarTy, FnSig, CodeBlock};
use crate::text::{join, lemma_join_assoc, lemma_sep_prefixed, lemma_sep_join_push, sep_join, lemma_sep_join_step, lemma_sep_join_full, tokens_text, tokens_append, tokens_append_ident, tokens_append_tokens};

verus! {

broadcast use lemma_join_assoc;

// ---------------------------------------------------------------------------
// What each piece renders to
// ---------------------------------------------------------------------------

pub open spec fn ident_text(i: Identifier) -> Seq<char> {
    i.str@
}

/// The text of a type.
pub open spec fn type_text(t: Type) -> Seq<char>
    decreases t,
{
    match t {
        Type::Path(p) => path_text(p, false),
        Type::Array(ty) => join(join("["@, type_text(*ty)), "]"@),
        Type::Sum(tys) => types_text(tys@, "+"@),
    }
}

/// The texts of `tys`, with `sep` between consecutive ones.
pub open spec fn types_text(tys: Seq<Type>, sep: Seq<char>) -> Seq<char>
    decreases tys,
{
    if tys.len() == 0 {
        Seq::empty()
    } else if tys.len() == 1 {
        type_text(tys[0])
    } else {
        proof {
            assert(decreases_to!(tys => tys.subrange(0, tys.len() - 1)));
        }
        join(join(types_text(tys.subrange(0, tys.len() - 1), sep), sep), type_text(tys.last()))
    }
}

/// The text of a path; `cc` says whether generic arguments are preceded by
/// `::`, as they must be where the path stands in an expression.
pub open spec fn path_text(p: Path, cc: bool) -> Seq<char>
    decreases p,
{
    match p {
        Path::FromRoot => "::"@,
        Path::FromSelf => "self"@,
        Path::FromSuper => "super"@,
        Path::FromTraitItem(i) => trait_item_text(i),
        Path::From(pid) => path_id_text(pid, cc),
        Path::Extend(b, pid) => join(join(path_text(*b, cc), "::"@), path_id_text(pid, cc)),
    }
}

/// The text of one path segment.
pub open spec fn path_id_text(pid: PathId, cc: bool) -> Seq<char>
    decreases pid,
{
    if pid.tys@.len() == 0 {
        ident_text(pid.name)
    } else {
        let head = if cc { join(ident_text(pid.name), "::"@) } else { ident_text(pid.name) };
        join(join(join(head, "<"@), types_text(pid.tys@, ","@)), ">"@)
    }
}

/// The text of `<self_ty as trait_ref>::item`.
pub open spec fn trait_item_text(t: TraitItemId) -> Seq<char>
    decreases t,
{
    join(join(join(join(join(join("<"@, type_text(*t.self_ty)), "as"@),
        path_text(*t.trait_ref, false)), ">"@), "::"@), ident_text(t.item))
}


/// `name: ty`.
pub open spec fn var_ty_text(v: VarTy) -> Seq<char> {
    join(join(ident_text(v.name), ":"@), type_text(v.ty))
}

/// `x: u32, y: u32`.
pub open spec fn arg_decls_text(sig: FnSig) -> Seq<char> {
    sep_join(sig.args@.map_values(|a: VarTy| var_ty_text(a)), ","@)
}

/// `x, y`.
pub open spec fn arg_names_text(sig: FnSig) -> Seq<char> {
    sep_join(sig.args@.map_values(|a: VarTy| ident_text(a.name)), ","@)
}

/// `u32, u32`: the argument types alone.
pub open spec fn arg_tys_text(sig: FnSig) -> Seq<char> {
    sep_join(sig.args@.map_values(|a: VarTy| type_text(a.ty)), ","@)
}

/// `, x: u32, y: u32` after `&self` or `this`, or nothing when the method
/// takes no arguments.
pub open spec fn comma_arg_decls_text(sig: FnSig) -> Seq<char> {
    if sig.args@.len() == 0 {
        Seq::empty()
    } else {
        join(","@, arg_decls_text(sig))
    }
}

/// `, x, y` after the receiver of a call, or nothing when the method takes
/// no arguments.
pub open spec fn comma_arg_names_text(sig: FnSig) -> Seq<char> {
    if sig.args@.len() == 0 {
        Seq::empty()
    } else {
        join(","@, arg_names_text(sig))
    }
}

/// The fields of a struct, `f: T, g: U`, separated by commas.
pub open spec fn fields_text(fields: Seq<VarTy>) -> Seq<char> {
    sep_join(fields.map_values(|f: VarTy| var_ty_text(f)), ","@)
}

/// `-> u32`, or nothing when the method returns `()`.
pub open spec fn return_ty_text(sig: FnSig) -> Seq<char> {
    match sig.return_ty {
        Some(t) => join("->"@, type_text(t)),
        None => Seq::empty(),
    }
}

/// The text of a block of code: the tokens it was written with.
pub open spec fn code_text(c: CodeBlock) -> Seq<char> {
    tokens_text(c.tokens)
}

/// `b"Name\0"`: the name as a NUL-terminated byte string literal, one token.
pub open spec fn byte_string_text(i: Identifier) -> Seq<char> {
    "b\""@ + ident_text(i) + "\\0\""@
}

/// `extern fn(&Class, u32, u32) -> u32`: the type of a method's function
/// pointer.
pub open spec fn method_ty_text(class_name: Identifier, sig: FnSig) -> Seq<char> {
    join(join(join(join(join(join(join(join("extern"@, "fn"@), "("@), "&"@), ident_text(class_name)),
        ","@), arg_tys_text(sig)), ")"@), return_ty_text(sig))
}

/// Each argument's declaration `, name : ty` after a receiver: the list that
/// follows `&self` or `this` holds every argument of the signature, in
/// order, each preceded by a comma, and nothing for a method without
/// arguments.
pub proof fn law_comma_arg_decls_lists_every_argument(sig: FnSig)
    ensures
        comma_arg_decls_text(sig)
            == sep_join(sig.args@.map_values(|a: VarTy| join(","@, var_ty_text(a))), Seq::empty()),
{
    let parts = sig.args@.map_values(|a: VarTy| var_ty_text(a));
    if sig.args@.len() > 0 {
        lemma_sep_prefixed(parts, ","@);
    }
    assert(parts.map_values(|x: Seq<char>| join(","@, x))
        =~= sig.args@.map_values(|a: VarTy| join(","@, var_ty_text(a))));
}

/// The same for the names passed on after a receiver in a call: `, x , y`,
/// every argument's name in order.
pub proof fn law_comma_arg_names_lists_every_argument(sig: FnSig)
    ensures
        comma_arg_names_text(sig)
            == sep_join(sig.args@.map_values(|a: VarTy| join(","@, ident_text(a.name))), Seq::empty()),
{
    let parts = sig.args@.map_values(|a: VarTy| ident_text(a.name));
    if sig.args@.len() > 0 {
        lemma_sep_prefixed(parts, ","@);
    }
    assert(parts.map_values(|x: Seq<char>| join(","@, x))
        =~= sig.args@.map_values(|a: VarTy| join(","@, ident_text(a.name))));
}

/// Whether some segment of the path carries generic arguments.
pub open spec fn path_has_generic_args(p: Path) -> bool
    decreases p,
{
    match p {
        Path::From(pid) => pid.tys@.len() > 0,
        Path::Extend(b, pid) => path_has_generic_args(*b) || pid.tys@.len() > 0,
        _ => false,
    }
}

/// A path without generic arguments is written the same way in a type and
/// in an expression: `ty()` and `exprty()` differ only in the `::` that
/// precedes generic arguments.
pub proof fn law_ty_exprty_agree_without_generics(p: Path)
    requires
        !path_has_generic_args(p),
    ensures
        path_text(p, false) == path_text(p, true),
    decreases p,
{
    match p {
        Path::Extend(b, pid) => {
            law_ty_exprty_agree_without_generics(*b);
            assert(path_id_text(pid, false) == path_id_text(pid, true));
        },
        Path::From(pid) => {
            assert(path_id_text(pid, false) == path_id_text(pid, true));
        },
        _ => {},
    }
}

/// In an expression, the generic arguments of a segment are preceded by
/// `::`; in a type they are not.
pub proof fn law_segment_turbofish(pid: PathId)
    requires
        pid.tys@.len() > 0,
    ensures
        path_id_text(pid, true) == join(join(join(join(ident_text(pid.name), "::"@), "<"@),
            types_text(pid.tys@, ","@)), ">"@),
        path_id_text(pid, false) == join(join(join(ident_text(pid.name), "<"@),
            types_text(pid.tys@, ","@)), ">"@),
{
}

// ---------------------------------------------------------------------------
// Writing the pieces out
// ---------------------------------------------------------------------------

impl Identifier {
    /// Appends the identifier as one token.
    pub fn to_tokens(&self, tokens: &mut quote::Tokens)
        ensures
            tokens_text(*final(tokens)) == join(tokens_text(*old(tokens)), ident_text(*self)),
    {
        tokens_append_ident(tokens, self.str.as_str());
    }
}

impl Type {
    /// Appends the type; a path is written as in a type position.
    pub fn to_tokens(&self, tokens: &mut quote::Tokens)
        ensures
            tokens_text(*final(tokens)) == join(tokens_text(*old(tokens)), type_text(*self)),
        decreases self,
    {
        match self {
            Type::Path(path) => {
                let sp = path.ty();
                sp.to_tokens(tokens);
            },
            Type::Array(ty) => {
                tokens_append(tokens, "[");
                ty.to_tokens(tokens);
                tokens_append(tokens, "]");
            },
            Type::Sum(tys) => {
                types_to_tokens(tys, "+", tokens);
            },
        }
    }
}

/// Appends the types of `tys` in order, with `sep` between consecutive ones.
pub(crate) fn types_to_tokens(tys: &Vec<Type>, sep: &str, tokens: &mut quote::Tokens)
    ensures
        tokens_text(*final(tokens)) == join(tokens_text(*old(tokens)), types_text(tys@, sep@)),
    decreases tys,
{
    let mut i: usize = 0;
    assert(tys@.subrange(0, 0) =~= Seq::<Type>::empty());
    while i < tys.len()
        invariant
            0 <= i <= tys@.len(),
            tokens_text(*tokens) == join(
                tokens_text(*old(tokens)),
                types_text(tys@.subrange(0, i as int), sep@),
            ),
        decreases tys@.len() - i,
    {
        let ghost before = tokens_text(*tokens);
        if i > 0 {
            tokens_append(tokens, sep);
        }
        proof {
            assert(decreases_to!(tys => tys@[i as int]));
        }
        tys[i].to_tokens(tokens);
        proof {
            let next = tys@.subrange(0, i + 1);
            assert(next.subrange(0, next.len() - 1) =~= tys@.subrange(0, i as int));
            assert(next.last() == tys@[i as int]);
        }
        i = i + 1;
    }
    assert(tys@.subrange(0, tys@.len() as int) =~= tys@);
}

/// A path together with the way it is written: `cc` is true where it stands
/// in an expression, so that generic arguments are preceded by `::`.
pub struct SepPath<'a> {
    pub cc: bool,
    pub path: &'a Path,
}

/// One path segment together with the way it is written.
pub struct SepPathId<'a> {
    pub cc: bool,
    pub path_id: &'a PathId,
}

impl Path {
    /// The path as written in a type position: `Vec<u32>`.
    pub fn ty(&self) -> (r: SepPath<'_>)
        ensures
            r.cc == false,
            *r.path == *self,
    {
        SepPath { cc: false, path: self }
    }

    /// The path as written in an expression: `Vec::<u32>`.
    pub fn exprty(&self) -> (r: SepPath<'_>)
        ensures
            r.cc == true,
            *r.path == *self,
    {
        SepPath { cc: true, path: self }
    }
}

impl<'a> SepPath<'a> {
    pub fn to_tokens(&self, tokens: &mut quote::Tokens)
        ensures
            tokens_text(*final(tokens)) == join(
                tokens_text(*old(tokens)),
                path_text(*self.path, self.cc),
            ),
        decreases *self.path,
    {
        match self.path {
            Path::FromRoot => tokens_append(tokens, "::"),
            Path::FromSelf => tokens_append(tokens, "self"),
            Path::FromSuper => tokens_append(tokens, "super"),
            Path::FromTraitItem(i) => i.to_tokens(tokens),
            Path::From(i) => {
                let i = SepPathId { cc: self.cc, path_id: i };
                i.to_tokens(tokens)
            },
            Path::Extend(b, i) => {
                let b = SepPath { cc: self.cc, path: &**b };
                let i = SepPathId { cc: self.cc, path_id: i };
                b.to_tokens(tokens);
                tokens_append(tokens, "::");
                i.to_tokens(tokens);
            },
        }
    }
}

impl<'a> SepPathId<'a> {
    pub fn to_tokens(&self, tokens: &mut quote::Tokens)
        ensures
            tokens_text(*final(tokens)) == join(
                tokens_text(*old(tokens)),
                path_id_text(*self.path_id, self.cc),
            ),
        decreases *self.path_id,
    {
        self.path_id.name.to_tokens(tokens);
        let tys = &self.path_id.tys;
        if tys.len() != 0 {
            if self.cc {
                tokens_append(tokens, "::");
            }
            tokens_append(tokens, "<");
            types_to_tokens(tys, ",", tokens);
            tokens_append(tokens, ">");
        }
    }
}

impl TraitItemId {
    pub fn to_tokens(&self, tokens: &mut quote::Tokens)
        ensures
            tokens_text(*final(tokens)) == join(tokens_text(*old(tokens)), trait_item_text(*self)),
        decreases *self,
    {
        let trait_ref = self.trait_ref.ty();
        tokens_append(tokens, "<");
        self.self_ty.to_tokens(tokens);
        tokens_append(tokens, "as");
        trait_ref.to_tokens(tokens);
        tokens_append(tokens, ">");
        tokens_append(tokens, "::");
        self.item.to_tokens(tokens);
    }
}


impl VarTy {
    /// Appends `name: ty`.
    pub fn to_tokens(&self, tokens: &mut quote::Tokens)
        ensures
            tokens_text(*final(tokens)) == join(tokens_text(*old(tokens)), var_ty_text(*self)),
    {
        self.name.to_tokens(tokens);
        tokens_append(tokens, ":");
        self.ty.to_tokens(tokens);
    }
}

/// Which part of each argument a list of arguments is written with.
pub(crate) enum ArgPart {
    /// `name: ty`
    Decl,
    /// `name`
    Name,
    /// `ty`
    Ty,
}

pub(crate) open spec fn arg_part_text(part: ArgPart, a: VarTy) -> Seq<char> {
    match part {
        ArgPart::Decl => var_ty_text(a),
        ArgPart::Name => ident_text(a.name),
        ArgPart::Ty => type_text(a.ty),
    }
}

/// Appends the chosen part of each argument, separated by `,`.
pub(crate) fn args_to_tokens(args: &Vec<VarTy>, part: ArgPart, tokens: &mut quote::Tokens)
    ensures
        tokens_text(*final(tokens)) == join(
            tokens_text(*old(tokens)),
            sep_join(args@.map_values(|a: VarTy| arg_part_text(part, a)), ","@),
        ),
{
    let ghost parts = args@.map_values(|a: VarTy| arg_part_text(part, a));
    let mut i: usize = 0;
    assert(parts.subrange(0, 0) =~= Seq::<Seq<char>>::empty());
    while i < args.len()
        invariant
            0 <= i <= args@.len(),
            parts == args@.map_values(|a: VarTy| arg_part_text(part, a)),
            tokens_text(*tokens) == join(
                tokens_text(*old(tokens)),
                sep_join(parts.subrange(0, i as int), ","@),
            ),
        decreases args@.len() - i,
    {
        if i > 0 {
            tokens_append(tokens, ",");
        }
        let a = &args[i];
        match part {
            ArgPart::Decl => a.to_tokens(tokens),
            ArgPart::Name => a.name.to_tokens(tokens),
            ArgPart::Ty => a.ty.to_tokens(tokens),
        }
        proof {
            lemma_sep_join_step(parts, ","@, i as int);
        }
        i = i + 1;
    }
    proof {
        lemma_sep_join_full(parts, ","@);
    }
}

/// The arguments of a signature written as declarations.
pub struct ArgDecls<'a> {
    pub sig: &'a FnSig,
}

/// The arguments of a signature written as names.
pub struct ArgNames<'a> {
    pub sig: &'a FnSig,
}

/// The return type of a signature written as `-> ty`.
pub struct ReturnTy<'a> {
    pub sig: &'a FnSig,
}

/// Helpers for writing out the parts of a method signature; for each, take
/// the method `fn get(&self, x: u32, y: u32) -> u32`.
impl FnSig {
    /// Generates `x: u32, y: u32`.
    pub fn arg_decls(&self) -> (r: ArgDecls<'_>)
        ensures
            *r.sig == *self,
    {
        ArgDecls { sig: self }
    }

    /// Generates `x, y`.
    pub fn arg_names(&self) -> (r: ArgNames<'_>)
        ensures
            *r.sig == *self,
    {
        ArgNames { sig: self }
    }

    /// Generates `-> u32`, or nothing for a method that returns `()`.
    pub fn return_ty(&self) -> (r: ReturnTy<'_>)
        ensures
            *r.sig == *self,
    {
        ReturnTy { sig: self }
    }
}

impl<'a> ArgDecls<'a> {
    pub fn to_tokens(&self, tokens: &mut quote::Tokens)
        ensures
            tokens_text(*final(tokens)) == join(tokens_text(*old(tokens)), arg_decls_text(*self.sig)),
    {
        args_to_tokens(&self.sig.args, ArgPart::Decl, tokens);
        assert(self.sig.args@.map_values(|a: VarTy| arg_part_text(ArgPart::Decl, a))
            =~= self.sig.args@.map_values(|a: VarTy| var_ty_text(a)));
    }
}

impl<'a> ArgNames<'a> {
    pub fn to_tokens(&self, tokens: &mut quote::Tokens)
        ensures
            tokens_text(*final(tokens)) == join(tokens_text(*old(tokens)), arg_names_text(*self.sig)),
    {
        args_to_tokens(&self.sig.args, ArgPart::Name, tokens);
        assert(self.sig.args@.map_values(|a: VarTy| arg_part_text(ArgPart::Name, a))
            =~= self.sig.args@.map_values(|a: VarTy| ident_text(a.name)));
    }
}

/// Appends the fields of a struct, separated by commas.
pub(crate) fn fields_to_tokens(fields: &Vec<VarTy>, tokens: &mut quote::Tokens)
    ensures
        tokens_text(*final(tokens)) == join(tokens_text(*old(tokens)), fields_text(fields@)),
{
    args_to_tokens(fields, ArgPart::Decl, tokens);
    assert(fields@.map_values(|a: VarTy| arg_part_text(ArgPart::Decl, a))
        =~= fields@.map_values(|f: VarTy| var_ty_text(f)));
}

/// Appends `, x: u32, y: u32`, or nothing when there are no arguments.
pub(crate) fn comma_arg_decls_to_tokens(sig: &FnSig, tokens: &mut quote::Tokens)
    ensures
        tokens_text(*final(tokens)) == join(tokens_text(*old(tokens)), comma_arg_decls_text(*sig)),
{
    if sig.args.len() != 0 {
        tokens_append(tokens, ",");
        sig.arg_decls().to_tokens(tokens);
    }
}

/// Appends `, x, y`, or nothing when there are no arguments.
pub(crate) fn comma_arg_names_to_tokens(sig: &FnSig, tokens: &mut quote::Tokens)
    ensures
        tokens_text(*final(tokens)) == join(tokens_text(*old(tokens)), comma_arg_names_text(*sig)),
{
    if sig.args.len() != 0 {
        tokens_append(tokens, ",");
        sig.arg_names().to_tokens(tokens);
    }
}

impl<'a> ReturnTy<'a> {
    pub fn to_tokens(&self, tokens: &mut quote::Tokens)
        ensures
            tokens_text(*final(tokens)) == join(tokens_text(*old(tokens)), return_ty_text(*self.sig)),
    {
        if let Some(return_ty) = &self.sig.return_ty {
            tokens_append(tokens, "->");
            return_ty.to_tokens(tokens);
        }
    }
}

impl CodeBlock {
    pub fn to_tokens(&self, tokens: &mut quote::Tokens)
        ensures
            tokens_text(*final(tokens)) == join(tokens_text(*old(tokens)), code_text(*self)),
    {
        tokens_append_tokens(tokens, &self.tokens);
    }
}

/// An identifier written as a NUL-terminated byte string literal.
pub struct ByteString<'a>(pub &'a Identifier);

impl<'a> ByteString<'a> {
    /// Appends `b"Name\0"` as one token.  The identifier is a legal Rust
    /// identifier, so it holds nothing that would need escaping.
    pub fn to_tokens(&self, tokens: &mut quote::Tokens)
        ensures
            tokens_text(*final(tokens)) == join(tokens_text(*old(tokens)), byte_string_text(*self.0)),
    {
        let mut s = String::from_str("b\"");
        s.append(self.0.str.as_str());
        s.append("\\0\"");
        tokens_append(tokens, s.as_str());
    }
}

/// The type of a method's function pointer, for the class `class_name`.
pub struct MethodTy<'a> {
    pub class_name: &'a Identifier,
    pub sig: &'a FnSig,
}

impl<'a> MethodTy<'a> {
    pub fn to_tokens(&self, tokens: &mut quote::Tokens)
        ensures
            tokens_text(*final(tokens)) == join(
                tokens_text(*old(tokens)),
                method_ty_text(*self.class_name, *self.sig),
            ),
    {
        let return_ty = self.sig.return_ty();
        tokens_append(tokens, "extern");
        tokens_append(tokens, "fn");
        tokens_append(tokens, "(");
        tokens_append(tokens, "&");
        self.class_name.to_tokens(tokens);
        tokens_append(tokens, ",");
        args_to_tokens(&self.sig.args, ArgPart::Ty, tokens);
        assert(self.sig.args@.map_values(|a: VarTy| arg_part_text(ArgPart::Ty, a))
            =~= self.sig.args@.map_values(|a: VarTy| type_text(a.ty)));
        tokens_append(tokens, ")");
        return_ty.to_tokens(tokens);
    }
}

} // verus!
