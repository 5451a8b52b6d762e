//! Generation of the Rust code that implements each class as a GObject type.
//!
//! Every generator returns `quote::Tokens`; its contract gives the exact text
//! of those tokens as a template over the class it was built from.

use vstd::prelude::*;
use crate::ast::{Identifier, Program, Class, Member, PrivateStruct, Method, Signal, CodeBlock, VarTy};
use crate::render::{ident_text, path_text, code_text, byte_string_text,
    arg_decls_text, arg_names_text, return_ty_text, method_ty_text, ByteString, MethodTy,
    comma_arg_decls_text, comma_arg_names_text,
    comma_arg_decls_to_tokens, comma_arg_names_to_tokens, fields_text,
    fields_to_tokens, law_comma_arg_names_lists_every_argument,
    law_comma_arg_decls_lists_every_argument, var_ty_text};
use crate::text::{join, lemma_join_assoc, sep_join, lemma_sep_join_concat, lemma_sep_join_step, lemma_sep_join_full, tokens_text,
    tokens_new, tokens_append, tokens_append_ident, tokens_append_tokens, tokens_append_all,
    tokens_append_all_prefixed, lemma_prefixed_map, tokens_clone, ends_with,
    lemma_join3_ends_with, starts_with, lemma_join_keeps_prefix, lemma_starts_with_self};
use crate::case::{lower_first, char_to_lowercase};

verus! {

/// Why code could not be generated for a class.
pub enum GenError {
    /// The class declares no private struct.
    NoPrivateStruct,
}

impl GenError {
    /// The message that describes the error.
    pub fn message(&self) -> (r: &'static str)
        ensures
            r@ == "no private struct found"@,
    {
        match self {
            GenError::NoPrivateStruct => "no private struct found",
        }
    }
}

// ---------------------------------------------------------------------------
// What a class declares
// ---------------------------------------------------------------------------

/// The first private struct among `ms`, if any.
pub open spec fn first_private_struct(ms: Seq<Member>) -> Option<PrivateStruct>
    decreases ms.len(),
{
    if ms.len() == 0 {
        None
    } else {
        match ms[0] {
            Member::PrivateStruct(ps) => Some(ps),
            _ => first_private_struct(ms.drop_first()),
        }
    }
}

/// The body of the first `private_init()` among `ms`, if any.
pub open spec fn first_private_init(ms: Seq<Member>) -> Option<CodeBlock>
    decreases ms.len(),
{
    if ms.len() == 0 {
        None
    } else {
        match ms[0] {
            Member::PrivateInit(f) => Some(f),
            _ => first_private_init(ms.drop_first()),
        }
    }
}

/// The methods among `ms`, in order.
pub open spec fn methods_of(ms: Seq<Member>) -> Seq<Method>
    decreases ms.len(),
{
    if ms.len() == 0 {
        Seq::empty()
    } else {
        let rest = methods_of(ms.drop_last());
        match ms.last() {
            Member::Method(m) => rest.push(m),
            _ => rest,
        }
    }
}

/// The signals among `ms`, in order.
pub open spec fn signals_of(ms: Seq<Member>) -> Seq<Signal>
    decreases ms.len(),
{
    if ms.len() == 0 {
        Seq::empty()
    } else {
        let rest = signals_of(ms.drop_last());
        match ms.last() {
            Member::Signal(s) => rest.push(s),
            _ => rest,
        }
    }
}

pub open spec fn has_private_struct(c: Class) -> bool {
    first_private_struct(c.members@) is Some
}

/// The private struct of a class that has one.
pub open spec fn private_struct_of(c: Class) -> PrivateStruct {
    first_private_struct(c.members@).unwrap()
}

// ---------------------------------------------------------------------------
// Names derived from the class name
// ---------------------------------------------------------------------------

pub open spec fn class_name_text(c: Class) -> Seq<char> {
    ident_text(c.name)
}

/// `FooMod`: the module that holds everything generated for `Foo`.
pub open spec fn module_name_text(c: Class) -> Seq<char> {
    class_name_text(c) + "Mod"@
}

/// `FooFields`.
pub open spec fn fields_name_text(c: Class) -> Seq<char> {
    class_name_text(c) + "Fields"@
}

/// `FooClass`: the class structure.
pub open spec fn gclass_name_text(c: Class) -> Seq<char> {
    class_name_text(c) + "Class"@
}

/// `FooClassPrivate`: the class-wide private data.
pub open spec fn private_class_name_text(c: Class) -> Seq<char> {
    class_name_text(c) + "ClassPrivate"@
}

/// `__methods_from_Foo`.
pub open spec fn methods_from_text(c: Class) -> Seq<char> {
    "__methods_from_"@ + class_name_text(c)
}

/// `FooExt`: the public trait with all the class's methods.
pub open spec fn instance_ext_name_text(c: Class) -> Seq<char> {
    class_name_text(c) + "Ext"@
}

/// `foo`: the class name with its first letter lower-cased.
pub open spec fn lower_case_class_name_text(c: Class) -> Seq<char> {
    lower_first(class_name_text(c))
}

/// `foo_get_type`.
pub open spec fn get_type_fn_name_text(c: Class) -> Seq<char> {
    lower_case_class_name_text(c) + "_get_type"@
}

/// The name of the private struct.
pub open spec fn private_name_text(c: Class) -> Seq<char> {
    ident_text(private_struct_of(c).name)
}

/// The parent instance type: the class it extends, else `glib::Object`.
pub open spec fn parent_instance_text(c: Class) -> Seq<char> {
    match c.extends {
        Some(p) => path_text(p, false),
        None => "glib :: Object"@,
    }
}

/// The parent instance's FFI type: the class it extends, else
/// `gobject_ffi::GObject`.
pub open spec fn parent_instance_ffi_text(c: Class) -> Seq<char> {
    match c.extends {
        Some(p) => path_text(p, false),
        None => "gobject_ffi :: GObject"@,
    }
}

/// `<Parent as glib::wrapper::Wrapper>::GlibClassType`: the parent's class structure.
pub open spec fn parent_class_ffi_text(c: Class) -> Seq<char> {
    join(join("<"@, parent_instance_text(c)), "as glib :: wrapper :: Wrapper > :: GlibClassType"@)
}

// ---------------------------------------------------------------------------
// The context of one class
// ---------------------------------------------------------------------------

/// Everything needed to generate the code of one class: the class, its
/// private struct, and the names and types derived from them.  The fields
/// are private: every context agrees with its class (`wf`, the type's
/// invariant), so the generators ask nothing of the context they run on.
#[allow(non_snake_case, dead_code)]
pub struct ClassContext<'ast> {
    program: &'ast Program,
    class: &'ast Class,
    private_struct: &'ast PrivateStruct,
    ModuleName: Identifier,
    FieldsName: Identifier,
    GClassName: Identifier,
    PrivateClassName: Identifier,
    MethodsFrom: Identifier,
    ParentInstance: quote::Tokens,
    ParentInstanceFfi: quote::Tokens,
    ParentClassFfi: quote::Tokens,
    GObject: quote::Tokens,
    GObjectFfi: quote::Tokens,
    GObjectClassFfi: quote::Tokens,
    InstanceExt: Identifier,
}

/// `prefix + name + suffix`, as an identifier.
fn derived_name(prefix: &str, name: &Identifier, suffix: &str) -> (r: Identifier)
    ensures
        r.str@ == prefix@ + name.str@ + suffix@,
{
    let mut s = String::from_str(prefix);
    s.append(name.str.as_str());
    s.append(suffix);
    Identifier { str: s }
}

/// `name + suffix`, as an identifier.
fn suffixed_name(name: &Identifier, suffix: &str) -> (r: Identifier)
    ensures
        r.str@ == name.str@ + suffix@,
{
    let mut s = name.str.clone();
    s.append(suffix);
    Identifier { str: s }
}

impl<'ast> ClassContext<'ast> {
    /// The class the context was built from.
    pub closed spec fn class_of(&self) -> Class {
        *self.class
    }

    /// The program the context was built for.
    pub closed spec fn program_of(&self) -> Program {
        *self.program
    }

    /// The context agrees with the class it was built from.
    #[verifier::type_invariant]
    spec fn wf(&self) -> bool {
        let c = *self.class;
        &&& first_private_struct(c.members@) == Some(*self.private_struct)
        &&& self.ModuleName.str@ == module_name_text(c)
        &&& self.FieldsName.str@ == fields_name_text(c)
        &&& self.GClassName.str@ == gclass_name_text(c)
        &&& self.PrivateClassName.str@ == private_class_name_text(c)
        &&& self.MethodsFrom.str@ == methods_from_text(c)
        &&& self.InstanceExt.str@ == instance_ext_name_text(c)
        &&& tokens_text(self.ParentInstance) == parent_instance_text(c)
        &&& tokens_text(self.ParentInstanceFfi) == parent_instance_ffi_text(c)
        &&& tokens_text(self.ParentClassFfi) == parent_class_ffi_text(c)
        &&& tokens_text(self.GObject) == "glib :: Object"@
        &&& tokens_text(self.GObjectFfi) == "gobject_ffi :: GObject"@
        &&& tokens_text(self.GObjectClassFfi) == "gobject_ffi :: GObjectClass"@
    }

    /// Builds the context of `class`; fails when the class declares no
    /// private struct.
    #[allow(non_snake_case)]
    pub fn new(program: &'ast Program, class: &'ast Class) -> (r: Result<Self, GenError>)
        ensures
            r is Ok <==> has_private_struct(*class),
            r matches Ok(cx) ==> cx.class_of() == *class && cx.program_of() == *program,
            r matches Err(e) ==> e is NoPrivateStruct,
    {
        let mut private_struct: Option<&'ast PrivateStruct> = None;
        let mut i: usize = 0;
        assert(class.members@.subrange(0, class.members@.len() as int) =~= class.members@);
        while i < class.members.len()
            invariant_except_break
                0 <= i <= class.members@.len(),
                private_struct is None,
                first_private_struct(class.members@)
                    == first_private_struct(class.members@.subrange(i as int, class.members@.len() as int)),
            ensures
                private_struct matches Some(ps) ==> first_private_struct(class.members@) == Some(*ps),
                private_struct is None ==> first_private_struct(class.members@) is None,
            decreases class.members@.len() - i,
        {
            let ghost rest = class.members@.subrange(i as int, class.members@.len() as int);
            assert(rest.drop_first() =~= class.members@.subrange(i + 1, class.members@.len() as int));
            if let Member::PrivateStruct(ps) = &class.members[i] {
                private_struct = Some(ps);
                break;
            }
            i = i + 1;
        }
        proof {
            if private_struct is None {
                assert(class.members@.subrange(class.members@.len() as int, class.members@.len() as int)
                    =~= Seq::<Member>::empty());
            }
        }
        let private_struct = match private_struct {
            Some(p) => p,
            None => return Err(GenError::NoPrivateStruct),
        };

        let ModuleName = derived_name("", &class.name, "Mod");
        let FieldsName = derived_name("", &class.name, "Fields");
        let GClassName = derived_name("", &class.name, "Class");
        let PrivateClassName = derived_name("", &class.name, "ClassPrivate");

        let mut GObject = tokens_new();
        tokens_append(&mut GObject, "glib :: Object");
        let mut GObjectFfi = tokens_new();
        tokens_append(&mut GObjectFfi, "gobject_ffi :: GObject");
        let mut GObjectClassFfi = tokens_new();
        tokens_append(&mut GObjectClassFfi, "gobject_ffi :: GObjectClass");

        // GObject is hardcoded in various places below
        let ParentInstance = match &class.extends {
            Some(c) => {
                let mut t = tokens_new();
                c.ty().to_tokens(&mut t);
                t
            },
            None => tokens_clone(&GObject),
        };
        let ParentInstanceFfi = match &class.extends {
            Some(c) => {
                let mut t = tokens_new();
                c.ty().to_tokens(&mut t);
                t
            },
            None => tokens_clone(&GObjectFfi),
        };
        let mut ParentClassFfi = tokens_new();
        tokens_append(&mut ParentClassFfi, "<");
        tokens_append_tokens(&mut ParentClassFfi, &ParentInstance);
        tokens_append(&mut ParentClassFfi, "as glib :: wrapper :: Wrapper > :: GlibClassType");

        let MethodsFrom = derived_name("__methods_from_", &class.name, "");

        // Public trait with all the class's methods
        let InstanceExt = derived_name("", &class.name, "Ext");

        proof {
            reveal_strlit("");
            assert(""@ + class.name.str@ + "Mod"@ =~= module_name_text(*class));
            assert(""@ + class.name.str@ + "Fields"@ =~= fields_name_text(*class));
            assert(""@ + class.name.str@ + "Class"@ =~= gclass_name_text(*class));
            assert(""@ + class.name.str@ + "ClassPrivate"@ =~= private_class_name_text(*class));
            assert("__methods_from_"@ + class.name.str@ + ""@ =~= methods_from_text(*class));
            assert(""@ + class.name.str@ + "Ext"@ =~= instance_ext_name_text(*class));
        }

        Ok(ClassContext {
            program,
            class,
            private_struct,
            ModuleName,
            FieldsName,
            GClassName,
            PrivateClassName,
            MethodsFrom,
            ParentInstance,
            ParentInstanceFfi,
            ParentClassFfi,
            GObject,
            GObjectFfi,
            GObjectClassFfi,
            InstanceExt,
        })
    }
}

// ---------------------------------------------------------------------------
// Templates of the generated code
// ---------------------------------------------------------------------------

/// `let _guard = glib::CallbackGuard::new();`
pub open spec fn callback_guard_text() -> Seq<char> {
    "let _guard = glib :: CallbackGuard :: new ( ) ;"@
}

/// The slot of a method in the class structure:
/// `pub foo: Option<unsafe extern "C" fn(this: *mut Foo, arg: u32) -> u32>,`
pub open spec fn slot_text(c: Class, m: Method) -> Seq<char> {
    let t = "pub"@;
    let t = join(t, ident_text(m.name));
    let t = join(t, ": Option < unsafe extern \"C\" fn ( this : * mut"@);
    let t = join(t, class_name_text(c));
    let t = join(t, comma_arg_decls_text(m.fn_def.sig));
    let t = join(t, ")"@);
    let t = join(t, return_ty_text(m.fn_def.sig));
    let t = join(t, "> ,"@);
    t
}

/// `klass.foo = Some(Foo::foo_trampoline);`
pub open spec fn slot_assignment_text(c: Class, m: Method) -> Seq<char> {
    let t = "klass ."@;
    let t = join(t, ident_text(m.name));
    let t = join(t, "= Some ("@);
    let t = join(t, class_name_text(c));
    let t = join(t, "::"@);
    let t = join(t, ident_text(m.name) + "_trampoline"@);
    let t = join(t, ") ;"@);
    t
}

/// `fn foo_impl(&self, arg: u32) -> u32 { ... }`: the method's own code.
pub open spec fn instance_method_impl_text(c: Class, m: Method) -> Seq<char> {
    let t = "fn"@;
    let t = join(t, ident_text(m.name) + "_impl"@);
    let t = join(t, "( & self"@);
    let t = join(t, comma_arg_decls_text(m.fn_def.sig));
    let t = join(t, ")"@);
    let t = join(t, return_ty_text(m.fn_def.sig));
    let t = join(t, code_text(m.fn_def.code));
    t
}

/// `foo_trampoline`, through which the class structure calls `foo_impl`.
pub open spec fn instance_method_trampoline_text(c: Class, m: Method) -> Seq<char> {
    let t = "unsafe extern \"C\" fn"@;
    let t = join(t, ident_text(m.name) + "_trampoline"@);
    let t = join(t, "( this : * mut"@);
    let t = join(t, class_name_text(c));
    let t = join(t, comma_arg_decls_text(m.fn_def.sig));
    let t = join(t, ")"@);
    let t = join(t, return_ty_text(m.fn_def.sig));
    let t = join(t, "{"@);
    let t = join(t, callback_guard_text());
    let t = join(t, "let instance : & super ::"@);
    let t = join(t, class_name_text(c));
    let t = join(t, "= & from_glib_borrow ( this ) ; instance ."@);
    let t = join(t, ident_text(m.name) + "_impl"@);
    let t = join(t, "("@);
    let t = join(t, arg_names_text(m.fn_def.sig));
    let t = join(t, ") }"@);
    t
}

/// The exported C function `foo_method()`, which calls the method's slot.
pub open spec fn imp_extern_method_text(c: Class, m: Method) -> Seq<char> {
    let t = "# [ no_mangle ] pub unsafe extern \"C\" fn"@;
    let t = join(t, lower_case_class_name_text(c) + "_"@ + ident_text(m.name));
    let t = join(t, "( this : * mut"@);
    let t = join(t, class_name_text(c));
    let t = join(t, comma_arg_decls_text(m.fn_def.sig));
    let t = join(t, ")"@);
    let t = join(t, return_ty_text(m.fn_def.sig));
    let t = join(t, "{"@);
    let t = join(t, callback_guard_text());
    let t = join(t, "let klass = ( * this ) . get_class ( ) ; ( klass ."@);
    let t = join(t, ident_text(m.name));
    let t = join(t, ". as_ref ( ) . unwrap ( ) ) ( this"@);
    let t = join(t, comma_arg_names_text(m.fn_def.sig));
    let t = join(t, ") }"@);
    t
}

/// `fn foo(&self, arg: u32);`
pub open spec fn method_trait_fn_text(c: Class, m: Method) -> Seq<char> {
    let t = "fn"@;
    let t = join(t, ident_text(m.name));
    let t = join(t, "( & self ,"@);
    let t = join(t, arg_decls_text(m.fn_def.sig));
    let t = join(t, ")"@);
    let t = join(t, return_ty_text(m.fn_def.sig));
    let t = join(t, ";"@);
    t
}

/// `fn foo(&self, arg: u32) -> u32 { unsafe { imp::klass_foo(self.to_glib_none().0, arg) } }`
pub open spec fn instance_ext_method_text(c: Class, m: Method) -> Seq<char> {
    let t = "fn"@;
    let t = join(t, ident_text(m.name));
    let t = join(t, "( & self"@);
    let t = join(t, comma_arg_decls_text(m.fn_def.sig));
    let t = join(t, ")"@);
    let t = join(t, return_ty_text(m.fn_def.sig));
    let t = join(t, "{ unsafe { imp ::"@);
    let t = join(t, lower_case_class_name_text(c) + "_"@ + ident_text(m.name));
    let t = join(t, "( self . to_glib_none ( ) . 0"@);
    let t = join(t, comma_arg_names_text(m.fn_def.sig));
    let t = join(t, ") } }"@);
    t
}

/// `fn foo(&self, arg: u32) { ... }`
pub open spec fn method_impl_fn_text(c: Class, m: Method) -> Seq<char> {
    let t = "fn"@;
    let t = join(t, ident_text(m.name));
    let t = join(t, "( & self ,"@);
    let t = join(t, arg_decls_text(m.fn_def.sig));
    let t = join(t, ")"@);
    let t = join(t, return_ty_text(m.fn_def.sig));
    let t = join(t, code_text(m.fn_def.code));
    t
}

/// `fn foo(&self, arg: u32) { (get_class(self).foo.unwrap())(self, arg) }`
pub open spec fn method_redirect_text(c: Class, m: Method) -> Seq<char> {
    let t = "fn"@;
    let t = join(t, ident_text(m.name));
    let t = join(t, "( & self ,"@);
    let t = join(t, arg_decls_text(m.fn_def.sig));
    let t = join(t, ")"@);
    let t = join(t, return_ty_text(m.fn_def.sig));
    let t = join(t, "{ let klass = :: gnome_class_shims :: get_class ( self ) ; ( klass ."@);
    let t = join(t, ident_text(m.name));
    let t = join(t, ". unwrap ( ) ) ( self ,"@);
    let t = join(t, arg_names_text(m.fn_def.sig));
    let t = join(t, ") }"@);
    t
}

/// `klass.foo = Some(<Foo as __methods_from_Foo::Trait>::foo);`
pub open spec fn method_assignment_text(c: Class, m: Method) -> Seq<char> {
    let t = "klass ."@;
    let t = join(t, ident_text(m.name));
    let t = join(t, "= Some ( <"@);
    let t = join(t, class_name_text(c));
    let t = join(t, "as"@);
    let t = join(t, methods_from_text(c));
    let t = join(t, ":: Trait > ::"@);
    let t = join(t, ident_text(m.name));
    let t = join(t, ") ;"@);
    t
}

/// `extern fn(&Foo, u32) -> u32`
pub open spec fn method_fn_ty_text(c: Class, m: Method) -> Seq<char> {
    method_ty_text(c.name, m.fn_def.sig)
}

/// The registration of a signal with `g_signal_newv()`, whose id is stored
/// in the class structure.
pub open spec fn signal_declaration_text(c: Class, s: Signal) -> Seq<char> {
    let t = "klass ."@;
    let t = join(t, ident_text(s.name) + "_signal_id"@);
    let t = join(t, "= gobject_sys :: g_signal_newv ("@);
    let t = join(t, byte_string_text(s.name));
    let t = join(t, "as * const u8 as * const i8 , ( * g_object_class ) . g_type_class . \
        g_type , gobject_sys :: G_SIGNAL_RUN_FIRST , ptr :: null_mut ( ) , None \
        , ptr :: null_mut ( ) , None , gobject_sys :: G_TYPE_NONE , 0 , ptr :: \
        null_mut ( ) ) ;"@);
    t
}

/// The crates and names that the generated module uses.
pub open spec fn imports_text() -> Seq<char> {
    "extern crate glib_sys as glib_ffi ; extern crate gobject_sys as \
        gobject_ffi ; extern crate glib ; extern crate libc ; use glib :: { IsA \
        , Value } ; use glib :: object :: Downcast ; use glib :: signal :: \
        connect ; use glib :: translate :: * ; use std :: ptr ; use std :: mem ; \
        use std :: mem :: transmute ; use super :: * ;"@
}

/// The `glib_wrapper!` invocation that declares the public instance type.
pub open spec fn glib_wrapper_text(c: Class) -> Seq<char> {
    let t = "glib_wrapper ! { pub struct"@;
    let t = join(t, class_name_text(c));
    let t = join(t, "( Object < imp ::"@);
    let t = join(t, class_name_text(c));
    let t = join(t, "> ) ; match fn { get_type => || imp ::"@);
    let t = join(t, get_type_fn_name_text(c));
    let t = join(t, "( ) , } }"@);
    t
}

/// The C layout of an instance: the parent instance.
pub open spec fn imp_instance_struct_text(c: Class) -> Seq<char> {
    let t = "# [ repr ( C ) ] pub struct"@;
    let t = join(t, class_name_text(c));
    let t = join(t, "{ pub parent :"@);
    let t = join(t, parent_instance_ffi_text(c));
    let t = join(t, ", }"@);
    t
}

/// The C layout of the class structure: the parent class, then a slot per
/// method.
pub open spec fn imp_class_struct_text(c: Class) -> Seq<char> {
    let t = "# [ repr ( C ) ] pub struct"@;
    let t = join(t, gclass_name_text(c));
    let t = join(t, "{ pub parent_class :"@);
    let t = join(t, parent_class_ffi_text(c));
    let t = join(t, ","@);
    let t = join(t, sep_join(methods_of(c.members@).map_values(|x: Method| slot_text(c, x)), Seq::empty()));
    let t = join(t, "}"@);
    t
}

/// The enumeration of properties; the first one starts at 1.
pub open spec fn imp_properties_enum_text() -> Seq<char> {
    "# [ repr ( u32 ) ] enum Properties { FIXMEDummy = 1 , }"@
}

/// The enumeration of signals; the first one starts at 0.
pub open spec fn imp_signals_enum_text() -> Seq<char> {
    "# [ repr ( u32 ) ] enum Signals { FIXMEDummy = 0 , }"@
}

/// The exported `foo_get_type()`, which registers the type on its first call.
pub open spec fn imp_get_type_fn_text(c: Class) -> Seq<char> {
    let t = "# [ no_mangle ] pub unsafe extern \"C\" fn"@;
    let t = join(t, get_type_fn_name_text(c));
    let t = join(t, "( ) -> glib_ffi :: GType {"@);
    let t = join(t, callback_guard_text());
    let t = join(t, "use std :: sync :: { Once , ONCE_INIT } ; use std :: u16 ; static mut \
        TYPE : glib_ffi :: GType = gobject_ffi :: G_TYPE_INVALID ; static ONCE : \
        Once = ONCE_INIT ; ONCE . call_once ( || { let class_size = mem :: \
        size_of :: <"@);
    let t = join(t, gclass_name_text(c));
    let t = join(t, "> ( ) ; assert ! ( class_size <= u16 :: MAX as usize ) ; let \
        instance_size = mem :: size_of :: <"@);
    let t = join(t, class_name_text(c));
    let t = join(t, "> ( ) ; assert ! ( instance_size <= u16 :: MAX as usize ) ; TYPE = \
        gobject_ffi :: g_type_register_static_simple ( <"@);
    let t = join(t, parent_instance_text(c));
    let t = join(t, "as glib :: StaticType > :: static_type ( ) . to_glib ( ) ,"@);
    let t = join(t, byte_string_text(c.name));
    let t = join(t, "as * const u8 as * const i8 , class_size as u32 , Some ("@);
    let t = join(t, gclass_name_text(c));
    let t = join(t, ":: init ) , instance_size as u32 , Some ("@);
    let t = join(t, class_name_text(c));
    let t = join(t, ":: init ) , gobject_ffi :: GTypeFlags :: empty ( ) ) ; } ) ; TYPE }"@);
    t
}

/// `get_class()`: the class structure of an instance.
pub open spec fn instance_get_class_fn_text(c: Class) -> Seq<char> {
    let t = "fn get_class ( & self ) -> &"@;
    let t = join(t, gclass_name_text(c));
    let t = join(t, "{ unsafe { let klass = ( * ( self as * const _ as * const gobject_ffi :: \
        GTypeInstance ) ) . g_class ; & * ( klass as * const"@);
    let t = join(t, gclass_name_text(c));
    let t = join(t, ") } }"@);
    t
}

/// `get_priv()`: the private data of an instance.
pub open spec fn instance_get_priv_fn_text(c: Class) -> Seq<char> {
    let t = "fn get_priv ( & self ) -> &"@;
    let t = join(t, private_name_text(c));
    let t = join(t, "{ unsafe { let private = gobject_ffi :: g_type_instance_get_private ( < \
        Self as ToGlibPtr < * mut"@);
    let t = join(t, class_name_text(c));
    let t = join(t, "> > :: to_glib_none ( self ) . 0 as * mut gobject_ffi :: GTypeInstance ,"@);
    let t = join(t, get_type_fn_name_text(c));
    let t = join(t, "( ) , ) as * const Option <"@);
    let t = join(t, private_name_text(c));
    let t = join(t, "> ; ( & * private ) . as_ref ( ) . unwrap ( ) } }"@);
    t
}

/// The methods of the public instance type: `get_priv()` and the
/// implementation of each method.
pub open spec fn instance_private_impl_text(c: Class) -> Seq<char> {
    let t = "impl super ::"@;
    let t = join(t, class_name_text(c));
    let t = join(t, "{"@);
    let t = join(t, instance_get_priv_fn_text(c));
    let t = join(t, sep_join(methods_of(c.members@).map_values(|x: Method| instance_method_impl_text(c, x)), Seq::empty()));
    let t = join(t, "}"@);
    t
}

/// The instance initializer, which writes a new private struct into the
/// instance's private data.
pub open spec fn instance_init_fn_text(c: Class) -> Seq<char> {
    let t = "unsafe extern \"C\" fn init ( obj : * mut gobject_ffi :: GTypeInstance , \
        _klass : glib_ffi :: gpointer , ) {"@;
    let t = join(t, callback_guard_text());
    let t = join(t, "let private = gobject_ffi :: g_type_instance_get_private ( obj ,"@);
    let t = join(t, get_type_fn_name_text(c));
    let t = join(t, "( ) ) as * mut Option <"@);
    let t = join(t, private_name_text(c));
    let t = join(t, "> ; ptr :: write ( private , Some ("@);
    let t = join(t, private_name_text(c));
    let t = join(t, ":: new ( ) ) ) ; }"@);
    t
}

/// The finalizer, which drops the private data and then calls the parent
/// class's finalizer.
pub open spec fn instance_finalize_fn_text(c: Class) -> Seq<char> {
    let t = "unsafe extern \"C\" fn finalize ( obj : * mut gobject_ffi :: GObject ) {"@;
    let t = join(t, callback_guard_text());
    let t = join(t, "let private = gobject_ffi :: g_type_instance_get_private ( obj as * mut \
        gobject_ffi :: GTypeInstance ,"@);
    let t = join(t, get_type_fn_name_text(c));
    let t = join(t, "( ) , ) as * mut Option <"@);
    let t = join(t, private_name_text(c));
    let t = join(t, "> ; let _ = ( * private ) . take ( ) ; ( * PRIV . parent_class ) . \
        finalize . map ( | f | f ( obj ) ) ; }"@);
    t
}

/// The methods of the instance structure: `get_class()`, `init`, `finalize`
/// and the method trampolines.
pub open spec fn imp_instance_text(c: Class) -> Seq<char> {
    let t = "impl"@;
    let t = join(t, class_name_text(c));
    let t = join(t, "{"@);
    let t = join(t, instance_get_class_fn_text(c));
    let t = join(t, instance_init_fn_text(c));
    let t = join(t, instance_finalize_fn_text(c));
    let t = join(t, sep_join(methods_of(c.members@).map_values(|x: Method| instance_method_trampoline_text(c, x)), Seq::empty()));
    let t = join(t, "}"@);
    t
}

/// The class initializer: reserves the private data, sets the finalizer,
/// fills each method's slot with its trampoline and records the parent
/// class.
pub open spec fn class_init_fn_text(c: Class) -> Seq<char> {
    let t = "unsafe extern \"C\" fn init ( klass : glib_ffi :: gpointer , _klass_data \
        : glib_ffi :: gpointer ) {"@;
    let t = join(t, callback_guard_text());
    let t = join(t, "gobject_ffi :: g_type_class_add_private ( klass , mem :: size_of :: < \
        Option <"@);
    let t = join(t, private_name_text(c));
    let t = join(t, "> > ( ) ) ; { let gobject_class = & mut * ( klass as * mut gobject_ffi \
        :: GObjectClass ) ; gobject_class . finalize = Some ("@);
    let t = join(t, class_name_text(c));
    let t = join(t, ":: finalize ) ; } { let klass = & mut * ( klass as * mut"@);
    let t = join(t, gclass_name_text(c));
    let t = join(t, ") ;"@);
    let t = join(t, sep_join(methods_of(c.members@).map_values(|x: Method| slot_assignment_text(c, x)), Seq::empty()));
    let t = join(t, "} { } PRIV . parent_class = gobject_ffi :: g_type_class_peek_parent ( \
        klass ) as * const"@);
    let t = join(t, parent_class_ffi_text(c));
    let t = join(t, "; }"@);
    t
}

/// The methods of the class structure.
pub open spec fn imp_class_text(c: Class) -> Seq<char> {
    let t = "impl"@;
    let t = join(t, gclass_name_text(c));
    let t = join(t, "{"@);
    let t = join(t, class_init_fn_text(c));
    let t = join(t, "}"@);
    t
}

/// The class-wide private data and its static instance.
pub open spec fn imp_class_private_struct_text(c: Class) -> Seq<char> {
    let t = "struct"@;
    let t = join(t, private_class_name_text(c));
    let t = join(t, "{ parent_class : * const"@);
    let t = join(t, parent_class_ffi_text(c));
    let t = join(t, ", properties : * const Vec < * const gobject_ffi :: GParamSpec > , \
        signals : * const Vec < u32 > } static mut PRIV :"@);
    let t = join(t, private_class_name_text(c));
    let t = join(t, "="@);
    let t = join(t, private_class_name_text(c));
    let t = join(t, "{ parent_class : 0 as * const _ , properties : 0 as * const _ , signals \
        : 0 as * const _ , } ;"@);
    t
}

/// The exported C constructor `foo_new()`.
pub open spec fn imp_new_fn_text(c: Class) -> Seq<char> {
    let t = "# [ no_mangle ] pub unsafe extern \"C\" fn"@;
    let t = join(t, lower_case_class_name_text(c) + "_new"@);
    let t = join(t, "( ) -> * mut"@);
    let t = join(t, class_name_text(c));
    let t = join(t, "{"@);
    let t = join(t, callback_guard_text());
    let t = join(t, "let this = gobject_ffi :: g_object_newv ("@);
    let t = join(t, get_type_fn_name_text(c));
    let t = join(t, "( ) , 0 , ptr :: null_mut ( ) ) ; this as * mut"@);
    let t = join(t, class_name_text(c));
    let t = join(t, "}"@);
    t
}

/// The private struct and its constructor.
pub open spec fn imp_private_struct_text(c: Class) -> Seq<char> {
    let t = "struct"@;
    let t = join(t, private_name_text(c));
    let t = join(t, "{"@);
    let t = join(t, fields_text(private_struct_of(c).fields@));
    let t = join(t, "} impl"@);
    let t = join(t, private_name_text(c));
    let t = join(t, "{ pub fn new ( ) -> Self"@);
    let t = join(t, private_init_fn_body_text(c));
    let t = join(t, "}"@);
    t
}

/// The `imp` module, which holds the C-level implementation of the class.
pub open spec fn imp_module_text(c: Class) -> Seq<char> {
    let t = "pub mod imp { use super :: super :: * ; use super :: glib ; use super :: \
        glib_ffi ; use super :: gobject_ffi ; use super :: libc ; use std :: mem \
        ; use std :: ptr ; use glib :: translate :: * ;"@;
    let t = join(t, imp_instance_struct_text(c));
    let t = join(t, imp_class_struct_text(c));
    let t = join(t, imp_properties_enum_text());
    let t = join(t, imp_signals_enum_text());
    let t = join(t, imp_private_struct_text(c));
    let t = join(t, imp_class_private_struct_text(c));
    let t = join(t, instance_private_impl_text(c));
    let t = join(t, imp_instance_text(c));
    let t = join(t, imp_class_text(c));
    let t = join(t, imp_new_fn_text(c));
    let t = join(t, sep_join(methods_of(c.members@).map_values(|x: Method| imp_extern_method_text(c, x)), Seq::empty()));
    let t = join(t, imp_get_type_fn_text(c));
    let t = join(t, "}"@);
    t
}

/// The constructor `new()` of the public instance type.
pub open spec fn instance_new_fn_text(c: Class) -> Seq<char> {
    let t = "impl"@;
    let t = join(t, class_name_text(c));
    let t = join(t, "{ pub fn new ( ) ->"@);
    let t = join(t, class_name_text(c));
    let t = join(t, "{ unsafe { from_glib_full ( imp ::"@);
    let t = join(t, lower_case_class_name_text(c) + "_new"@);
    let t = join(t, "( ) ) } } }"@);
    t
}

/// The public trait with all the class's methods.
pub open spec fn instance_ext_text(c: Class) -> Seq<char> {
    let t = "pub trait"@;
    let t = join(t, instance_ext_name_text(c));
    let t = join(t, "{"@);
    let t = join(t, sep_join(methods_of(c.members@).map_values(|x: Method| method_trait_fn_text(c, x)), Seq::empty()));
    let t = join(t, "}"@);
    t
}

/// The implementation of the public trait for every object that is a `Foo`,
/// through the exported C functions.
pub open spec fn instance_ext_impl_text(c: Class) -> Seq<char> {
    let t = "impl < O : IsA <"@;
    let t = join(t, class_name_text(c));
    let t = join(t, "> + IsA < glib :: object :: Object > >"@);
    let t = join(t, instance_ext_name_text(c));
    let t = join(t, "for O {"@);
    let t = join(t, sep_join(methods_of(c.members@).map_values(|x: Method| instance_ext_method_text(c, x)), Seq::empty()));
    let t = join(t, "}"@);
    t
}

/// All the code generated for the class, in a module of its own.  Its
/// definition is revealed only where the code is assembled (`gen_class`).
#[verifier::opaque]
pub open spec fn gen_class_text(c: Class) -> Seq<char> {
    let t = "pub mod"@;
    let t = join(t, module_name_text(c));
    let t = join(t, "{"@);
    let t = join(t, imports_text());
    let t = join(t, glib_wrapper_text(c));
    let t = join(t, imp_module_text(c));
    let t = join(t, instance_new_fn_text(c));
    let t = join(t, instance_ext_text(c));
    let t = join(t, instance_ext_impl_text(c));
    let t = join(t, "} pub use"@);
    let t = join(t, module_name_text(c));
    let t = join(t, ":: * ;"@);
    t
}

/// The constructor `new()`, `private()` and `upcast()` of the instance type.
pub open spec fn always_impl_text(c: Class) -> Seq<char> {
    let t = "impl"@;
    let t = join(t, class_name_text(c));
    let t = join(t, "{ pub fn new ( ) ->"@);
    let t = join(t, class_name_text(c));
    let t = join(t, "{ use gnome_class_shims :: GInstance ; use gnome_class_shims :: \
        gobject_sys :: { self , GObject } ; use std :: ptr ; unsafe { let data : \
        * mut GObject = gobject_sys :: g_object_new ("@);
    let t = join(t, class_name_text(c));
    let t = join(t, ":: get_type ( ) , ptr :: null_mut ( ) ) ;"@);
    let t = join(t, class_name_text(c));
    let t = join(t, ":: from_gobject_ptr ( data ) } } # [ allow ( dead_code ) ] fn private ( \
        & self ) -> &"@);
    let t = join(t, private_name_text(c));
    let t = join(t, "{ use gnome_class_shims :: GInstance ; use gnome_class_shims :: \
        gobject_sys :: { self , GTypeInstance } ; unsafe { let this = GInstance \
        :: to_gobject_ptr ( self ) as * mut GTypeInstance ; let private = \
        gobject_sys :: g_type_instance_get_private ( this ,"@);
    let t = join(t, class_name_text(c));
    let t = join(t, ":: get_type ( ) ) ; let private = private as * const"@);
    let t = join(t, private_name_text(c));
    let t = join(t, "; & * private } } # [ allow ( dead_code ) ] pub fn upcast ( & self ) -> \
        &"@);
    let t = join(t, parent_instance_text(c));
    let t = join(t, "{ use gnome_class_shims :: GInstance ; unsafe { GInstance :: \
        borrow_gobject_ptr ( & self . parent ) } } }"@);
    t
}

/// The instance initializer inside `get_type()`: it sets up the private data.
pub open spec fn get_type_instance_init_text(c: Class) -> Seq<char> {
    let t = "extern fn instance_init ( this : * mut GTypeInstance , _klass : gpointer \
        ) { unsafe { let private = gobject_sys :: g_type_instance_get_private ( \
        this ,"@;
    let t = join(t, class_name_text(c));
    let t = join(t, ":: get_type ( ) ) ; let private = private as * mut"@);
    let t = join(t, private_name_text(c));
    let t = join(t, "; ptr :: write ( private ,"@);
    let t = join(t, private_name_text(c));
    let t = join(t, ":: new ( ) ) ; } }"@);
    t
}

/// The finalizer inside `get_type()`: it drops the private data and then
/// invokes the parent class's finalizer.
pub open spec fn get_type_finalize_text(c: Class) -> Seq<char> {
    let t = "extern fn finalize ( this : * mut GObject ) { use gnome_class_shims :: \
        GInstance ; unsafe { let this = <"@;
    let t = join(t, class_name_text(c));
    let t = join(t, "as GInstance > :: borrow_gobject_ptr ( & this ) ; ptr :: read ( ( * this \
        ) . private ( ) ) ; let object_class = shims :: get_class ( & * this ) ; \
        let parent_class = shims :: get_parent_class ( object_class ) ; if let \
        Some ( f ) = parent_class . finalize { f ("@);
    let t = join(t, class_name_text(c));
    let t = join(t, ":: to_gobject_ptr ( this ) ) } } }"@);
    t
}

/// The class initializer inside `get_type()`: finalizer, private size,
/// method slots and signals.
pub open spec fn get_type_class_init_text(c: Class) -> Seq<char> {
    let t = "extern fn class_init ( klass : gpointer , _klass_data : gpointer ) { \
        unsafe { let g_object_class = klass as * mut GObjectClass ; ( * \
        g_object_class ) . finalize = Some ( finalize ) ; gobject_sys :: \
        g_type_class_add_private ( klass , mem :: size_of :: <"@;
    let t = join(t, private_name_text(c));
    let t = join(t, "> ( ) ) ; let klass = klass as * mut"@);
    let t = join(t, gclass_name_text(c));
    let t = join(t, "; let klass : & mut"@);
    let t = join(t, gclass_name_text(c));
    let t = join(t, "= & mut * klass ;"@);
    let t = join(t, sep_join(methods_of(c.members@).map_values(|x: Method| method_assignment_text(c, x)), Seq::empty()));
    let t = join(t, sep_join(signals_of(c.members@).map_values(|x: Signal| signal_declaration_text(c, x)), Seq::empty()));
    let t = join(t, "} }"@);
    t
}

/// The registration function inside `get_type()`, which creates the GType.
pub open spec fn get_type_register_text(c: Class) -> Seq<char> {
    let t = "fn register ( ) -> GType { use std :: u16 ; unsafe { let class_size = \
        mem :: size_of :: <"@;
    let t = join(t, gclass_name_text(c));
    let t = join(t, "> ( ) ; assert ! ( class_size <= u16 :: MAX as usize ) ; let \
        instance_size = mem :: size_of :: <"@);
    let t = join(t, fields_name_text(c));
    let t = join(t, "> ( ) ; assert ! ( instance_size <= u16 :: MAX as usize ) ; gobject_sys \
        :: g_type_register_static_simple ("@);
    let t = join(t, parent_instance_text(c));
    let t = join(t, ":: get_type ( ) ,"@);
    let t = join(t, byte_string_text(c.name));
    let t = join(t, "as * const u8 as * const i8 , class_size as u32 , Some ( class_init ) , \
        instance_size as u32 , Some ( instance_init ) , GTypeFlags :: empty ( ) \
        ) } }"@);
    t
}

/// `get_type()`, which registers the type on its first call; the helper
/// functions are hidden inside it.
pub open spec fn get_type_fn_text(c: Class) -> Seq<char> {
    let t = "fn get_type ( ) -> :: gnome_class_shims :: glib_sys :: GType {"@;
    let t = join(t, callback_guard_text());
    let t = join(t, "use gnome_class_shims as shims ; use gnome_class_shims :: gobject_sys :: \
        { self , GObject , GObjectClass , GTypeInstance , GTypeFlags } ; use \
        gnome_class_shims :: glib_sys :: { GType , gpointer } ; use std :: { mem \
        , ptr } ; use std :: sync :: { Once , ONCE_INIT } ;"@);
    let t = join(t, get_type_instance_init_text(c));
    let t = join(t, get_type_finalize_text(c));
    let t = join(t, get_type_class_init_text(c));
    let t = join(t, get_type_register_text(c));
    let t = join(t, "unsafe { static mut GTYPE : GType = gobject_sys :: G_TYPE_INVALID ; \
        static ONCE : Once = ONCE_INIT ; ONCE . call_once ( || { GTYPE = \
        register ( ) ; } ) ; GTYPE } }"@);
    t
}

/// The methods declared in the class, as a trait of their own and its
/// implementation for the instance type.
pub open spec fn methods_declared_in_instance_text(c: Class) -> Seq<char> {
    let t = "# [ allow ( non_snake_case ) ] mod"@;
    let t = join(t, methods_from_text(c));
    let t = join(t, "{ use super :: * ; pub trait Trait {"@);
    let t = join(t, sep_join(methods_of(c.members@).map_values(|x: Method| join("extern"@, method_trait_fn_text(c, x))), Seq::empty()));
    let t = join(t, "} } impl"@);
    let t = join(t, methods_from_text(c));
    let t = join(t, ":: Trait for"@);
    let t = join(t, class_name_text(c));
    let t = join(t, "{"@);
    let t = join(t, sep_join(methods_of(c.members@).map_values(|x: Method| join("extern"@, method_impl_fn_text(c, x))), Seq::empty()));
    let t = join(t, "}"@);
    t
}

/// The exported C function `foo_method()` of one method.
pub open spec fn c_symbol_text(c: Class, m: Method) -> Seq<char> {
    let t = "# [ no_mangle ] pub extern fn"@;
    let t = join(t, lower_case_class_name_text(c) + "_"@ + ident_text(m.name));
    let t = join(t, "( __this : &"@);
    let t = join(t, fields_name_text(c));
    let t = join(t, ","@);
    let t = join(t, arg_decls_text(m.fn_def.sig));
    let t = join(t, ")"@);
    let t = join(t, return_ty_text(m.fn_def.sig));
    let t = join(t, "{ use gnome_class_shims :: GFields ; let __this = <"@);
    let t = join(t, fields_name_text(c));
    let t = join(t, "as GFields > :: as_instance ( & __this ) ;"@);
    let t = join(t, class_name_text(c));
    let t = join(t, "::"@);
    let t = join(t, ident_text(m.name));
    let t = join(t, "( __this ,"@);
    let t = join(t, arg_names_text(m.fn_def.sig));
    let t = join(t, ") }"@);
    t
}

/// The exported C functions of the class: `foo_get_type()` and one per
/// method.
pub open spec fn c_symbols_text(c: Class) -> Seq<char> {
    let t = "# [ no_mangle ] pub extern fn"@;
    let t = join(t, get_type_fn_name_text(c));
    let t = join(t, "( ) -> :: gnome_class_shims :: glib_sys :: GType { use gnome_class_shims \
        :: GInstance ; <"@);
    let t = join(t, class_name_text(c));
    let t = join(t, "as GInstance > :: get_type ( ) }"@);
    let t = join(t, sep_join(methods_of(c.members@).map_values(|x: Method| c_symbol_text(c, x)), Seq::empty()));
    t
}


/// The templates written once for each method of a class.
#[derive(Clone, Copy)]
enum MethodTemplate {
    Slot,
    SlotAssignment,
    InstanceMethodImpl,
    InstanceMethodTrampoline,
    ImpExternMethod,
    MethodTraitFn,
    InstanceExtMethod,
    MethodImplFn,
    MethodRedirect,
    MethodAssignment,
    MethodFnTy,
    CSymbol,
}

/// The text of a per-method template.
spec fn method_template_text(which: MethodTemplate, c: Class, m: Method) -> Seq<char> {
    match which {
        MethodTemplate::Slot => slot_text(c, m),
        MethodTemplate::SlotAssignment => slot_assignment_text(c, m),
        MethodTemplate::InstanceMethodImpl => instance_method_impl_text(c, m),
        MethodTemplate::InstanceMethodTrampoline => instance_method_trampoline_text(c, m),
        MethodTemplate::ImpExternMethod => imp_extern_method_text(c, m),
        MethodTemplate::MethodTraitFn => method_trait_fn_text(c, m),
        MethodTemplate::InstanceExtMethod => instance_ext_method_text(c, m),
        MethodTemplate::MethodImplFn => method_impl_fn_text(c, m),
        MethodTemplate::MethodRedirect => method_redirect_text(c, m),
        MethodTemplate::MethodAssignment => method_assignment_text(c, m),
        MethodTemplate::MethodFnTy => method_fn_ty_text(c, m),
        MethodTemplate::CSymbol => c_symbol_text(c, m),
    }
}

/// The per-method templates that name the exported C function, and so need
/// the lower-cased class name.
spec fn uses_instance_name(which: MethodTemplate) -> bool {
    which is ImpExternMethod || which is InstanceExtMethod || which is CSymbol
}

fn needs_instance_name(which: MethodTemplate) -> (r: bool)
    ensures
        r == uses_instance_name(which),
{
    match which {
        MethodTemplate::ImpExternMethod => true,
        MethodTemplate::InstanceExtMethod => true,
        MethodTemplate::CSymbol => true,
        _ => false,
    }
}

impl<'ast> ClassContext<'ast> {
    /// The class name with its first letter lower-cased: `counter` for
    /// `Counter`.
    pub fn lower_case_class_name(&self) -> (r: String)
        requires
            self.class_of().name.str@.len() > 0,
        ensures
            r@ == lower_case_class_name_text(self.class_of()),
            r@.len() >= 1,
    {
        let name_str = self.class.name.str.as_str();
        let len = name_str.unicode_len();
        let first_char = name_str.get_char(0);
        let rest = name_str.substring_char(1, len);
        let mut r = char_to_lowercase(first_char);
        r.append(rest);
        r
    }

    /// `foo_get_type`: the name of the exported function that returns the
    /// class's GType.
    pub fn get_type_fn_name(&self) -> (r: Identifier)
        requires
            self.class_of().name.str@.len() > 0,
        ensures
            r.str@ == get_type_fn_name_text(self.class_of()),
    {
        let mut s = self.lower_case_class_name();
        s.append("_get_type");
        Identifier { str: s }
    }

    /// The methods of the class, in order.
    pub fn methods(&self) -> (r: Vec<&'ast Method>)
        ensures
            r@.len() == methods_of(self.class_of().members@).len(),
            forall|i: int| 0 <= i < r@.len() ==> *r@[i] == methods_of(self.class_of().members@)[i],
    {
        let members = &self.class.members;
        let mut r: Vec<&'ast Method> = Vec::new();
        let mut i: usize = 0;
        while i < members.len()
            invariant
                members == &self.class.members,
                0 <= i <= members@.len(),
                r@.len() == methods_of(members@.subrange(0, i as int)).len(),
                forall|j: int| 0 <= j < r@.len() ==> *r@[j] == methods_of(members@.subrange(0, i as int))[j],
            decreases members@.len() - i,
        {
            assert(members@.subrange(0, i + 1).drop_last() =~= members@.subrange(0, i as int));
            if let Member::Method(m) = &self.class.members[i] {
                r.push(m);
            }
            i = i + 1;
        }
        assert(members@.subrange(0, members@.len() as int) =~= members@);
        r
    }

    /// The signals of the class, in order.
    pub fn signals(&self) -> (r: Vec<&'ast Signal>)
        ensures
            r@.len() == signals_of(self.class_of().members@).len(),
            forall|i: int| 0 <= i < r@.len() ==> *r@[i] == signals_of(self.class_of().members@)[i],
    {
        let members = &self.class.members;
        let mut r: Vec<&'ast Signal> = Vec::new();
        let mut i: usize = 0;
        while i < members.len()
            invariant
                members == &self.class.members,
                0 <= i <= members@.len(),
                r@.len() == signals_of(members@.subrange(0, i as int)).len(),
                forall|j: int| 0 <= j < r@.len() ==> *r@[j] == signals_of(members@.subrange(0, i as int))[j],
            decreases members@.len() - i,
        {
            assert(members@.subrange(0, i + 1).drop_last() =~= members@.subrange(0, i as int));
            if let Member::Signal(s) = &self.class.members[i] {
                r.push(s);
            }
            i = i + 1;
        }
        assert(members@.subrange(0, members@.len() as int) =~= members@);
        r
    }

    /// From a signal called `foo`, generate `foo_signal_id`, for each signal.
    /// This is used to store the signal ids from `g_signal_newv()` in the
    /// class structure.
    pub fn signal_id_names(&self) -> (r: Vec<Identifier>)
        ensures
            r@.len() == signals_of(self.class_of().members@).len(),
            forall|i: int| 0 <= i < r@.len() ==> (#[trigger] r@[i]).str@
                == ident_text(signals_of(self.class_of().members@)[i].name) + "_signal_id"@,
    {
        let signals = self.signals();
        let mut r: Vec<Identifier> = Vec::new();
        let mut i: usize = 0;
        while i < signals.len()
            invariant
                0 <= i <= signals@.len(),
                signals@.len() == signals_of(self.class_of().members@).len(),
                forall|j: int| 0 <= j < signals@.len() ==> *signals@[j] == signals_of(self.class_of().members@)[j],
                r@.len() == i,
                forall|j: int| 0 <= j < i ==> (#[trigger] r@[j]).str@
                    == ident_text(signals_of(self.class_of().members@)[j].name) + "_signal_id"@,
            decreases signals@.len() - i,
        {
            r.push(signal_id_name(signals[i]));
            i = i + 1;
        }
        r
    }

    /// The names of the class's methods, in order.
    pub fn method_names(&self) -> (r: Vec<Identifier>)
        ensures
            r@.len() == methods_of(self.class_of().members@).len(),
            forall|i: int| 0 <= i < r@.len() ==> (#[trigger] r@[i]).str@
                == ident_text(methods_of(self.class_of().members@)[i].name),
    {
        let methods = self.methods();
        let mut r: Vec<Identifier> = Vec::new();
        let mut i: usize = 0;
        while i < methods.len()
            invariant
                0 <= i <= methods@.len(),
                methods@.len() == methods_of(self.class_of().members@).len(),
                forall|j: int| 0 <= j < methods@.len() ==> *methods@[j] == methods_of(self.class_of().members@)[j],
                r@.len() == i,
                forall|j: int| 0 <= j < i ==> (#[trigger] r@[j]).str@
                    == ident_text(methods_of(self.class_of().members@)[j].name),
            decreases methods@.len() - i,
        {
            r.push(Identifier { str: methods[i].name.str.clone() });
            i = i + 1;
        }
        r
    }

    /// The body of the private struct's `new()`: the class's `private_init()`
    /// when it has one; otherwise every field set to `Default::default()`.
    pub fn private_init_fn_body(&self) -> (r: quote::Tokens)
        ensures
            tokens_text(r) == private_init_fn_body_text(self.class_of()),
    {
        proof {
            use_type_invariant(self);
        }
        let members = &self.class.members;
        let mut private_init_member: Option<&CodeBlock> = None;
        let mut i: usize = 0;
        assert(members@.subrange(0, members@.len() as int) =~= members@);
        while i < members.len()
            invariant_except_break
                members == &self.class.members,
                0 <= i <= members@.len(),
                private_init_member is None,
                first_private_init(members@)
                    == first_private_init(members@.subrange(i as int, members@.len() as int)),
            ensures
                private_init_member matches Some(f) ==> first_private_init(members@) == Some(*f),
                private_init_member is None ==> first_private_init(members@) is None,
            decreases members@.len() - i,
        {
            let ghost rest = members@.subrange(i as int, members@.len() as int);
            assert(rest.drop_first() =~= members@.subrange(i + 1, members@.len() as int));
            if let Member::PrivateInit(f) = &members[i] {
                private_init_member = Some(f);
                break;
            }
            i = i + 1;
        }
        proof {
            if private_init_member is None {
                assert(members@.subrange(members@.len() as int, members@.len() as int)
                    =~= Seq::<Member>::empty());
            }
        }
        if let Some(f) = private_init_member {
            let mut t = tokens_new();
            f.to_tokens(&mut t);
            t
        } else {
            let fields = &self.private_struct.fields;
            let ghost parts = fields@.map_values(|f: VarTy| field_init_text(f));
            let mut t = tokens_new();
            tokens_append(&mut t, "{");
            self.private_struct.name.to_tokens(&mut t);
            tokens_append(&mut t, "{");
            let ghost prefix = tokens_text(t);
            let mut j: usize = 0;
            assert(parts.subrange(0, 0) =~= Seq::<Seq<char>>::empty());
            while j < fields.len()
                invariant
                    fields == &self.private_struct.fields,
                    parts == fields@.map_values(|f: VarTy| field_init_text(f)),
                    0 <= j <= fields@.len(),
                    tokens_text(t) == join(prefix, sep_join(parts.subrange(0, j as int), ","@)),
                decreases fields@.len() - j,
            {
                let ghost sj = sep_join(parts.subrange(0, j as int), ","@);
                if j > 0 {
                    tokens_append(&mut t, ",");
                }
                let ghost mid = tokens_text(t);
                fields[j].name.to_tokens(&mut t);
                tokens_append(&mut t, ": Default :: default ( )");
                proof {
                    let p = parts[j as int];
                    lemma_sep_join_step(parts, ","@, j as int);
                    lemma_join_assoc(mid, ident_text(fields@[j as int].name), ": Default :: default ( )"@);
                    lemma_join_assoc(join(prefix, sj), ","@, p);
                    lemma_join_assoc(prefix, sj, join(","@, p));
                    lemma_join_assoc(sj, ","@, p);
                }
                j = j + 1;
            }
            proof {
                lemma_sep_join_full(parts, ","@);
            }
            tokens_append(&mut t, "} }");
            t
        }
    }

    /// Everything generated for the class, wrapped in a module of its own.
    pub fn gen_class(&self) -> (r: Result<quote::Tokens, GenError>)
        requires
            self.class_of().name.str@.len() > 0,
        ensures
            r matches Ok(t) && tokens_text(t) == gen_class_text(self.class_of()),
    {
        proof {
            use_type_invariant(self);
            reveal(gen_class_text);
        }
        let imports = self.imports();
        let glib_wrapper = self.glib_wrapper();
        let imp_module = self.imp_module();
        let instance_new_fn = self.instance_new_fn();
        let instance_ext = self.instance_ext();
        let instance_ext_impl = self.instance_ext_impl();
        let mut t = tokens_new();
        tokens_append(&mut t, "pub mod");
        self.ModuleName.to_tokens(&mut t);
        tokens_append(&mut t, "{");
        tokens_append_tokens(&mut t, &imports);
        tokens_append_tokens(&mut t, &glib_wrapper);
        tokens_append_tokens(&mut t, &imp_module);
        tokens_append_tokens(&mut t, &instance_new_fn);
        tokens_append_tokens(&mut t, &instance_ext);
        tokens_append_tokens(&mut t, &instance_ext_impl);
        tokens_append(&mut t, "} pub use");
        self.ModuleName.to_tokens(&mut t);
        tokens_append(&mut t, ":: * ;");
        Ok(t)
    }

    /// The signal trampolines; a signal generates no code.
    pub fn signal_trampolines(&self) -> (r: quote::Tokens)
        ensures
            tokens_text(r) == Seq::<char>::empty(),
    {
        tokens_new()
    }

    /// The default handlers of the class's slots; none are generated: a
    /// method's code goes into its `foo_impl` (`instance_method_impls`).
    pub fn imp_slot_default_handlers(&self) -> (r: Vec<quote::Tokens>)
        ensures
            r@.len() == 0,
    {
        Vec::new()
    }

    /// The trampolines of the class's signals; a signal generates no code.
    pub fn instance_signal_trampolines(&self) -> (r: Vec<quote::Tokens>)
        ensures
            r@.len() == 0,
    {
        Vec::new()
    }

    /// The default handlers of the class's signals; a signal generates no
    /// code.
    pub fn instance_default_signal_handlers(&self) -> (r: Vec<quote::Tokens>)
        ensures
            r@.len() == 0,
    {
        Vec::new()
    }

    /// The exported C functions of the class: `foo_get_type()` and one per
    /// method.
    pub fn c_symbols(&self) -> (r: quote::Tokens)
        requires
            self.class_of().name.str@.len() > 0,
        ensures
            tokens_text(r) == c_symbols_text(self.class_of()),
    {
        proof {
            use_type_invariant(self);
        }
        let instance_name = self.lower_case_class_name();
        let method_tokens = self.per_method(MethodTemplate::CSymbol);
        assert(methods_of(self.class_of().members@).map_values(
            |x: Method| method_template_text(MethodTemplate::CSymbol, self.class_of(), x),
        ) =~= methods_of(self.class_of().members@).map_values(|x: Method| c_symbol_text(self.class_of(), x)));

        let mut get_type_name = instance_name.clone();
        get_type_name.append("_get_type");
        let mut t = tokens_new();
        tokens_append(&mut t, "# [ no_mangle ] pub extern fn");
        tokens_append_ident(&mut t, get_type_name.as_str());
        tokens_append(&mut t, "( ) -> :: gnome_class_shims :: glib_sys :: GType { use gnome_class_shims :: GInstance ; <");
        self.class.name.to_tokens(&mut t);
        tokens_append(&mut t, "as GInstance > :: get_type ( ) }");
        tokens_append_all(&mut t, &method_tokens);
        t
    }

    /// `let _guard = glib::CallbackGuard::new();`
    pub fn callback_guard(&self) -> (r: quote::Tokens)
        ensures
            tokens_text(r) == callback_guard_text(),
    {
        let mut t = tokens_new();
        tokens_append(&mut t, "let _guard = glib :: CallbackGuard :: new ( ) ;");
        t
    }

    /// The slot of a method in the class structure:
    /// `pub foo: Option<unsafe extern "C" fn(this: *mut Foo, arg: u32) -> u32>,`
    fn slot(&self, method: &Method) -> (r: quote::Tokens)
        ensures
            tokens_text(r) == slot_text(self.class_of(), *method),
    {
        proof {
            use_type_invariant(self);
        }
        let mut t = tokens_new();
        tokens_append(&mut t, "pub");
        method.name.to_tokens(&mut t);
        tokens_append(&mut t, ": Option < unsafe extern \"C\" fn ( this : * mut");
        self.class.name.to_tokens(&mut t);
        comma_arg_decls_to_tokens(&method.fn_def.sig, &mut t);
        tokens_append(&mut t, ")");
        method.fn_def.sig.return_ty().to_tokens(&mut t);
        tokens_append(&mut t, "> ,");
        t
    }

    /// `klass.foo = Some(Foo::foo_trampoline);`
    fn slot_assignment(&self, method: &Method) -> (r: quote::Tokens)
        ensures
            tokens_text(r) == slot_assignment_text(self.class_of(), *method),
    {
        proof {
            use_type_invariant(self);
        }
        let mut t = tokens_new();
        tokens_append(&mut t, "klass .");
        method.name.to_tokens(&mut t);
        tokens_append(&mut t, "= Some (");
        self.class.name.to_tokens(&mut t);
        tokens_append(&mut t, "::");
        let trampoline_name = suffixed_name(&method.name, "_trampoline");
        trampoline_name.to_tokens(&mut t);
        tokens_append(&mut t, ") ;");
        t
    }

    /// `fn foo_impl(&self, arg: u32) -> u32 { ... }`: the method's own code.
    fn instance_method_impl(&self, method: &Method) -> (r: quote::Tokens)
        ensures
            tokens_text(r) == instance_method_impl_text(self.class_of(), *method),
    {
        proof {
            use_type_invariant(self);
        }
        let mut t = tokens_new();
        tokens_append(&mut t, "fn");
        let impl_name = suffixed_name(&method.name, "_impl");
        impl_name.to_tokens(&mut t);
        tokens_append(&mut t, "( & self");
        comma_arg_decls_to_tokens(&method.fn_def.sig, &mut t);
        tokens_append(&mut t, ")");
        method.fn_def.sig.return_ty().to_tokens(&mut t);
        method.fn_def.code.to_tokens(&mut t);
        t
    }

    /// `foo_trampoline`, through which the class structure calls `foo_impl`.
    fn instance_method_trampoline(&self, method: &Method) -> (r: quote::Tokens)
        ensures
            tokens_text(r) == instance_method_trampoline_text(self.class_of(), *method),
    {
        proof {
            use_type_invariant(self);
        }
        let mut t = tokens_new();
        tokens_append(&mut t, "unsafe extern \"C\" fn");
        let trampoline_name = suffixed_name(&method.name, "_trampoline");
        trampoline_name.to_tokens(&mut t);
        tokens_append(&mut t, "( this : * mut");
        self.class.name.to_tokens(&mut t);
        comma_arg_decls_to_tokens(&method.fn_def.sig, &mut t);
        tokens_append(&mut t, ")");
        method.fn_def.sig.return_ty().to_tokens(&mut t);
        tokens_append(&mut t, "{");
        let callback_guard = self.callback_guard();
        tokens_append_tokens(&mut t, &callback_guard);
        tokens_append(&mut t, "let instance : & super ::");
        self.class.name.to_tokens(&mut t);
        tokens_append(&mut t, "= & from_glib_borrow ( this ) ; instance .");
        let impl_name = suffixed_name(&method.name, "_impl");
        impl_name.to_tokens(&mut t);
        tokens_append(&mut t, "(");
        method.fn_def.sig.arg_names().to_tokens(&mut t);
        tokens_append(&mut t, ") }");
        t
    }

    /// The exported C function `foo_method()`, which calls the method's slot.
    fn imp_extern_method(&self, instance_name: &String, method: &Method) -> (r: quote::Tokens)
        requires
            self.class_of().name.str@.len() > 0,
            instance_name@ == lower_case_class_name_text(self.class_of()),
        ensures
            tokens_text(r) == imp_extern_method_text(self.class_of(), *method),
    {
        proof {
            use_type_invariant(self);
        }
        let mut t = tokens_new();
        tokens_append(&mut t, "# [ no_mangle ] pub unsafe extern \"C\" fn");
        let mut c_name = instance_name.clone();
        c_name.append("_");
        c_name.append(method.name.str.as_str());
        tokens_append_ident(&mut t, c_name.as_str());
        tokens_append(&mut t, "( this : * mut");
        self.class.name.to_tokens(&mut t);
        comma_arg_decls_to_tokens(&method.fn_def.sig, &mut t);
        tokens_append(&mut t, ")");
        method.fn_def.sig.return_ty().to_tokens(&mut t);
        tokens_append(&mut t, "{");
        let callback_guard = self.callback_guard();
        tokens_append_tokens(&mut t, &callback_guard);
        tokens_append(&mut t, "let klass = ( * this ) . get_class ( ) ; ( klass .");
        method.name.to_tokens(&mut t);
        tokens_append(&mut t, ". as_ref ( ) . unwrap ( ) ) ( this");
        comma_arg_names_to_tokens(&method.fn_def.sig, &mut t);
        tokens_append(&mut t, ") }");
        t
    }

    /// `fn foo(&self, arg: u32);`
    fn method_trait_fn(&self, method: &Method) -> (r: quote::Tokens)
        ensures
            tokens_text(r) == method_trait_fn_text(self.class_of(), *method),
    {
        proof {
            use_type_invariant(self);
        }
        let mut t = tokens_new();
        tokens_append(&mut t, "fn");
        method.name.to_tokens(&mut t);
        tokens_append(&mut t, "( & self ,");
        method.fn_def.sig.arg_decls().to_tokens(&mut t);
        tokens_append(&mut t, ")");
        method.fn_def.sig.return_ty().to_tokens(&mut t);
        tokens_append(&mut t, ";");
        t
    }

    /// `fn foo(&self, arg: u32) -> u32 { unsafe { imp::klass_foo(self.to_glib_none().0, arg) } }`
    fn instance_ext_method(&self, instance_name: &String, method: &Method) -> (r: quote::Tokens)
        requires
            self.class_of().name.str@.len() > 0,
            instance_name@ == lower_case_class_name_text(self.class_of()),
        ensures
            tokens_text(r) == instance_ext_method_text(self.class_of(), *method),
    {
        proof {
            use_type_invariant(self);
        }
        let mut t = tokens_new();
        tokens_append(&mut t, "fn");
        method.name.to_tokens(&mut t);
        tokens_append(&mut t, "( & self");
        comma_arg_decls_to_tokens(&method.fn_def.sig, &mut t);
        tokens_append(&mut t, ")");
        method.fn_def.sig.return_ty().to_tokens(&mut t);
        tokens_append(&mut t, "{ unsafe { imp ::");
        let mut c_name = instance_name.clone();
        c_name.append("_");
        c_name.append(method.name.str.as_str());
        tokens_append_ident(&mut t, c_name.as_str());
        tokens_append(&mut t, "( self . to_glib_none ( ) . 0");
        comma_arg_names_to_tokens(&method.fn_def.sig, &mut t);
        tokens_append(&mut t, ") } }");
        t
    }

    /// `fn foo(&self, arg: u32) { ... }`
    fn method_impl_fn(&self, method: &Method) -> (r: quote::Tokens)
        ensures
            tokens_text(r) == method_impl_fn_text(self.class_of(), *method),
    {
        proof {
            use_type_invariant(self);
        }
        let mut t = tokens_new();
        tokens_append(&mut t, "fn");
        method.name.to_tokens(&mut t);
        tokens_append(&mut t, "( & self ,");
        method.fn_def.sig.arg_decls().to_tokens(&mut t);
        tokens_append(&mut t, ")");
        method.fn_def.sig.return_ty().to_tokens(&mut t);
        method.fn_def.code.to_tokens(&mut t);
        t
    }

    /// `fn foo(&self, arg: u32) { (get_class(self).foo.unwrap())(self, arg) }`
    fn method_redirect(&self, method: &Method) -> (r: quote::Tokens)
        ensures
            tokens_text(r) == method_redirect_text(self.class_of(), *method),
    {
        proof {
            use_type_invariant(self);
        }
        let mut t = tokens_new();
        tokens_append(&mut t, "fn");
        method.name.to_tokens(&mut t);
        tokens_append(&mut t, "( & self ,");
        method.fn_def.sig.arg_decls().to_tokens(&mut t);
        tokens_append(&mut t, ")");
        method.fn_def.sig.return_ty().to_tokens(&mut t);
        tokens_append(&mut t, "{ let klass = :: gnome_class_shims :: get_class ( self ) ; ( klass .");
        method.name.to_tokens(&mut t);
        tokens_append(&mut t, ". unwrap ( ) ) ( self ,");
        method.fn_def.sig.arg_names().to_tokens(&mut t);
        tokens_append(&mut t, ") }");
        t
    }

    /// `klass.foo = Some(<Foo as __methods_from_Foo::Trait>::foo);`
    fn method_assignment(&self, method: &Method) -> (r: quote::Tokens)
        ensures
            tokens_text(r) == method_assignment_text(self.class_of(), *method),
    {
        proof {
            use_type_invariant(self);
        }
        let mut t = tokens_new();
        tokens_append(&mut t, "klass .");
        method.name.to_tokens(&mut t);
        tokens_append(&mut t, "= Some ( <");
        self.class.name.to_tokens(&mut t);
        tokens_append(&mut t, "as");
        self.MethodsFrom.to_tokens(&mut t);
        tokens_append(&mut t, ":: Trait > ::");
        method.name.to_tokens(&mut t);
        tokens_append(&mut t, ") ;");
        t
    }

    /// `extern fn(&Foo, u32) -> u32`
    fn method_fn_ty(&self, method: &Method) -> (r: quote::Tokens)
        ensures
            tokens_text(r) == method_fn_ty_text(self.class_of(), *method),
    {
        proof {
            use_type_invariant(self);
        }
        let mut t = tokens_new();
        let method_fn_ty = MethodTy { class_name: &self.class.name, sig: &method.fn_def.sig };
        method_fn_ty.to_tokens(&mut t);
        t
    }

    /// The registration of a signal with `g_signal_newv()`, whose id is stored
    /// in the class structure.
    fn signal_declaration(&self, signal: &Signal) -> (r: quote::Tokens)
        ensures
            tokens_text(r) == signal_declaration_text(self.class_of(), *signal),
    {
        proof {
            use_type_invariant(self);
        }
        let mut t = tokens_new();
        tokens_append(&mut t, "klass .");
        let signal_id_name = signal_id_name(signal);
        signal_id_name.to_tokens(&mut t);
        tokens_append(&mut t, "= gobject_sys :: g_signal_newv (");
        ByteString(&signal.name).to_tokens(&mut t);
        tokens_append(&mut t, "as * const u8 as * const i8 , ( * g_object_class ) . g_type_class . \
        g_type , gobject_sys :: G_SIGNAL_RUN_FIRST , ptr :: null_mut ( ) , None \
        , ptr :: null_mut ( ) , None , gobject_sys :: G_TYPE_NONE , 0 , ptr :: \
        null_mut ( ) ) ;");
        t
    }

    /// The text of one per-method template for `method`.
    fn method_template(&self, which: MethodTemplate, instance_name: &String, method: &Method) -> (r: quote::Tokens)
        requires
            uses_instance_name(which) ==> self.class_of().name.str@.len() > 0
                && instance_name@ == lower_case_class_name_text(self.class_of()),
        ensures
            tokens_text(r) == method_template_text(which, self.class_of(), *method),
    {
        match which {
            MethodTemplate::Slot => self.slot(method),
            MethodTemplate::SlotAssignment => self.slot_assignment(method),
            MethodTemplate::InstanceMethodImpl => self.instance_method_impl(method),
            MethodTemplate::InstanceMethodTrampoline => self.instance_method_trampoline(method),
            MethodTemplate::ImpExternMethod => self.imp_extern_method(instance_name, method),
            MethodTemplate::MethodTraitFn => self.method_trait_fn(method),
            MethodTemplate::InstanceExtMethod => self.instance_ext_method(instance_name, method),
            MethodTemplate::MethodImplFn => self.method_impl_fn(method),
            MethodTemplate::MethodRedirect => self.method_redirect(method),
            MethodTemplate::MethodAssignment => self.method_assignment(method),
            MethodTemplate::MethodFnTy => self.method_fn_ty(method),
            MethodTemplate::CSymbol => self.c_symbol(instance_name, method),
        }
    }

    /// One template written for each method of the class, in order.
    fn per_method(&self, which: MethodTemplate) -> (r: Vec<quote::Tokens>)
        requires
            uses_instance_name(which) ==> self.class_of().name.str@.len() > 0,
        ensures
            r@.map_values(|x: quote::Tokens| tokens_text(x))
                == methods_of(self.class_of().members@).map_values(
                |x: Method| method_template_text(which, self.class_of(), x),
            ),
    {
        let instance_name = if needs_instance_name(which) {
            self.lower_case_class_name()
        } else {
            String::new()
        };
        let items = self.methods();
        let ghost spec_items = methods_of(self.class_of().members@);
        let mut r: Vec<quote::Tokens> = Vec::new();
        let mut i: usize = 0;
        while i < items.len()
            invariant
                uses_instance_name(which) ==> self.class_of().name.str@.len() > 0
                    && instance_name@ == lower_case_class_name_text(self.class_of()),
                spec_items == methods_of(self.class_of().members@),
                0 <= i <= items@.len(),
                items@.len() == spec_items.len(),
                forall|j: int| 0 <= j < items@.len() ==> *items@[j] == spec_items[j],
                r@.len() == i,
                forall|j: int| 0 <= j < i ==> tokens_text(#[trigger] r@[j])
                    == method_template_text(which, self.class_of(), spec_items[j]),
            decreases items@.len() - i,
        {
            let x = self.method_template(which, &instance_name, items[i]);
            r.push(x);
            i = i + 1;
        }
        assert(r@.map_values(|x: quote::Tokens| tokens_text(x))
            =~= spec_items.map_values(|x: Method| method_template_text(which, self.class_of(), x)));
        r
    }

    /// Returns, for each method, its slot in the class structure.
    pub fn slots(&self) -> (r: Vec<quote::Tokens>)
        ensures
            r@.map_values(|x: quote::Tokens| tokens_text(x))
                == methods_of(self.class_of().members@).map_values(|x: Method| slot_text(self.class_of(), x)),
    {
        let r = self.per_method(MethodTemplate::Slot);
        assert(methods_of(self.class_of().members@).map_values(
            |x: Method| method_template_text(MethodTemplate::Slot, self.class_of(), x),
        ) =~= methods_of(self.class_of().members@).map_values(|x: Method| slot_text(self.class_of(), x)));
        r
    }

    /// Returns, for each method, the assignment of its trampoline to its slot.
    pub fn slot_assignments(&self) -> (r: Vec<quote::Tokens>)
        ensures
            r@.map_values(|x: quote::Tokens| tokens_text(x))
                == methods_of(self.class_of().members@).map_values(|x: Method| slot_assignment_text(self.class_of(), x)),
    {
        let r = self.per_method(MethodTemplate::SlotAssignment);
        assert(methods_of(self.class_of().members@).map_values(
            |x: Method| method_template_text(MethodTemplate::SlotAssignment, self.class_of(), x),
        ) =~= methods_of(self.class_of().members@).map_values(|x: Method| slot_assignment_text(self.class_of(), x)));
        r
    }

    /// Returns, for each method, its implementation `foo_impl`.
    pub fn instance_method_impls(&self) -> (r: Vec<quote::Tokens>)
        ensures
            r@.map_values(|x: quote::Tokens| tokens_text(x))
                == methods_of(self.class_of().members@).map_values(|x: Method| instance_method_impl_text(self.class_of(), x)),
    {
        let r = self.per_method(MethodTemplate::InstanceMethodImpl);
        assert(methods_of(self.class_of().members@).map_values(
            |x: Method| method_template_text(MethodTemplate::InstanceMethodImpl, self.class_of(), x),
        ) =~= methods_of(self.class_of().members@).map_values(|x: Method| instance_method_impl_text(self.class_of(), x)));
        r
    }

    /// Returns, for each method, its trampoline `foo_trampoline`.
    pub fn instance_method_trampolines(&self) -> (r: Vec<quote::Tokens>)
        ensures
            r@.map_values(|x: quote::Tokens| tokens_text(x))
                == methods_of(self.class_of().members@).map_values(|x: Method| instance_method_trampoline_text(self.class_of(), x)),
    {
        let r = self.per_method(MethodTemplate::InstanceMethodTrampoline);
        assert(methods_of(self.class_of().members@).map_values(
            |x: Method| method_template_text(MethodTemplate::InstanceMethodTrampoline, self.class_of(), x),
        ) =~= methods_of(self.class_of().members@).map_values(|x: Method| instance_method_trampoline_text(self.class_of(), x)));
        r
    }

    /// Returns, for each method, its exported C function.
    pub fn imp_extern_methods(&self) -> (r: Vec<quote::Tokens>)
        requires
            self.class_of().name.str@.len() > 0,
        ensures
            r@.map_values(|x: quote::Tokens| tokens_text(x))
                == methods_of(self.class_of().members@).map_values(|x: Method| imp_extern_method_text(self.class_of(), x)),
    {
        let r = self.per_method(MethodTemplate::ImpExternMethod);
        assert(methods_of(self.class_of().members@).map_values(
            |x: Method| method_template_text(MethodTemplate::ImpExternMethod, self.class_of(), x),
        ) =~= methods_of(self.class_of().members@).map_values(|x: Method| imp_extern_method_text(self.class_of(), x)));
        r
    }

    /// Returns, for each method, something like `fn foo(&self, arg: u32);`.
    pub fn method_trait_fns(&self) -> (r: Vec<quote::Tokens>)
        ensures
            r@.map_values(|x: quote::Tokens| tokens_text(x))
                == methods_of(self.class_of().members@).map_values(|x: Method| method_trait_fn_text(self.class_of(), x)),
    {
        let r = self.per_method(MethodTemplate::MethodTraitFn);
        assert(methods_of(self.class_of().members@).map_values(
            |x: Method| method_template_text(MethodTemplate::MethodTraitFn, self.class_of(), x),
        ) =~= methods_of(self.class_of().members@).map_values(|x: Method| method_trait_fn_text(self.class_of(), x)));
        r
    }

    /// Returns, for each method, its implementation in the public trait.
    pub fn instance_ext_methods(&self) -> (r: Vec<quote::Tokens>)
        requires
            self.class_of().name.str@.len() > 0,
        ensures
            r@.map_values(|x: quote::Tokens| tokens_text(x))
                == methods_of(self.class_of().members@).map_values(|x: Method| instance_ext_method_text(self.class_of(), x)),
    {
        let r = self.per_method(MethodTemplate::InstanceExtMethod);
        assert(methods_of(self.class_of().members@).map_values(
            |x: Method| method_template_text(MethodTemplate::InstanceExtMethod, self.class_of(), x),
        ) =~= methods_of(self.class_of().members@).map_values(|x: Method| instance_ext_method_text(self.class_of(), x)));
        r
    }

    /// Returns, for each method, something like `fn foo(&self, arg: u32) { ... }`.
    pub fn method_impl_fns(&self) -> (r: Vec<quote::Tokens>)
        ensures
            r@.map_values(|x: quote::Tokens| tokens_text(x))
                == methods_of(self.class_of().members@).map_values(|x: Method| method_impl_fn_text(self.class_of(), x)),
    {
        let r = self.per_method(MethodTemplate::MethodImplFn);
        assert(methods_of(self.class_of().members@).map_values(
            |x: Method| method_template_text(MethodTemplate::MethodImplFn, self.class_of(), x),
        ) =~= methods_of(self.class_of().members@).map_values(|x: Method| method_impl_fn_text(self.class_of(), x)));
        r
    }

    /// Returns, for each method `foo`, something like
    /// `fn foo(&self, arg: u32) { (get_class(self).foo.unwrap())(self, arg) }`.
    pub fn method_redirects(&self) -> (r: Vec<quote::Tokens>)
        ensures
            r@.map_values(|x: quote::Tokens| tokens_text(x))
                == methods_of(self.class_of().members@).map_values(|x: Method| method_redirect_text(self.class_of(), x)),
    {
        let r = self.per_method(MethodTemplate::MethodRedirect);
        assert(methods_of(self.class_of().members@).map_values(
            |x: Method| method_template_text(MethodTemplate::MethodRedirect, self.class_of(), x),
        ) =~= methods_of(self.class_of().members@).map_values(|x: Method| method_redirect_text(self.class_of(), x)));
        r
    }

    /// Returns, for each method, the assignment of its slot in the class structure.
    pub fn method_assignments(&self) -> (r: Vec<quote::Tokens>)
        ensures
            r@.map_values(|x: quote::Tokens| tokens_text(x))
                == methods_of(self.class_of().members@).map_values(|x: Method| method_assignment_text(self.class_of(), x)),
    {
        let r = self.per_method(MethodTemplate::MethodAssignment);
        assert(methods_of(self.class_of().members@).map_values(
            |x: Method| method_template_text(MethodTemplate::MethodAssignment, self.class_of(), x),
        ) =~= methods_of(self.class_of().members@).map_values(|x: Method| method_assignment_text(self.class_of(), x)));
        r
    }

    /// Returns, for each method, the type of its function pointer.
    pub fn method_fn_tys(&self) -> (r: Vec<quote::Tokens>)
        ensures
            r@.map_values(|x: quote::Tokens| tokens_text(x))
                == methods_of(self.class_of().members@).map_values(|x: Method| method_fn_ty_text(self.class_of(), x)),
    {
        let r = self.per_method(MethodTemplate::MethodFnTy);
        assert(methods_of(self.class_of().members@).map_values(
            |x: Method| method_template_text(MethodTemplate::MethodFnTy, self.class_of(), x),
        ) =~= methods_of(self.class_of().members@).map_values(|x: Method| method_fn_ty_text(self.class_of(), x)));
        r
    }

    /// Returns, for each signal, its registration with `g_signal_newv()`.
    pub fn signal_declarations(&self) -> (r: Vec<quote::Tokens>)
        ensures
            r@.map_values(|x: quote::Tokens| tokens_text(x))
                == signals_of(self.class_of().members@).map_values(|x: Signal| signal_declaration_text(self.class_of(), x)),
    {
        proof {
            use_type_invariant(self);
        }
        let items = self.signals();
        let ghost spec_items = signals_of(self.class_of().members@);
        let mut r: Vec<quote::Tokens> = Vec::new();
        let mut i: usize = 0;
        while i < items.len()
            invariant
                self.wf(),
                spec_items == signals_of(self.class_of().members@),
                0 <= i <= items@.len(),
                items@.len() == spec_items.len(),
                forall|j: int| 0 <= j < items@.len() ==> *items@[j] == spec_items[j],
                r@.len() == i,
                forall|j: int| 0 <= j < i ==> tokens_text(#[trigger] r@[j]) == signal_declaration_text(self.class_of(), spec_items[j]),
            decreases items@.len() - i,
        {
            let x = self.signal_declaration(items[i]);
            r.push(x);
            i = i + 1;
        }
        assert(r@.map_values(|x: quote::Tokens| tokens_text(x))
            =~= spec_items.map_values(|x: Signal| signal_declaration_text(self.class_of(), x)));
        r
    }

    /// The crates and names that the generated module uses.
    pub fn imports(&self) -> (r: quote::Tokens)
        ensures
            tokens_text(r) == imports_text(),
    {
        let mut t = tokens_new();
        tokens_append(&mut t, "extern crate glib_sys as glib_ffi ; extern crate gobject_sys as \
        gobject_ffi ; extern crate glib ; extern crate libc ; use glib :: { IsA \
        , Value } ; use glib :: object :: Downcast ; use glib :: signal :: \
        connect ; use glib :: translate :: * ; use std :: ptr ; use std :: mem ; \
        use std :: mem :: transmute ; use super :: * ;");
        t
    }

    /// The `glib_wrapper!` invocation that declares the public instance type.
    pub fn glib_wrapper(&self) -> (r: quote::Tokens)
        requires
            self.class_of().name.str@.len() > 0,
        ensures
            tokens_text(r) == glib_wrapper_text(self.class_of()),
    {
        proof {
            use_type_invariant(self);
        }
        let mut t = tokens_new();
        tokens_append(&mut t, "glib_wrapper ! { pub struct");
        self.class.name.to_tokens(&mut t);
        tokens_append(&mut t, "( Object < imp ::");
        self.class.name.to_tokens(&mut t);
        tokens_append(&mut t, "> ) ; match fn { get_type => || imp ::");
        let get_type_fn_name = self.get_type_fn_name();
        get_type_fn_name.to_tokens(&mut t);
        tokens_append(&mut t, "( ) , } }");
        t
    }

    /// The C layout of an instance: the parent instance.
    pub fn imp_instance_struct(&self) -> (r: quote::Tokens)
        ensures
            tokens_text(r) == imp_instance_struct_text(self.class_of()),
    {
        proof {
            use_type_invariant(self);
        }
        let mut t = tokens_new();
        tokens_append(&mut t, "# [ repr ( C ) ] pub struct");
        self.class.name.to_tokens(&mut t);
        tokens_append(&mut t, "{ pub parent :");
        tokens_append_tokens(&mut t, &self.ParentInstanceFfi);
        tokens_append(&mut t, ", }");
        t
    }

    /// The C layout of the class structure: the parent class, then a slot per
    /// method.
    pub fn imp_class_struct(&self) -> (r: quote::Tokens)
        ensures
            tokens_text(r) == imp_class_struct_text(self.class_of()),
    {
        proof {
            use_type_invariant(self);
        }
        let mut t = tokens_new();
        tokens_append(&mut t, "# [ repr ( C ) ] pub struct");
        self.GClassName.to_tokens(&mut t);
        tokens_append(&mut t, "{ pub parent_class :");
        tokens_append_tokens(&mut t, &self.ParentClassFfi);
        tokens_append(&mut t, ",");
        let slots = self.slots();
        tokens_append_all(&mut t, &slots);
        tokens_append(&mut t, "}");
        t
    }

    /// The enumeration of properties; the first one starts at 1.
    pub fn imp_properties_enum(&self) -> (r: quote::Tokens)
        ensures
            tokens_text(r) == imp_properties_enum_text(),
    {
        let mut t = tokens_new();
        tokens_append(&mut t, "# [ repr ( u32 ) ] enum Properties { FIXMEDummy = 1 , }");
        t
    }

    /// The enumeration of signals; the first one starts at 0.
    pub fn imp_signals_enum(&self) -> (r: quote::Tokens)
        ensures
            tokens_text(r) == imp_signals_enum_text(),
    {
        let mut t = tokens_new();
        tokens_append(&mut t, "# [ repr ( u32 ) ] enum Signals { FIXMEDummy = 0 , }");
        t
    }

    /// The exported `foo_get_type()`, which registers the type on its first call.
    pub fn imp_get_type_fn(&self) -> (r: quote::Tokens)
        requires
            self.class_of().name.str@.len() > 0,
        ensures
            tokens_text(r) == imp_get_type_fn_text(self.class_of()),
    {
        proof {
            use_type_invariant(self);
        }
        let mut t = tokens_new();
        tokens_append(&mut t, "# [ no_mangle ] pub unsafe extern \"C\" fn");
        let get_type_fn_name = self.get_type_fn_name();
        get_type_fn_name.to_tokens(&mut t);
        tokens_append(&mut t, "( ) -> glib_ffi :: GType {");
        let callback_guard = self.callback_guard();
        tokens_append_tokens(&mut t, &callback_guard);
        tokens_append(&mut t, "use std :: sync :: { Once , ONCE_INIT } ; use std :: u16 ; static mut \
        TYPE : glib_ffi :: GType = gobject_ffi :: G_TYPE_INVALID ; static ONCE : \
        Once = ONCE_INIT ; ONCE . call_once ( || { let class_size = mem :: \
        size_of :: <");
        self.GClassName.to_tokens(&mut t);
        tokens_append(&mut t, "> ( ) ; assert ! ( class_size <= u16 :: MAX as usize ) ; let \
        instance_size = mem :: size_of :: <");
        self.class.name.to_tokens(&mut t);
        tokens_append(&mut t, "> ( ) ; assert ! ( instance_size <= u16 :: MAX as usize ) ; TYPE = \
        gobject_ffi :: g_type_register_static_simple ( <");
        tokens_append_tokens(&mut t, &self.ParentInstance);
        tokens_append(&mut t, "as glib :: StaticType > :: static_type ( ) . to_glib ( ) ,");
        ByteString(&self.class.name).to_tokens(&mut t);
        tokens_append(&mut t, "as * const u8 as * const i8 , class_size as u32 , Some (");
        self.GClassName.to_tokens(&mut t);
        tokens_append(&mut t, ":: init ) , instance_size as u32 , Some (");
        self.class.name.to_tokens(&mut t);
        tokens_append(&mut t, ":: init ) , gobject_ffi :: GTypeFlags :: empty ( ) ) ; } ) ; TYPE }");
        t
    }

    /// `get_class()`: the class structure of an instance.
    pub fn instance_get_class_fn(&self) -> (r: quote::Tokens)
        ensures
            tokens_text(r) == instance_get_class_fn_text(self.class_of()),
    {
        proof {
            use_type_invariant(self);
        }
        let mut t = tokens_new();
        tokens_append(&mut t, "fn get_class ( & self ) -> &");
        self.GClassName.to_tokens(&mut t);
        tokens_append(&mut t, "{ unsafe { let klass = ( * ( self as * const _ as * const gobject_ffi :: \
        GTypeInstance ) ) . g_class ; & * ( klass as * const");
        self.GClassName.to_tokens(&mut t);
        tokens_append(&mut t, ") } }");
        t
    }

    /// `get_priv()`: the private data of an instance.
    pub fn instance_get_priv_fn(&self) -> (r: quote::Tokens)
        requires
            self.class_of().name.str@.len() > 0,
        ensures
            tokens_text(r) == instance_get_priv_fn_text(self.class_of()),
    {
        proof {
            use_type_invariant(self);
        }
        let mut t = tokens_new();
        tokens_append(&mut t, "fn get_priv ( & self ) -> &");
        self.private_struct.name.to_tokens(&mut t);
        tokens_append(&mut t, "{ unsafe { let private = gobject_ffi :: g_type_instance_get_private ( < \
        Self as ToGlibPtr < * mut");
        self.class.name.to_tokens(&mut t);
        tokens_append(&mut t, "> > :: to_glib_none ( self ) . 0 as * mut gobject_ffi :: GTypeInstance ,");
        let get_type_fn_name = self.get_type_fn_name();
        get_type_fn_name.to_tokens(&mut t);
        tokens_append(&mut t, "( ) , ) as * const Option <");
        self.private_struct.name.to_tokens(&mut t);
        tokens_append(&mut t, "> ; ( & * private ) . as_ref ( ) . unwrap ( ) } }");
        t
    }

    /// The methods of the public instance type: `get_priv()` and the
    /// implementation of each method.
    pub fn instance_private_impl(&self) -> (r: quote::Tokens)
        requires
            self.class_of().name.str@.len() > 0,
        ensures
            tokens_text(r) == instance_private_impl_text(self.class_of()),
    {
        proof {
            use_type_invariant(self);
        }
        let mut t = tokens_new();
        tokens_append(&mut t, "impl super ::");
        self.class.name.to_tokens(&mut t);
        tokens_append(&mut t, "{");
        let instance_get_priv_fn = self.instance_get_priv_fn();
        tokens_append_tokens(&mut t, &instance_get_priv_fn);
        let instance_method_impls = self.instance_method_impls();
        tokens_append_all(&mut t, &instance_method_impls);
        tokens_append(&mut t, "}");
        t
    }

    /// The instance initializer, which writes a new private struct into the
    /// instance's private data.
    pub fn instance_init_fn(&self) -> (r: quote::Tokens)
        requires
            self.class_of().name.str@.len() > 0,
        ensures
            tokens_text(r) == instance_init_fn_text(self.class_of()),
    {
        proof {
            use_type_invariant(self);
        }
        let mut t = tokens_new();
        tokens_append(&mut t, "unsafe extern \"C\" fn init ( obj : * mut gobject_ffi :: GTypeInstance , \
        _klass : glib_ffi :: gpointer , ) {");
        let callback_guard = self.callback_guard();
        tokens_append_tokens(&mut t, &callback_guard);
        tokens_append(&mut t, "let private = gobject_ffi :: g_type_instance_get_private ( obj ,");
        let get_type_fn_name = self.get_type_fn_name();
        get_type_fn_name.to_tokens(&mut t);
        tokens_append(&mut t, "( ) ) as * mut Option <");
        self.private_struct.name.to_tokens(&mut t);
        tokens_append(&mut t, "> ; ptr :: write ( private , Some (");
        self.private_struct.name.to_tokens(&mut t);
        tokens_append(&mut t, ":: new ( ) ) ) ; }");
        t
    }

    /// The finalizer, which drops the private data and then calls the parent
    /// class's finalizer.
    pub fn instance_finalize_fn(&self) -> (r: quote::Tokens)
        requires
            self.class_of().name.str@.len() > 0,
        ensures
            tokens_text(r) == instance_finalize_fn_text(self.class_of()),
    {
        proof {
            use_type_invariant(self);
        }
        let mut t = tokens_new();
        tokens_append(&mut t, "unsafe extern \"C\" fn finalize ( obj : * mut gobject_ffi :: GObject ) {");
        let callback_guard = self.callback_guard();
        tokens_append_tokens(&mut t, &callback_guard);
        tokens_append(&mut t, "let private = gobject_ffi :: g_type_instance_get_private ( obj as * mut \
        gobject_ffi :: GTypeInstance ,");
        let get_type_fn_name = self.get_type_fn_name();
        get_type_fn_name.to_tokens(&mut t);
        tokens_append(&mut t, "( ) , ) as * mut Option <");
        self.private_struct.name.to_tokens(&mut t);
        tokens_append(&mut t, "> ; let _ = ( * private ) . take ( ) ; ( * PRIV . parent_class ) . \
        finalize . map ( | f | f ( obj ) ) ; }");
        t
    }

    /// The methods of the instance structure: `get_class()`, `init`, `finalize`
    /// and the method trampolines.
    pub fn imp_instance(&self) -> (r: quote::Tokens)
        requires
            self.class_of().name.str@.len() > 0,
        ensures
            tokens_text(r) == imp_instance_text(self.class_of()),
    {
        proof {
            use_type_invariant(self);
        }
        let mut t = tokens_new();
        tokens_append(&mut t, "impl");
        self.class.name.to_tokens(&mut t);
        tokens_append(&mut t, "{");
        let instance_get_class_fn = self.instance_get_class_fn();
        tokens_append_tokens(&mut t, &instance_get_class_fn);
        let instance_init_fn = self.instance_init_fn();
        tokens_append_tokens(&mut t, &instance_init_fn);
        let instance_finalize_fn = self.instance_finalize_fn();
        tokens_append_tokens(&mut t, &instance_finalize_fn);
        let instance_method_trampolines = self.instance_method_trampolines();
        tokens_append_all(&mut t, &instance_method_trampolines);
        tokens_append(&mut t, "}");
        t
    }

    /// The class initializer: reserves the private data, sets the finalizer,
    /// fills each method's slot with its trampoline and records the parent
    /// class.
    pub fn class_init_fn(&self) -> (r: quote::Tokens)
        ensures
            tokens_text(r) == class_init_fn_text(self.class_of()),
    {
        proof {
            use_type_invariant(self);
        }
        let mut t = tokens_new();
        tokens_append(&mut t, "unsafe extern \"C\" fn init ( klass : glib_ffi :: gpointer , _klass_data \
        : glib_ffi :: gpointer ) {");
        let callback_guard = self.callback_guard();
        tokens_append_tokens(&mut t, &callback_guard);
        tokens_append(&mut t, "gobject_ffi :: g_type_class_add_private ( klass , mem :: size_of :: < \
        Option <");
        self.private_struct.name.to_tokens(&mut t);
        tokens_append(&mut t, "> > ( ) ) ; { let gobject_class = & mut * ( klass as * mut gobject_ffi \
        :: GObjectClass ) ; gobject_class . finalize = Some (");
        self.class.name.to_tokens(&mut t);
        tokens_append(&mut t, ":: finalize ) ; } { let klass = & mut * ( klass as * mut");
        self.GClassName.to_tokens(&mut t);
        tokens_append(&mut t, ") ;");
        let slot_assignments = self.slot_assignments();
        tokens_append_all(&mut t, &slot_assignments);
        tokens_append(&mut t, "} { } PRIV . parent_class = gobject_ffi :: g_type_class_peek_parent ( \
        klass ) as * const");
        tokens_append_tokens(&mut t, &self.ParentClassFfi);
        tokens_append(&mut t, "; }");
        t
    }

    /// The methods of the class structure.
    pub fn imp_class(&self) -> (r: quote::Tokens)
        ensures
            tokens_text(r) == imp_class_text(self.class_of()),
    {
        proof {
            use_type_invariant(self);
        }
        let mut t = tokens_new();
        tokens_append(&mut t, "impl");
        self.GClassName.to_tokens(&mut t);
        tokens_append(&mut t, "{");
        let class_init_fn = self.class_init_fn();
        tokens_append_tokens(&mut t, &class_init_fn);
        tokens_append(&mut t, "}");
        t
    }

    /// The class-wide private data and its static instance.
    pub fn imp_class_private_struct(&self) -> (r: quote::Tokens)
        ensures
            tokens_text(r) == imp_class_private_struct_text(self.class_of()),
    {
        proof {
            use_type_invariant(self);
        }
        let mut t = tokens_new();
        tokens_append(&mut t, "struct");
        self.PrivateClassName.to_tokens(&mut t);
        tokens_append(&mut t, "{ parent_class : * const");
        tokens_append_tokens(&mut t, &self.ParentClassFfi);
        tokens_append(&mut t, ", properties : * const Vec < * const gobject_ffi :: GParamSpec > , \
        signals : * const Vec < u32 > } static mut PRIV :");
        self.PrivateClassName.to_tokens(&mut t);
        tokens_append(&mut t, "=");
        self.PrivateClassName.to_tokens(&mut t);
        tokens_append(&mut t, "{ parent_class : 0 as * const _ , properties : 0 as * const _ , signals \
        : 0 as * const _ , } ;");
        t
    }

    /// The exported C constructor `foo_new()`.
    pub fn imp_new_fn(&self) -> (r: quote::Tokens)
        requires
            self.class_of().name.str@.len() > 0,
        ensures
            tokens_text(r) == imp_new_fn_text(self.class_of()),
    {
        proof {
            use_type_invariant(self);
        }
        let mut t = tokens_new();
        tokens_append(&mut t, "# [ no_mangle ] pub unsafe extern \"C\" fn");
        let mut new_name = self.lower_case_class_name();
        new_name.append("_new");
        tokens_append_ident(&mut t, new_name.as_str());
        tokens_append(&mut t, "( ) -> * mut");
        self.class.name.to_tokens(&mut t);
        tokens_append(&mut t, "{");
        let callback_guard = self.callback_guard();
        tokens_append_tokens(&mut t, &callback_guard);
        tokens_append(&mut t, "let this = gobject_ffi :: g_object_newv (");
        let get_type_fn_name = self.get_type_fn_name();
        get_type_fn_name.to_tokens(&mut t);
        tokens_append(&mut t, "( ) , 0 , ptr :: null_mut ( ) ) ; this as * mut");
        self.class.name.to_tokens(&mut t);
        tokens_append(&mut t, "}");
        t
    }

    /// The private struct and its constructor.
    pub fn imp_private_struct(&self) -> (r: quote::Tokens)
        ensures
            tokens_text(r) == imp_private_struct_text(self.class_of()),
    {
        proof {
            use_type_invariant(self);
        }
        let mut t = tokens_new();
        tokens_append(&mut t, "struct");
        self.private_struct.name.to_tokens(&mut t);
        tokens_append(&mut t, "{");
        fields_to_tokens(&self.private_struct.fields, &mut t);
        tokens_append(&mut t, "} impl");
        self.private_struct.name.to_tokens(&mut t);
        tokens_append(&mut t, "{ pub fn new ( ) -> Self");
        let private_init_fn_body = self.private_init_fn_body();
        tokens_append_tokens(&mut t, &private_init_fn_body);
        tokens_append(&mut t, "}");
        t
    }

    /// The `imp` module, which holds the C-level implementation of the class.
    pub fn imp_module(&self) -> (r: quote::Tokens)
        requires
            self.class_of().name.str@.len() > 0,
        ensures
            tokens_text(r) == imp_module_text(self.class_of()),
    {
        proof {
            use_type_invariant(self);
        }
        let mut t = tokens_new();
        tokens_append(&mut t, "pub mod imp { use super :: super :: * ; use super :: glib ; use super :: \
        glib_ffi ; use super :: gobject_ffi ; use super :: libc ; use std :: mem \
        ; use std :: ptr ; use glib :: translate :: * ;");
        let imp_instance_struct = self.imp_instance_struct();
        tokens_append_tokens(&mut t, &imp_instance_struct);
        let imp_class_struct = self.imp_class_struct();
        tokens_append_tokens(&mut t, &imp_class_struct);
        let imp_properties_enum = self.imp_properties_enum();
        tokens_append_tokens(&mut t, &imp_properties_enum);
        let imp_signals_enum = self.imp_signals_enum();
        tokens_append_tokens(&mut t, &imp_signals_enum);
        let imp_private_struct = self.imp_private_struct();
        tokens_append_tokens(&mut t, &imp_private_struct);
        let imp_class_private_struct = self.imp_class_private_struct();
        tokens_append_tokens(&mut t, &imp_class_private_struct);
        let instance_private_impl = self.instance_private_impl();
        tokens_append_tokens(&mut t, &instance_private_impl);
        let imp_instance = self.imp_instance();
        tokens_append_tokens(&mut t, &imp_instance);
        let imp_class = self.imp_class();
        tokens_append_tokens(&mut t, &imp_class);
        let imp_new_fn = self.imp_new_fn();
        tokens_append_tokens(&mut t, &imp_new_fn);
        let imp_extern_methods = self.imp_extern_methods();
        tokens_append_all(&mut t, &imp_extern_methods);
        let imp_get_type_fn = self.imp_get_type_fn();
        tokens_append_tokens(&mut t, &imp_get_type_fn);
        tokens_append(&mut t, "}");
        t
    }

    /// The constructor `new()` of the public instance type.
    pub fn instance_new_fn(&self) -> (r: quote::Tokens)
        requires
            self.class_of().name.str@.len() > 0,
        ensures
            tokens_text(r) == instance_new_fn_text(self.class_of()),
    {
        proof {
            use_type_invariant(self);
        }
        let mut t = tokens_new();
        tokens_append(&mut t, "impl");
        self.class.name.to_tokens(&mut t);
        tokens_append(&mut t, "{ pub fn new ( ) ->");
        self.class.name.to_tokens(&mut t);
        tokens_append(&mut t, "{ unsafe { from_glib_full ( imp ::");
        let mut new_name = self.lower_case_class_name();
        new_name.append("_new");
        tokens_append_ident(&mut t, new_name.as_str());
        tokens_append(&mut t, "( ) ) } } }");
        t
    }

    /// The public trait with all the class's methods.
    pub fn instance_ext(&self) -> (r: quote::Tokens)
        ensures
            tokens_text(r) == instance_ext_text(self.class_of()),
    {
        proof {
            use_type_invariant(self);
        }
        let mut t = tokens_new();
        tokens_append(&mut t, "pub trait");
        self.InstanceExt.to_tokens(&mut t);
        tokens_append(&mut t, "{");
        let method_trait_fns = self.method_trait_fns();
        tokens_append_all(&mut t, &method_trait_fns);
        tokens_append(&mut t, "}");
        t
    }

    /// The implementation of the public trait for every object that is a `Foo`,
    /// through the exported C functions.
    pub fn instance_ext_impl(&self) -> (r: quote::Tokens)
        requires
            self.class_of().name.str@.len() > 0,
        ensures
            tokens_text(r) == instance_ext_impl_text(self.class_of()),
    {
        proof {
            use_type_invariant(self);
        }
        let mut t = tokens_new();
        tokens_append(&mut t, "impl < O : IsA <");
        self.class.name.to_tokens(&mut t);
        tokens_append(&mut t, "> + IsA < glib :: object :: Object > >");
        self.InstanceExt.to_tokens(&mut t);
        tokens_append(&mut t, "for O {");
        let instance_ext_methods = self.instance_ext_methods();
        tokens_append_all(&mut t, &instance_ext_methods);
        tokens_append(&mut t, "}");
        t
    }

    /// The constructor `new()`, `private()` and `upcast()` of the instance type.
    pub fn always_impl(&self) -> (r: quote::Tokens)
        ensures
            tokens_text(r) == always_impl_text(self.class_of()),
    {
        proof {
            use_type_invariant(self);
        }
        let mut t = tokens_new();
        tokens_append(&mut t, "impl");
        self.class.name.to_tokens(&mut t);
        tokens_append(&mut t, "{ pub fn new ( ) ->");
        self.class.name.to_tokens(&mut t);
        tokens_append(&mut t, "{ use gnome_class_shims :: GInstance ; use gnome_class_shims :: \
        gobject_sys :: { self , GObject } ; use std :: ptr ; unsafe { let data : \
        * mut GObject = gobject_sys :: g_object_new (");
        self.class.name.to_tokens(&mut t);
        tokens_append(&mut t, ":: get_type ( ) , ptr :: null_mut ( ) ) ;");
        self.class.name.to_tokens(&mut t);
        tokens_append(&mut t, ":: from_gobject_ptr ( data ) } } # [ allow ( dead_code ) ] fn private ( \
        & self ) -> &");
        self.private_struct.name.to_tokens(&mut t);
        tokens_append(&mut t, "{ use gnome_class_shims :: GInstance ; use gnome_class_shims :: \
        gobject_sys :: { self , GTypeInstance } ; unsafe { let this = GInstance \
        :: to_gobject_ptr ( self ) as * mut GTypeInstance ; let private = \
        gobject_sys :: g_type_instance_get_private ( this ,");
        self.class.name.to_tokens(&mut t);
        tokens_append(&mut t, ":: get_type ( ) ) ; let private = private as * const");
        self.private_struct.name.to_tokens(&mut t);
        tokens_append(&mut t, "; & * private } } # [ allow ( dead_code ) ] pub fn upcast ( & self ) -> \
        &");
        tokens_append_tokens(&mut t, &self.ParentInstance);
        tokens_append(&mut t, "{ use gnome_class_shims :: GInstance ; unsafe { GInstance :: \
        borrow_gobject_ptr ( & self . parent ) } } }");
        t
    }

    /// `get_type()`, which registers the type on its first call; the helper
    /// functions are hidden inside it.
    pub fn get_type_fn(&self) -> (r: quote::Tokens)
        ensures
            tokens_text(r) == get_type_fn_text(self.class_of()),
    {
        proof {
            use_type_invariant(self);
        }
        let mut t = tokens_new();
        tokens_append(&mut t, "fn get_type ( ) -> :: gnome_class_shims :: glib_sys :: GType {");
        let callback_guard = self.callback_guard();
        tokens_append_tokens(&mut t, &callback_guard);
        tokens_append(&mut t, "use gnome_class_shims as shims ; use gnome_class_shims :: gobject_sys :: \
        { self , GObject , GObjectClass , GTypeInstance , GTypeFlags } ; use \
        gnome_class_shims :: glib_sys :: { GType , gpointer } ; use std :: { mem \
        , ptr } ; use std :: sync :: { Once , ONCE_INIT } ;");
        let get_type_instance_init = {
            let mut t = tokens_new();
            tokens_append(&mut t, "extern fn instance_init ( this : * mut GTypeInstance , _klass : gpointer \
                ) { unsafe { let private = gobject_sys :: g_type_instance_get_private ( \
                this ,");
            self.class.name.to_tokens(&mut t);
            tokens_append(&mut t, ":: get_type ( ) ) ; let private = private as * mut");
            self.private_struct.name.to_tokens(&mut t);
            tokens_append(&mut t, "; ptr :: write ( private ,");
            self.private_struct.name.to_tokens(&mut t);
            tokens_append(&mut t, ":: new ( ) ) ; } }");
            t
        };
        tokens_append_tokens(&mut t, &get_type_instance_init);
        let get_type_finalize = {
            let mut t = tokens_new();
            tokens_append(&mut t, "extern fn finalize ( this : * mut GObject ) { use gnome_class_shims :: \
                GInstance ; unsafe { let this = <");
            self.class.name.to_tokens(&mut t);
            tokens_append(&mut t, "as GInstance > :: borrow_gobject_ptr ( & this ) ; ptr :: read ( ( * this \
                ) . private ( ) ) ; let object_class = shims :: get_class ( & * this ) ; \
                let parent_class = shims :: get_parent_class ( object_class ) ; if let \
                Some ( f ) = parent_class . finalize { f (");
            self.class.name.to_tokens(&mut t);
            tokens_append(&mut t, ":: to_gobject_ptr ( this ) ) } } }");
            t
        };
        tokens_append_tokens(&mut t, &get_type_finalize);
        let get_type_class_init = {
            let mut t = tokens_new();
            tokens_append(&mut t, "extern fn class_init ( klass : gpointer , _klass_data : gpointer ) { \
                unsafe { let g_object_class = klass as * mut GObjectClass ; ( * \
                g_object_class ) . finalize = Some ( finalize ) ; gobject_sys :: \
                g_type_class_add_private ( klass , mem :: size_of :: <");
            self.private_struct.name.to_tokens(&mut t);
            tokens_append(&mut t, "> ( ) ) ; let klass = klass as * mut");
            self.GClassName.to_tokens(&mut t);
            tokens_append(&mut t, "; let klass : & mut");
            self.GClassName.to_tokens(&mut t);
            tokens_append(&mut t, "= & mut * klass ;");
            let method_assignments = self.method_assignments();
            tokens_append_all(&mut t, &method_assignments);
            let signal_declarations = self.signal_declarations();
            tokens_append_all(&mut t, &signal_declarations);
            tokens_append(&mut t, "} }");
            t
        };
        tokens_append_tokens(&mut t, &get_type_class_init);
        let get_type_register = {
            let mut t = tokens_new();
            tokens_append(&mut t, "fn register ( ) -> GType { use std :: u16 ; unsafe { let class_size = \
                mem :: size_of :: <");
            self.GClassName.to_tokens(&mut t);
            tokens_append(&mut t, "> ( ) ; assert ! ( class_size <= u16 :: MAX as usize ) ; let \
                instance_size = mem :: size_of :: <");
            self.FieldsName.to_tokens(&mut t);
            tokens_append(&mut t, "> ( ) ; assert ! ( instance_size <= u16 :: MAX as usize ) ; gobject_sys \
                :: g_type_register_static_simple (");
            tokens_append_tokens(&mut t, &self.ParentInstance);
            tokens_append(&mut t, ":: get_type ( ) ,");
            ByteString(&self.class.name).to_tokens(&mut t);
            tokens_append(&mut t, "as * const u8 as * const i8 , class_size as u32 , Some ( class_init ) , \
                instance_size as u32 , Some ( instance_init ) , GTypeFlags :: empty ( ) \
                ) } }");
            t
        };
        tokens_append_tokens(&mut t, &get_type_register);
        tokens_append(&mut t, "unsafe { static mut GTYPE : GType = gobject_sys :: G_TYPE_INVALID ; \
        static ONCE : Once = ONCE_INIT ; ONCE . call_once ( || { GTYPE = \
        register ( ) ; } ) ; GTYPE } }");
        t
    }

    /// The methods declared in the class, as a trait of their own and its
    /// implementation for the instance type.
    pub fn methods_declared_in_instance(&self) -> (r: quote::Tokens)
        ensures
            tokens_text(r) == methods_declared_in_instance_text(self.class_of()),
    {
        proof {
            use_type_invariant(self);
        }
        let mut t = tokens_new();
        tokens_append(&mut t, "# [ allow ( non_snake_case ) ] mod");
        self.MethodsFrom.to_tokens(&mut t);
        tokens_append(&mut t, "{ use super :: * ; pub trait Trait {");
        let method_trait_fns = self.method_trait_fns();
        tokens_append_all_prefixed(&mut t, "extern", &method_trait_fns);
        proof {
            lemma_prefixed_map(method_trait_fns@, "extern"@);
            assert(methods_of(self.class_of().members@).map_values(|x: Method| method_trait_fn_text(self.class_of(), x)).map_values(|y: Seq<char>| join("extern"@, y))
                =~= methods_of(self.class_of().members@).map_values(|x: Method| join("extern"@, method_trait_fn_text(self.class_of(), x))));
        }
        tokens_append(&mut t, "} } impl");
        self.MethodsFrom.to_tokens(&mut t);
        tokens_append(&mut t, ":: Trait for");
        self.class.name.to_tokens(&mut t);
        tokens_append(&mut t, "{");
        let method_impl_fns = self.method_impl_fns();
        tokens_append_all_prefixed(&mut t, "extern", &method_impl_fns);
        proof {
            lemma_prefixed_map(method_impl_fns@, "extern"@);
            assert(methods_of(self.class_of().members@).map_values(|x: Method| method_impl_fn_text(self.class_of(), x)).map_values(|y: Seq<char>| join("extern"@, y))
                =~= methods_of(self.class_of().members@).map_values(|x: Method| join("extern"@, method_impl_fn_text(self.class_of(), x))));
        }
        tokens_append(&mut t, "}");
        t
    }

    /// The exported C function `foo_method()` of one method.
    fn c_symbol(&self, instance_name: &String, method: &Method) -> (r: quote::Tokens)
        requires
            self.class_of().name.str@.len() > 0,
            instance_name@ == lower_case_class_name_text(self.class_of()),
        ensures
            tokens_text(r) == c_symbol_text(self.class_of(), *method),
    {
        proof {
            use_type_invariant(self);
        }
        let mut t = tokens_new();
        tokens_append(&mut t, "# [ no_mangle ] pub extern fn");
        let mut c_name = instance_name.clone();
        c_name.append("_");
        c_name.append(method.name.str.as_str());
        tokens_append_ident(&mut t, c_name.as_str());
        tokens_append(&mut t, "( __this : &");
        self.FieldsName.to_tokens(&mut t);
        tokens_append(&mut t, ",");
        method.fn_def.sig.arg_decls().to_tokens(&mut t);
        tokens_append(&mut t, ")");
        method.fn_def.sig.return_ty().to_tokens(&mut t);
        tokens_append(&mut t, "{ use gnome_class_shims :: GFields ; let __this = <");
        self.FieldsName.to_tokens(&mut t);
        tokens_append(&mut t, "as GFields > :: as_instance ( & __this ) ;");
        self.class.name.to_tokens(&mut t);
        tokens_append(&mut t, "::");
        method.name.to_tokens(&mut t);
        tokens_append(&mut t, "( __this ,");
        method.fn_def.sig.arg_names().to_tokens(&mut t);
        tokens_append(&mut t, ") }");
        t
    }

}

/// `name: Default::default()`: one field of the default private struct.
pub open spec fn field_init_text(f: VarTy) -> Seq<char> {
    join(ident_text(f.name), ": Default :: default ( )"@)
}

/// The body of the private struct's `new()`.
pub open spec fn private_init_fn_body_text(c: Class) -> Seq<char> {
    match first_private_init(c.members@) {
        Some(f) => code_text(f),
        None => {
            let t = "{"@;
            let t = join(t, private_name_text(c));
            let t = join(t, "{"@);
            let t = join(t, sep_join(private_struct_of(c).fields@.map_values(|f: VarTy| field_init_text(f)), ","@));
            let t = join(t, "} }"@);
            t
        },
    }
}

/// From a signal called `foo`, generate `foo_signal_id`.
pub fn signal_id_name(signal: &Signal) -> (r: Identifier)
    ensures
        r.str@ == ident_text(signal.name) + "_signal_id"@,
{
    let mut s = signal.name.str.clone();
    s.append("_signal_id");
    Identifier { str: s }
}

// ---------------------------------------------------------------------------
// A whole program
// ---------------------------------------------------------------------------

/// Every class up to and including the `i`-th declares a private struct.
pub open spec fn private_structs_up_to(p: Program, i: int) -> bool {
    forall|j: int| 0 <= j <= i ==> #[trigger] has_private_struct(p.classes@[j])
}

/// Generation reaches the code of every class whose name it lower-cases,
/// and such a name is not empty.
pub open spec fn names_generable(p: Program) -> bool {
    forall|i: int| 0 <= i < p.classes@.len() && private_structs_up_to(p, i)
        ==> (#[trigger] p.classes@[i]).name.str@.len() > 0
}

/// Code can be generated for every class of the program.
pub open spec fn all_have_private_struct(p: Program) -> bool {
    forall|i: int| 0 <= i < p.classes@.len() ==> #[trigger] has_private_struct(p.classes@[i])
}

/// The code generated for a whole program: that of each class, in order.
pub open spec fn classes_text(p: Program) -> Seq<char> {
    sep_join(p.classes@.map_values(|c: Class| gen_class_text(c)), Seq::empty())
}

/// Generates the code of every class of the program; fails, with the error
/// of the first class that has no private struct, when there is one.
#[verifier::spinoff_prover]
pub fn classes(program: &Program) -> (r: Result<quote::Tokens, GenError>)
    requires
        names_generable(*program),
    ensures
        r is Ok <==> all_have_private_struct(*program),
        r matches Ok(t) ==> tokens_text(t) == classes_text(*program),
        r matches Err(e) ==> e is NoPrivateStruct,
{
    let classes = &program.classes;
    let mut class_tokens: Vec<quote::Tokens> = Vec::new();
    let mut i: usize = 0;
    while i < classes.len()
        invariant
            classes == &program.classes,
            names_generable(*program),
            0 <= i <= classes@.len(),
            forall|j: int| 0 <= j < i ==> #[trigger] has_private_struct(classes@[j]),
            class_tokens@.len() == i,
            forall|j: int| 0 <= j < i ==> tokens_text(#[trigger] class_tokens@[j])
                == gen_class_text(classes@[j]),
        decreases classes@.len() - i,
    {
        let cx = match ClassContext::new(program, &classes[i]) {
            Ok(cx) => cx,
            Err(e) => return Err(e),
        };
        assert(private_structs_up_to(*program, i as int));
        let t = match cx.gen_class() {
            Ok(t) => t,
            Err(e) => return Err(e),
        };
        class_tokens.push(t);
        i = i + 1;
    }
    assert(class_tokens@.map_values(|x: quote::Tokens| tokens_text(x))
        =~= classes@.map_values(|c: Class| gen_class_text(c)));
    let mut t = tokens_new();
    tokens_append_all(&mut t, &class_tokens);
    Ok(t)
}

/// The code of a program whose classes are those of `a` followed by those
/// of `b` is the code of `a` followed by the code of `b`; and code can be
/// generated for it exactly when it can be for both.
#[verifier::spinoff_prover]
pub proof fn law_classes_concat(a: Program, b: Program, ab: Program)
    requires
        ab.classes@ == a.classes@ + b.classes@,
    ensures
        classes_text(ab) == join(classes_text(a), classes_text(b)),
        all_have_private_struct(ab) <==> all_have_private_struct(a) && all_have_private_struct(b),
{
    let f = |c: Class| gen_class_text(c);
    assert(ab.classes@.map_values(f) =~= a.classes@.map_values(f) + b.classes@.map_values(f));
    lemma_sep_join_concat(a.classes@.map_values(f), b.classes@.map_values(f));
    if all_have_private_struct(a) && all_have_private_struct(b) {
        assert forall|i: int| 0 <= i < ab.classes@.len() implies #[trigger] has_private_struct(ab.classes@[i]) by {
            if i < a.classes@.len() {
                assert(ab.classes@[i] == a.classes@[i]);
            } else {
                assert(ab.classes@[i] == b.classes@[i - a.classes@.len()]);
            }
        }
    }
    if all_have_private_struct(ab) {
        assert forall|i: int| 0 <= i < a.classes@.len() implies #[trigger] has_private_struct(a.classes@[i]) by {
            assert(ab.classes@[i] == a.classes@[i]);
        }
        assert forall|i: int| 0 <= i < b.classes@.len() implies #[trigger] has_private_struct(b.classes@[i]) by {
            assert(ab.classes@[a.classes@.len() + i] == b.classes@[i]);
        }
    }
}

/// The code of a program with a single class is the code of that class.
pub proof fn law_classes_single(c: Class, p: Program)
    requires
        p.classes@ == seq![c],
    ensures
        classes_text(p) == gen_class_text(c),
{
    assert(p.classes@.map_values(|c: Class| gen_class_text(c)) =~= seq![gen_class_text(c)]);
}

/// The parent's class structure type, `< P as glib :: wrapper :: Wrapper >
/// :: GlibClassType` for a class that extends `P`, glib::Object's otherwise.
pub open spec fn parent_class_type(c: Class) -> Seq<char> {
    join(join("<"@, match c.extends {
        Some(p) => path_text(p, false),
        None => "glib :: Object"@,
    }), "as glib :: wrapper :: Wrapper > :: GlibClassType"@)
}

/// The class structure begins with its `parent_class` field, of the parent's
/// class structure type, and the class-wide private data holds a pointer to
/// that same type.
pub proof fn law_parent_class_fields_have_the_parent_class_type(c: Class)
    ensures
        starts_with(imp_class_struct_text(c), join(join(join(
            "# [ repr ( C ) ] pub struct"@, ident_text(c.name) + "Class"@),
            "{ pub parent_class :"@), parent_class_type(c))),
        starts_with(imp_class_private_struct_text(c), join(join(join(
            "struct"@, ident_text(c.name) + "ClassPrivate"@),
            "{ parent_class : * const"@), parent_class_type(c))),
{
    broadcast use lemma_join_keeps_prefix;
    lemma_starts_with_self(join(join(join(
        "# [ repr ( C ) ] pub struct"@, ident_text(c.name) + "Class"@),
        "{ pub parent_class :"@), parent_class_type(c)));
    lemma_starts_with_self(join(join(join(
        "struct"@, ident_text(c.name) + "ClassPrivate"@),
        "{ parent_class : * const"@), parent_class_type(c)));
}

/// The class initializer records the parent class under the parent's own
/// class type: for a class that extends `P` it casts the peeked parent class
/// to `< P as glib :: wrapper :: Wrapper > :: GlibClassType`, and only for a
/// class without parent to glib::Object's.
pub proof fn law_class_init_casts_to_the_parent_class(c: Class)
    ensures
        ends_with(class_init_fn_text(c), join(join(
            "} { } PRIV . parent_class = gobject_ffi :: g_type_class_peek_parent ( klass ) as * const"@,
            parent_class_type(c)), "; }"@)),
{
    broadcast use lemma_join3_ends_with;
}

/// Every argument of a method, as `, name : ty`, in order.
pub open spec fn each_arg_decl(m: Method) -> Seq<char> {
    sep_join(m.fn_def.sig.args@.map_values(|a: VarTy| join(","@, var_ty_text(a))), Seq::empty())
}

/// Every argument's name, as `, name`, in order.
pub open spec fn each_arg_name(m: Method) -> Seq<char> {
    sep_join(m.fn_def.sig.args@.map_values(|a: VarTy| join(","@, ident_text(a.name))), Seq::empty())
}

/// A method's slot in the class structure is a function of `this` and every
/// argument of the method, in order.
#[verifier::spinoff_prover]
pub proof fn law_slot_declares_every_argument(c: Class, m: Method)
    ensures
        starts_with(slot_text(c, m), join(join(join(join("pub"@, ident_text(m.name)),
            ": Option < unsafe extern \"C\" fn ( this : * mut"@), ident_text(c.name)), each_arg_decl(m))),
{
    broadcast use lemma_join_keeps_prefix, lemma_join3_ends_with;
    law_comma_arg_decls_lists_every_argument(m.fn_def.sig);
    lemma_starts_with_self(join(join(join(join("pub"@, ident_text(m.name)),
            ": Option < unsafe extern \"C\" fn ( this : * mut"@), ident_text(c.name)), each_arg_decl(m)));
}

/// A method's trampoline takes `this` and every argument of the method, in
/// order, and passes every argument on to the method's `foo_impl`.
#[verifier::spinoff_prover]
pub proof fn law_trampoline_passes_every_argument(c: Class, m: Method)
    ensures
        starts_with(instance_method_trampoline_text(c, m), join(join(join(join(
            "unsafe extern \"C\" fn"@, ident_text(m.name) + "_trampoline"@), "( this : * mut"@),
            ident_text(c.name)), each_arg_decl(m))),
        ends_with(instance_method_trampoline_text(c, m), join(join("("@,
            sep_join(m.fn_def.sig.args@.map_values(|a: VarTy| ident_text(a.name)), ","@)), ") }"@)),
{
    broadcast use lemma_join_keeps_prefix, lemma_join3_ends_with;
    law_comma_arg_decls_lists_every_argument(m.fn_def.sig);
    lemma_starts_with_self(join(join(join(join(
            "unsafe extern \"C\" fn"@, ident_text(m.name) + "_trampoline"@), "( this : * mut"@),
            ident_text(c.name)), each_arg_decl(m)));
}

/// A method's exported C function takes `this` and every argument of the
/// method, in order.
#[verifier::spinoff_prover]
pub proof fn law_extern_method_declares_every_argument(c: Class, m: Method)
    ensures
        starts_with(imp_extern_method_text(c, m), join(join(join(join(
            "# [ no_mangle ] pub unsafe extern \"C\" fn"@, lower_case_class_name_text(c) + "_"@ + ident_text(m.name)),
            "( this : * mut"@), ident_text(c.name)), each_arg_decl(m))),
{
    broadcast use lemma_join_keeps_prefix, lemma_join3_ends_with;
    law_comma_arg_decls_lists_every_argument(m.fn_def.sig);
    lemma_starts_with_self(join(join(join(join(
            "# [ no_mangle ] pub unsafe extern \"C\" fn"@, lower_case_class_name_text(c) + "_"@ + ident_text(m.name)),
            "( this : * mut"@), ident_text(c.name)), each_arg_decl(m)));
}

/// A method's `foo_impl`, its declaration in the public trait and in the
/// class's own trait take `& self` and every argument of the method, in order.
#[verifier::spinoff_prover]
pub proof fn law_method_impl_declares_every_argument(c: Class, m: Method)
    ensures
        starts_with(instance_method_impl_text(c, m), join(join(join("fn"@, ident_text(m.name) + "_impl"@), "( & self"@), each_arg_decl(m))),
        starts_with(method_trait_fn_text(c, m), join(join(join("fn"@, ident_text(m.name)), "( & self ,"@),
            sep_join(m.fn_def.sig.args@.map_values(|a: VarTy| var_ty_text(a)), ","@))),
{
    broadcast use lemma_join_keeps_prefix, lemma_join3_ends_with;
    law_comma_arg_decls_lists_every_argument(m.fn_def.sig);
    lemma_starts_with_self(join(join(join("fn"@, ident_text(m.name) + "_impl"@), "( & self"@), each_arg_decl(m)));
    lemma_starts_with_self(join(join(join("fn"@, ident_text(m.name)), "( & self ,"@),
            sep_join(m.fn_def.sig.args@.map_values(|a: VarTy| var_ty_text(a)), ","@)));
}

/// A method of the public trait takes `& self` and every argument of the
/// method, and passes every argument on to the exported C function, in order.
#[verifier::spinoff_prover]
pub proof fn law_ext_method_passes_every_argument(c: Class, m: Method)
    ensures
        starts_with(instance_ext_method_text(c, m), join(join(join("fn"@, ident_text(m.name)), "( & self"@), each_arg_decl(m))),
        ends_with(instance_ext_method_text(c, m), join(join("( self . to_glib_none ( ) . 0"@,
            each_arg_name(m)), ") } }"@)),
{
    broadcast use lemma_join_keeps_prefix, lemma_join3_ends_with;
    law_comma_arg_decls_lists_every_argument(m.fn_def.sig);
    law_comma_arg_names_lists_every_argument(m.fn_def.sig);
    lemma_starts_with_self(join(join(join("fn"@, ident_text(m.name)), "( & self"@), each_arg_decl(m)));
}

/// The exported C function of a method calls the method's slot with `this`
/// followed by every argument's name, in order: `( this , a , b ) }`.
#[verifier::spinoff_prover]
pub proof fn law_extern_method_passes_every_argument(c: Class, m: Method)
    ensures
        ends_with(imp_extern_method_text(c, m), join(join(
            ". as_ref ( ) . unwrap ( ) ) ( this"@,
            each_arg_name(m)), ") }"@)),
{
    broadcast use lemma_join3_ends_with;
    law_comma_arg_names_lists_every_argument(m.fn_def.sig);
}

} // verus!
