use gnome_class::ast::{
    Class, CodeBlock, FnDef, FnSig, Identifier, Member, Method, Path, PathId, PrivateStruct,
    Program, Signal, Type, VarTy,
};
use gnome_class::gen::{classes, ClassContext, GenError};

fn ident(s: &str) -> Identifier {
    Identifier { str: s.to_string() }
}

fn seg(s: &str, tys: Vec<Type>) -> PathId {
    PathId { name: ident(s), tys }
}

fn simple_ty(s: &str) -> Type {
    Type::Path(Path::From(seg(s, vec![])))
}

fn code(words: &[&str]) -> CodeBlock {
    let mut t = quote::Tokens::new();
    for w in words {
        t.append(w);
    }
    CodeBlock { tokens: t }
}

fn method(name: &str, args: Vec<VarTy>, ret: Option<Type>, body: &[&str]) -> Member {
    Member::Method(Method {
        name: ident(name),
        fn_def: FnDef { sig: FnSig { args, return_ty: ret }, code: code(body) },
    })
}

fn counter_class(name: &str) -> Class {
    Class {
        name: ident(name),
        extends: None,
        members: vec![
            Member::PrivateStruct(PrivateStruct {
                name: ident(&format!("{}Private", name)),
                fields: vec![VarTy {
                    name: ident("f"),
                    ty: Type::Path(Path::From(seg("Cell", vec![simple_ty("u32")]))),
                }],
            }),
            method(
                "add",
                vec![VarTy { name: ident("x"), ty: simple_ty("u32") }],
                Some(simple_ty("u32")),
                &["{", "x", "}"],
            ),
            Member::Signal(Signal {
                name: ident("clicked"),
                sig: FnSig { args: vec![], return_ty: None },
                code: None,
            }),
            method("get", vec![], Some(simple_ty("u32")), &["{", "0", "}"]),
        ],
    }
}

fn program(classes: Vec<Class>) -> Program {
    Program { classes }
}

fn text(t: &quote::Tokens) -> String {
    t.as_str().to_string()
}

fn texts(ts: &[quote::Tokens]) -> Vec<String> {
    ts.iter().map(text).collect()
}

#[test]
fn context_requires_private_struct() {
    let class = Class {
        name: ident("Empty"),
        extends: None,
        members: vec![method("get", vec![], None, &["{", "}"])],
    };
    let p = program(vec![]);
    match ClassContext::new(&p, &class) {
        Err(e) => {
            assert!(matches!(e, GenError::NoPrivateStruct));
            assert_eq!(e.message(), "no private struct found");
        }
        Ok(_) => panic!("a class without private struct was accepted"),
    }
}

#[test]
fn context_derives_names() {
    let class = counter_class("Counter");
    let p = program(vec![]);
    let cx = ClassContext::new(&p, &class).ok().unwrap();
    assert!(text(&cx.gen_class().ok().unwrap()).starts_with("pub mod CounterMod {"));
    assert!(text(&cx.get_type_fn()).contains("let instance_size = mem :: size_of :: < CounterFields > ( ) ;"));
    assert!(text(&cx.imp_class_struct()).starts_with(
        "# [ repr ( C ) ] pub struct CounterClass { pub parent_class : < glib :: Object as glib :: wrapper :: Wrapper > :: GlibClassType ,"
    ));
    assert!(text(&cx.imp_class_private_struct()).starts_with("struct CounterClassPrivate {"));
    assert!(text(&cx.methods_declared_in_instance()).contains("mod __methods_from_Counter {"));
    assert!(text(&cx.instance_ext()).starts_with("pub trait CounterExt {"));
    assert!(text(&cx.imp_private_struct()).starts_with("struct CounterPrivate {"));
    assert!(text(&cx.imp_get_type_fn()).contains("< glib :: Object as glib :: StaticType > :: static_type ( )"));
    assert!(text(&cx.imp_instance_struct()).contains("pub parent : gobject_ffi :: GObject ,"));
    assert_eq!(cx.lower_case_class_name(), "counter");
    assert_eq!(cx.get_type_fn_name().str, "counter_get_type");
}

#[test]
fn context_uses_the_parent_class() {
    let mut class = counter_class("Button");
    class.extends = Some(Path::Extend(Box::new(Path::From(seg("gtk", vec![]))), seg("Widget", vec![])));
    let p = program(vec![]);
    let cx = ClassContext::new(&p, &class).ok().unwrap();
    assert!(text(&cx.imp_get_type_fn()).contains("< gtk :: Widget as glib :: StaticType > :: static_type ( )"));
    assert_eq!(
        text(&cx.imp_instance_struct()),
        "# [ repr ( C ) ] pub struct Button { pub parent : gtk :: Widget , }"
    );
    assert_eq!(
        text(&cx.imp_class_struct()),
        "# [ repr ( C ) ] pub struct ButtonClass { pub parent_class : < gtk :: Widget as glib :: wrapper :: Wrapper > :: GlibClassType , pub add : Option < unsafe extern \"C\" fn ( this : * mut Button , x : u32 ) -> u32 > , pub get : Option < unsafe extern \"C\" fn ( this : * mut Button ) -> u32 > , }"
    );
}

#[test]
fn lower_cases_only_the_first_letter() {
    let p = program(vec![]);
    let class = counter_class("MyCounter");
    let cx = ClassContext::new(&p, &class).ok().unwrap();
    assert_eq!(cx.lower_case_class_name(), "myCounter");
    let class = counter_class("Émile");
    let cx = ClassContext::new(&p, &class).ok().unwrap();
    assert_eq!(cx.lower_case_class_name(), "émile");
    let class = counter_class("already");
    let cx = ClassContext::new(&p, &class).ok().unwrap();
    assert_eq!(cx.get_type_fn_name().str, "already_get_type");
}

#[test]
fn generates_small_items() {
    let class = counter_class("Counter");
    let p = program(vec![]);
    let cx = ClassContext::new(&p, &class).ok().unwrap();
    assert_eq!(text(&cx.callback_guard()), "let _guard = glib :: CallbackGuard :: new ( ) ;");
    assert_eq!(
        text(&cx.glib_wrapper()),
        "glib_wrapper ! { pub struct Counter ( Object < imp :: Counter > ) ; match fn { get_type => || imp :: counter_get_type ( ) , } }"
    );
    assert_eq!(
        text(&cx.imp_instance_struct()),
        "# [ repr ( C ) ] pub struct Counter { pub parent : gobject_ffi :: GObject , }"
    );
    assert_eq!(
        text(&cx.imp_properties_enum()),
        "# [ repr ( u32 ) ] enum Properties { FIXMEDummy = 1 , }"
    );
    assert_eq!(text(&cx.imp_signals_enum()), "# [ repr ( u32 ) ] enum Signals { FIXMEDummy = 0 , }");
    assert_eq!(text(&cx.signal_trampolines()), "");
    assert_eq!(
        text(&cx.imp_instance()),
        "impl Counter { fn get_class ( & self ) -> & CounterClass { unsafe { let klass = ( * ( self as * const _ as * const gobject_ffi :: GTypeInstance ) ) . g_class ; & * ( klass as * const CounterClass ) } } unsafe extern \"C\" fn init ( obj : * mut gobject_ffi :: GTypeInstance , _klass : glib_ffi :: gpointer , ) { let _guard = glib :: CallbackGuard :: new ( ) ; let private = gobject_ffi :: g_type_instance_get_private ( obj , counter_get_type ( ) ) as * mut Option < CounterPrivate > ; ptr :: write ( private , Some ( CounterPrivate :: new ( ) ) ) ; } unsafe extern \"C\" fn finalize ( obj : * mut gobject_ffi :: GObject ) { let _guard = glib :: CallbackGuard :: new ( ) ; let private = gobject_ffi :: g_type_instance_get_private ( obj as * mut gobject_ffi :: GTypeInstance , counter_get_type ( ) , ) as * mut Option < CounterPrivate > ; let _ = ( * private ) . take ( ) ; ( * PRIV . parent_class ) . finalize . map ( | f | f ( obj ) ) ; } unsafe extern \"C\" fn add_trampoline ( this : * mut Counter , x : u32 ) -> u32 { let _guard = glib :: CallbackGuard :: new ( ) ; let instance : & super :: Counter = & from_glib_borrow ( this ) ; instance . add_impl ( x ) } unsafe extern \"C\" fn get_trampoline ( this : * mut Counter ) -> u32 { let _guard = glib :: CallbackGuard :: new ( ) ; let instance : & super :: Counter = & from_glib_borrow ( this ) ; instance . get_impl ( ) } }"
    );
    assert_eq!(
        text(&cx.instance_private_impl()),
        "impl super :: Counter { fn get_priv ( & self ) -> & CounterPrivate { unsafe { let private = gobject_ffi :: g_type_instance_get_private ( < Self as ToGlibPtr < * mut Counter > > :: to_glib_none ( self ) . 0 as * mut gobject_ffi :: GTypeInstance , counter_get_type ( ) , ) as * const Option < CounterPrivate > ; ( & * private ) . as_ref ( ) . unwrap ( ) } } fn add_impl ( & self , x : u32 ) -> u32 { x } fn get_impl ( & self ) -> u32 { 0 } }"
    );
    assert_eq!(
        text(&cx.imp_class_private_struct()),
        "struct CounterClassPrivate { parent_class : * const < glib :: Object as glib :: wrapper :: Wrapper > :: GlibClassType , properties : * const Vec < * const gobject_ffi :: GParamSpec > , signals : * const Vec < u32 > } static mut PRIV : CounterClassPrivate = CounterClassPrivate { parent_class : 0 as * const _ , properties : 0 as * const _ , signals : 0 as * const _ , } ;"
    );
    assert_eq!(
        text(&cx.imp_new_fn()),
        "# [ no_mangle ] pub unsafe extern \"C\" fn counter_new ( ) -> * mut Counter { let _guard = glib :: CallbackGuard :: new ( ) ; let this = gobject_ffi :: g_object_newv ( counter_get_type ( ) , 0 , ptr :: null_mut ( ) ) ; this as * mut Counter }"
    );
    assert_eq!(
        text(&cx.instance_new_fn()),
        "impl Counter { pub fn new ( ) -> Counter { unsafe { from_glib_full ( imp :: counter_new ( ) ) } } }"
    );
}

#[test]
fn generates_private_struct_with_default_fields() {
    let mut class = counter_class("Counter");
    if let Member::PrivateStruct(ps) = &mut class.members[0] {
        ps.fields.push(VarTy { name: ident("g"), ty: simple_ty("bool") });
    }
    let p = program(vec![]);
    let cx = ClassContext::new(&p, &class).ok().unwrap();
    assert_eq!(
        text(&cx.private_init_fn_body()),
        "{ CounterPrivate { f : Default :: default ( ) , g : Default :: default ( ) } }"
    );
    assert_eq!(
        text(&cx.imp_private_struct()),
        "struct CounterPrivate { f : Cell < u32 > , g : bool } impl CounterPrivate { pub fn new ( ) -> Self { CounterPrivate { f : Default :: default ( ) , g : Default :: default ( ) } } }"
    );
}

#[test]
fn generates_private_struct_with_private_init() {
    let mut class = counter_class("Counter");
    class.members.push(Member::PrivateInit(code(&["{", "CounterPrivate", "{", "f", ":", "Cell :: new ( 7 )", "}", "}"])));
    class.members.push(Member::PrivateInit(code(&["{", "unused", "}"])));
    let p = program(vec![]);
    let cx = ClassContext::new(&p, &class).ok().unwrap();
    assert_eq!(
        text(&cx.imp_private_struct()),
        "struct CounterPrivate { f : Cell < u32 > } impl CounterPrivate { pub fn new ( ) -> Self { CounterPrivate { f : Cell :: new ( 7 ) } } }"
    );
}

#[test]
fn generates_per_method_items() {
    let class = counter_class("Counter");
    let p = program(vec![]);
    let cx = ClassContext::new(&p, &class).ok().unwrap();
    let names: Vec<String> = cx.method_names().into_iter().map(|i| i.str).collect();
    assert_eq!(names, vec!["add", "get"]);
    assert_eq!(cx.methods().len(), 2);
    assert_eq!(cx.signals().len(), 1);
    let sids: Vec<String> = cx.signal_id_names().into_iter().map(|i| i.str).collect();
    assert_eq!(sids, vec!["clicked_signal_id"]);
    assert_eq!(
        texts(&cx.method_trait_fns()),
        vec!["fn add ( & self , x : u32 ) -> u32 ;", "fn get ( & self , ) -> u32 ;"]
    );
    assert_eq!(
        texts(&cx.method_impl_fns()),
        vec!["fn add ( & self , x : u32 ) -> u32 { x }", "fn get ( & self , ) -> u32 { 0 }"]
    );
    assert_eq!(
        texts(&cx.method_redirects())[0],
        "fn add ( & self , x : u32 ) -> u32 { let klass = :: gnome_class_shims :: get_class ( self ) ; ( klass . add . unwrap ( ) ) ( self , x ) }"
    );
    assert_eq!(
        texts(&cx.method_assignments()),
        vec![
            "klass . add = Some ( < Counter as __methods_from_Counter :: Trait > :: add ) ;",
            "klass . get = Some ( < Counter as __methods_from_Counter :: Trait > :: get ) ;",
        ]
    );
    assert_eq!(
        texts(&cx.method_fn_tys()),
        vec!["extern fn ( & Counter , u32 ) -> u32", "extern fn ( & Counter , ) -> u32"]
    );
    assert_eq!(
        texts(&cx.signal_declarations()),
        vec!["klass . clicked_signal_id = gobject_sys :: g_signal_newv ( b\"clicked\\0\" as * const u8 as * const i8 , ( * g_object_class ) . g_type_class . g_type , gobject_sys :: G_SIGNAL_RUN_FIRST , ptr :: null_mut ( ) , None , ptr :: null_mut ( ) , None , gobject_sys :: G_TYPE_NONE , 0 , ptr :: null_mut ( ) ) ;"]
    );
    assert_eq!(
        texts(&cx.slots()),
        vec![
            "pub add : Option < unsafe extern \"C\" fn ( this : * mut Counter , x : u32 ) -> u32 > ,",
            "pub get : Option < unsafe extern \"C\" fn ( this : * mut Counter ) -> u32 > ,",
        ]
    );
    assert_eq!(
        texts(&cx.slot_assignments()),
        vec!["klass . add = Some ( Counter :: add_trampoline ) ;", "klass . get = Some ( Counter :: get_trampoline ) ;"]
    );
    assert_eq!(
        texts(&cx.instance_method_impls()),
        vec!["fn add_impl ( & self , x : u32 ) -> u32 { x }", "fn get_impl ( & self ) -> u32 { 0 }"]
    );
    assert_eq!(
        texts(&cx.instance_method_trampolines())[1],
        "unsafe extern \"C\" fn get_trampoline ( this : * mut Counter ) -> u32 { let _guard = glib :: CallbackGuard :: new ( ) ; let instance : & super :: Counter = & from_glib_borrow ( this ) ; instance . get_impl ( ) }"
    );
    assert_eq!(
        texts(&cx.imp_extern_methods()),
        vec![
            "# [ no_mangle ] pub unsafe extern \"C\" fn counter_add ( this : * mut Counter , x : u32 ) -> u32 { let _guard = glib :: CallbackGuard :: new ( ) ; let klass = ( * this ) . get_class ( ) ; ( klass . add . as_ref ( ) . unwrap ( ) ) ( this , x ) }",
            "# [ no_mangle ] pub unsafe extern \"C\" fn counter_get ( this : * mut Counter ) -> u32 { let _guard = glib :: CallbackGuard :: new ( ) ; let klass = ( * this ) . get_class ( ) ; ( klass . get . as_ref ( ) . unwrap ( ) ) ( this ) }",
        ]
    );
    assert_eq!(
        texts(&cx.instance_ext_methods()),
        vec![
            "fn add ( & self , x : u32 ) -> u32 { unsafe { imp :: counter_add ( self . to_glib_none ( ) . 0 , x ) } }",
            "fn get ( & self ) -> u32 { unsafe { imp :: counter_get ( self . to_glib_none ( ) . 0 ) } }",
        ]
    );
}

#[test]
fn generates_traits_and_c_symbols() {
    let class = counter_class("Counter");
    let p = program(vec![]);
    let cx = ClassContext::new(&p, &class).ok().unwrap();
    assert_eq!(
        text(&cx.instance_ext()),
        "pub trait CounterExt { fn add ( & self , x : u32 ) -> u32 ; fn get ( & self , ) -> u32 ; }"
    );
    assert_eq!(
        text(&cx.methods_declared_in_instance()),
        "# [ allow ( non_snake_case ) ] mod __methods_from_Counter { use super :: * ; pub trait Trait { extern fn add ( & self , x : u32 ) -> u32 ; extern fn get ( & self , ) -> u32 ; } } impl __methods_from_Counter :: Trait for Counter { extern fn add ( & self , x : u32 ) -> u32 { x } extern fn get ( & self , ) -> u32 { 0 } }"
    );
    assert_eq!(
        text(&cx.c_symbols()),
        "# [ no_mangle ] pub extern fn counter_get_type ( ) -> :: gnome_class_shims :: glib_sys :: GType { use gnome_class_shims :: GInstance ; < Counter as GInstance > :: get_type ( ) } # [ no_mangle ] pub extern fn counter_add ( __this : & CounterFields , x : u32 ) -> u32 { use gnome_class_shims :: GFields ; let __this = < CounterFields as GFields > :: as_instance ( & __this ) ; Counter :: add ( __this , x ) } # [ no_mangle ] pub extern fn counter_get ( __this : & CounterFields , ) -> u32 { use gnome_class_shims :: GFields ; let __this = < CounterFields as GFields > :: as_instance ( & __this ) ; Counter :: get ( __this , ) }"
    );
    assert_eq!(
        text(&cx.instance_ext_impl()),
        "impl < O : IsA < Counter > + IsA < glib :: object :: Object > > CounterExt for O { fn add ( & self , x : u32 ) -> u32 { unsafe { imp :: counter_add ( self . to_glib_none ( ) . 0 , x ) } } fn get ( & self ) -> u32 { unsafe { imp :: counter_get ( self . to_glib_none ( ) . 0 ) } } }"
    );
}

#[test]
fn generates_get_type_functions() {
    let class = counter_class("Counter");
    let p = program(vec![]);
    let cx = ClassContext::new(&p, &class).ok().unwrap();
    assert_eq!(
        text(&cx.imp_get_type_fn()),
        "# [ no_mangle ] pub unsafe extern \"C\" fn counter_get_type ( ) -> glib_ffi :: GType { let _guard = glib :: CallbackGuard :: new ( ) ; use std :: sync :: { Once , ONCE_INIT } ; use std :: u16 ; static mut TYPE : glib_ffi :: GType = gobject_ffi :: G_TYPE_INVALID ; static ONCE : Once = ONCE_INIT ; ONCE . call_once ( || { let class_size = mem :: size_of :: < CounterClass > ( ) ; assert ! ( class_size <= u16 :: MAX as usize ) ; let instance_size = mem :: size_of :: < Counter > ( ) ; assert ! ( instance_size <= u16 :: MAX as usize ) ; TYPE = gobject_ffi :: g_type_register_static_simple ( < glib :: Object as glib :: StaticType > :: static_type ( ) . to_glib ( ) , b\"Counter\\0\" as * const u8 as * const i8 , class_size as u32 , Some ( CounterClass :: init ) , instance_size as u32 , Some ( Counter :: init ) , gobject_ffi :: GTypeFlags :: empty ( ) ) ; } ) ; TYPE }"
    );
    let g = text(&cx.get_type_fn());
    assert!(g.starts_with("fn get_type ( ) -> :: gnome_class_shims :: glib_sys :: GType { let _guard = glib :: CallbackGuard :: new ( ) ; use gnome_class_shims as shims ;"));
    assert!(g.contains("let klass : & mut CounterClass = & mut * klass ; klass . add = Some ( < Counter as __methods_from_Counter :: Trait > :: add ) ; klass . get = Some ( < Counter as __methods_from_Counter :: Trait > :: get ) ; klass . clicked_signal_id = gobject_sys :: g_signal_newv ( b\"clicked\\0\""));
    assert!(g.contains("ptr :: write ( private , CounterPrivate :: new ( ) ) ;"));
    assert!(g.contains("let instance_size = mem :: size_of :: < CounterFields > ( ) ;"));
    assert!(g.ends_with("ONCE . call_once ( || { GTYPE = register ( ) ; } ) ; GTYPE } }"));
    let c = text(&cx.class_init_fn());
    assert_eq!(
        c,
        "unsafe extern \"C\" fn init ( klass : glib_ffi :: gpointer , _klass_data : glib_ffi :: gpointer ) { let _guard = glib :: CallbackGuard :: new ( ) ; gobject_ffi :: g_type_class_add_private ( klass , mem :: size_of :: < Option < CounterPrivate > > ( ) ) ; { let gobject_class = & mut * ( klass as * mut gobject_ffi :: GObjectClass ) ; gobject_class . finalize = Some ( Counter :: finalize ) ; } { let klass = & mut * ( klass as * mut CounterClass ) ; klass . add = Some ( Counter :: add_trampoline ) ; klass . get = Some ( Counter :: get_trampoline ) ; } { } PRIV . parent_class = gobject_ffi :: g_type_class_peek_parent ( klass ) as * const < glib :: Object as glib :: wrapper :: Wrapper > :: GlibClassType ; }"
    );
    let a = text(&cx.always_impl());
    assert!(a.starts_with("impl Counter { pub fn new ( ) -> Counter {"));
    assert!(a.ends_with("pub fn upcast ( & self ) -> & glib :: Object { use gnome_class_shims :: GInstance ; unsafe { GInstance :: borrow_gobject_ptr ( & self . parent ) } } }"));
}

#[test]
fn generates_a_whole_class() {
    let class = counter_class("Counter");
    let p = program(vec![]);
    let cx = ClassContext::new(&p, &class).ok().unwrap();
    let g = text(&cx.gen_class().ok().unwrap());
    assert!(g.starts_with("pub mod CounterMod { extern crate glib_sys as glib_ffi ; extern crate gobject_sys as gobject_ffi ;"));
    assert!(g.contains("use std :: mem :: transmute ; use super :: * ; glib_wrapper ! { pub struct Counter"));
    assert!(g.contains("} } pub mod imp { use super :: super :: * ; use super :: glib ;"));
    assert!(g.contains("static mut PRIV : CounterClassPrivate = CounterClassPrivate { parent_class : 0 as * const _ , properties : 0 as * const _ , signals : 0 as * const _ , } ;"));
    assert!(g.ends_with("fn get ( & self ) -> u32 { unsafe { imp :: counter_get ( self . to_glib_none ( ) . 0 ) } } } } pub use CounterMod :: * ;"));
    let imp = text(&cx.imp_module());
    let parts = format!(
        "{} {} {} {} {} {}",
        text(&cx.imports()),
        text(&cx.glib_wrapper()),
        imp,
        text(&cx.instance_new_fn()),
        text(&cx.instance_ext()),
        text(&cx.instance_ext_impl())
    );
    assert_eq!(g, format!("pub mod CounterMod {{ {} }} pub use CounterMod :: * ;", parts));
}

#[test]
fn generates_all_classes_in_order() {
    let c1 = counter_class("Counter");
    let c2 = counter_class("Signaler");
    let p = program(vec![counter_class("Counter"), counter_class("Signaler")]);
    let whole = text(&classes(&p).ok().unwrap());
    let p1 = program(vec![]);
    let one = text(&ClassContext::new(&p1, &c1).ok().unwrap().gen_class().ok().unwrap());
    let two = text(&ClassContext::new(&p1, &c2).ok().unwrap().gen_class().ok().unwrap());
    assert_eq!(whole, format!("{} {}", one, two));
    let single = program(vec![counter_class("Counter")]);
    assert_eq!(text(&classes(&single).ok().unwrap()), one);
    assert_eq!(text(&classes(&program(vec![])).ok().unwrap()), "");
}

#[test]
fn fails_on_a_class_without_private_struct() {
    let bad = Class { name: ident("Bad"), extends: None, members: vec![] };
    let p = program(vec![counter_class("Counter"), bad]);
    assert!(matches!(classes(&p), Err(GenError::NoPrivateStruct)));
    // The error is returned before a later class is looked at.
    let bad = Class { name: ident("Bad"), extends: None, members: vec![] };
    let empty_name = counter_class("");
    let p = program(vec![bad, empty_name]);
    assert!(matches!(classes(&p), Err(GenError::NoPrivateStruct)));
}

fn squeeze(s: &str) -> String {
    s.chars().filter(|c| !c.is_whitespace()).collect()
}

fn words(s: &str) -> Vec<&str> {
    s.split(' ').collect()
}

fn whole_class_text(class: Class) -> String {
    let p = program(vec![class]);
    text(&classes(&p).ok().unwrap())
}

/// The class of the counter example: a private `Cell<u32>` and two methods.
#[test]
fn counter_class_gives_the_documented_module() {
    let class = Class {
        name: ident("Counter"),
        extends: None,
        members: vec![
            Member::PrivateStruct(PrivateStruct {
                name: ident("CounterPrivate"),
                fields: vec![VarTy {
                    name: ident("f"),
                    ty: Type::Path(Path::From(seg("Cell", vec![simple_ty("u32")]))),
                }],
            }),
            method(
                "add",
                vec![VarTy { name: ident("x"), ty: simple_ty("u32") }],
                Some(simple_ty("u32")),
                &words("{ let private = self . get_priv ( ) ; let v = private . f . get ( ) + x ; private . f . set ( v ) ; v }"),
            ),
            method("get", vec![], Some(simple_ty("u32")), &words("{ self . get_priv ( ) . f . get ( ) }")),
        ],
    };
    assert_eq!(squeeze(&whole_class_text(class)), squeeze(COUNTER_MODULE));
}

/// A method without return value, and a signal, which generates nothing yet.
#[test]
fn signaler_class_gives_the_documented_module() {
    let class = Class {
        name: ident("Signaler"),
        extends: None,
        members: vec![
            Member::PrivateStruct(PrivateStruct {
                name: ident("SignalerPrivate"),
                fields: vec![VarTy {
                    name: ident("val"),
                    ty: Type::Path(Path::From(seg("Cell", vec![simple_ty("u32")]))),
                }],
            }),
            Member::Signal(Signal {
                name: ident("value_changed"),
                sig: FnSig { args: vec![], return_ty: None },
                code: None,
            }),
            method(
                "set_value",
                vec![VarTy { name: ident("v"), ty: simple_ty("u32") }],
                None,
                &words("{ let private = self . get_priv ( ) ; private . val . set ( v ) ; }"),
            ),
            method(
                "get_value",
                vec![],
                Some(simple_ty("u32")),
                &words("{ let private = self . get_priv ( ) ; private . val . get ( ) }"),
            ),
        ],
    };
    assert_eq!(squeeze(&whole_class_text(class)), squeeze(SIGNALER_MODULE));
}

/// A class whose private struct is built by its own `private_init()`.
#[test]
fn dummy_class_gives_the_documented_module() {
    let class = Class {
        name: ident("Dummy"),
        extends: None,
        members: vec![
            Member::PrivateStruct(PrivateStruct {
                name: ident("DummyPrivate"),
                fields: vec![VarTy {
                    name: ident("dc"),
                    ty: Type::Path(Path::From(seg("RefCell", vec![simple_ty("DropCounter")]))),
                }],
            }),
            Member::PrivateInit(code(&words("{ DummyPrivate { dc : RefCell :: new ( DropCounter :: new ( ) ) } }"))),
            method(
                "set_dc",
                vec![VarTy { name: ident("dc"), ty: simple_ty("DropCounter") }],
                None,
                &words("{ let mut self_dc = self . get_priv ( ) . dc . borrow_mut ( ) ; * self_dc = dc ; }"),
            ),
        ],
    };
    assert_eq!(squeeze(&whole_class_text(class)), squeeze(DUMMY_MODULE));
}

/// The smallest class: a private struct and nothing else.
#[test]
fn class_with_only_a_private_struct_is_complete() {
    let class = Class {
        name: ident("Foo"),
        extends: None,
        members: vec![Member::PrivateStruct(PrivateStruct {
            name: ident("FooPrivate"),
            fields: vec![VarTy {
                name: ident("val"),
                ty: Type::Path(Path::From(seg("Cell", vec![simple_ty("u32")]))),
            }],
        })],
    };
    let g = whole_class_text(class);
    assert!(g.starts_with("pub mod FooMod {"));
    assert!(g.contains("glib_wrapper ! { pub struct Foo ( Object < imp :: Foo > ) ; match fn { get_type => || imp :: foo_get_type ( ) , } }"));
    assert!(g.contains("# [ repr ( C ) ] pub struct FooClass { pub parent_class : < glib :: Object as glib :: wrapper :: Wrapper > :: GlibClassType , }"));
    assert!(g.contains("struct FooPrivate { val : Cell < u32 > } impl FooPrivate { pub fn new ( ) -> Self { FooPrivate { val : Default :: default ( ) } } }"));
    assert!(g.contains("unsafe extern \"C\" fn init ( obj : * mut gobject_ffi :: GTypeInstance , _klass : glib_ffi :: gpointer , )"));
    assert!(g.contains("unsafe extern \"C\" fn finalize ( obj : * mut gobject_ffi :: GObject )"));
    assert!(g.contains("{ let klass = & mut * ( klass as * mut FooClass ) ; } { }"));
    assert!(g.contains("b\"Foo\\0\" as * const u8 as * const i8"));
    assert!(g.ends_with("impl Foo { pub fn new ( ) -> Foo { unsafe { from_glib_full ( imp :: foo_new ( ) ) } } } pub trait FooExt { } impl < O : IsA < Foo > + IsA < glib :: object :: Object > > FooExt for O { } } pub use FooMod :: * ;"));
}

#[test]
fn signals_and_slot_handlers_generate_nothing() {
    let class = counter_class("Counter");
    let p = program(vec![]);
    let cx = ClassContext::new(&p, &class).ok().unwrap();
    assert!(cx.imp_slot_default_handlers().is_empty());
    assert!(cx.instance_signal_trampolines().is_empty());
    assert!(cx.instance_default_signal_handlers().is_empty());
}

const COUNTER_MODULE: &str = r##"
pub mod CounterMod {
    extern crate glib_sys as glib_ffi ;
    extern crate gobject_sys as gobject_ffi ;
    extern crate glib ;
    extern crate libc ;
    use glib::{IsA, Value};
    use glib::object::Downcast;
    use glib::signal::connect;
    use glib::translate::*;
    use std::ptr;
    use std::mem;
    use std::mem::transmute;
    use super::*;
    glib_wrapper ! {
        pub struct Counter ( Object < imp :: Counter > ) ;
        match fn {
            get_type => || imp :: counter_get_type ( ) ,
        }
    }
    pub mod imp {
        use super::super::*;
        use super::glib;
        use super::glib_ffi;
        use super::gobject_ffi;
        use super::libc;
        use std::mem;
        use std::ptr;
        use glib::translate::*;
        #[repr(C)]
        pub struct Counter {
            pub parent: gobject_ffi::GObject,
        }
        #[repr(C)]
        pub struct CounterClass {
            pub parent_class: <glib::Object as glib::wrapper::Wrapper>::GlibClassType,
            pub add: Option<unsafe extern "C" fn(this: *mut Counter, x: u32) -> u32>,
            pub get: Option<unsafe extern "C" fn(this: *mut Counter) -> u32>,
        }
        #[repr(u32)]
        enum Properties {
            FIXMEDummy = 1,
        }
        #[repr(u32)]
        enum Signals {
            FIXMEDummy = 0,
        }
        struct CounterPrivate {
            f: Cell<u32>
        }
        impl CounterPrivate {
            pub fn new() -> Self {
                CounterPrivate { f: Default::default() }
            }
        }
        struct CounterClassPrivate {
            parent_class: *const <glib::Object as glib::wrapper::Wrapper>::GlibClassType,
            properties: *const Vec<*const gobject_ffi::GParamSpec>,
            signals: *const Vec<u32>
        }
        static mut PRIV: CounterClassPrivate = CounterClassPrivate {
            parent_class: 0 as *const _,
            properties: 0 as *const _,
            signals: 0 as *const _,
        };
        impl super::Counter {
            fn get_priv(&self) -> &CounterPrivate {
                unsafe {
                    let private = gobject_ffi::g_type_instance_get_private(
                        <Self as ToGlibPtr<*mut Counter>>::to_glib_none(self).0 as
                            *mut gobject_ffi::GTypeInstance,
                        counter_get_type(),
                    ) as *const Option<CounterPrivate>;
                    (&*private).as_ref().unwrap()
                }
            }
            fn add_impl(&self, x: u32) -> u32 {
                let private = self.get_priv();
                let v = private.f.get() + x;
                private.f.set(v);
                v
            }
            fn get_impl(&self) -> u32 {
                self.get_priv().f.get()
            }
        }
        impl Counter {
            fn get_class(&self) -> &CounterClass {
                unsafe {
                    let klass = (*(self as *const _ as *const gobject_ffi::GTypeInstance)).g_class;
                    &*(klass as *const CounterClass)
                }
            }
            unsafe extern "C" fn init(
                obj: *mut gobject_ffi::GTypeInstance,
                _klass: glib_ffi::gpointer,
            ) {
                let _guard = glib::CallbackGuard::new();
                let private = gobject_ffi::g_type_instance_get_private(obj, counter_get_type()) as
                    *mut Option<CounterPrivate>;
                ptr::write(private, Some(CounterPrivate::new()));
            }
            unsafe extern "C" fn finalize(obj: *mut gobject_ffi::GObject) {
                let _guard = glib::CallbackGuard::new();
                let private = gobject_ffi::g_type_instance_get_private(
                    obj as *mut gobject_ffi::GTypeInstance,
                    counter_get_type(),
                ) as *mut Option<CounterPrivate>;
                let _ = (*private).take();
                (*PRIV.parent_class).finalize.map(|f| f(obj));
            }
            unsafe extern "C" fn add_trampoline(this: *mut Counter, x: u32) -> u32 {
                let _guard = glib::CallbackGuard::new();
                let instance: &super::Counter = &from_glib_borrow(this);
                instance.add_impl(x)
            }
            unsafe extern "C" fn get_trampoline(this: *mut Counter) -> u32 {
                let _guard = glib::CallbackGuard::new();
                let instance: &super::Counter = &from_glib_borrow(this);
                instance.get_impl()
            }
        }
        impl CounterClass {
            unsafe extern "C" fn init(klass: glib_ffi::gpointer, _klass_data: glib_ffi::gpointer) {
                let _guard = glib::CallbackGuard::new();
                gobject_ffi::g_type_class_add_private(
                    klass,
                    mem::size_of::<Option<CounterPrivate>>()
                );
                {
                    let gobject_class = &mut *(klass as *mut gobject_ffi::GObjectClass);
                    gobject_class.finalize = Some(Counter::finalize);
                }
                {
                    let klass = &mut *(klass as *mut CounterClass);
                    klass.add = Some(Counter::add_trampoline);
                    klass.get = Some(Counter::get_trampoline);
                }
                {}
                PRIV.parent_class = gobject_ffi::g_type_class_peek_parent(klass) as
                    *const <glib::Object as glib::wrapper::Wrapper>::GlibClassType;
            }
        }
        #[no_mangle]
        pub unsafe extern "C" fn counter_new() -> *mut Counter {
            let _guard = glib::CallbackGuard::new();
            let this = gobject_ffi::g_object_newv(counter_get_type(), 0, ptr::null_mut());
            this as *mut Counter
        }
        #[no_mangle]
        pub unsafe extern "C" fn counter_add(this: *mut Counter, x: u32) -> u32 {
            let _guard = glib::CallbackGuard::new();
            let klass = (*this).get_class();
            (klass.add.as_ref().unwrap())(this, x)
        }
        #[no_mangle]
        pub unsafe extern "C" fn counter_get(this: *mut Counter) -> u32 {
            let _guard = glib::CallbackGuard::new();
            let klass = (*this).get_class();
            (klass.get.as_ref().unwrap())(this)
        }
        #[no_mangle]
        pub unsafe extern "C" fn counter_get_type() -> glib_ffi::GType {
            let _guard = glib::CallbackGuard::new();
            use std::sync::{Once, ONCE_INIT};
            use std::u16;
            static mut TYPE: glib_ffi::GType = gobject_ffi::G_TYPE_INVALID;
            static ONCE: Once = ONCE_INIT;
            ONCE.call_once(|| {
                let class_size = mem::size_of::<CounterClass>();
                assert!(class_size <= u16::MAX as usize);
                let instance_size = mem::size_of::<Counter>();
                assert!(instance_size <= u16::MAX as usize);
                TYPE = gobject_ffi::g_type_register_static_simple(
                    <glib::Object as glib::StaticType>::static_type().to_glib(),
                    b"Counter\0" as *const u8 as *const i8,
                    class_size as u32,
                    Some(CounterClass::init),
                    instance_size as u32,
                    Some(Counter::init),
                    gobject_ffi::GTypeFlags::empty()
                );
            });
            TYPE
        }
    }
    impl Counter {
        pub fn new() -> Counter {
            unsafe { from_glib_full(imp::counter_new()) }
        }
    }
    pub trait CounterExt {
        fn add(&self, x: u32) -> u32;
        fn get(&self, ) -> u32;
    }
    impl<O: IsA<Counter> + IsA<glib::object::Object>> CounterExt for O {
        fn add(&self, x: u32) -> u32 {
            unsafe { imp::counter_add(self.to_glib_none().0, x) }
        }
        fn get(&self) -> u32 {
            unsafe { imp::counter_get(self.to_glib_none().0) }
        }
    }
}
pub use CounterMod::*;
"##;

const SIGNALER_MODULE: &str = r##"
pub mod SignalerMod {
    extern crate glib_sys as glib_ffi ;
    extern crate gobject_sys as gobject_ffi ;
    extern crate glib ;
    extern crate libc ;
    use glib::{IsA, Value};
    use glib::object::Downcast;
    use glib::signal::connect;
    use glib::translate::*;
    use std::ptr;
    use std::mem;
    use std::mem::transmute;
    use super::*;
    glib_wrapper ! {
        pub struct Signaler ( Object < imp :: Signaler > ) ;
        match fn {
            get_type => || imp :: signaler_get_type ( ) ,
        }
    }
    pub mod imp {
        use super::super::*;
        use super::glib;
        use super::glib_ffi;
        use super::gobject_ffi;
        use super::libc;
        use std::mem;
        use std::ptr;
        use glib::translate::*;
        #[repr(C)]
        pub struct Signaler {
            pub parent: gobject_ffi::GObject,
        }
        #[repr(C)]
        pub struct SignalerClass {
            pub parent_class: <glib::Object as glib::wrapper::Wrapper>::GlibClassType,
            pub set_value: Option<unsafe extern "C" fn(this: *mut Signaler, v: u32)>,
            pub get_value: Option<unsafe extern "C" fn(this: *mut Signaler) -> u32>,
        }
        #[repr(u32)]
        enum Properties {
            FIXMEDummy = 1,
        }
        #[repr(u32)]
        enum Signals {
            FIXMEDummy = 0,
        }
        struct SignalerPrivate {
            val: Cell<u32>
        }
        impl SignalerPrivate {
            pub fn new() -> Self {
                SignalerPrivate { val: Default::default() }
            }
        }
        struct SignalerClassPrivate {
            parent_class: *const <glib::Object as glib::wrapper::Wrapper>::GlibClassType,
            properties: *const Vec<*const gobject_ffi::GParamSpec>,
            signals: *const Vec<u32>
        }
        static mut PRIV: SignalerClassPrivate = SignalerClassPrivate {
            parent_class: 0 as *const _,
            properties: 0 as *const _,
            signals: 0 as *const _,
        };
        impl super::Signaler {
            fn get_priv(&self) -> &SignalerPrivate {
                unsafe {
                    let private = gobject_ffi::g_type_instance_get_private(
                        <Self as ToGlibPtr<*mut Signaler>>::to_glib_none(self).0 as
                            *mut gobject_ffi::GTypeInstance,
                        signaler_get_type(),
                    ) as *const Option<SignalerPrivate>;
                    (&*private).as_ref().unwrap()
                }
            }
            fn set_value_impl(&self, v: u32) {
                let private = self.get_priv();
                private.val.set(v);
            }
            fn get_value_impl(&self) -> u32 {
                let private = self.get_priv();
                private.val.get()
            }
        }
        impl Signaler {
            fn get_class(&self) -> &SignalerClass {
                unsafe {
                    let klass = (*(self as *const _ as *const gobject_ffi::GTypeInstance)).g_class;
                    &*(klass as *const SignalerClass)
                }
            }
            unsafe extern "C" fn init(
                obj: *mut gobject_ffi::GTypeInstance,
                _klass: glib_ffi::gpointer,
            ) {
                let _guard = glib::CallbackGuard::new();
                let private =
                    gobject_ffi::g_type_instance_get_private(obj, signaler_get_type()) as
                        *mut Option<SignalerPrivate>;
                ptr::write(private, Some(SignalerPrivate::new()));
            }
            unsafe extern "C" fn finalize(obj: *mut gobject_ffi::GObject) {
                let _guard = glib::CallbackGuard::new();
                let private = gobject_ffi::g_type_instance_get_private(
                    obj as *mut gobject_ffi::GTypeInstance,
                    signaler_get_type(),
                ) as *mut Option<SignalerPrivate>;
                let _ = (*private).take();
                (*PRIV.parent_class).finalize.map(|f| f(obj));
            }
            unsafe extern "C" fn set_value_trampoline(this: *mut Signaler, v: u32) {
                let _guard = glib::CallbackGuard::new();
                let instance: &super::Signaler = &from_glib_borrow(this);
                instance.set_value_impl(v)
            }
            unsafe extern "C" fn get_value_trampoline(this: *mut Signaler) -> u32 {
                let _guard = glib::CallbackGuard::new();
                let instance: &super::Signaler = &from_glib_borrow(this);
                instance.get_value_impl()
            }
        }
        impl SignalerClass {
            unsafe extern "C" fn init(klass: glib_ffi::gpointer, _klass_data: glib_ffi::gpointer) {
                let _guard = glib::CallbackGuard::new();
                gobject_ffi::g_type_class_add_private(
                    klass,
                    mem::size_of::<Option<SignalerPrivate>>()
                );
                {
                    let gobject_class = &mut *(klass as *mut gobject_ffi::GObjectClass);
                    gobject_class.finalize = Some(Signaler::finalize);
                }
                {
                    let klass = &mut *(klass as *mut SignalerClass);
                    klass.set_value = Some(Signaler::set_value_trampoline);
                    klass.get_value = Some(Signaler::get_value_trampoline);
                }
                {}
                PRIV.parent_class = gobject_ffi::g_type_class_peek_parent(klass) as
                    *const <glib::Object as glib::wrapper::Wrapper>::GlibClassType;
            }
        }
        #[no_mangle]
        pub unsafe extern "C" fn signaler_new() -> *mut Signaler {
            let _guard = glib::CallbackGuard::new();
            let this = gobject_ffi::g_object_newv(signaler_get_type(), 0, ptr::null_mut());
            this as *mut Signaler
        }
        #[no_mangle]
        pub unsafe extern "C" fn signaler_set_value(this: *mut Signaler, v: u32) {
            let _guard = glib::CallbackGuard::new();
            let klass = (*this).get_class();
            (klass.set_value.as_ref().unwrap())(this, v)
        }
        #[no_mangle]
        pub unsafe extern "C" fn signaler_get_value(this: *mut Signaler) -> u32 {
            let _guard = glib::CallbackGuard::new();
            let klass = (*this).get_class();
            (klass.get_value.as_ref().unwrap())(this)
        }
        #[no_mangle]
        pub unsafe extern "C" fn signaler_get_type() -> glib_ffi::GType {
            let _guard = glib::CallbackGuard::new();
            use std::sync::{Once, ONCE_INIT};
            use std::u16;
            static mut TYPE: glib_ffi::GType = gobject_ffi::G_TYPE_INVALID;
            static ONCE: Once = ONCE_INIT;
            ONCE.call_once(|| {
                let class_size = mem::size_of::<SignalerClass>();
                assert!(class_size <= u16::MAX as usize);
                let instance_size = mem::size_of::<Signaler>();
                assert!(instance_size <= u16::MAX as usize);
                TYPE = gobject_ffi::g_type_register_static_simple(
                    <glib::Object as glib::StaticType>::static_type().to_glib(),
                    b"Signaler\0" as *const u8 as *const i8,
                    class_size as u32,
                    Some(SignalerClass::init),
                    instance_size as u32,
                    Some(Signaler::init),
                    gobject_ffi::GTypeFlags::empty()
                );
            });
            TYPE
        }
    }
    impl Signaler {
        pub fn new() -> Signaler {
            unsafe { from_glib_full(imp::signaler_new()) }
        }
    }
    pub trait SignalerExt {
        fn set_value(&self, v: u32);
        fn get_value(&self, ) -> u32;
    }
    impl<O: IsA<Signaler> + IsA<glib::object::Object>> SignalerExt for O {
        fn set_value(&self, v: u32) {
            unsafe { imp::signaler_set_value(self.to_glib_none().0, v) }
        }
        fn get_value(&self) -> u32 {
            unsafe { imp::signaler_get_value(self.to_glib_none().0) }
        }
    }
}
pub use SignalerMod::*;
"##;

const DUMMY_MODULE: &str = r##"
pub mod DummyMod {
    extern crate glib_sys as glib_ffi ;
    extern crate gobject_sys as gobject_ffi ;
    extern crate glib ;
    extern crate libc ;
    use glib::{IsA, Value};
    use glib::object::Downcast;
    use glib::signal::connect;
    use glib::translate::*;
    use std::ptr;
    use std::mem;
    use std::mem::transmute;
    use super::*;
    glib_wrapper ! {
        pub struct Dummy ( Object < imp :: Dummy > );
        match fn {
            get_type => || imp :: dummy_get_type ( ) ,
        }
    }
    pub mod imp {
        use super::super::*;
        use super::glib;
        use super::glib_ffi;
        use super::gobject_ffi;
        use super::libc;
        use std::mem;
        use std::ptr;
        use glib::translate::*;
        #[repr(C)]
        pub struct Dummy {
            pub parent: gobject_ffi::GObject,
        }
        #[repr(C)]
        pub struct DummyClass {
            pub parent_class: <glib::Object as glib::wrapper::Wrapper>::GlibClassType,
            pub set_dc: Option<unsafe extern "C" fn(this: *mut Dummy, dc: DropCounter)>,
        }
        #[repr(u32)]
        enum Properties {
            FIXMEDummy = 1,
        }
        #[repr(u32)]
        enum Signals {
            FIXMEDummy = 0,
        }
        struct DummyPrivate {
            dc: RefCell<DropCounter>
        }
        impl DummyPrivate {
            pub fn new() -> Self {
                DummyPrivate { dc: RefCell::new(DropCounter::new()) }
            }
        }
        struct DummyClassPrivate {
            parent_class: *const <glib::Object as glib::wrapper::Wrapper>::GlibClassType,
            properties: *const Vec<*const gobject_ffi::GParamSpec>,
            signals: *const Vec<u32>
        }
        static mut PRIV: DummyClassPrivate = DummyClassPrivate {
            parent_class: 0 as *const _,
            properties: 0 as *const _,
            signals: 0 as *const _,
        };
        impl super::Dummy {
            fn get_priv(&self) -> &DummyPrivate {
                unsafe {
                    let private = gobject_ffi::g_type_instance_get_private(
                        <Self as ToGlibPtr<*mut Dummy>>::to_glib_none(self).0 as
                            *mut gobject_ffi::GTypeInstance,
                        dummy_get_type(),
                    ) as *const Option<DummyPrivate>;
                    (&*private).as_ref().unwrap()
                }
            }
            fn set_dc_impl(&self, dc: DropCounter) {
                let mut self_dc = self.get_priv().dc.borrow_mut();
                *self_dc = dc;
            }
        }
        impl Dummy {
            fn get_class(&self) -> &DummyClass {
                unsafe {
                    let klass = (*(self as *const _ as *const gobject_ffi::GTypeInstance)).g_class;
                    &*(klass as *const DummyClass)
                }
            }
            unsafe extern "C" fn init(
                obj: *mut gobject_ffi::GTypeInstance,
                _klass: glib_ffi::gpointer,
            ) {
                let _guard = glib::CallbackGuard::new();
                let private = gobject_ffi::g_type_instance_get_private(obj, dummy_get_type()) as
                    *mut Option<DummyPrivate>;
                ptr::write(private, Some(DummyPrivate::new()));
            }
            unsafe extern "C" fn finalize(obj: *mut gobject_ffi::GObject) {
                let _guard = glib::CallbackGuard::new();
                let private = gobject_ffi::g_type_instance_get_private(
                    obj as *mut gobject_ffi::GTypeInstance,
                    dummy_get_type(),
                ) as *mut Option<DummyPrivate>;
                let _ = (*private).take();
                (*PRIV.parent_class).finalize.map(|f| f(obj));
            }
            unsafe extern "C" fn set_dc_trampoline(this: *mut Dummy, dc: DropCounter) {
                let _guard = glib::CallbackGuard::new();
                let instance: &super::Dummy = &from_glib_borrow(this);
                instance.set_dc_impl(dc)
            }
        }
        impl DummyClass {
            unsafe extern "C" fn init(klass: glib_ffi::gpointer, _klass_data: glib_ffi::gpointer) {
                let _guard = glib::CallbackGuard::new();
                gobject_ffi::g_type_class_add_private(
                    klass,
                    mem::size_of::<Option<DummyPrivate>>()
                );
                {
                    let gobject_class = &mut *(klass as *mut gobject_ffi::GObjectClass);
                    gobject_class.finalize = Some(Dummy::finalize);
                }
                {
                    let klass = &mut *(klass as *mut DummyClass);
                    klass.set_dc = Some(Dummy::set_dc_trampoline);
                }
                {}
                PRIV.parent_class = gobject_ffi::g_type_class_peek_parent(klass) as
                    *const <glib::Object as glib::wrapper::Wrapper>::GlibClassType;
            }
        }
        #[no_mangle]
        pub unsafe extern "C" fn dummy_new() -> *mut Dummy {
            let _guard = glib::CallbackGuard::new();
            let this = gobject_ffi::g_object_newv(dummy_get_type(), 0, ptr::null_mut());
            this as *mut Dummy
        }
        #[no_mangle]
        pub unsafe extern "C" fn dummy_set_dc(this: *mut Dummy, dc: DropCounter) {
            let _guard = glib::CallbackGuard::new();
            let klass = (*this).get_class();
            (klass.set_dc.as_ref().unwrap())(this, dc)
        }
        #[no_mangle]
        pub unsafe extern "C" fn dummy_get_type() -> glib_ffi::GType {
            let _guard = glib::CallbackGuard::new();
            use std::sync::{Once, ONCE_INIT};
            use std::u16;
            static mut TYPE: glib_ffi::GType = gobject_ffi::G_TYPE_INVALID;
            static ONCE: Once = ONCE_INIT;
            ONCE.call_once(|| {
                let class_size = mem::size_of::<DummyClass>();
                assert!(class_size <= u16::MAX as usize);
                let instance_size = mem::size_of::<Dummy>();
                assert!(instance_size <= u16::MAX as usize);
                TYPE = gobject_ffi::g_type_register_static_simple(
                    <glib::Object as glib::StaticType>::static_type().to_glib(),
                    b"Dummy\0" as *const u8 as *const i8,
                    class_size as u32,
                    Some(DummyClass::init),
                    instance_size as u32,
                    Some(Dummy::init),
                    gobject_ffi::GTypeFlags::empty()
                );
            });
            TYPE
        }
    }
    impl Dummy {
        pub fn new() -> Dummy {
            unsafe { from_glib_full(imp::dummy_new()) }
        }
    }
    pub trait DummyExt {
        fn set_dc(&self, dc: DropCounter);
    }
    impl<O: IsA<Dummy> + IsA<glib::object::Object>> DummyExt for O {
        fn set_dc(&self, dc: DropCounter) {
            unsafe { imp::dummy_set_dc(self.to_glib_none().0, dc) }
        }
    }
}
pub use DummyMod::*;
"##;
