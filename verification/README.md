# gnome_class

A generator of the Rust code that implements classes as GObject types, with
its behaviour proved in Verus.

- `src/ast.rs`: the syntax tree of a program in the class language.
- `src/text.rs`: the text held by `quote::Tokens` and how appending changes it.
- `src/render.rs`: how types, paths, arguments and code blocks are written out.
- `src/gen.rs`: the class context, every code template, and `classes`, which
  generates a whole program; each generator's contract is its exact text.
- `src/case.rs`: lower-casing the first letter of a class name.
- `src/objects.rs`: the classes `Counter` and `Signaler` and their methods.
- `app/lib.rs`: the entry point `gobject_gen`, which turns a program into
  source text.
