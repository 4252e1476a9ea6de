# ferrosaur

Bindings from Rust to JavaScript modules running in a `deno_core` runtime:
a `#[js(...)]` attribute turns a unit struct into a handle to a module, the
global object or a value, and an `impl` block or trait into methods that
read, write and call properties of a JavaScript object.

## Layout

- `src/` is the library, verified with Verus. It holds the rules the
  attribute follows, over models of the Rust syntax it is given:
  - `meta`, `flag`, `items`: reading the attribute's options and flags;
  - `sig`, `derive`: the checks on the items and signatures it accepts;
  - `types`: how a Rust type crosses into JavaScript (`serde<T>` hints,
    `v8::Global<...>` handles, the conversion traits);
  - `call`, `bound`, `interface`: how a method calls, constructs, reads or
    writes on the object, and the plan of the generated code;
  - `generics`, `naming`, `module`, `iterator`, `imports`: the generics,
    names and plans of the generated items;
  - `property`, `well_known`: property keys and well-known symbols;
  - `docs`: the documentation preprocessor's decisions: which item links
    are asked of rust-analyzer, the source written to ask for them, and how
    the answers replace the links of a chapter.
- `tests/` runs the library on concrete inputs.
- `app/` reads Rust syntax with `syn`, renders the generated code with
  `quote`, and runs the documentation preprocessor (process, language
  server, book).
