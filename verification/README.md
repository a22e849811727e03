# serde_state_derive

The code generator behind `#[derive(DeserializeState)]`: from a declaration
(a struct or an enum, its generics and its `#[serde(..)]` /
`#[serde_state(..)]` attributes) it writes the `DeserializeState` impl that
threads a state value through deserialization, and, when a default state is
named, a plain `serde::Deserialize` impl that reads with that state.

Layout:

- `src/model.rs` — the declaration as plain values (`TypeDecl` and its parts).
- `src/text.rs` — decimal numerals, string literals, separated lists.
- `src/generics.rs` — generic parameter lists and `where` clauses as text.
- `src/bounds.rs` — the `where` predicates the impl needs, and their laws.
- `src/de.rs` — the `deserialize_state` bodies and visitors for every shape.
- `src/expand.rs` — the whole impl, the refusals, and the entry point that
  lexes the code into a `proc_macro2::TokenStream`.
- `app/lib.rs` — the `syn` front end: reads the item and its attributes,
  calls the library, and wraps the impl for the compiler.

Every generator in `src/` is verified with Verus against a specification of
the exact text it writes, given the string literals of the keys and variant
names it quotes.  Those literals are written by `proc_macro2::Literal::string`
and handed to the generators as arguments; the contract trusted of that call
is that each is a Rust string literal whose value is the string quoted.
