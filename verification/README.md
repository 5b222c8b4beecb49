# zod_gen_derive (verified)

The logic of `#[derive(ZodSchema)]`, verified with Verus: given a type
definition (its serde attributes, fields and variants, and the Zod schema of
each field type), it computes the Zod schema that mirrors serde's JSON
representation, using the builders of the `zod_gen` crate.

- `src/text.rs` — reading attribute token text: keys of argument lists, string literals.
- `src/attrs.rs` — serde `rename`, `tag`, `content` and `untagged`, and the enum representation.
- `src/zod.rs` — the `zod_gen` builders and what each returns.
- `src/model.rs` — the derive input and its errors.
- `src/derive.rs` — the derived schema.
- `src/read.rs`, `src/syn_types.rs` — reading the derive input from its tokens with `syn`.
- `src/laws.rs` — properties of every derived schema.
- `app/lib.rs` — the token output (`quote`) for a proc-macro crate.
