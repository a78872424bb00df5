# miden_processor_errors

The error types of the Miden processor, with the conversions that attach the
source context of a failure (label, source file, clock cycle) to the errors
that operations, the advice provider, event handlers, the memory and the
arithmetic circuit chip report.

- `src/` is the verified library: the error types, the `*ResultExt`
  conversions, and the error context that is looked up in a MAST forest's
  debug information and resolved by the host (`src/context.rs`).
  `src/outside.rs` declares the outside types and the few calls into
  `miden_core` and `miden_debug_types` that the context makes.
- `app/` holds the copies of the error types that carry the `thiserror` and
  `miette` derives (messages, sources, diagnostics), the conversions to and
  from the library's types, and the `err_ctx!` macro.
- `tests/` runs the library against real forests and hosts.
