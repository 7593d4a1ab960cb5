# studiole_report

Error reports with typed contexts, chained causes and key-value attachments,
verified with Verus.

- `src/` is the verified library. A `StructuredError` is a chain of layers;
  each layer holds what its context reads as, a diagnostic code, and its
  attachments. `Report<T>` wraps one and keeps the current context with its
  type. Contracts speak of the chain as a sequence of `Frame`s.
  - `context.rs`: the `ErrorContext` trait that contexts implement.
  - `structured_error.rs`, `report.rs`: the error chain, its text forms, and
    the laws that relate them.
  - `attachments/`: attachments, their list, and the `Attach` trait.
  - `extensions.rs`: `ResultExt::change_context` on results.
  - `helpers/`: diagnostic codes from type paths, example contexts, and ANSI
    stripping.
  - `render.rs`: the `NO_COLOR` decision.
- `app/` gives the library's errors `Display`, `Debug`, `std::error::Error`
  and `miette::Diagnostic` through `DiagnosticError`, and renders them with
  miette's graphical handler.
- `tests/` exercises the library.
