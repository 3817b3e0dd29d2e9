//! Generator core for declarative embedded controllers.
//!
//! A controller is described declaratively: a state struct whose fields may
//! carry markers (`publish`, `getter`, `setter`), and an operation set whose
//! entries may be marked as signals.  From that description the library
//! derives, per published field, a consistent bundle of artifacts: the
//! identifier of the statically scoped channel, the owner-side sender field,
//! the mutate-and-publish accessor, and the subscriber type.
//!
//! The pieces, leaves first: [`names`] holds identifier validation and the
//! deterministic naming scheme; [`errors`] the generation-time diagnostics;
//! [`markers`] the per-field attribute parser; [`expand`] the field
//! expansion engine; [`assemble`] the module assembler and the
//! [`assemble::controller`] entry point.
//!
//! The library also provides the latest-value channel primitive the
//! generated artifacts are built on — [`watch`] — and the owner side of a
//! published field and of a signal — [`published`] — together with proofs
//! of the observation semantics: a subscriber's first poll delivers the
//! current value if one exists; later polls deliver a value exactly once
//! per change.

pub mod assemble;
pub mod errors;
pub mod expand;
pub mod markers;
pub mod names;
pub mod published;
pub mod watch;
