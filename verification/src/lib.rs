//! A safe, typed configuration and invocation layer over an external
//! jq-style JSON filtering engine.
//!
//! The crate has two parts, consumed in order:
//!
//! * [`JqOptions`]: an immutable configuration value describing how input is
//!   read and output is rendered, built from [`JqOptions::default`] by pure
//!   `with_*` transformations.
//! * The execution bridge ([`bridge`]): the validation and translation of an
//!   options value into the engine's native flag representation, the protocol
//!   that drives exactly one engine invocation (compile the program, then
//!   evaluate the input, then release every engine resource), and the mapping
//!   of engine diagnostics into this crate's error taxonomy.
//!
//! The filter language itself, its parser and its evaluator belong to the
//! foreign engine and are not part of this crate: the engine's compile and
//! evaluate operations are performed by the caller, and their outcomes are fed
//! back into the bridge as [`bridge::EngineEvent`] values.

pub mod bridge;
pub mod options;

pub use bridge::BridgeAction;
pub use bridge::BridgePhase;
pub use bridge::EngineEvent;
pub use bridge::JqError;
pub use bridge::JqNativeFlags;
pub use bridge::begin_invocation;
pub use bridge::bridge_step;
pub use bridge::join_outputs;
pub use bridge::palette_acceptable;
pub use bridge::translate_options;
pub use options::JqColorization;
pub use options::JqIndentation;
pub use options::JqOptions;
