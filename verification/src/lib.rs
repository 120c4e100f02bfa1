//! Verified core of the GLib/GObject binding layer.

pub mod binding;
pub mod bytes;
pub mod construct_cell;
pub mod enums;
pub mod exit_code;
pub mod futures;
pub mod gstring_builder;
pub mod hashtable;
pub mod object;
pub mod param_flags;
pub mod param_spec;
pub mod param_spec_builder;
pub mod param_spec_ctor;
pub mod quark;
pub mod source;
pub mod source_futures;
pub mod types;
pub mod value;

pub use exit_code::ExitCode;
