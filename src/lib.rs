//! Validation of a shader module's interface against a pipeline's binding
//! layout and the device limits, and the configuration of the crash
//! reporter client that ships beside it.

pub mod format;
pub mod numeric;
pub mod binding;
pub mod stage;
pub mod layout;
pub mod interface;
pub mod module;
pub mod config;
