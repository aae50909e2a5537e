//! A safe bridge between the Zygisk host runtime and the code of a module.
//!
//! The host loads a module into a process, hands it a table of functions, any
//! of which may be missing, and expects a record of entry points back. This
//! crate holds the rules of that exchange, each with a contract that Verus
//! proves:
//!
//! - [`ZygiskApi`] answers every operation of the host's table, offered or not:
//!   a missing function gives the failure value, or the empty set of flags, and
//!   nothing is called.
//! - [`StateFlags`] decodes the host's flag word and refuses a word with a bit
//!   that this version of the interface does not define.
//! - [`ZygiskModule`] is what a module offers: a load hook and four
//!   specialization hooks, each optional.
//! - [`binding::ModuleAbi`] is the record that the host gets in exchange. It
//!   holds the module's context, and each of its entry points hands its call
//!   on to the hook of the same name of the module in that context.
//! - [`entry::module_entry_impl`] registers that record and runs the load hook
//!   if the host accepted it.
//!
//! The host's functions and the module's hooks are code that this crate cannot
//! see. A contract speaks of them through the relation between what a call was
//! given and what it gave back: [`binding::HostFn::answers`] for a function of
//! the host, `call_ensures` for a hook.
//!
//! The records that the host passes to the specialization hooks and the handle
//! that it passes to the load hook are type parameters: this crate hands them
//! on and cannot look inside.
//!
//! The foreign calling convention, the layout of the host's records and the
//! barrier that keeps a fault from unwinding into the host are not here: they
//! take code that Verus cannot read, and belong to whatever exports the entry
//! points.

pub mod api;
pub mod binding;
pub mod entry;
pub mod error;
pub mod flags;
pub mod module;

pub use api::ZygiskApi;
pub use binding::{ZygiskOption, API_VERSION};
pub use error::ZygiskError;
pub use flags::{StateFlags, UnsupportedFlags};
pub use module::ZygiskModule;
