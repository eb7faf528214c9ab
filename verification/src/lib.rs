//! Hooks on an emulated guest: which callback the emulator is given for each
//! hook, where the hook behind that callback is kept, and which hook runs when
//! the callback fires.

pub mod calls;
mod emulator;
mod hook;
pub mod instance;
pub mod laws;
pub mod model;
pub mod qemu_hooks;
mod registry;
mod state;

pub use emulator::{
    AddAccessHooks, AddBlockHooks, AddCompareHooks, AddEdgeHooks, AddHook, Callback, GuestAddr,
    HookData, HookId, HookKind, SetHook, TableKind, Wrapper, SKIP_EXEC_HOOK,
};
pub use hook::{get_raw_hook, hook_to_repr, Hook, HookRepr, HookTarget};
pub use instance::{Instance, Permit, Ready};
pub use qemu_hooks::{get_qemu_hooks, QemuHooks};
pub use registry::{gen_hook_id, HookCall, HookRegistry};
pub use state::HookState;
