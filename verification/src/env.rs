//! The per-instance execution environment.
//!
//! A `WasiEnv` owns the guest's filesystem/process state and borrows a view
//! of the guest's addressable memory.  Memory is attached after construction
//! and before the first syscall is dispatched; reading it earlier is a
//! contract violation, not a recoverable condition, so `memory` demands
//! attachment in its precondition instead of panicking.
//!
//! Execution is single-threaded per guest instance: one syscall at a time
//! holds the environment, so nothing here is guarded by a lock.

use vstd::prelude::*;

use crate::abi::ImportObject;
use crate::abi::WasiError;
use crate::abi::generate_import_object_from_env;
use crate::abi::get_wasi_version;
use crate::abi::import_object_spec;
use crate::abi::version_of;

verus! {

/// A byte-addressable view of the guest's linear memory.
pub struct Memory {
    /// The addressable bytes, index zero first.
    pub data: Vec<u8>,
}

impl Memory {
    /// How many bytes the guest can address.
    pub fn size(&self) -> (r: usize)
        ensures
            r == self.data@.len(),
    {
        self.data.len()
    }
}

/// The guest's filesystem and process state: what the syscalls read and
/// update between calls.  Its inner structure is owned by the syscall layer;
/// this core only carries it.
pub struct WasiState {
    /// The guest program's arguments, one byte string each.
    pub args: Vec<Vec<u8>>,
    /// The guest program's environment entries, one `key=value` byte string each.
    pub envs: Vec<Vec<u8>>,
}

impl WasiState {
    /// A state with no arguments and no environment.
    pub fn new() -> (r: WasiState)
        ensures
            r.args@.len() == 0,
            r.envs@.len() == 0,
    {
        WasiState { args: Vec::new(), envs: Vec::new() }
    }
}

/// The environment provided to the WASI imports.
pub struct WasiEnv<'a> {
    state: WasiState,
    memory: Option<&'a Memory>,
}

impl<'a> WasiEnv<'a> {
    /// The filesystem/process state this environment carries.
    pub closed spec fn spec_state(&self) -> WasiState {
        self.state
    }

    /// The attached memory, if any has been attached yet.
    pub closed spec fn spec_memory(&self) -> Option<&'a Memory> {
        self.memory
    }

    /// Whether the guest's memory has been attached.
    pub open spec fn has_memory(&self) -> bool {
        self.spec_memory() is Some
    }

    /// An environment around `state`, with no memory attached yet.
    pub fn new(state: WasiState) -> (r: WasiEnv<'a>)
        ensures
            r.spec_state() == state,
            !r.has_memory(),
    {
        WasiEnv { state, memory: None }
    }

    /// The import table for a module declaring `module_namespaces`, bound to
    /// whichever ABI generation the namespaces select; the error when they
    /// select none.
    pub fn import_object(&self, module_namespaces: &Vec<String>) -> (r: Result<
        ImportObject,
        WasiError,
    >)
        ensures
            match r {
                Ok(table) => version_of(module_namespaces@.map_values(|s: String| s@), false)
                    is Some && import_object_spec(
                    table,
                    version_of(module_namespaces@.map_values(|s: String| s@), false)->0,
                ),
                Err(e) => e == WasiError::UnknownWasiVersion && version_of(
                    module_namespaces@.map_values(|s: String| s@),
                    false,
                ) is None,
            },
    {
        match get_wasi_version(module_namespaces, false) {
            Some(version) => {
                let table = generate_import_object_from_env(version);
                proof {
                    assert(version_of(module_namespaces@.map_values(|s: String| s@), false)
                        == Some(version) && import_object_spec(table, version));
                }
                Ok(table)
            },
            None => Err(WasiError::UnknownWasiVersion),
        }
    }

    /// Attach the guest's memory.  The state is untouched.
    pub fn set_memory(&mut self, memory: &'a Memory)
        ensures
            final(self).spec_memory() == Some(memory),
            final(self).spec_state() == old(self).spec_state(),
    {
        self.memory = Some(memory);
    }

    /// The guest's memory.  Calling this before `set_memory` is a contract
    /// violation; the precondition rules it out.
    pub fn memory(&self) -> (r: &'a Memory)
        requires
            self.has_memory(),
        ensures
            self.spec_memory() == Some(r),
    {
        self.memory.unwrap()
    }

    /// Read access to the state.
    pub fn state(&self) -> (r: &WasiState)
        ensures
            *r == self.spec_state(),
    {
        &self.state
    }

    /// Write access to the state.  The memory attachment is untouched.
    pub fn state_mut(&mut self) -> (r: &mut WasiState)
        ensures
            *r == old(self).spec_state(),
            final(self).spec_state() == *final(r),
            final(self).spec_memory() == old(self).spec_memory(),
    {
        &mut self.state
    }

    /// Both the memory and write access to the state at once, for syscalls
    /// that address memory while updating state.  Demands attached memory,
    /// as `memory` does.
    pub fn get_memory_and_wasi_state(&mut self, _mem_index: u32) -> ((memory, state): (
        &'a Memory,
        &mut WasiState,
    ))
        requires
            old(self).has_memory(),
        ensures
            old(self).spec_memory() == Some(memory),
            *state == old(self).spec_state(),
            final(self).spec_state() == *final(state),
            final(self).spec_memory() == old(self).spec_memory(),
    {
        let memory = self.memory.unwrap();
        let state = &mut self.state;
        (memory, state)
    }
}

} // verus!
