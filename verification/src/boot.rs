//! How a run is set up: the order of its steps, the shape of the shared
//! memory, the engine's diagnostics, and the state of the boot context.

use crate::abi::HostState;
use crate::devicetree::{blob_of, build_result, cpu_cell, create_devicetree, seed_len};
use crate::error::{EncodingError, HostError};
use crate::sections::{SectionView, Sections};
use vstd::prelude::*;

verus! {

/// The boot arguments of a run that names none.
pub fn default_cmdline() -> (cmdline: &'static str)
    ensures
        cmdline@ == "no_hash_pointers"@,
{
    "no_hash_pointers"
}

/// The mebibytes of memory of a run that names no size.
pub fn default_memory_mib() -> (mib: u32)
    ensures
        mib == 128,
{
    128
}

/// The pages of guest memory in a mebibyte.
pub open spec fn pages_per_mib() -> nat {
    16
}

/// The bytes in a mebibyte.
pub open spec fn bytes_per_mib() -> nat {
    0x10_0000
}

/// The size of the shared memory, in pages and in bytes.
#[derive(Clone, Copy, Debug, PartialEq, Eq, Structural)]
pub struct MemoryGeometry {
    pub pages: u32,
    pub bytes: u32,
}

/// Whether a memory of `mib` mebibytes can be described: its size in bytes
/// must fit the 32-bit cell of the hardware description.
pub open spec fn describable(mib: u32) -> bool {
    mib * bytes_per_mib() <= u32::MAX
}

/// The shape of a shared memory of `mib` mebibytes.
pub fn memory_geometry(mib: u32) -> (r: Result<MemoryGeometry, HostError>)
    ensures
        describable(mib) ==> r == Ok::<MemoryGeometry, HostError>(
            MemoryGeometry {
                pages: (mib * pages_per_mib()) as u32,
                bytes: (mib * bytes_per_mib()) as u32,
            },
        ),
        !describable(mib) ==> r == Err::<MemoryGeometry, HostError>(HostError::Configuration),
{
    if mib > 4095 {
        return Err(HostError::Configuration);
    }
    Ok(MemoryGeometry { pages: mib * 16, bytes: mib * 0x10_0000 })
}

/// The diagnostics that the engine is asked for on top of its defaults.
#[derive(Clone, Copy, Debug, PartialEq, Eq, Structural)]
pub struct Diagnostics {
    pub debug_info: bool,
    pub native_unwind_info: bool,
    pub backtrace_details: bool,
    pub coredump_on_trap: bool,
    pub disable_optimization: bool,
}

/// A debug run asks for debug symbols, native unwind information, detailed
/// backtraces and a snapshot on a trap, and switches optimization off. Any
/// other run asks for nothing.
pub fn diagnostics(debug: bool) -> (wanted: Diagnostics)
    ensures
        wanted == (Diagnostics {
            debug_info: debug,
            native_unwind_info: debug,
            backtrace_details: debug,
            coredump_on_trap: debug,
            disable_optimization: debug,
        }),
{
    Diagnostics {
        debug_info: debug,
        native_unwind_info: debug,
        backtrace_details: debug,
        coredump_on_trap: debug,
        disable_optimization: debug,
    }
}

/// A step of the boot, in the order in which the steps are taken.
#[derive(Clone, Copy, Debug, PartialEq, Eq, Structural)]
pub enum BootStep {
    /// Load the guest module.
    LoadModule,
    /// Build the shared memory.
    CreateMemory,
    /// Build the hardware description.
    BuildDescription,
    /// Make the state of the boot context, without template.
    CreateState,
    /// Register the host calls and bind the shared memory.
    RegisterImports,
    /// Make the instantiation template and publish it in the state.
    PublishTemplate,
    /// Instantiate once more and call the boot function.
    RunBoot,
    /// Handle the way in which the boot function ended.
    Diagnose,
}

impl BootStep {
    /// The place of a step in the order.
    pub open spec fn index(self) -> nat {
        match self {
            BootStep::LoadModule => 0,
            BootStep::CreateMemory => 1,
            BootStep::BuildDescription => 2,
            BootStep::CreateState => 3,
            BootStep::RegisterImports => 4,
            BootStep::PublishTemplate => 5,
            BootStep::RunBoot => 6,
            BootStep::Diagnose => 7,
        }
    }

    /// The step with which a boot begins.
    pub fn first() -> (step: BootStep)
        ensures
            step.index() == 0,
    {
        BootStep::LoadModule
    }

    /// The step that follows, if any.
    pub fn next(self) -> (step: Option<BootStep>)
        ensures
            match step {
                Some(following) => following.index() == self.index() + 1,
                None => self == BootStep::Diagnose,
            },
    {
        match self {
            BootStep::LoadModule => Some(BootStep::CreateMemory),
            BootStep::CreateMemory => Some(BootStep::BuildDescription),
            BootStep::BuildDescription => Some(BootStep::CreateState),
            BootStep::CreateState => Some(BootStep::RegisterImports),
            BootStep::RegisterImports => Some(BootStep::PublishTemplate),
            BootStep::PublishTemplate => Some(BootStep::RunBoot),
            BootStep::RunBoot => Some(BootStep::Diagnose),
            BootStep::Diagnose => None,
        }
    }
}

/// The template is published before the boot function runs, and so before
/// any guest code can ask for a new context; and a step's place tells the
/// step.
pub proof fn lemma_boot_order(a: BootStep, b: BootStep)
    ensures
        BootStep::PublishTemplate.index() < BootStep::RunBoot.index(),
        BootStep::CreateState.index() < BootStep::PublishTemplate.index(),
        a.index() == b.index() ==> a == b,
        a.index() <= BootStep::Diagnose.index(),
{
}

/// What making the state of the boot context returns on a machine with `cpus`
/// CPUs and for a seed: a state that holds the description of the machine,
/// the size of its memory and no template, or the reason why the description
/// cannot be written.
pub open spec fn boot_state_made(
    cmdline: Seq<char>,
    sections: Seq<SectionView>,
    geometry: MemoryGeometry,
    cpus: usize,
    seed: Seq<u64>,
    r: Result<HostState, HostError>,
) -> bool {
    match r {
        Ok(state) => {
            &&& state@.memory_size == geometry.bytes
            &&& !state@.template_published
            &&& !state@.irq_enabled
            &&& build_result(
                cmdline,
                sections,
                geometry.bytes,
                cpu_cell(cpus),
                seed,
                Ok::<Seq<u8>, EncodingError>(state@.devicetree),
            )
        },
        Err(e) => e matches HostError::Encoding(kind) && build_result(
            cmdline,
            sections,
            geometry.bytes,
            cpu_cell(cpus),
            seed,
            Err::<Seq<u8>, EncodingError>(kind),
        ),
    }
}

/// Builds the hardware description of this machine and makes the state of
/// the boot context around it.
pub fn boot_state(cmdline: &str, sections: &Sections, geometry: &MemoryGeometry) -> (r: Result<
    HostState,
    HostError,
>)
    ensures
        exists|cpus: usize, seed: Seq<u64>|
            cpus >= 1 && seed.len() == seed_len() && #[trigger] boot_state_made(
                cmdline@,
                sections@,
                *geometry,
                cpus,
                seed,
                r,
            ),
{
    let built = create_devicetree(cmdline, sections, geometry.bytes);
    let ghost (cpus, seed) = choose|cpus: usize, seed: Seq<u64>|
        cpus >= 1 && seed.len() == seed_len() && #[trigger] build_result(
            cmdline@,
            sections@,
            geometry.bytes,
            cpu_cell(cpus),
            seed,
            blob_of(built),
        );
    let r = match built {
        Ok(devicetree) => Ok(HostState::new(geometry.bytes as usize, devicetree)),
        Err(kind) => Err(HostError::Encoding(kind)),
    };
    assert(boot_state_made(cmdline@, sections@, *geometry, cpus, seed, r));
    r
}

} // verus!
