//! The calls that the guest may make into the host, under the import module
//! `kernel`.
//!
//! A call decides; it does not act. It checks what the guest passed against
//! the state of the calling context and hands back what the host has to do:
//! bytes to read or to put into the guest's memory, a context to start, a line
//! to log, a process to end.

use crate::clock::{nsec_between, nsec_since};
use crate::error::HostError;
use crate::memory::{
    check_range, in_bounds, lemma_stored, out_of_range, stored, ByteRange, MemoryWrite,
};
use crate::text::{decimal, decimal_text, lossy_text, utf8_lossy};
use vstd::prelude::*;
use vstd::string::StringExecFns;
use vstd::utf8::{
    decode_utf8, encode_utf8, is_ascii_chars, is_ascii_chars_encode_utf8, valid_utf8,
};

verus! {

/// The entry function with which an execution context starts.
#[derive(Clone, Copy, Debug, PartialEq, Eq, Structural)]
pub enum EntryPoint {
    /// The guest's boot function, without arguments.
    Boot,
    /// The function that runs a worker, with the guest's handle of its task.
    Task { task: u32 },
    /// The function that runs a secondary CPU, with the CPU's index and the
    /// guest's handle of its idle task.
    Secondary { cpu: u32, idle: u32 },
}

impl EntryPoint {
    /// The name under which the guest exports the entry function.
    pub open spec fn export_text(&self) -> Seq<char> {
        match self {
            EntryPoint::Boot => "boot"@,
            EntryPoint::Task { .. } => "task"@,
            EntryPoint::Secondary { .. } => "secondary"@,
        }
    }

    /// The name under which the guest exports the entry function.
    pub fn export(&self) -> (name: &'static str)
        ensures
            name@ == self.export_text(),
    {
        match self {
            EntryPoint::Boot => "boot",
            EntryPoint::Task { .. } => "task",
            EntryPoint::Secondary { .. } => "secondary",
        }
    }
}

/// A call that the guest may make into the host.
#[derive(Clone, Copy, Debug, PartialEq, Eq, Structural)]
pub enum HostFunction {
    Breakpoint,
    Halt,
    Restart,
    BootConsoleWrite,
    BootConsoleClose,
    SetIrqEnabled,
    GetIrqEnabled,
    ReturnAddress,
    GetDt,
    GetNowNsec,
    GetStacktrace,
    NewWorker,
    BringupSecondary,
}

impl HostFunction {
    /// The name under which the call is imported from the module `kernel`.
    pub open spec fn name_text(self) -> Seq<char> {
        match self {
            HostFunction::Breakpoint => "breakpoint"@,
            HostFunction::Halt => "halt"@,
            HostFunction::Restart => "restart"@,
            HostFunction::BootConsoleWrite => "boot_console_write"@,
            HostFunction::BootConsoleClose => "boot_console_close"@,
            HostFunction::SetIrqEnabled => "set_irq_enabled"@,
            HostFunction::GetIrqEnabled => "get_irq_enabled"@,
            HostFunction::ReturnAddress => "return_address"@,
            HostFunction::GetDt => "get_dt"@,
            HostFunction::GetNowNsec => "get_now_nsec"@,
            HostFunction::GetStacktrace => "get_stacktrace"@,
            HostFunction::NewWorker => "new_worker"@,
            HostFunction::BringupSecondary => "bringup_secondary"@,
        }
    }

    /// The name under which the call is imported from the module `kernel`.
    pub fn name(self) -> (name: &'static str)
        ensures
            name@ == self.name_text(),
    {
        match self {
            HostFunction::Breakpoint => "breakpoint",
            HostFunction::Halt => "halt",
            HostFunction::Restart => "restart",
            HostFunction::BootConsoleWrite => "boot_console_write",
            HostFunction::BootConsoleClose => "boot_console_close",
            HostFunction::SetIrqEnabled => "set_irq_enabled",
            HostFunction::GetIrqEnabled => "get_irq_enabled",
            HostFunction::ReturnAddress => "return_address",
            HostFunction::GetDt => "get_dt",
            HostFunction::GetNowNsec => "get_now_nsec",
            HostFunction::GetStacktrace => "get_stacktrace",
            HostFunction::NewWorker => "new_worker",
            HostFunction::BringupSecondary => "bringup_secondary",
        }
    }

    /// Every call, once: what a host registers at setup.
    pub open spec fn every() -> Seq<HostFunction> {
        seq![
            HostFunction::Breakpoint,
            HostFunction::Halt,
            HostFunction::Restart,
            HostFunction::BootConsoleWrite,
            HostFunction::BootConsoleClose,
            HostFunction::SetIrqEnabled,
            HostFunction::GetIrqEnabled,
            HostFunction::ReturnAddress,
            HostFunction::GetDt,
            HostFunction::GetNowNsec,
            HostFunction::GetStacktrace,
            HostFunction::NewWorker,
            HostFunction::BringupSecondary,
        ]
    }

    /// Every call, once: what a host registers at setup.
    pub fn all() -> (calls: Vec<HostFunction>)
        ensures
            calls@ == HostFunction::every(),
    {
        let calls = vec![
            HostFunction::Breakpoint,
            HostFunction::Halt,
            HostFunction::Restart,
            HostFunction::BootConsoleWrite,
            HostFunction::BootConsoleClose,
            HostFunction::SetIrqEnabled,
            HostFunction::GetIrqEnabled,
            HostFunction::ReturnAddress,
            HostFunction::GetDt,
            HostFunction::GetNowNsec,
            HostFunction::GetStacktrace,
            HostFunction::NewWorker,
            HostFunction::BringupSecondary,
        ];
        assert(calls@ =~= HostFunction::every());
        calls
    }
}

/// No two calls are imported under the same name, and the list of all calls
/// holds each call exactly once.
pub proof fn lemma_host_functions(a: HostFunction, b: HostFunction)
    ensures
        a != b ==> a.name_text() != b.name_text(),
        HostFunction::every().contains(a),
        forall|i: int, j: int|
            0 <= i < j < HostFunction::every().len() ==> HostFunction::every()[i]
                != HostFunction::every()[j],
{
    reveal_strlit("breakpoint");
    reveal_strlit("halt");
    reveal_strlit("restart");
    reveal_strlit("boot_console_write");
    reveal_strlit("boot_console_close");
    reveal_strlit("set_irq_enabled");
    reveal_strlit("get_irq_enabled");
    reveal_strlit("return_address");
    reveal_strlit("get_dt");
    reveal_strlit("get_now_nsec");
    reveal_strlit("get_stacktrace");
    reveal_strlit("new_worker");
    reveal_strlit("bringup_secondary");
    let all = HostFunction::every();
    match a {
        HostFunction::Breakpoint => assert(all[0] == a),
        HostFunction::Halt => assert(all[1] == a),
        HostFunction::Restart => assert(all[2] == a),
        HostFunction::BootConsoleWrite => assert(all[3] == a),
        HostFunction::BootConsoleClose => assert(all[4] == a),
        HostFunction::SetIrqEnabled => assert(all[5] == a),
        HostFunction::GetIrqEnabled => assert(all[6] == a),
        HostFunction::ReturnAddress => assert(all[7] == a),
        HostFunction::GetDt => assert(all[8] == a),
        HostFunction::GetNowNsec => assert(all[9] == a),
        HostFunction::GetStacktrace => assert(all[10] == a),
        HostFunction::NewWorker => assert(all[11] == a),
        HostFunction::BringupSecondary => assert(all[12] == a),
    }
    if a != b && a.name_text() == b.name_text() {
        let x = a.name_text();
        let y = b.name_text();
        assert(x.len() == y.len());
        assert(x[0] == y[0]);
        assert(x[13] == y[13]);
    }
}

/// What a call leaves for the host to do besides returning.
#[derive(Clone, Copy, Debug, PartialEq, Eq)]
pub enum Effect {
    /// Nothing.
    Nothing,
    /// Raise a breakpoint trap in this process.
    RaiseTrap,
    /// Write a line to the log.
    Log { line: &'static str },
    /// Write a line to the log and end the process with a status.
    Exit { line: &'static str, status: i32 },
}

/// What a context's state is in specifications.
pub struct HostStateView {
    pub memory_size: nat,
    pub devicetree: Seq<u8>,
    pub time_origin: std::time::Instant,
    pub template_published: bool,
    pub irq_enabled: bool,
}

/// The state of one execution context: the size of the shared memory, the
/// hardware description, the time of boot, whether the instantiation template
/// has been published, and the context's interrupt flag.
#[derive(Debug)]
pub struct HostState {
    memory_size: usize,
    devicetree: Vec<u8>,
    time_origin: std::time::Instant,
    template_published: bool,
    irq_enabled: bool,
}

impl View for HostState {
    type V = HostStateView;

    closed spec fn view(&self) -> HostStateView {
        HostStateView {
            memory_size: self.memory_size as nat,
            devicetree: self.devicetree@,
            time_origin: self.time_origin,
            template_published: self.template_published,
            irq_enabled: self.irq_enabled,
        }
    }
}

/// A context to start: its name, its entry function, and its state.
#[derive(Debug)]
pub struct SpawnRequest {
    pub name: String,
    pub entry: EntryPoint,
    pub state: HostState,
}

impl SpawnRequest {
    /// A request to start a context.
    pub fn new(name: String, entry: EntryPoint, state: HostState) -> (request: SpawnRequest)
        ensures
            request.name == name,
            request.entry == entry,
            request.state == state,
    {
        SpawnRequest { name, entry, state }
    }
}

/// A worker that waits for its name: the bytes of the name lie in the guest's
/// memory and have yet to be read.
#[derive(Debug)]
pub struct PendingWorker {
    pub task: u32,
    pub name: ByteRange,
    pub state: HostState,
}

impl PendingWorker {
    /// Names the worker after the bytes read from the guest's memory.
    pub fn named(self, bytes: &[u8]) -> (request: SpawnRequest)
        ensures
            request.name@ == utf8_lossy(bytes@),
            valid_utf8(bytes@) ==> request.name@ == decode_utf8(bytes@),
            request.entry == (EntryPoint::Task { task: self.task }),
            request.state == self.state,
    {
        SpawnRequest::new(lossy_text(bytes), EntryPoint::Task { task: self.task }, self.state)
    }
}

/// The module under which the host calls are imported.
pub fn kernel_module() -> (name: &'static str)
    ensures
        name@ == "kernel"@,
{
    "kernel"
}

/// The module and the name under which the shared memory is imported.
pub fn memory_import() -> (import: (&'static str, &'static str))
    ensures
        import.0@ == "env"@,
        import.1@ == "memory"@,
{
    ("env", "memory")
}

/// The file to which a snapshot of a faulted guest is written.
pub fn coredump_path() -> (path: &'static str)
    ensures
        path@ == "kernel.coredump"@,
{
    "kernel.coredump"
}

/// The message that stands for a stack trace.
pub open spec fn stacktrace_text() -> Seq<char> {
    "stack traces are unsupported"@
}

/// The message that stands for a stack trace takes 28 bytes, one for each of
/// its characters.
pub proof fn lemma_stacktrace_text()
    ensures
        encode_utf8(stacktrace_text()).len() == 28,
        forall|i: int|
            0 <= i < 28 ==> #[trigger] encode_utf8(stacktrace_text())[i] == stacktrace_text()[i]
                as u8,
{
    reveal_strlit("stack traces are unsupported");
    assert(is_ascii_chars(stacktrace_text()));
    is_ascii_chars_encode_utf8(stacktrace_text());
}

/// The smaller of a capacity and the number of bytes at hand.
pub open spec fn clipped(capacity: int, available: int) -> int {
    if capacity <= available {
        capacity
    } else {
        available
    }
}

/// What a call that copies `source` to the `len` bytes at `buf` returns for
/// a memory of `size` bytes: the write of as much of `source` as `len` has
/// room for, or a refusal when the bytes at `buf` do not lie inside the
/// memory.
pub open spec fn copy_out(
    source: Seq<u8>,
    buf: u32,
    len: u32,
    size: nat,
    r: Result<MemoryWrite, HostError>,
) -> bool {
    match r {
        Ok(write) => {
            &&& in_bounds(buf as int, len as int, size as int)
            &&& write.offset == buf
            &&& write.bytes@ == source.take(clipped(len as int, source.len() as int))
        },
        Err(e) => {
            &&& !in_bounds(buf as int, len as int, size as int)
            &&& e == out_of_range(buf as int, len as int, size as int)
        },
    }
}

/// A copy succeeds exactly when the bytes that the guest named lie inside its
/// memory, and fails with a range error otherwise. A copy that succeeds
/// writes at `buf`, never more than `len` bytes and never more than there are:
/// with room to spare it writes the whole source and stops. What it writes
/// lies inside the memory, and every byte of the memory outside stays as it
/// was.
pub proof fn lemma_copy_out(
    source: Seq<u8>,
    buf: u32,
    len: u32,
    size: nat,
    r: Result<MemoryWrite, HostError>,
    memory: Seq<u8>,
)
    requires
        copy_out(source, buf, len, size, r),
        memory.len() == size,
    ensures
        r is Ok <==> in_bounds(buf as int, len as int, size as int),
        r is Err ==> r->Err_0 is MemoryRange,
        r is Ok ==> ({
            let write = r->Ok_0;
            let after = stored(memory, write.offset as int, write.bytes@);
            &&& write.bytes@.len() <= len
            &&& write.bytes@.len() <= source.len()
            &&& len >= source.len() ==> write.bytes@ == source
            &&& in_bounds(write.offset as int, write.bytes@.len() as int, size as int)
            &&& after.len() == size
            &&& after.subrange(buf as int, buf + write.bytes@.len()) == write.bytes@
            &&& forall|i: int|
                0 <= i < size && !(buf <= i < buf + write.bytes@.len()) ==> after[i] == memory[i]
        }),
{
    if r is Ok {
        let write = r->Ok_0;
        if len >= source.len() {
            assert(source.take(source.len() as int) =~= source);
        }
        lemma_stored(memory, write.offset as int, write.bytes@);
    }
}

fn copy_prefix(source: &[u8], buf: u32, len: u32, size: usize) -> (r: Result<
    MemoryWrite,
    HostError,
>)
    ensures
        copy_out(source@, buf, len, size as nat, r),
{
    let range = check_range(buf, len, size)?;
    let count = if range.len <= source.len() {
        range.len
    } else {
        source.len()
    };
    let mut bytes: Vec<u8> = Vec::new();
    let mut i: usize = 0;
    while i < count
        invariant
            i <= count <= source@.len(),
            bytes@ == source@.take(i as int),
        decreases count - i,
    {
        bytes.push(source[i]);
        assert(bytes@ =~= source@.take(i as int + 1));
        i = i + 1;
    }
    Ok(MemoryWrite { offset: range.offset, bytes })
}

/// `return_address`: unwinding is not supported, whatever frame is asked for.
pub fn return_address(frames: i32) -> (address: i32)
    ensures
        address == -1,
{
    -1
}

/// `breakpoint`: a trap for the debugger, if one is attached to the host.
pub fn breakpoint(debugger_attached: bool) -> (effect: Effect)
    ensures
        debugger_attached ==> effect is RaiseTrap,
        !debugger_attached ==> effect is Nothing,
{
    if debugger_attached {
        Effect::RaiseTrap
    } else {
        Effect::Nothing
    }
}

/// `halt`: the process ends with status 1.
pub fn halt() -> (effect: Effect)
    ensures
        effect matches Effect::Exit { line, status } && line@ == "halt"@ && status == 1,
{
    Effect::Exit { line: "halt", status: 1 }
}

/// `restart`: the process ends with status 1 as well; nothing is restarted.
pub fn restart() -> (effect: Effect)
    ensures
        effect matches Effect::Exit { line, status } && line@ == "restart"@ && status == 1,
{
    Effect::Exit { line: "restart", status: 1 }
}

/// `boot_console_close`: the close is logged; the console stays as it is.
pub fn boot_console_close() -> (effect: Effect)
    ensures
        effect matches Effect::Log { line } && line@ == "console closed"@,
{
    Effect::Log { line: "console closed" }
}

impl HostState {
    /// The state of the boot context: the time of boot is now, no template
    /// is published, and interrupts are disabled.
    pub fn new(memory_size: usize, devicetree: Vec<u8>) -> (state: HostState)
        ensures
            state@ == (HostStateView {
                memory_size: memory_size as nat,
                devicetree: devicetree@,
                time_origin: state@.time_origin,
                template_published: false,
                irq_enabled: false,
            }),
    {
        HostState {
            memory_size,
            devicetree,
            time_origin: std::time::Instant::now(),
            template_published: false,
            irq_enabled: false,
        }
    }

    /// The size of the shared memory in bytes.
    pub fn memory_size(&self) -> (size: usize)
        ensures
            size == self@.memory_size,
    {
        self.memory_size
    }

    /// The blob of the hardware description.
    pub fn devicetree(&self) -> (blob: &[u8])
        ensures
            blob@ == self@.devicetree,
    {
        self.devicetree.as_slice()
    }

    /// Whether the instantiation template has been published.
    pub fn template_published(&self) -> (published: bool)
        ensures
            published == self@.template_published,
    {
        self.template_published
    }

    /// Records that the instantiation template has been published. From then
    /// on this context, and every context started from it, can start others.
    pub fn publish_template(&mut self)
        ensures
            final(self)@ == (HostStateView { template_published: true, ..old(self)@ }),
    {
        self.template_published = true;
    }

    /// The state with which a context started from this one begins: a copy,
    /// the interrupt flag included, that shares the time of boot.
    pub fn fork(&self) -> (child: HostState)
        ensures
            child@ == self@,
    {
        let devicetree = self.devicetree.clone();
        assert(devicetree@ =~= self.devicetree@);
        HostState {
            memory_size: self.memory_size,
            devicetree,
            time_origin: self.time_origin,
            template_published: self.template_published,
            irq_enabled: self.irq_enabled,
        }
    }

    /// `set_irq_enabled`: sets this context's interrupt flag; zero disables.
    pub fn set_irq_enabled(&mut self, enabled: u32)
        ensures
            final(self)@ == (HostStateView { irq_enabled: enabled != 0, ..old(self)@ }),
    {
        self.irq_enabled = enabled != 0;
    }

    /// `get_irq_enabled`: this context's interrupt flag, one if enabled.
    pub fn get_irq_enabled(&self) -> (enabled: u32)
        ensures
            enabled == (if self@.irq_enabled {
                1u32
            } else {
                0u32
            }),
    {
        if self.irq_enabled {
            1
        } else {
            0
        }
    }

    /// `boot_console_write`: the bytes of the guest's memory that go to the
    /// standard output, unchanged.
    pub fn boot_console_write(&self, msg: u32, len: u32) -> (r: Result<ByteRange, HostError>)
        ensures
            in_bounds(msg as int, len as int, self@.memory_size as int) ==> r == Ok::<
                ByteRange,
                HostError,
            >(ByteRange { offset: msg as usize, len: len as usize }),
            !in_bounds(msg as int, len as int, self@.memory_size as int) ==> r == Err::<
                ByteRange,
                HostError,
            >(out_of_range(msg as int, len as int, self@.memory_size as int)),
    {
        check_range(msg, len, self.memory_size)
    }

    /// `get_dt`: the hardware description goes to the guest's memory at `buf`,
    /// cut to `len` bytes where it is longer.
    pub fn get_dt(&self, buf: u32, len: u32) -> (r: Result<MemoryWrite, HostError>)
        ensures
            copy_out(self@.devicetree, buf, len, self@.memory_size, r),
    {
        copy_prefix(self.devicetree.as_slice(), buf, len, self.memory_size)
    }

    /// `get_stacktrace`: a message that stack traces are unsupported goes to
    /// the guest's memory at `buf`, cut to `len` bytes where it is longer.
    pub fn get_stacktrace(&self, buf: u32, len: u32) -> (r: Result<MemoryWrite, HostError>)
        ensures
            copy_out(encode_utf8(stacktrace_text()), buf, len, self@.memory_size, r),
    {
        copy_prefix("stack traces are unsupported".as_bytes(), buf, len, self.memory_size)
    }

    /// `get_now_nsec`: the nanoseconds from the time of boot to a reading of
    /// the clock taken during the call, or nothing where they do not fit 64
    /// bits.
    pub fn get_now_nsec(&self) -> (nsec: Option<u64>)
        ensures
            exists|now: std::time::Instant| nsec == #[trigger] nsec_between(now, self@.time_origin),
    {
        let now = std::time::Instant::now();
        let nsec = nsec_since(self.time_origin, now);
        assert(nsec == nsec_between(now, self@.time_origin));
        nsec
    }

    /// `new_worker`: a worker for the guest's task `task`, to be named after
    /// the `comm_len` bytes at `comm`. The bytes must lie inside the memory,
    /// and the template must be published.
    pub fn new_worker(&self, task: u32, comm: u32, comm_len: u32) -> (r: Result<
        PendingWorker,
        HostError,
    >)
        ensures
            match r {
                Ok(worker) => {
                    &&& in_bounds(comm as int, comm_len as int, self@.memory_size as int)
                    &&& self@.template_published
                    &&& worker.task == task
                    &&& worker.name == (ByteRange { offset: comm as usize, len: comm_len as usize })
                    &&& worker.state@ == self@
                },
                Err(e) => if !in_bounds(comm as int, comm_len as int, self@.memory_size as int) {
                    e == out_of_range(comm as int, comm_len as int, self@.memory_size as int)
                } else {
                    !self@.template_published && e == HostError::Instantiation
                },
            },
    {
        let name = check_range(comm, comm_len, self.memory_size)?;
        if !self.template_published {
            return Err(HostError::Instantiation);
        }
        Ok(PendingWorker { task, name, state: self.fork() })
    }

    /// `bringup_secondary`: a context for the CPU `cpu`, named `entry` and
    /// the CPU's index. The template must be published.
    pub fn bringup_secondary(&self, cpu: u32, idle: u32) -> (r: Result<SpawnRequest, HostError>)
        ensures
            match r {
                Ok(request) => {
                    &&& self@.template_published
                    &&& request.name@ == "entry"@ + decimal_text(cpu as nat)
                    &&& request.entry == (EntryPoint::Secondary { cpu, idle })
                    &&& request.state@ == self@
                },
                Err(e) => !self@.template_published && e == HostError::Instantiation,
            },
    {
        if !self.template_published {
            return Err(HostError::Instantiation);
        }
        let mut name = "entry".to_owned();
        let index = decimal(cpu);
        name.append(index.as_str());
        Ok(SpawnRequest::new(name, EntryPoint::Secondary { cpu, idle }, self.fork()))
    }
}

} // verus!
