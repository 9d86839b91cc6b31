//! The kernel console control interface: the narrow set of privileged
//! operations a VT session issues against an open virtual-terminal device,
//! together with the mathematical model of the console state they act on.

use vstd::prelude::*;

verus! {

/// Switch control is left to the kernel: it may switch VTs unilaterally.
pub const VT_AUTO: i8 = 0;

/// Switch control is process-owned: the kernel must wait for this session to
/// acknowledge every switch.
pub const VT_PROCESS: i8 = 1;

/// Acknowledgment code for a release handshake.
pub const VT_TRUE: i32 = 1;

/// Acknowledgment code for an acquire handshake.
pub const VT_ACKACQ: i32 = 2;

/// Keyboard input delivered as raw scancodes, bypassing kernel translation
/// and echo.
pub const K_RAW: i32 = 0;

/// Keyboard input translated by the kernel line discipline.
pub const K_XLATE: i32 = 1;

/// The kernel renders text to the VT itself.
pub const KD_TEXT: i32 = 0;

/// The kernel cedes the display to the owning process.
pub const KD_GRAPHICS: i32 = 1;

/// Switch-Mode Descriptor: the fixed-layout record the kernel holds for a VT,
/// describing how console switches away from it are negotiated.
#[derive(Clone, Copy, PartialEq, Eq, Structural, Debug)]
pub struct VtMode {
    /// Switching controlled by: `VT_AUTO` or `VT_PROCESS`.
    pub mode: i8,
    /// Not implemented by the kernel; always written as zero.
    pub waitv: i8,
    /// Signal delivered when the VT is about to be taken away.
    pub relsig: i16,
    /// Signal delivered when the VT has been given back.
    pub acqsig: i16,
    /// Forced-release signal: not acted on in this design, but the kernel
    /// requires the field to be set.
    pub frsig: i16,
}

/// The line discipline a session asks the device to take on.
#[derive(Clone, Copy, PartialEq, Eq, Structural, Debug)]
pub enum Discipline {
    /// Fully raw: no canonicalization, no echo, no signal characters.
    Raw,
    /// The sane text-mode defaults, restored at teardown.
    Sane,
    /// Whatever discipline the device had before this session touched it.
    Other,
}

/// The privileged operation in whose course a kernel call failed.
#[derive(Clone, Copy, PartialEq, Eq, Structural, Debug)]
pub enum Operation {
    GetIndex,
    OpenQuery,
    GetKeyboardMode,
    SetKeyboardMode,
    GetConsoleMode,
    SetConsoleMode,
    SetLineDiscipline,
    GetSwitchMode,
    SetSwitchMode,
    AckSwitch,
    Activate,
    WaitActive,
}

/// A failed privileged call: which operation failed, and the error number the
/// kernel reported.
#[derive(Clone, Copy, PartialEq, Eq, Structural, Debug)]
pub struct KernelCallError {
    pub operation: Operation,
    pub errno: i32,
}

/// A failure of device discovery.
#[derive(Clone, Copy, PartialEq, Eq, Structural, Debug)]
pub enum DiscoveryError {
    /// The device node is missing or may not be opened.
    DeviceOpenError { errno: i32 },
    /// The kernel's free-VT query failed.
    QueryError { errno: i32 },
}

/// The state of the console subsystem behind a device handle, as far as the
/// operations of this interface read and write it.
#[verifier::ext_equal]
pub ghost struct ConsoleModel {
    /// The kernel-assigned (one-based) index of the VT behind the handle.
    pub vt_index: int,
    /// Keyboard input delivery mode (`K_RAW`, `K_XLATE`, ...).
    pub kb_mode: int,
    /// Display mode (`KD_TEXT` or `KD_GRAPHICS`).
    pub console_mode: int,
    /// The line discipline currently installed on the device.
    pub discipline: Discipline,
    /// The Switch-Mode Descriptor the kernel holds for the VT.
    pub switch_mode: VtMode,
    /// The kernel-assigned index of the foreground VT.
    pub active_vt: int,
    /// The kernel VT numbers currently allocated to some process.
    pub allocated: Set<int>,
    /// The switch acknowledgments issued so far, in order, each `VT_TRUE` or
    /// `VT_ACKACQ`. Acknowledging mutates nothing else.
    pub acks: Seq<int>,
    /// Whether the device handle has been closed.
    pub closed: bool,
}

/// Holds when `v` is the lowest kernel VT number not allocated to any process.
pub open spec fn is_lowest_free(allocated: Set<int>, v: int) -> bool {
    &&& v >= 1
    &&& !allocated.contains(v)
    &&& forall|k: int| 1 <= k < v ==> allocated.contains(k)
}

/// The descriptor that returns switch control to the kernel: automatic
/// switching, every signal field cleared.
pub open spec fn auto_descriptor() -> VtMode {
    VtMode { mode: VT_AUTO, waitv: 0, relsig: 0, acqsig: 0, frsig: 0 }
}

/// The descriptor a session installs: process-controlled switching, release
/// and acquire announced by the same signal, and the required-but-unused
/// forced-release slot filled with a valid signal.
pub open spec fn process_descriptor(switch_signal: i16, forced_signal: i16) -> VtMode {
    VtMode {
        mode: VT_PROCESS,
        waitv: 0,
        relsig: switch_signal,
        acqsig: switch_signal,
        frsig: forced_signal,
    }
}

/// Holds of every descriptor a session may leave installed while it owns the
/// VT: process-controlled switching with one valid notification signal and a
/// valid (non-zero) forced-release placeholder.
pub open spec fn is_process_descriptor(d: VtMode) -> bool {
    &&& d.mode == VT_PROCESS
    &&& d.waitv == 0
    &&& d.relsig == d.acqsig
    &&& d.relsig > 0
    &&& d.frsig > 0
}

/// The privileged operations available against one open VT device handle.
///
/// Every operation may fail with the error number the kernel reported; a
/// failed operation leaves the console state unchanged. The handle is owned
/// exclusively: no operation may be issued after `close`.
pub trait ConsoleControl: Sized {
    /// The console state behind this handle.
    spec fn model(&self) -> ConsoleModel;

    /// Reports the lowest-numbered VT not currently allocated to any process.
    fn vt_openqry(&mut self) -> (r: Result<i32, i32>)
        requires
            !old(self).model().closed,
        ensures
            final(self).model() == old(self).model(),
            r is Ok ==> is_lowest_free(old(self).model().allocated, r->Ok_0 as int),
    ;

    /// Reads the Switch-Mode Descriptor the kernel holds for the VT.
    fn vt_getmode(&mut self) -> (r: Result<VtMode, i32>)
        requires
            !old(self).model().closed,
        ensures
            final(self).model() == old(self).model(),
            r is Ok ==> r->Ok_0 == old(self).model().switch_mode,
    ;

    /// Installs a Switch-Mode Descriptor for the VT.
    fn vt_setmode(&mut self, m: VtMode) -> (r: Result<(), i32>)
        requires
            !old(self).model().closed,
        ensures
            r is Ok ==> final(self).model() == (ConsoleModel {
                switch_mode: m,
                ..old(self).model()
            }),
            r is Err ==> final(self).model() == old(self).model(),
    ;

    /// Acknowledges a switch handshake: `VT_TRUE` consents to a release,
    /// `VT_ACKACQ` completes an acquire. Nothing else changes.
    fn vt_reldisp(&mut self, ack: i32) -> (r: Result<(), i32>)
        requires
            !old(self).model().closed,
        ensures
            r is Ok ==> final(self).model() == (ConsoleModel {
                acks: old(self).model().acks.push(ack as int),
                ..old(self).model()
            }),
            r is Err ==> final(self).model() == old(self).model(),
    ;

    /// Requests that the kernel switch display focus to the given VT. The
    /// request alone changes nothing observable here: the switch is complete
    /// only once `vt_waitactive` returns for that VT.
    fn vt_activate(&mut self, vt: i32) -> (r: Result<(), i32>)
        requires
            !old(self).model().closed,
        ensures
            final(self).model() == old(self).model(),
    ;

    /// Blocks until the given VT is the foreground VT.
    fn vt_waitactive(&mut self, vt: i32) -> (r: Result<(), i32>)
        requires
            !old(self).model().closed,
        ensures
            r is Ok ==> final(self).model() == (ConsoleModel {
                active_vt: vt as int,
                ..old(self).model()
            }),
            r is Err ==> final(self).model() == old(self).model(),
    ;

    /// Reads the kernel-assigned index of the VT behind this handle.
    fn vt_getindex(&mut self) -> (r: Result<i32, i32>)
        requires
            !old(self).model().closed,
        ensures
            final(self).model() == old(self).model(),
            r is Ok ==> r->Ok_0 as int == old(self).model().vt_index,
    ;

    /// Reads the keyboard input delivery mode.
    fn kdgkbmode(&mut self) -> (r: Result<i32, i32>)
        requires
            !old(self).model().closed,
        ensures
            final(self).model() == old(self).model(),
            r is Ok ==> r->Ok_0 as int == old(self).model().kb_mode,
    ;

    /// Sets the keyboard input delivery mode.
    fn kdskbmode(&mut self, m: i32) -> (r: Result<(), i32>)
        requires
            !old(self).model().closed,
        ensures
            r is Ok ==> final(self).model() == (ConsoleModel {
                kb_mode: m as int,
                ..old(self).model()
            }),
            r is Err ==> final(self).model() == old(self).model(),
    ;

    /// Reads the display mode.
    fn kdgetmode(&mut self) -> (r: Result<i32, i32>)
        requires
            !old(self).model().closed,
        ensures
            final(self).model() == old(self).model(),
            r is Ok ==> r->Ok_0 as int == old(self).model().console_mode,
    ;

    /// Sets the display mode (`KD_TEXT` or `KD_GRAPHICS`).
    fn kdsetmode(&mut self, m: i32) -> (r: Result<(), i32>)
        requires
            !old(self).model().closed,
        ensures
            r is Ok ==> final(self).model() == (ConsoleModel {
                console_mode: m as int,
                ..old(self).model()
            }),
            r is Err ==> final(self).model() == old(self).model(),
    ;

    /// Installs a line discipline on the device and commits it immediately,
    /// discarding buffered input and output.
    fn set_line_discipline(&mut self, d: Discipline) -> (r: Result<(), i32>)
        requires
            !old(self).model().closed,
            d != Discipline::Other,
        ensures
            r is Ok ==> final(self).model() == (ConsoleModel {
                discipline: d,
                ..old(self).model()
            }),
            r is Err ==> final(self).model() == old(self).model(),
    ;

    /// Closes the device handle. A failure of the underlying close is
    /// ignored, matching the one-shot teardown policy: the handle must not be
    /// used again either way.
    fn close(&mut self)
        requires
            !old(self).model().closed,
        ensures
            final(self).model() == (ConsoleModel { closed: true, ..old(self).model() }),
    ;
}

} // verus!
