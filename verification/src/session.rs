//! The VT session: the stateful owner of one console device handle. On
//! acquisition it captures the prior keyboard mode, switches keyboard and
//! display into raw graphics-owned mode, installs process-controlled switch
//! signaling and activates the VT; acknowledge operations participate in the
//! kernel's switch handshakes; teardown reverses every change in the opposite
//! order and closes the handle, exactly once.

use vstd::prelude::*;

use crate::control::ConsoleControl;
use crate::control::ConsoleModel;
use crate::control::Discipline;
use crate::control::KernelCallError;
use crate::control::Operation;
use crate::control::VtMode;
use crate::control::auto_descriptor;
use crate::control::is_process_descriptor;
use crate::control::process_descriptor;
use crate::control::KD_GRAPHICS;
use crate::control::KD_TEXT;
use crate::control::K_RAW;
use crate::control::VT_ACKACQ;
use crate::control::VT_PROCESS;
use crate::control::VT_TRUE;

verus! {

/// Relies on nix's `Signal::SIGUSR1`: its discriminant is the platform's
/// `SIGUSR1` number, a positive value small enough for the descriptor's
/// signal fields. Used as the single release/acquire notification signal.
#[verifier::external_body]
fn switch_notification_signal() -> (r: i16)
    ensures
        r > 0,
{
    nix::sys::signal::Signal::SIGUSR1 as i16
}

/// Relies on nix's `Signal::SIGIO`: its discriminant is the platform's
/// `SIGIO` number, a positive value small enough for the descriptor's signal
/// fields. Fills the required-but-unused forced-release slot.
#[verifier::external_body]
fn unused_forced_release_signal() -> (r: i16)
    ensures
        r > 0,
{
    nix::sys::signal::Signal::SIGIO as i16
}

/// The console state after a successful acquisition on a console that was in
/// state `pre`: raw keyboard and line discipline, graphics display, a
/// process-controlled switch descriptor, and the session's own VT active.
pub open spec fn acquired_model(pre: ConsoleModel, switch_signal: i16, forced_signal: i16) -> ConsoleModel {
    ConsoleModel {
        kb_mode: K_RAW as int,
        console_mode: KD_GRAPHICS as int,
        discipline: Discipline::Raw,
        switch_mode: process_descriptor(switch_signal, forced_signal),
        active_vt: pre.vt_index,
        ..pre
    }
}

/// The console state after teardown of a session whose console stood in
/// state `m`: the keyboard mode observed before acquisition, text display,
/// a sane line discipline, automatic switching with all signals cleared, and
/// the handle closed.
pub open spec fn torn_down_model(m: ConsoleModel, prior_kb_mode: int) -> ConsoleModel {
    ConsoleModel {
        kb_mode: prior_kb_mode,
        console_mode: KD_TEXT as int,
        discipline: Discipline::Sane,
        switch_mode: auto_descriptor(),
        closed: true,
        ..m
    }
}

/// The operations acquisition issues, in order; an acquisition that fails
/// reports one of these.
pub open spec fn is_acquire_step(op: Operation) -> bool {
    ||| op == Operation::GetIndex
    ||| op == Operation::GetKeyboardMode
    ||| op == Operation::SetKeyboardMode
    ||| op == Operation::SetLineDiscipline
    ||| op == Operation::SetConsoleMode
    ||| op == Operation::SetSwitchMode
    ||| op == Operation::Activate
    ||| op == Operation::WaitActive
}

/// The fallible operations teardown issues, in order; a teardown that fails
/// reports one of these.
pub open spec fn is_teardown_step(op: Operation) -> bool {
    ||| op == Operation::SetKeyboardMode
    ||| op == Operation::SetConsoleMode
    ||| op == Operation::SetLineDiscipline
    ||| op == Operation::SetSwitchMode
}

/// The console state after an acquisition on `pre` aborted at the given
/// step: exactly the steps before it have been applied, and nothing is
/// rolled back.
pub open spec fn acquire_aborted_model(
    pre: ConsoleModel,
    failed: Operation,
    switch_signal: i16,
    forced_signal: i16,
) -> ConsoleModel {
    if failed == Operation::SetLineDiscipline {
        ConsoleModel { kb_mode: K_RAW as int, ..pre }
    } else if failed == Operation::SetConsoleMode {
        ConsoleModel { kb_mode: K_RAW as int, discipline: Discipline::Raw, ..pre }
    } else if failed == Operation::SetSwitchMode {
        ConsoleModel {
            kb_mode: K_RAW as int,
            discipline: Discipline::Raw,
            console_mode: KD_GRAPHICS as int,
            ..pre
        }
    } else if failed == Operation::Activate || failed == Operation::WaitActive {
        ConsoleModel {
            kb_mode: K_RAW as int,
            discipline: Discipline::Raw,
            console_mode: KD_GRAPHICS as int,
            switch_mode: process_descriptor(switch_signal, forced_signal),
            ..pre
        }
    } else {
        pre
    }
}

/// The console state after a teardown of a session over `m` aborted at the
/// given step: exactly the restorations before it have been applied, and the
/// handle is still open.
pub open spec fn teardown_aborted_model(
    m: ConsoleModel,
    prior_kb_mode: int,
    failed: Operation,
) -> ConsoleModel {
    if failed == Operation::SetConsoleMode {
        ConsoleModel { kb_mode: prior_kb_mode, ..m }
    } else if failed == Operation::SetLineDiscipline {
        ConsoleModel { kb_mode: prior_kb_mode, console_mode: KD_TEXT as int, ..m }
    } else if failed == Operation::SetSwitchMode {
        ConsoleModel {
            kb_mode: prior_kb_mode,
            console_mode: KD_TEXT as int,
            discipline: Discipline::Sane,
            ..m
        }
    } else {
        m
    }
}

/// Law: on every console, teardown restores the keyboard mode observed
/// immediately before acquisition — the session records it and hands exactly
/// that value back.
pub proof fn lemma_teardown_restores_keyboard_mode(
    pre: ConsoleModel,
    switch_signal: i16,
    forced_signal: i16,
)
    ensures
        torn_down_model(acquired_model(pre, switch_signal, forced_signal), pre.kb_mode).kb_mode
            == pre.kb_mode,
{
}

/// Law: teardown restores the console display mode observed immediately
/// before acquisition. The session does not record the prior display mode —
/// it always restores text mode — so the round trip is exact precisely for a
/// console that was in text mode when the session began, the state every VT
/// handed to a session is in.
pub proof fn lemma_teardown_restores_console_mode(
    pre: ConsoleModel,
    switch_signal: i16,
    forced_signal: i16,
)
    requires
        pre.console_mode == KD_TEXT as int,
    ensures
        torn_down_model(acquired_model(pre, switch_signal, forced_signal), pre.kb_mode).console_mode
            == pre.console_mode,
{
}

/// One live session per owned VT. The session owns the device handle for its
/// whole lifetime; it is not copyable, and only `teardown` gives the handle
/// up, closed.
pub struct Vt<C: ConsoleControl> {
    /// The exclusively owned console control handle.
    pub console: C,
    /// The kernel-assigned (one-based) index of the owned VT, read once at
    /// construction.
    pub vt_num: i32,
    /// The keyboard delivery mode observed before this session took control;
    /// captured once, used only to restore on teardown.
    pub original_kb_mode: i32,
}

impl<C: ConsoleControl> Vt<C> {
    /// The console state behind the session's handle.
    pub open spec fn model(&self) -> ConsoleModel {
        self.console.model()
    }

    /// The keyboard delivery mode this session will restore on teardown.
    pub open spec fn prior_kb_mode(&self) -> int {
        self.original_kb_mode as int
    }

    /// Acquire: takes exclusive control of the console behind the given
    /// handle. Reads the VT index and the current keyboard mode, switches the
    /// keyboard to raw scancode delivery, installs a fully raw line
    /// discipline, switches the display to graphics mode, installs a
    /// process-controlled Switch-Mode Descriptor, then activates the VT and
    /// blocks until the kernel reports it active.
    ///
    /// On the first failure the sequence aborts with the failed operation and
    /// its error number, hands the console back, and rolls nothing back:
    /// exactly the steps already completed remain applied.
    pub fn new(console: C) -> (r: Result<Vt<C>, (KernelCallError, C)>)
        requires
            !console.model().closed,
        ensures
            r is Ok ==> ({
                let vt = r->Ok_0;
                let pre = console.model();
                let post = vt.model();
                &&& vt.vt_num as int == pre.vt_index
                &&& vt.prior_kb_mode() == pre.kb_mode
                &&& is_process_descriptor(post.switch_mode)
                &&& post == acquired_model(pre, post.switch_mode.relsig, post.switch_mode.frsig)
            }),
            r is Err ==> ({
                let err = r->Err_0.0;
                let aborted = r->Err_0.1;
                let pre = console.model();
                let post = aborted.model();
                &&& is_acquire_step(err.operation)
                &&& post == acquire_aborted_model(
                    pre,
                    err.operation,
                    post.switch_mode.relsig,
                    post.switch_mode.frsig,
                )
                &&& !post.closed
            }),
    {
        let mut console = console;
        let vt_num: i32 = match console.vt_getindex() {
            Ok(n) => n,
            Err(e) => {
                return Err((KernelCallError { operation: Operation::GetIndex, errno: e }, console));
            },
        };
        let original_kb_mode: i32 = match console.kdgkbmode() {
            Ok(m) => m,
            Err(e) => {
                return Err((
                    KernelCallError { operation: Operation::GetKeyboardMode, errno: e },
                    console,
                ));
            },
        };
        if let Err(e) = console.kdskbmode(K_RAW) {
            return Err((KernelCallError { operation: Operation::SetKeyboardMode, errno: e }, console));
        }
        if let Err(e) = console.set_line_discipline(Discipline::Raw) {
            return Err((
                KernelCallError { operation: Operation::SetLineDiscipline, errno: e },
                console,
            ));
        }
        if let Err(e) = console.kdsetmode(KD_GRAPHICS) {
            return Err((KernelCallError { operation: Operation::SetConsoleMode, errno: e }, console));
        }
        let switch_signal: i16 = switch_notification_signal();
        let forced_signal: i16 = unused_forced_release_signal();
        let descriptor = VtMode {
            mode: VT_PROCESS,
            waitv: 0,
            relsig: switch_signal,
            acqsig: switch_signal,
            frsig: forced_signal,
        };
        if let Err(e) = console.vt_setmode(descriptor) {
            return Err((KernelCallError { operation: Operation::SetSwitchMode, errno: e }, console));
        }
        if let Err(e) = console.vt_activate(vt_num) {
            return Err((KernelCallError { operation: Operation::Activate, errno: e }, console));
        }
        if let Err(e) = console.vt_waitactive(vt_num) {
            return Err((KernelCallError { operation: Operation::WaitActive, errno: e }, console));
        }
        Ok(Vt { console, vt_num, original_kb_mode })
    }

    /// Acknowledge-Release: consents to the kernel switching the display away
    /// from this session's VT. A pure side-effecting call: no in-memory state
    /// of the session or of the console changes; the acknowledgment is only
    /// recorded.
    pub fn ack_release(&mut self) -> (r: Result<(), KernelCallError>)
        requires
            !old(self).model().closed,
        ensures
            final(self).vt_num == old(self).vt_num,
            final(self).prior_kb_mode() == old(self).prior_kb_mode(),
            r is Ok ==> final(self).model() == (ConsoleModel {
                acks: old(self).model().acks.push(VT_TRUE as int),
                ..old(self).model()
            }),
            r is Err ==> ({
                &&& final(self).model() == old(self).model()
                &&& r->Err_0.operation == Operation::AckSwitch
            }),
    {
        match self.console.vt_reldisp(VT_TRUE) {
            Ok(()) => Ok(()),
            Err(e) => Err(KernelCallError { operation: Operation::AckSwitch, errno: e }),
        }
    }

    /// Acknowledge-Acquire: completes the handshake after the VT has been
    /// switched back to this session. A pure side-effecting call, like
    /// `ack_release`.
    pub fn ack_acquire(&mut self) -> (r: Result<(), KernelCallError>)
        requires
            !old(self).model().closed,
        ensures
            final(self).vt_num == old(self).vt_num,
            final(self).prior_kb_mode() == old(self).prior_kb_mode(),
            r is Ok ==> final(self).model() == (ConsoleModel {
                acks: old(self).model().acks.push(VT_ACKACQ as int),
                ..old(self).model()
            }),
            r is Err ==> ({
                &&& final(self).model() == old(self).model()
                &&& r->Err_0.operation == Operation::AckSwitch
            }),
    {
        match self.console.vt_reldisp(VT_ACKACQ) {
            Ok(()) => Ok(()),
            Err(e) => Err(KernelCallError { operation: Operation::AckSwitch, errno: e }),
        }
    }

    /// Teardown: reverses acquisition in strict reverse order — restore the
    /// prior keyboard mode, restore text display mode, restore a sane line
    /// discipline, reset the Switch-Mode Descriptor to automatic with all
    /// signals cleared — then closes the handle and gives it back. Consuming
    /// the session makes a second teardown impossible.
    ///
    /// On the first failure it aborts with the failed operation, hands the
    /// console back still open, and exactly the restorations already
    /// completed remain applied.
    pub fn teardown(self) -> (r: Result<C, (KernelCallError, C)>)
        requires
            !self.model().closed,
        ensures
            r is Ok ==> r->Ok_0.model() == torn_down_model(self.model(), self.prior_kb_mode()),
            r is Err ==> ({
                let err = r->Err_0.0;
                let aborted = r->Err_0.1;
                &&& is_teardown_step(err.operation)
                &&& aborted.model() == teardown_aborted_model(
                    self.model(),
                    self.prior_kb_mode(),
                    err.operation,
                )
                &&& !aborted.model().closed
            }),
    {
        let original_kb_mode: i32 = self.original_kb_mode;
        let mut console = self.console;
        if let Err(e) = console.kdskbmode(original_kb_mode) {
            return Err((KernelCallError { operation: Operation::SetKeyboardMode, errno: e }, console));
        }
        if let Err(e) = console.kdsetmode(KD_TEXT) {
            return Err((KernelCallError { operation: Operation::SetConsoleMode, errno: e }, console));
        }
        if let Err(e) = console.set_line_discipline(Discipline::Sane) {
            return Err((
                KernelCallError { operation: Operation::SetLineDiscipline, errno: e },
                console,
            ));
        }
        let reset = VtMode { mode: crate::control::VT_AUTO, waitv: 0, relsig: 0, acqsig: 0, frsig: 0 };
        if let Err(e) = console.vt_setmode(reset) {
            return Err((KernelCallError { operation: Operation::SetSwitchMode, errno: e }, console));
        }
        console.close();
        Ok(console)
    }
}

} // verus!
