//! An in-memory console control implementation. The real privileged calls
//! need actual console hardware and elevated privilege, so this substitute
//! carries the same contracts over plain fields: it lets the session logic be
//! exercised, records every acknowledgment, and can be told to fail at a
//! chosen call to drive the abort paths.

use vstd::prelude::*;

use crate::control::ConsoleControl;
use crate::control::ConsoleModel;
use crate::control::Discipline;
use crate::control::VtMode;
use crate::control::VT_AUTO;

verus! {

/// A console whose state is ordinary memory. Fields mirror the model one for
/// one; `allocated` is represented by its lowest free slot, `free_vt`.
#[derive(Debug)]
pub struct FakeConsole {
    /// Kernel-assigned index of the VT behind the handle.
    pub vt_index: i32,
    /// Keyboard input delivery mode.
    pub kb_mode: i32,
    /// Display mode.
    pub console_mode: i32,
    /// The line discipline installed on the device.
    pub discipline: Discipline,
    /// The Switch-Mode Descriptor held for the VT.
    pub switch_mode: VtMode,
    /// The foreground VT.
    pub active_vt: i32,
    /// The lowest free kernel VT number; every lower positive number counts
    /// as allocated.
    pub free_vt: i32,
    /// Every acknowledgment issued through `vt_reldisp`, in order.
    pub acks: Vec<i32>,
    /// Every activation requested through `vt_activate`, in order.
    pub activations: Vec<i32>,
    /// Whether the handle has been closed.
    pub closed: bool,
    /// How many privileged calls have been issued so far.
    pub calls_made: u64,
    /// The one call number that fails, or zero for none.
    pub fail_on_call: u64,
    /// The error number a failing call reports.
    pub fail_errno: i32,
}

impl FakeConsole {
    /// A fresh, still-open console: the given VT index, keyboard mode,
    /// display mode and lowest free VT; an untouched line discipline; the
    /// kernel's default automatic switch descriptor; no acknowledgment issued
    /// yet; and no injected failure.
    pub fn new(vt_index: i32, kb_mode: i32, console_mode: i32, free_vt: i32) -> (r: FakeConsole)
        ensures
            r.model() == (ConsoleModel {
                vt_index: vt_index as int,
                kb_mode: kb_mode as int,
                console_mode: console_mode as int,
                discipline: Discipline::Other,
                switch_mode: crate::control::auto_descriptor(),
                active_vt: 0,
                allocated: Set::new(|k: int| 1 <= k && k < free_vt as int),
                acks: Seq::empty(),
                closed: false,
            }),
            r.calls_made == 0,
            r.fail_on_call == 0,
    {
        FakeConsole {
            vt_index,
            kb_mode,
            console_mode,
            discipline: Discipline::Other,
            switch_mode: VtMode { mode: VT_AUTO, waitv: 0, relsig: 0, acqsig: 0, frsig: 0 },
            active_vt: 0,
            free_vt,
            acks: Vec::new(),
            activations: Vec::new(),
            closed: false,
            calls_made: 0,
            fail_on_call: 0,
            fail_errno: 0,
        }
    }

    /// The same console, but the `call_number`-th privileged call issued from
    /// now on (counting from one) fails with `errno`.
    pub fn failing_at(self, call_number: u64, errno: i32) -> (r: FakeConsole)
        ensures
            r.model() == self.model(),
            r.calls_made == self.calls_made,
            r.fail_on_call == call_number,
            r.fail_errno == errno,
    {
        FakeConsole { fail_on_call: call_number, fail_errno: errno, ..self }
    }

    /// Counts one privileged call and says whether it is the one that was
    /// told to fail.
    fn begin_call(&mut self) -> (fail: bool)
        ensures
            *final(self) == (FakeConsole { calls_made: final(self).calls_made, ..*old(self) }),
            fail ==> final(self).model() == old(self).model(),
    {
        if self.calls_made < u64::MAX {
            self.calls_made = self.calls_made + 1;
        }
        self.calls_made == self.fail_on_call
    }
}

impl ConsoleControl for FakeConsole {
    open spec fn model(&self) -> ConsoleModel {
        ConsoleModel {
            vt_index: self.vt_index as int,
            kb_mode: self.kb_mode as int,
            console_mode: self.console_mode as int,
            discipline: self.discipline,
            switch_mode: self.switch_mode,
            active_vt: self.active_vt as int,
            allocated: Set::new(|k: int| 1 <= k && k < self.free_vt as int),
            acks: self.acks@.map_values(|a: i32| a as int),
            closed: self.closed,
        }
    }

    fn vt_openqry(&mut self) -> (r: Result<i32, i32>) {
        if self.begin_call() {
            return Err(self.fail_errno);
        }
        if self.free_vt >= 1 {
            Ok(self.free_vt)
        } else {
            Ok(1)
        }
    }

    fn vt_getmode(&mut self) -> (r: Result<VtMode, i32>) {
        if self.begin_call() {
            return Err(self.fail_errno);
        }
        Ok(self.switch_mode)
    }

    fn vt_setmode(&mut self, m: VtMode) -> (r: Result<(), i32>) {
        if self.begin_call() {
            return Err(self.fail_errno);
        }
        self.switch_mode = m;
        Ok(())
    }

    fn vt_reldisp(&mut self, ack: i32) -> (r: Result<(), i32>) {
        if self.begin_call() {
            return Err(self.fail_errno);
        }
        self.acks.push(ack);
        Ok(())
    }

    fn vt_activate(&mut self, vt: i32) -> (r: Result<(), i32>) {
        if self.begin_call() {
            return Err(self.fail_errno);
        }
        self.activations.push(vt);
        Ok(())
    }

    fn vt_waitactive(&mut self, vt: i32) -> (r: Result<(), i32>) {
        if self.begin_call() {
            return Err(self.fail_errno);
        }
        self.active_vt = vt;
        Ok(())
    }

    fn vt_getindex(&mut self) -> (r: Result<i32, i32>) {
        if self.begin_call() {
            return Err(self.fail_errno);
        }
        Ok(self.vt_index)
    }

    fn kdgkbmode(&mut self) -> (r: Result<i32, i32>) {
        if self.begin_call() {
            return Err(self.fail_errno);
        }
        Ok(self.kb_mode)
    }

    fn kdskbmode(&mut self, m: i32) -> (r: Result<(), i32>) {
        if self.begin_call() {
            return Err(self.fail_errno);
        }
        self.kb_mode = m;
        Ok(())
    }

    fn kdgetmode(&mut self) -> (r: Result<i32, i32>) {
        if self.begin_call() {
            return Err(self.fail_errno);
        }
        Ok(self.console_mode)
    }

    fn kdsetmode(&mut self, m: i32) -> (r: Result<(), i32>) {
        if self.begin_call() {
            return Err(self.fail_errno);
        }
        self.console_mode = m;
        Ok(())
    }

    fn set_line_discipline(&mut self, d: Discipline) -> (r: Result<(), i32>) {
        if self.begin_call() {
            return Err(self.fail_errno);
        }
        self.discipline = d;
        Ok(())
    }

    fn close(&mut self) {
        let _ = self.begin_call();
        self.closed = true;
    }
}

} // verus!
