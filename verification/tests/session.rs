use vt::control::ConsoleControl;
use vt::control::Discipline;
use vt::control::Operation;
use vt::control::VtMode;
use vt::control::KD_GRAPHICS;
use vt::control::KD_TEXT;
use vt::control::K_RAW;
use vt::control::K_XLATE;
use vt::control::VT_ACKACQ;
use vt::control::VT_AUTO;
use vt::control::VT_PROCESS;
use vt::control::VT_TRUE;
use vt::FakeConsole;
use vt::Vt;

fn text_console() -> FakeConsole {
    // Kernel index 4 is the VT behind device node ttyv3.
    FakeConsole::new(4, K_XLATE, KD_TEXT, 5)
}

#[test]
fn acquire_reads_index_and_prior_keyboard_mode() {
    let vt = Vt::new(text_console()).unwrap();
    assert_eq!(vt.vt_num, 4);
    assert_eq!(vt.original_kb_mode, K_XLATE);
}

#[test]
fn acquire_switches_keyboard_display_and_discipline() {
    let vt = Vt::new(text_console()).unwrap();
    assert_eq!(vt.console.kb_mode, K_RAW);
    assert_eq!(vt.console.console_mode, KD_GRAPHICS);
    assert_eq!(vt.console.discipline, Discipline::Raw);
    assert!(!vt.console.closed);
}

#[test]
fn acquire_installs_process_descriptor_with_signals() {
    let vt = Vt::new(text_console()).unwrap();
    let d = vt.console.switch_mode;
    assert_eq!(d.mode, VT_PROCESS);
    assert_eq!(d.waitv, 0);
    assert_eq!(d.relsig, d.acqsig);
    assert_eq!(d.relsig, nix::sys::signal::Signal::SIGUSR1 as i16);
    assert_eq!(d.frsig, nix::sys::signal::Signal::SIGIO as i16);
    assert_ne!(d.frsig, 0);
}

#[test]
fn acquire_activates_the_owned_vt_and_waits() {
    let vt = Vt::new(text_console()).unwrap();
    assert_eq!(vt.console.activations, vec![4]);
    assert_eq!(vt.console.active_vt, 4);
}

#[test]
fn teardown_restores_prior_keyboard_and_text_mode() {
    let vt = Vt::new(text_console()).unwrap();
    let after = vt.teardown().unwrap();
    assert_eq!(after.kb_mode, K_XLATE);
    assert_eq!(after.console_mode, KD_TEXT);
    assert_eq!(after.discipline, Discipline::Sane);
    assert!(after.closed);
}

#[test]
fn teardown_resets_descriptor_to_auto_with_cleared_signals() {
    let vt = Vt::new(text_console()).unwrap();
    let after = vt.teardown().unwrap();
    let d = after.switch_mode;
    assert_eq!(d.mode, VT_AUTO);
    assert_eq!(d.waitv, 0);
    assert_eq!(d.relsig, 0);
    assert_eq!(d.acqsig, 0);
    assert_eq!(d.frsig, 0);
}

#[test]
fn teardown_after_acquire_on_vt_three_gives_back_xlate() {
    // Acquire on VT 3 (kernel index 4) with prior keyboard mode K_XLATE;
    // after teardown the keyboard mode reads K_XLATE again.
    let vt = Vt::new(FakeConsole::new(3 + 1, K_XLATE, KD_TEXT, 5)).unwrap();
    assert_eq!(vt.vt_num, 3 + 1);
    let after = vt.teardown().unwrap();
    assert_eq!(after.kb_mode, K_XLATE);
}

#[test]
fn round_trip_keeps_a_raw_prior_keyboard_mode_too() {
    let vt = Vt::new(FakeConsole::new(4, K_RAW, KD_TEXT, 5)).unwrap();
    let after = vt.teardown().unwrap();
    assert_eq!(after.kb_mode, K_RAW);
}

#[test]
fn ack_release_issues_exactly_one_call_with_the_release_code() {
    let mut vt = Vt::new(text_console()).unwrap();
    let calls_before = vt.console.calls_made;
    let kb_before = vt.console.kb_mode;
    let mode_before = vt.console.switch_mode;
    vt.ack_release().unwrap();
    assert_eq!(vt.console.acks, vec![VT_TRUE]);
    assert_eq!(vt.console.calls_made, calls_before + 1);
    assert_eq!(vt.console.kb_mode, kb_before);
    assert_eq!(vt.console.console_mode, KD_GRAPHICS);
    assert_eq!(vt.console.switch_mode, mode_before);
    assert_eq!(vt.vt_num, 4);
    assert_eq!(vt.original_kb_mode, K_XLATE);
}

#[test]
fn ack_acquire_issues_exactly_one_call_with_the_acquire_code() {
    let mut vt = Vt::new(text_console()).unwrap();
    let calls_before = vt.console.calls_made;
    vt.ack_acquire().unwrap();
    assert_eq!(vt.console.acks, vec![VT_ACKACQ]);
    assert_eq!(vt.console.calls_made, calls_before + 1);
}

#[test]
fn acknowledgments_are_recorded_in_order() {
    let mut vt = Vt::new(text_console()).unwrap();
    vt.ack_release().unwrap();
    vt.ack_acquire().unwrap();
    vt.ack_release().unwrap();
    assert_eq!(vt.console.acks, vec![VT_TRUE, VT_ACKACQ, VT_TRUE]);
}

#[test]
fn failed_ack_changes_nothing() {
    // The ninth privileged call is the acknowledgment right after the eight
    // acquisition calls.
    let mut vt = Vt::new(text_console().failing_at(9, 7)).unwrap();
    let err = vt.ack_release().unwrap_err();
    assert_eq!(err.operation, Operation::AckSwitch);
    assert_eq!(err.errno, 7);
    assert!(vt.console.acks.is_empty());
    assert_eq!(vt.console.kb_mode, K_RAW);
}

fn expect_acquire_abort(fail_call: u64, expected_op: Operation) -> FakeConsole {
    let fake = text_console().failing_at(fail_call, 5);
    match Vt::new(fake) {
        Ok(_) => panic!("acquisition was expected to abort"),
        Err((err, console)) => {
            assert_eq!(err.operation, expected_op);
            assert_eq!(err.errno, 5);
            assert!(!console.closed);
            console
        }
    }
}

#[test]
fn acquire_abort_at_get_index_leaves_everything() {
    let c = expect_acquire_abort(1, Operation::GetIndex);
    assert_eq!(c.kb_mode, K_XLATE);
    assert_eq!(c.console_mode, KD_TEXT);
    assert_eq!(c.discipline, Discipline::Other);
    assert_eq!(c.switch_mode.mode, VT_AUTO);
}

#[test]
fn acquire_abort_at_get_keyboard_mode_leaves_everything() {
    let c = expect_acquire_abort(2, Operation::GetKeyboardMode);
    assert_eq!(c.kb_mode, K_XLATE);
    assert_eq!(c.console_mode, KD_TEXT);
    assert_eq!(c.discipline, Discipline::Other);
}

#[test]
fn acquire_abort_at_set_keyboard_mode_leaves_everything() {
    let c = expect_acquire_abort(3, Operation::SetKeyboardMode);
    assert_eq!(c.kb_mode, K_XLATE);
    assert_eq!(c.console_mode, KD_TEXT);
    assert_eq!(c.discipline, Discipline::Other);
}

#[test]
fn acquire_abort_at_line_discipline_keeps_raw_keyboard() {
    let c = expect_acquire_abort(4, Operation::SetLineDiscipline);
    assert_eq!(c.kb_mode, K_RAW);
    assert_eq!(c.console_mode, KD_TEXT);
    assert_eq!(c.discipline, Discipline::Other);
}

#[test]
fn acquire_abort_at_console_mode_keeps_raw_discipline() {
    let c = expect_acquire_abort(5, Operation::SetConsoleMode);
    assert_eq!(c.kb_mode, K_RAW);
    assert_eq!(c.discipline, Discipline::Raw);
    assert_eq!(c.console_mode, KD_TEXT);
}

#[test]
fn acquire_abort_at_switch_mode_keeps_graphics() {
    let c = expect_acquire_abort(6, Operation::SetSwitchMode);
    assert_eq!(c.kb_mode, K_RAW);
    assert_eq!(c.discipline, Discipline::Raw);
    assert_eq!(c.console_mode, KD_GRAPHICS);
    assert_eq!(c.switch_mode.mode, VT_AUTO);
}

#[test]
fn acquire_abort_at_activate_keeps_process_descriptor() {
    let c = expect_acquire_abort(7, Operation::Activate);
    assert_eq!(c.console_mode, KD_GRAPHICS);
    assert_eq!(c.switch_mode.mode, VT_PROCESS);
    assert_ne!(c.switch_mode.frsig, 0);
    assert!(c.activations.is_empty());
    assert_eq!(c.active_vt, 0);
}

#[test]
fn acquire_abort_at_wait_active_leaves_activation_pending() {
    let c = expect_acquire_abort(8, Operation::WaitActive);
    assert_eq!(c.switch_mode.mode, VT_PROCESS);
    assert_eq!(c.activations, vec![4]);
    assert_eq!(c.active_vt, 0);
}

fn expect_teardown_abort(fail_call: u64, expected_op: Operation) -> FakeConsole {
    let vt = Vt::new(text_console().failing_at(fail_call, 11)).unwrap();
    match vt.teardown() {
        Ok(_) => panic!("teardown was expected to abort"),
        Err((err, console)) => {
            assert_eq!(err.operation, expected_op);
            assert_eq!(err.errno, 11);
            assert!(!console.closed);
            console
        }
    }
}

#[test]
fn teardown_abort_at_keyboard_mode_reverses_nothing() {
    let c = expect_teardown_abort(9, Operation::SetKeyboardMode);
    assert_eq!(c.kb_mode, K_RAW);
    assert_eq!(c.console_mode, KD_GRAPHICS);
    assert_eq!(c.discipline, Discipline::Raw);
    assert_eq!(c.switch_mode.mode, VT_PROCESS);
}

#[test]
fn teardown_abort_at_console_mode_has_restored_keyboard_only() {
    let c = expect_teardown_abort(10, Operation::SetConsoleMode);
    assert_eq!(c.kb_mode, K_XLATE);
    assert_eq!(c.console_mode, KD_GRAPHICS);
    assert_eq!(c.discipline, Discipline::Raw);
}

#[test]
fn teardown_abort_at_line_discipline_has_restored_text_mode() {
    let c = expect_teardown_abort(11, Operation::SetLineDiscipline);
    assert_eq!(c.kb_mode, K_XLATE);
    assert_eq!(c.console_mode, KD_TEXT);
    assert_eq!(c.discipline, Discipline::Raw);
}

#[test]
fn teardown_abort_at_switch_mode_still_holds_process_descriptor() {
    let c = expect_teardown_abort(12, Operation::SetSwitchMode);
    assert_eq!(c.kb_mode, K_XLATE);
    assert_eq!(c.console_mode, KD_TEXT);
    assert_eq!(c.discipline, Discipline::Sane);
    assert_eq!(c.switch_mode.mode, VT_PROCESS);
}

#[test]
fn read_back_operations_report_the_installed_state() {
    let mut vt = Vt::new(text_console()).unwrap();
    let mode = vt.console.kdgetmode().unwrap();
    assert_eq!(mode, KD_GRAPHICS);
    let d = vt.console.vt_getmode().unwrap();
    assert_eq!(d, vt.console.switch_mode);
    assert_eq!(d.mode, VT_PROCESS);
    let kb = vt.console.kdgkbmode().unwrap();
    assert_eq!(kb, K_RAW);
}

#[test]
fn descriptor_values_cover_both_phases() {
    // The descriptor installed while the session runs, and the one written at
    // teardown, differ exactly as required: process-controlled with non-zero
    // signals, then automatic with every signal cleared.
    let vt = Vt::new(text_console()).unwrap();
    let during: VtMode = vt.console.switch_mode;
    let after = vt.teardown().unwrap().switch_mode;
    assert_eq!(during.mode, VT_PROCESS);
    assert_ne!(during.frsig, 0);
    assert_eq!(after.mode, VT_AUTO);
    assert_eq!((after.relsig, after.acqsig, after.frsig), (0, 0, 0));
}
