//! Exclusive ownership of a Linux virtual console on behalf of a graphical
//! session: device discovery, a narrow privileged console-control interface,
//! and a session that takes the console into raw graphics mode and restores
//! it deterministically at teardown.

pub mod control;
pub mod discovery;
pub mod fake;
pub mod session;

pub use control::ConsoleControl;
pub use discovery::find_free_tty;
pub use discovery::tty_device_name;
pub use fake::FakeConsole;
pub use session::Vt;
pub use control::ConsoleModel;
pub use control::Discipline;
pub use control::DiscoveryError;
pub use control::KernelCallError;
pub use control::Operation;
pub use control::VtMode;
pub use control::K_RAW;
pub use control::K_XLATE;
pub use control::KD_GRAPHICS;
pub use control::KD_TEXT;
pub use control::VT_ACKACQ;
pub use control::VT_AUTO;
pub use control::VT_PROCESS;
pub use control::VT_TRUE;
