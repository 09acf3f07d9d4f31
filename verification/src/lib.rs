//! Verified core of the QPOS desktop print driver: settings, print-log
//! bookkeeping, request routing, print-job preparation and the text handling
//! that turns the output of system commands into values.

pub mod clock;
pub mod desktop;
pub mod history;
pub mod model;
pub mod print_job;
pub mod printers;
pub mod server;
pub mod state;
pub mod text;

pub use model::{AppState, DriverSettings, PrintLog};
