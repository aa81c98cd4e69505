//! Device drivers: each installs its callback at boot.

pub mod keyboard;
pub mod timer;
