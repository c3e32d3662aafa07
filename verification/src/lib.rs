//! Application bootstrapper for the Panoptic desktop shell.
//!
//! The shell's native layer does exactly three things: it attaches a fixed,
//! ordered list of capability providers (plugins) to the host, it exposes a
//! small command table to the embedded UI layer, and it decides, once, at
//! setup time, whether to open the developer-inspection panel. Those
//! decisions are pure and are verified here; the host itself (windows, the
//! event loop, the plugins' own work) is outside I/O driven by a thin,
//! unverified driver.

pub mod bootstrap;
pub mod commands;
pub mod plugins;
pub mod version;
