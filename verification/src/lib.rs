//! Session-gated window filter.
//!
//! A pomodoro-style session timer decides, per new-window event, whether a
//! window whose class or title stands on a configured blacklist is to be
//! terminated. The timer alternates between an `Active` work period and an
//! `Inactive` break period, driven by elapsed wall-clock seconds and by an
//! externally toggled lock file whose existence a background monitor
//! publishes as a shared boolean flag.
//!
//! This crate holds the verified core: the timer state machine, the
//! monitor's event-to-flag logic, the blacklist matcher, and the
//! configuration-value extraction. The host glue (window manager callbacks,
//! filesystem watching, configuration files, logging) lives outside it and
//! hands the core plain values.

pub mod config;
pub mod matcher;
pub mod monitor;
pub mod timer;
