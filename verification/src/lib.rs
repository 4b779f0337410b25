//! Card-skin and passcode-theme planning for iPhone Wallet artwork: the
//! naming, validation, batching and bookkeeping rules that decide what is
//! written to a device, verified with Verus.

pub mod text;
pub mod paths;
pub mod wallet_backup;
pub mod flasher;
pub mod batch;
pub mod flash_run;
pub mod i18n;
pub mod host_guard;
pub mod image_skin;
pub mod keypad;
pub mod airtraffic;
pub mod sync_plist;
pub mod cli;
pub mod panel;
