//! The verified core of a terminal directory explorer with per-file
//! authenticated encryption: the shared explorer state and its navigation
//! rules, the view-mode machine, the command dispatcher, and the framing
//! of encrypted files.

pub mod ascii;
pub mod crypto;
pub mod dispatch;
pub mod errors;
pub mod meta;
pub mod pane;
pub mod paths;
pub mod state;
pub mod view;
