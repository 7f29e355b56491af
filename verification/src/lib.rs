//! Verified core of a tray-resident desktop shell: the main window's
//! visibility commands, the tray menu's routing, and the page-content
//! extractor's rules.

pub mod extract;
pub mod launch;
pub mod relay;
pub mod text;
pub mod tray;
pub mod window;
