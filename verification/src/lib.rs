//! Verified core of the XzualDPI desktop helper: PAC script generation,
//! the PAC/setup HTTP responder, LAN address selection, proxy registry plans
//! and the small decisions that the desktop shell takes around them.

pub mod text;
pub mod hash;
pub mod pac;
pub mod setup_page;
pub mod http;
pub mod netif;
pub mod proxy_settings;
pub mod ports;
pub mod commands;
pub mod tray;
