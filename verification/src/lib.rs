//! Browser automation over the Chrome DevTools Protocol: the verified core.

pub mod text;
pub mod locator;
pub mod config;
pub mod launch;
pub mod json;
pub mod cdp;
pub mod listener;
pub mod page;
pub mod tabs;
pub mod dom;
pub mod lookup;
pub mod element;
pub mod idle;
pub mod pause;
pub mod stealth;

pub use cdp::CdpError;
pub use config::BrowserConfig;
pub use listener::{DataPacket, Request, Response};
pub use locator::{Locator, LocatorParseError};
pub use page::Cookie;
pub use tabs::BrowserVersion;
