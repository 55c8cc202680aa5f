//! Checks of a browser's Chrome DevTools Protocol (CDP) endpoint for a
//! desktop automation client: reading the settings, reading
//! `/json/version`, retrying while the browser starts, caching the
//! endpoint, and judging the Node probe's result.  Network, process and
//! file work is left to the caller; every decision is made, and proved,
//! here.
pub mod cdp_session;
pub mod commands;
pub mod env_bootstrap;
pub mod json;
pub mod text;
