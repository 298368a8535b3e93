//! Host-shell supervisor for a desktop application that keeps a background
//! worker process alive behind a system tray.
//!
//! The library holds the coordination logic: discovering the worker's port
//! from the handshake file's content, deciding when the worker is spawned,
//! describing the tray menu, and governing the window's show/hide lifecycle.
//! The surrounding binary performs the file reads, the process spawn and the
//! GUI event loop, and feeds their results into these functions.

pub mod lifecycle;
pub mod port;
pub mod supervisor;
pub mod tray;
