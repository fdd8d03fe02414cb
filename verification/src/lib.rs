//! A verified core for a command-line media launcher.
//!
//! The library holds the persistent stores of the launcher — a query cache
//! mapping search text to resolved media addresses, and named ordered
//! playlists of addresses — together with the resolution protocol that turns
//! raw user input into a playable address and the argument construction for
//! the external player. File and process I/O stay outside; the library works
//! on plain values and states exactly what it does with them.

pub mod cache;
pub mod errors;
pub mod external;
pub mod log;
pub mod mpv;
pub mod playlist;
pub mod resolver;
pub mod utils;
