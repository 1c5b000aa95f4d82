//! Wayland proxy for the model context protocol.

pub mod adapted;
pub mod artifact;
pub mod called;
pub mod capture;
pub mod captured;
pub mod clients;
pub mod color;
pub mod console;
pub mod decode;
pub mod delivered;
pub mod desktop;
pub mod dmabuf;
pub mod exchanged;
pub mod fds;
pub mod frames;
pub mod framing;
pub mod feedback;
pub mod globals;
pub mod ingest;
pub mod input;
pub mod json;
pub mod keymap;
pub mod launch;
pub mod layout;
pub mod messages;
pub mod numerals;
pub mod order;
pub mod picture;
pub mod pixels;
pub mod raw_input;
pub mod registry;
pub mod relay;
pub mod relayed;
pub mod requests;
pub mod resource_map;
pub mod seen;
pub mod server;
pub mod session;
pub mod snapshot;
pub mod surface;
pub mod sync;
pub mod table;
pub mod tables;
pub mod tracker;
pub mod text;
pub mod windows;
pub mod wire;
pub mod worded;
