//! Verified core of a client library for the XDG desktop portals.
//!
//! The library holds the data types that go to and come from the portals,
//! with the rules that decide how they are built, named, parsed and checked.
//! Talking to the bus itself is left to the caller.

pub mod dbus_names;
pub mod handle_token;
pub mod text;
pub mod keyed;
pub mod request;
pub mod error;
pub mod outside;
pub mod icon;
pub mod dbusmenu;
pub mod app_id;
pub mod activation_token;
pub mod file_chooser;
pub mod proxy;
pub mod global_shortcuts;
pub mod flags;
pub mod input_capture;
pub mod screencast;
pub mod monitors;
pub mod device;
pub mod print;
pub mod notification;
pub mod wallpaper;
pub mod location;
pub mod settings;
pub mod remote_desktop;
pub mod inhibit;
pub mod usb;
pub mod documents;
pub mod document;
pub mod trash;
pub mod game_mode;
pub mod flatpak;
pub mod dynamic_launcher;
pub mod background;
pub mod camera;
pub mod clipboard;
pub mod session;
pub mod backend;
pub mod email;
pub mod open_uri;
pub mod screenshot;
pub mod account;
pub mod secret;
