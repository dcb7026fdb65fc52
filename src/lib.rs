//! Camera-control core: device identifiers and control vocabulary, camera
//! backends, pixel conversion, frame buffering, diagnostics and persisted
//! per-device settings.

pub mod text;
pub mod types;
pub mod error;
pub mod backend;
pub mod dummy;
pub mod composite;
pub mod eds;
pub mod canon_mock;
pub mod canon_controls;
pub mod canon_discovery;
pub mod canon_backend;
pub mod canon_watch;
pub mod directshow;
pub mod settings;
pub mod apply;
pub mod hotplug;
pub mod tray;
pub mod convert;
pub mod stats;
pub mod frames;
pub mod preview;
pub mod graph;
pub mod formats;
