//! Verified core of a PipeWire screen-capture client: the SPA format
//! parameters a capture stream negotiates, the frame buffers it reads, and the
//! decisions taken on the answers of the desktop portal and of KRunner.

pub mod flags;
pub mod pod;
pub mod keys;
pub mod spa;
pub mod drm;
pub mod media;
pub mod properties;
pub mod stream_builder;
pub mod format_builder;
pub mod events;
pub mod stream_setup;
pub mod video;
pub mod frame;
pub mod text;
pub mod windows;
pub mod portal;
pub mod wayland;
pub mod handler_states;
