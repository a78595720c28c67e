//! Settings resolution, launch planning and state tracking for a ComfyUI
//! sidecar process, with the text handling they rest on.

pub mod checkpoints;
pub mod gallery;
pub mod greeting;
pub mod http_status;
pub mod laws;
pub mod order;
pub mod paths;
pub mod settings;
pub mod sidecar;
pub mod text;
