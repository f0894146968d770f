//! What the nodes of a mesh say to each other, and what a gateway makes of
//! the models that they serve.

pub mod alias_laws;
pub mod aliases;
pub mod completion;
pub mod control_frames;
pub mod frame_laws;
pub mod gateway;
pub mod quic_http;
pub mod routing;
pub mod thinking;
