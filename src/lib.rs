//! Remote game-controller streaming: naming raw controller input, framing
//! it for the wire, and folding it back into one virtual pad's state.
pub mod clock;
pub mod codec;
pub mod framing;
pub mod latest;
pub mod normalizer;
pub mod protocol;
pub mod receiver;
pub mod scaling;
pub mod session;
pub mod steam_input;
pub mod text;
pub mod virtual_controller;
