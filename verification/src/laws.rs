//! What the library is for, said of whole frames and whole runs: how the actions
//! that are asked for relate to the replies that came in, and how the bytes that
//! come out relate to the bytes that went in.

pub mod encoding;
pub mod picture;
pub mod recorded;
pub mod settings;
pub mod streamed;
pub mod talk;
