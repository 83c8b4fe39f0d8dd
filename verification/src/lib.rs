//! A small, named, ordered collection of workspaces (a display name and a path
//! each): how it is shown, how it is changed, and how one interactive pick is
//! decided, for a terminal tool and an editor client alike. The library computes
//! and decides; reading and writing files, the chooser and the terminal are the
//! caller's part.

pub mod add_workspace;
pub mod config;
pub mod formatter;
pub mod json;
pub mod operations;
pub mod picker;
pub mod rpc;
pub mod search;
pub mod session;
pub mod text;
pub mod workspace;
