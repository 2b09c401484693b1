//! Verified core of a Minecraft name sniper: configuration rules, the
//! decisions taken on each reply of the authentication and name services,
//! the sign-in bookkeeping over several accounts, and the wire format and
//! timing plan of the snipe requests.
pub mod text;
pub mod config;
pub mod session;
pub mod sockets;
pub mod fragment;
pub mod msauth;
pub mod requests;
pub mod cli;
pub mod logic;
pub mod runner;
pub mod socket;
pub mod laws;
