//! Beam: the decisions of a remote desktop, verified.
pub mod backend;
pub mod capture;
pub mod cli;
pub mod clipboard;
pub mod command;
pub mod compositor;
pub mod config;
pub mod credentials;
pub mod desktop;
pub mod discovery;
pub mod display;
pub mod ids;
pub mod input;
pub mod keyboard;
pub mod launch;
pub mod media;
pub mod modeline;
pub mod pacing;
pub mod pool;
pub mod portal;
pub mod recorder;
pub mod seed;
pub mod session;
pub mod setup;
pub mod text;
pub mod waiting;
pub mod xserver;
