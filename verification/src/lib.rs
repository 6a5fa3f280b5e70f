//! Request routing, error-route fallback and the development rebuild loop of a
//! server-side rendering web framework, with every decision stated as a contract.

pub mod body;
pub mod commands;
pub mod components;
pub mod context;
pub mod dev;
pub mod error_router;
pub mod fs_path;
pub mod live_reload;
pub mod method;
pub mod options;
pub mod params;
pub mod path;
pub mod pipeline;
pub mod render;
pub mod response;
pub mod route;
pub mod router;
pub mod scripts;
pub mod service;
pub mod status;
pub mod text;
pub mod tools;
