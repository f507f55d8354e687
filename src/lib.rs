//! A command-line HTTP client's request/response pipeline: value objects,
//! validation, retry and batch orchestration, and transport planning.

pub mod builder;
pub mod cli;
pub mod config;
pub mod entities;
pub mod error;
pub mod service;
pub mod text;
pub mod transport;
pub mod validator;
pub mod value_objects;
