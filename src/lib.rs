//! Build-time source generator for a small MVC web framework: it reads the
//! token streams of controller files and the text of view templates, builds
//! an application model, and renders the dispatch and view code from it.

pub mod attributes;
pub mod pipeline;
pub mod config;
pub mod controller;
pub mod data;
pub mod error;
pub mod generator;
pub mod request;
pub mod text;
pub mod token;
pub mod view;
pub mod view_compiler;
