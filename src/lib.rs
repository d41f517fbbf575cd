//! A generator of container build scripts from declarative environment
//! descriptions, and the data mapping behind a thin container-engine facade.
//!
//! - `config`: the environment description and its mathematical model.
//! - `recipes`: the per-family, per-language install recipes.
//! - `generator`: assembles the whole script.
//! - `validation`: rejects incomplete descriptions.
//! - `api`: request and response types, and the generation endpoint's logic.
//! - `laws`: properties of generation, proved over the model.
//! - `container`, `ports`, `facade`, `image_build`: the engine's container
//!   data mapped to summaries and details, and the build stream's steps.
//! - `text`: joining lines, decimal notation, text comparison.

pub mod config;
pub mod text;
pub mod recipes;
pub mod generator;
pub mod validation;
pub mod api;
pub mod laws;
pub mod container;
pub mod ports;
pub mod facade;
pub mod image_build;
