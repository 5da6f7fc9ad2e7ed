//! A conversational front-end to a single relational table.
//!
//! A user question is turned into a SQL query by a generative language
//! model, the query is executed against the table store, and the tabular
//! result is rendered as text and interpreted back into natural language.
//! The language-model transport and the database driver are injected
//! through the [`gemini::AIModel`] and [`repository::Repository`]
//! capability traits; everything the pipeline itself decides or computes
//! is verified here.

pub mod config;
pub mod decimal;
pub mod error;
pub mod formatter;
pub mod gemini;
pub mod models;
pub mod query_service;
pub mod repository;
pub mod result_set;
pub mod text;
