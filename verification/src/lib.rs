//! Composable pipelines of operations around language-model agents.

pub mod completion;
pub mod message;
pub mod pipeline;
pub mod vector_store;
