//! Decision logic of a desktop front-end for a locally hosted language
//! model: conversation bookkeeping, the streaming chat protocol, the
//! start-up sequence of the model server, the model preparation, and the
//! release check.

pub mod chat;
pub mod errors;
pub mod icone;
pub mod json;
pub mod model;
pub mod sessoes;
pub mod startup;
pub mod tela;
pub mod text;
pub mod update;
