//! Core of a conversational agent: message and input types, the persona
//! registry, and the orchestrator that turns one incoming input into the
//! sequence of backend calls that produce a reply.

pub mod bot;
pub mod llm;
pub mod persona;
pub mod prompt;
