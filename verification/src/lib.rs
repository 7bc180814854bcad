//! A minimal application shell: one text-formatting command (`greet`) and a
//! model of the startup sequence that attaches capability plugins, with the
//! mobile-only attachments and their short-circuit failure policy.

pub mod bootstrap;
pub mod greet;
