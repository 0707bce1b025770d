//! Core of a chat bot that forwards user messages to a pluggable
//! large-language-model backend and keeps a bounded rolling conversation
//! history per chat.
//!
//! The verified library holds the completion task pipeline: admission
//! control, prompt construction with window truncation, the command
//! semantics of a worker (`/retry`, `/regenerate`, `/reset`, plain text),
//! usage accounting, and the value types exchanged with an
//! OpenAI-compatible backend.  The asynchronous transport, the HTTP
//! client and the persistent store live outside the library and hand it
//! plain values.
//!
//! The pipeline applies no per-chat lock: within one chat, callers are
//! expected to await one response before submitting the next.  Across
//! chats there is no ordering guarantee at all.

pub mod admission;
pub mod error;
pub mod openai;
pub mod pipeline;
pub mod prompt;
pub mod provider;
pub mod store;
pub mod text;
