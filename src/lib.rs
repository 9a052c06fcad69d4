//! Per-guild playback coordination for a chat bot: queues, history, the manual
//! transition flag, and the decisions that start, skip, rewind and advance
//! tracks. Audio backends, the chat platform and all I/O live outside; they
//! hand this library plain values and carry out the actions it returns.
pub mod coordinator;
pub mod display;
pub mod guard;
pub mod hex;
pub mod history;
pub mod queue;
pub mod repeat;
pub mod resolve;
pub mod text;
pub mod track;
pub mod ytdlp;
