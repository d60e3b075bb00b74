//! Decision logic of a chat-send guard: it reads the chat window, judges the
//! draft in the input box and holds the send key back while a verdict says
//! the message does not fit its recipient.
//!
//! This crate holds the parts that decide: key classification and the guard
//! state machine, draft-epoch and foreground tracking, the verdict slot's
//! freshness, which pipeline run a trigger leads to, how recognised lines
//! become the draft, the chat target and the context, L1 rule matching,
//! contact profiles, the scenario table, and the rule-stage judgement. The
//! desktop, the models and the file formats are driven from outside.

pub mod capture;
pub mod clock;
pub mod contract;
pub mod guard;
pub mod ieee;
pub mod intercept;
pub mod layout;
pub mod ocr;
pub mod phash;
pub mod sem;
pub mod single_instance;
pub mod sys_api;
pub mod testing;
pub mod text;
pub mod verdict;
