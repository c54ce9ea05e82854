//! Deterministic maintenance-agent logic for a high-pressure pump: the rules
//! that judge text written by a language model, the safety policy ladder, the
//! OPC UA node contracts, and the bounded frame buffer.
use vstd::prelude::*;

pub mod api;
pub mod checklist;
pub mod cli;
pub mod config;
pub mod explanation_service;
pub mod fallback_templates;
pub mod frame_buffer;
pub mod input_client;
pub mod learning;
pub mod llm_runs;
pub mod mistral_runner;
pub mod output_guard;
pub mod output_server;
pub mod policy;
pub mod prompt_builder;
pub mod replay;
pub mod schemas;
pub mod text;

verus! {
} // verus!
