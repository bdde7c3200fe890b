//! Streaming-protocol normalization and agent orchestration for a multi-vendor
//! LLM gateway: vendor stream decoding, tool-call accumulation, reasoning-tag
//! splitting, agent-loop control, and the deep-research orchestration state
//! machine, with the behaviour of each part stated and proved.

pub mod accumulator;
pub mod adapters;
pub mod agent_loop;
pub mod constants;
pub mod decoder;
pub mod events;
pub mod json;
pub mod linebuf;
pub mod messages;
pub mod plan_service;
pub mod providers;
pub mod research;
pub mod server;
pub mod session;
pub mod sources;
pub mod sse;
pub mod tags;
pub mod text;
pub mod tools_meta;
pub mod vendors;
