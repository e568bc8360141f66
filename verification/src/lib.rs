//! Verified core of a small multi-agent task planner: message conversion,
//! plan editing and validation, prompt construction, URL access policy,
//! browser-tool dispatch decisions and message routing.

pub mod text;
pub mod string_map;
pub mod assoc;
pub mod message;
pub mod json;
pub mod plan;
pub mod url_status;
pub mod encode;
pub mod web_page;
pub mod prompt;
pub mod tool_metadata;
pub mod plan_agent;
pub mod llm_client;
pub mod web_agent;
pub mod team;
pub mod orchestrator;
pub mod set_of_mark;
pub mod documents;
pub mod records;
pub mod web_types;
pub mod routes;
pub mod cli;
pub mod planner;
pub mod py_client;
pub mod tasks;
