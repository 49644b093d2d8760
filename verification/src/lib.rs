//! Decision logic of a Discord support bot that links chat accounts to store
//! accounts: request targets, reply texts, coupon rules and role assignment,
//! each with a contract that Verus proves.

pub mod misc;
pub mod text;
pub mod time;
pub mod http;
pub mod roles;
pub mod flow;
pub mod handler;
pub mod commands;
pub mod events;

