//! Hooks for platform events that are not commands.

pub mod member;
