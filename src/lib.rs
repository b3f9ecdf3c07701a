//! The interaction core of a keyboard-driven terminal navigator: filterable
//! lists, a vim-style command parser, and the view stack that ties them to a
//! playback session.

pub mod action;
pub mod command_parser;
pub mod configuration;
pub mod event;
pub mod item;
pub mod list;
mod text;
pub mod session;
pub mod status_bar;
pub mod view;
