//! Broadcast orchestration for a separately running media relay engine.
//!
//! The crate holds the decisions of the orchestration: what to ask of the
//! engine's control plane and in which order, how its answers are read, how
//! the per-stack sessions move between idle and live, and when the ingest
//! listener is bound. Sockets and HTTP are left to the caller, which performs
//! the calls this crate asks for and hands their outcomes back.
pub mod bbs;
pub mod broadcasting;
pub mod channel_utils;
pub mod contact_status;
pub mod failure;
pub mod genre_parser;
pub mod history;
pub mod jpnkn_bbs;
pub mod json;
pub mod logger_core;
pub mod pecast_adapter;
pub mod rtmp_listener;
pub mod rtmp_server;
pub mod session;
pub mod settings;
pub mod tcp;
pub mod terms_check;
pub mod text;
pub mod ui;
pub mod version;
pub mod view_xml;
pub mod yp_config;
