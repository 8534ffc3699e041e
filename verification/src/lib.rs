//! Client side of a broadcast intercom.

pub mod audio;
pub mod auth;
pub mod bind;
pub mod bridge;
pub mod bridge_app;
pub mod bridge_page;
pub mod buttons;
pub mod capture;
pub mod commands;
pub mod config;
pub mod control;
pub mod device;
pub mod discovery;
pub mod endpoint;
pub mod endpoint_laws;
pub mod gain;
pub mod gpio;
pub mod identity;
pub mod json;
pub mod launch;
pub mod laws;
pub mod local_api;
pub mod mic_mode;
pub mod ndi;
pub mod net;
pub mod order;
pub mod playback;
pub mod profiles;
pub mod protocol;
pub mod pump;
pub mod routes;
pub mod routing;
pub mod session;
pub mod settings;
pub mod telemetry;
pub mod text;
pub mod ui;
pub mod web;
