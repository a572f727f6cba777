//! Verified core logic of the CrabCache admin dashboard.

pub mod anomaly;
pub mod api;
pub mod auth;
pub mod chart;
pub mod clipboard;
pub mod datetime;
pub mod gpu;
pub mod heatmap;
pub mod laws;
pub mod locale;
pub mod oauth;
pub mod particles;
pub mod routing;
pub mod session;
pub mod text;
pub mod theme;
pub mod ui;
pub mod url;
