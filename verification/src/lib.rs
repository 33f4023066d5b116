//! Event reservation bot: the verified core.

pub mod entity;
pub mod text;
pub mod types;
pub mod reservation;
pub mod pagination;
pub mod shared;
pub mod config;
pub mod callback;
pub mod user;
pub mod middleware;
pub mod format;
pub mod booking;
pub mod keyboard;
pub mod messages;
pub mod commands;
pub mod reply;
pub mod views;
pub mod links;
pub mod lists;
pub mod validation;
pub mod auth;
pub mod whitespace;
pub mod schedule;
pub mod markup;
pub mod dialog;
pub mod admin;
pub mod listing;
pub mod guards;
