//! The clipboard server: data model, bearer authentication and the
//! request handlers behind `POST /clipboard` and `GET /clipboard`.

pub mod auth;
pub mod config;
pub mod handlers;
pub mod models;
