pub mod auth;
pub mod config;
pub mod err;
pub mod gcp;
pub mod json;
pub mod path;
pub mod resource_access;
pub mod routes;
pub mod text;
