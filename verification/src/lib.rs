//! Fleqtra: the verified core of a small object-store service.
pub mod text;
pub mod claims;
pub mod jwt;
pub mod user;
pub mod users;
pub mod endpoint;
pub mod password;
pub mod extractor;
pub mod upload;
pub mod routes;
pub mod paths;
pub mod storage;
pub mod object;
pub mod handlers;
