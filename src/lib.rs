pub mod auth;
pub mod catalog;
pub mod collections;
pub mod error;
pub mod guard;
pub mod order;
pub mod product;
pub mod response;
pub mod storage;
pub mod text;
pub mod upload;
pub mod user;
