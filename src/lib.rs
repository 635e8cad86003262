//! User registration, social login and email verification on top of a
//! repository / unit-of-work persistence layer with an in-memory backend.
pub mod entities;
pub mod error;
pub mod uow;
pub mod repository;
pub mod memory;
pub mod manager;
pub mod text;
pub mod ids;
pub mod services;
pub mod auth;
pub mod config;
pub mod api;
pub mod place;
pub mod kakao;
