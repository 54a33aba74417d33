pub mod catalog;
pub mod config;
pub mod cookie;
pub mod errors;
pub mod gateway;
pub mod health;
pub mod keywrap;
pub mod token;
