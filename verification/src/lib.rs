pub mod error;
pub mod keyed;
pub mod vars;
pub mod env_eval;
pub mod comment;
pub mod const_vars;
pub mod addr;
pub mod types;
pub mod update;
pub mod task;
pub mod action;
pub mod module;
pub mod system;
pub mod fsmodel;
pub mod init;
