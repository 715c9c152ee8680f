//! Building blocks shared by every part of the service.

pub mod app_state;
pub mod clock;
pub mod cookies;
pub mod error;
pub mod id;
pub mod jwt;
pub mod middleware;
pub mod paging;
pub mod password;
pub mod response;
pub mod snowflake;
pub mod sql;
pub mod text;
