//! Back-office library for a staffing agency: customers, job postings,
//! matchings with exact fee arithmetic, settlement accumulation, and the
//! account, token and rate-limiting rules around them.

pub mod accounts;
pub mod auth;
pub mod config;
pub mod cookies;
pub mod csrf;
pub mod customers;
pub mod dashboard;
pub mod decimal;
pub mod error;
pub mod health;
pub mod files;
pub mod listing;
pub mod matchings;
pub mod memos;
pub mod middleware;
pub mod numeric;
pub mod ownership;
pub mod postings;
pub mod profile;
pub mod ratelimit;
pub mod security_questions;
pub mod tags;
pub mod textutil;
pub mod users;
pub mod workflow;
