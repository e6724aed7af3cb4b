//! Verified core of the Ravix web framework: the dependency-injection
//! container, the application builder, response and error mapping, the
//! logger's routing decisions, the APM transaction/span bookkeeping and the
//! pure rules of the scaffolding tool, the route macros and the blog example.
pub mod apm;
pub mod app;
pub mod blog;
pub mod container;
pub mod expand;
pub mod inject;
pub mod logger;
pub mod posts;
pub mod response;
pub mod routes;
pub mod scaffold;
pub mod sys;
pub mod text;
pub mod users;
pub mod writer;
