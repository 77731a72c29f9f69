pub mod config;
pub mod record;
pub mod text;
pub mod time;
pub mod source;
pub mod filter;
pub mod naming;
pub mod pr_template;
pub mod pipeline;
pub mod publish;
pub mod schedule;
