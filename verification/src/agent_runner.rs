//! The local, all-active supervisor of agent deployments. It is deliberately
//! adapter-neutral: an adapter receives only an opaque session reference and a
//! redacted trigger.

pub mod attach_pass;
pub mod binding;
pub mod capability;
pub mod codex;
pub mod cron;
pub mod deployment;
pub mod external_session;
pub mod pass_history;
pub mod record_laws;
pub mod records;
pub mod recovery;
pub mod recovery_history;
pub mod recovery_pass;
pub mod schedule;
pub mod schedule_laws;
pub mod store;
pub mod supervise;
pub mod supervise_pass;
