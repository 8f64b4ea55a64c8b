pub mod agent;
pub mod agent_builder_job;
pub mod agent_executor_cron_job;
pub mod agent_executor_job;
pub mod builds;
pub mod execution;
pub mod store;
