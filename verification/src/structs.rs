//! The documents exchanged with the orchestrator and the device descriptions.
pub mod deployment_supervisor;
pub mod openapi;
pub mod request_entry;
pub mod module_orchestrator;
pub mod deployment_orchestrator;
pub mod device;
