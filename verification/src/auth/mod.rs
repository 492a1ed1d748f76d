pub mod attempts;
pub mod extractor;
pub mod password;
pub mod rbac;
pub mod throttle;
pub mod throttle_laws;
