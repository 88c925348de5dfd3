//! Configuration: the typed model, its two-pass validation rules, the
//! https-only endpoint check, config-path priority and reload observers.

pub mod loader;
pub mod model;
pub mod observer;
pub mod url_validator;
pub mod validator;
