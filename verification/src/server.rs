pub mod model;
pub mod server_module;
