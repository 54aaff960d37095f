pub mod address;
pub mod bootstrap;
pub mod guard;
pub mod repos;
pub mod settings;
pub mod stream;
pub mod version;
