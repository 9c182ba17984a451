pub mod embed;
pub mod roles;
