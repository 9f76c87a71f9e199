//! One service per command family.
pub mod link_service;
pub mod brew_service;
pub mod fish_service;
pub mod vscode_service;
pub mod deploy_service;
pub mod load_service;
