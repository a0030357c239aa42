pub mod assets;
pub mod control;
pub mod detect;
pub mod digest;
pub mod error;
pub mod flow;
pub mod install;
pub mod launch;
pub mod text;
pub mod update;
pub mod version;
