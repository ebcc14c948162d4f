//! Scaffolding of a Nix flake, an `.envrc` and a `.gitignore` for a chosen
//! ecosystem: the decisions and text transformations behind the generator.

pub mod language;
pub mod flags;
pub mod pipeline;
pub mod dotfile;
pub mod comments;
pub mod context;
pub mod engine;
pub mod naming;
