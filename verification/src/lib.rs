//! Core logic of a Minecraft launcher: the Microsoft-account-to-Minecraft
//! authentication pipeline (credential cache, stage resolution, redirect
//! capture, token-exchange bookkeeping, login orchestration) together with
//! the launcher's supporting data model (NBT documents, version metadata,
//! bridge messages).

pub mod authenticator;
pub mod backend;
pub mod bridge;
pub mod clock;
pub mod credentials;
pub mod frontend;
pub mod login;
pub mod metadata;
pub mod models;
pub mod nbt;
pub mod redirect;
pub mod schema;
pub mod strutil;
