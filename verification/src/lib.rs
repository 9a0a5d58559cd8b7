//! FileShare: sharing files and text snippets over the local network. This crate holds the
//! decisions of the share, each with its contract proved by Verus: which addresses a share
//! is announced on, the texts shown in either language, the answers to download requests
//! (byte ranges included), the names uploads are stored under, the item list and its
//! recovery from a backup, the download activity, the event streams and the desktop side's
//! start and stop logic. The program around it (HTTP server, files, windows) is in `app/`.
pub mod text;
pub mod network;
pub mod localization;
pub mod server;
pub mod range;
pub mod platform;
pub mod naming;
pub mod services;
pub mod items;
pub mod download;
pub mod upload;
pub mod metadata;
pub mod downloads;
pub mod control;
pub mod feed;
