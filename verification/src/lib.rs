//! Compression and batched delivery of pictures bound for a Discord channel.
//!
//! The library takes picture files as bytes and brings each under a byte budget
//! ([`compression`]), packs the files that are ready into messages of at most ten attachments
//! and keeps the books while they are sent ([`delivery`]), and draws up what the caller is told
//! in the end ([`report`]). It reads no file and sends no message itself: the program around
//! it does, and hands over plain values.
//!
//! Every function is verified against its contract, except the calls into the image codecs,
//! which [`codec`] collects and whose contracts are taken on trust.

pub mod chunks;
pub mod codec;
pub mod compression;
pub mod delivery;
pub mod directory;
pub mod format;
pub mod report;
pub mod request;
pub mod scale;
pub mod state;
