//! Decision logic and binary-format readers for building bootable USB drives.
pub mod bytes;
pub mod controller;
pub mod cli;
pub mod decompress;
pub mod deps;
pub mod device;
pub mod devices;
pub mod digest;
pub mod helpers;
pub mod iso;
pub mod iso_report;
pub mod job;
pub mod plan;
pub mod progress;
pub mod qemu;
pub mod resources;
pub mod revocation;
pub mod rgadguard;
pub mod runner;
pub mod settings;
pub mod smart;
pub mod text;
pub mod timezones;
pub mod translations;
pub mod udf;
pub mod windisco;
pub mod uefi_ntfs;
pub mod vhd;
