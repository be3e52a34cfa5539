use vstd::prelude::*;

pub mod ai;
pub mod asr_batch;
pub mod asr_service;
pub mod audio_format;
pub mod controller;
pub mod dashscope;
pub mod dashscope_job;
pub mod devices;
pub mod digest;
pub mod file_names;
pub mod importer;
pub mod jitter;
pub mod logging;
pub mod models;
pub mod ogg;
pub mod packets;
pub mod pdf_export;
pub mod process_icons;
pub mod recovery;
pub mod state_machine;
pub mod text;
pub mod transcript;

verus! {

} // verus!
