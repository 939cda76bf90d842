//! Verified core of the Vidu command-line client.
use vstd::prelude::*;

pub mod catalog;
pub mod compose;
pub mod elements;
pub mod failure;
pub mod lip_sync;
pub mod media;
pub mod paths;
pub mod task_body;
pub mod requests;
pub mod responses;
pub mod retry;
pub mod sort;
pub mod string_map;
pub mod submission;
pub mod text;
pub mod timeline;
pub mod tts;
pub mod validators;
pub mod upload;
pub mod usage;
pub mod voices;

verus! {

} // verus!
