//! The session's memory commands in builds without product memory: every
//! command answers that memory is off, and nothing is captured.

use vstd::prelude::*;
use crate::text::owned;

verus! {

/// Why memory is off.
#[derive(Clone, Copy, PartialEq, Eq, Structural, Debug)]
pub enum MemoryDisabledReason {
    /// Off for the whole process.
    ProcessDisabled,
}

/// The memory files of a session and whether memory runs.
pub struct MemoryListing {
    pub files: Vec<String>,
    pub enabled: bool,
    pub disabled_reason: Option<MemoryDisabledReason>,
    pub capture_enabled: bool,
    pub dream_enabled: bool,
}

/// The answer to turning memory on or off.
pub struct MemoryToggleResponse {
    pub message: String,
    pub enabled: bool,
    pub disabled_reason: Option<MemoryDisabledReason>,
    pub listing: Option<MemoryListing>,
}

/// What became of a flush request.
#[derive(Clone, Copy, PartialEq, Eq, Structural, Debug)]
pub enum MemoryFlushDisposition {
    Disabled,
}

/// The answer to a flush request.
pub struct MemoryFlushResponse {
    pub flushed: bool,
    pub disposition: MemoryFlushDisposition,
    /// The last turn the flush covered.
    pub through_turn: Option<u64>,
}

/// Why a forget request was refused.
#[derive(Clone, Copy, PartialEq, Eq, Structural, Debug)]
pub enum MemoryForgetRejection {
    MemoryDisabled,
}

/// The answer to a forget request.
pub enum MemoryForgetResponse {
    Rejected { reason: MemoryForgetRejection, message: String },
}

/// The message of the status and toggle commands.
pub open spec fn compiled_out_message() -> Seq<char> {
    "Memory is compiled out of this build."@
}

/// No turn is captured for memory.
pub fn v2_capture_enabled() -> (r: bool)
    ensures
        !r,
{
    false
}

/// No prompt result counts as a turn to capture.
pub fn is_capturable_turn_result() -> (r: bool)
    ensures
        !r,
{
    false
}

/// The memory status line.
pub fn memory_v2_status() -> (r: String)
    ensures
        r@ == compiled_out_message(),
{
    owned("Memory is compiled out of this build.")
}

/// The listing: no files, memory, capture and dreaming all off for the
/// process.
pub fn memory_listing() -> (r: Result<MemoryListing, String>)
    ensures
        r matches Ok(l) && l.files@.len() == 0 && !l.enabled && l.disabled_reason == Some(
            MemoryDisabledReason::ProcessDisabled,
        ) && !l.capture_enabled && !l.dream_enabled,
{
    Ok(
        MemoryListing {
            files: Vec::new(),
            enabled: false,
            disabled_reason: Some(MemoryDisabledReason::ProcessDisabled),
            capture_enabled: false,
            dream_enabled: false,
        },
    )
}

/// Turning memory on or off: memory stays off, with the listing.
pub fn memory_toggle_and_list(enabled: bool) -> (r: MemoryToggleResponse)
    ensures
        r.message@ == compiled_out_message(),
        !r.enabled,
        r.disabled_reason == Some(MemoryDisabledReason::ProcessDisabled),
        r.listing matches Some(l) && l.files@.len() == 0 && !l.enabled,
{
    let listing = match memory_listing() {
        Ok(l) => Some(l),
        Err(_) => None,
    };
    MemoryToggleResponse {
        message: owned("Memory is compiled out of this build."),
        enabled: false,
        disabled_reason: Some(MemoryDisabledReason::ProcessDisabled),
        listing,
    }
}

/// A flush does nothing.
pub fn memory_flush_command() -> (r: MemoryFlushResponse)
    ensures
        !r.flushed,
        r.disposition == MemoryFlushDisposition::Disabled,
        r.through_turn is None,
{
    MemoryFlushResponse { flushed: false, disposition: MemoryFlushDisposition::Disabled, through_turn: None }
}

/// A forget request is refused: memory is off.
pub fn memory_forget(path: &str, expected_content_hash: &str) -> (r: MemoryForgetResponse)
    ensures
        r matches MemoryForgetResponse::Rejected { reason, message } && reason
            == MemoryForgetRejection::MemoryDisabled && message@ == "Memory is off for this session."@,
{
    MemoryForgetResponse::Rejected {
        reason: MemoryForgetRejection::MemoryDisabled,
        message: owned("Memory is off for this session."),
    }
}

} // verus!
