//! Limits on the use of the GPU.

use vstd::prelude::*;
use crate::text::{decimal, decimal_text};

verus! {

/// The limit that is applied for a requested limit: the request itself, but
/// no more than all of the GPU.
pub open spec fn applied_limit(limit_percent: u8) -> u8 {
    if limit_percent <= 100 {
        limit_percent
    } else {
        100
    }
}

/// Whether the GPU can be limited to `limit` percent: a quarter, a half,
/// three quarters or all of it.
pub open spec fn is_limit_step(limit: u8) -> bool {
    limit == 25 || limit == 50 || limit == 75 || limit == 100
}

/// Applies a limit on the use of the GPU and returns the limit that is in
/// force, in percent. No driver is addressed yet.
pub fn apply_limit(limit_percent: u8) -> (applied: u8)
    ensures
        applied == applied_limit(limit_percent),
{
    if limit_percent <= 100 {
        limit_percent
    } else {
        100
    }
}

/// Whether the GPU can be limited to `limit` percent.
pub fn is_supported_limit(limit: u8) -> (supported: bool)
    ensures
        supported == is_limit_step(limit),
{
    limit == 25 || limit == 50 || limit == 75 || limit == 100
}

/// What the GPU controller says of a limit it does not support.
pub open spec fn invalid_limit_text(limit: u8) -> Seq<char> {
    "Invalid GPU limit: "@ + decimal_text(limit as nat) + ". Must be 25, 50, 75, or 100"@
}

/// Accepts a limit that the GPU controller supports and refuses every other
/// one, saying which limits there are.
pub fn check_limit(limit: u8) -> (result: Result<(), String>)
    ensures
        match result {
            Ok(_) => is_limit_step(limit),
            Err(refusal) => !is_limit_step(limit) && refusal@ == invalid_limit_text(limit),
        },
{
    if is_supported_limit(limit) {
        Ok(())
    } else {
        Err(
            "Invalid GPU limit: ".to_string().concat(decimal(limit as u64).as_str()).concat(
                ". Must be 25, 50, 75, or 100",
            ),
        )
    }
}

} // verus!
