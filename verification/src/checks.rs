//! The checks that run before anything is sent.

use vstd::prelude::*;
use crate::error::{DiffError, GenerationError};

verus! {

/// The checks on what a generation needs, each on one value.
pub struct Check {}

impl Check {
    /// Accepts a credential that is set; an empty one is missing.
    pub fn api_key_present(value: &str) -> (checked: Result<(), GenerationError>)
        ensures
            checked == if value@.len() == 0 {
                Err::<(), GenerationError>(GenerationError::MissingCredential)
            } else {
                Ok(())
            },
    {
        if value.is_empty() {
            Err(GenerationError::MissingCredential)
        } else {
            Ok(())
        }
    }

    /// Accepts a system prompt that says something; an empty one is missing.
    pub fn is_prompt_empty(value: &str) -> (checked: Result<(), GenerationError>)
        ensures
            checked == if value@.len() == 0 {
                Err::<(), GenerationError>(GenerationError::MissingPrompt)
            } else {
                Ok(())
            },
    {
        if value.is_empty() {
            Err(GenerationError::MissingPrompt)
        } else {
            Ok(())
        }
    }

    /// Accepts a diff that holds changes; an empty one means that nothing is staged.
    pub fn is_diff_empty(value: &str) -> (checked: Result<(), DiffError>)
        ensures
            checked == if value@.len() == 0 {
                Err::<(), DiffError>(DiffError::NothingStaged)
            } else {
                Ok(())
            },
    {
        if value.is_empty() {
            Err(DiffError::NothingStaged)
        } else {
            Ok(())
        }
    }
}

} // verus!
