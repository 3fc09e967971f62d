//! The graphics backend: its error type and the Vulkan implementation.

use vstd::prelude::*;

pub mod vulkan;

verus! {

/// Errors reported by a graphics backend.
#[derive(Debug)]
pub enum GraphicsError {
    VulkanError(String),
}

/// The result type of graphics operations.
pub type GraphicsResult<T> = Result<T, GraphicsError>;

impl GraphicsError {
    /// The message that the error carries.
    pub open spec fn message(self) -> Seq<char> {
        match self {
            GraphicsError::VulkanError(s) => s@,
        }
    }

    /// An error that carries exactly `text`.
    pub fn vulkan(text: &str) -> (e: GraphicsError)
        ensures
            e.message() == text@,
    {
        GraphicsError::VulkanError(text.to_owned())
    }
}

} // verus!
