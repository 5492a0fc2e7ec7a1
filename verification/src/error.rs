//! What can go wrong while a scene is set up or an image is written.

use vstd::prelude::*;

verus! {

/// The library's error.
#[derive(Debug)]
pub enum TracerError {
    /// A scene or asset file could not be opened, read or written. Holds the
    /// underlying error's text.
    FsError(String),
    /// An image could not be decoded or encoded. Holds the underlying
    /// error's text.
    ImageError(String),
    /// A shape without a bounding box stood where the hierarchy needs one.
    BvhBoundingBoxError,
    /// A conversion that cannot fail did.
    Infallible,
}

/// A result whose error is [`TracerError`].
pub type TracerResult<T> = Result<T, TracerError>;

impl TracerError {
    /// The error's short description.
    pub fn message(&self) -> (text: String)
        ensures
            text@ == self.message_spec(),
    {
        match self {
            TracerError::FsError(_) => "fs error".to_owned(),
            TracerError::ImageError(_) => "image error".to_owned(),
            TracerError::BvhBoundingBoxError => "null bound box error".to_owned(),
            TracerError::Infallible => "null bound box error".to_owned(),
        }
    }

    /// See [`message`](Self::message).
    pub open spec fn message_spec(&self) -> Seq<char> {
        match self {
            TracerError::FsError(_) => "fs error"@,
            TracerError::ImageError(_) => "image error"@,
            TracerError::BvhBoundingBoxError => "null bound box error"@,
            TracerError::Infallible => "null bound box error"@,
        }
    }
}

} // verus!
