//! The failure taxonomy shared by every operation.

use vstd::prelude::*;

verus! {

/// Why an operation on a document did not produce its result.
#[derive(Debug, Clone, Copy, PartialEq, Eq, Structural)]
pub enum PdfError {
    /// The document id is not known to the worker that served the request.
    NotFound,
    /// A page index past the end of the document, or an empty path.
    InvalidArgument,
    /// The native engine could not load or parse the file.
    LoadFailure,
    /// The native engine could not rasterize the page.
    RenderFailure,
    /// The pixel buffer could not be encoded or stored.
    EncodeFailure,
    /// The request queue or the reply channel is broken.
    DispatchFailure,
}

impl PdfError {
    /// Errors after which the session can go on.
    pub open spec fn recoverable(self) -> bool {
        self == PdfError::NotFound || self == PdfError::InvalidArgument
    }

    /// Errors that mean the serving infrastructure itself is unhealthy.
    pub open spec fn fatal(self) -> bool {
        self == PdfError::DispatchFailure
    }

    /// The text shown to a user for each error.
    pub open spec fn message_text(self) -> Seq<char> {
        match self {
            PdfError::NotFound => "Document not found"@,
            PdfError::InvalidArgument => "Invalid argument"@,
            PdfError::LoadFailure => "Failed to open PDF"@,
            PdfError::RenderFailure => "Rendering Error"@,
            PdfError::EncodeFailure => "Encoding Error"@,
            PdfError::DispatchFailure => "Worker unavailable"@,
        }
    }

    pub fn is_recoverable(&self) -> (r: bool)
        ensures
            r == self.recoverable(),
    {
        match self {
            PdfError::NotFound => true,
            PdfError::InvalidArgument => true,
            _ => false,
        }
    }

    pub fn is_fatal(&self) -> (r: bool)
        ensures
            r == self.fatal(),
    {
        match self {
            PdfError::DispatchFailure => true,
            _ => false,
        }
    }

    pub fn message(&self) -> (text: String)
        ensures
            text@ == self.message_text(),
    {
        match self {
            PdfError::NotFound => "Document not found".to_owned(),
            PdfError::InvalidArgument => "Invalid argument".to_owned(),
            PdfError::LoadFailure => "Failed to open PDF".to_owned(),
            PdfError::RenderFailure => "Rendering Error".to_owned(),
            PdfError::EncodeFailure => "Encoding Error".to_owned(),
            PdfError::DispatchFailure => "Worker unavailable".to_owned(),
        }
    }
}

} // verus!
