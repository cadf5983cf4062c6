use vstd::prelude::*;

verus! {

/// Declares `std::io::Error` so that an I/O failure can be carried through.
#[verifier::external_type_specification]
#[verifier::external_body]
pub struct ExIoError(std::io::Error);

/// What went wrong.
#[derive(Debug)]
pub enum ErrorKind {
    /// An underlying file or device operation failed.
    Io(std::io::Error),
    /// The data ended before the declared length.
    UnexpectedEof,
    /// The data went on after the declared length.
    ExpectedEof,
    /// A geometry query on the device returned a failure status.
    ControlFailed,
    /// A frame buffer does not have the size of the write region.
    SizeMismatch,
}

#[derive(Debug)]
pub struct Error {
    pub kind: ErrorKind,
}

impl Error {
    pub fn new(kind: ErrorKind) -> (r: Error)
        ensures
            r.kind == kind,
    {
        Error { kind }
    }

    pub fn kind(&self) -> (r: &ErrorKind)
        ensures
            *r == self.kind,
    {
        &self.kind
    }

    /// A one-line description for people: the I/O error's own text, or a
    /// fixed sentence for each other kind.
    pub fn message(&self) -> (r: String)
        ensures
            self.kind is UnexpectedEof ==> r@ == "Unexpected end-of-file"@,
            self.kind is ExpectedEof ==> r@ == "Expected end-of-file"@,
            self.kind is ControlFailed ==> r@ == "Device control call failed"@,
            self.kind is SizeMismatch ==> r@ == "Frame does not match the write region"@,
            self.kind is Io ==> vstd::string::to_string_from_display_ensures::<std::io::Error>(
                &self.kind->Io_0,
                r,
            ),
    {
        match &self.kind {
            ErrorKind::Io(e) => e.to_string(),
            ErrorKind::UnexpectedEof => "Unexpected end-of-file".to_owned(),
            ErrorKind::ExpectedEof => "Expected end-of-file".to_owned(),
            ErrorKind::ControlFailed => "Device control call failed".to_owned(),
            ErrorKind::SizeMismatch => "Frame does not match the write region".to_owned(),
        }
    }
}

} // verus!
