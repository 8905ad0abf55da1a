//! Status codes, diagnostic blobs and the one error type they make.

use vstd::prelude::*;
use vstd::utf8::{decode_utf8, valid_utf8};

verus! {

/// A byte buffer the compiler produced: diagnostic text or compiled code.
#[derive(Debug)]
pub struct Blob {
    bytes: Vec<u8>,
}

#[verifier::external_type_specification]
#[verifier::external_body]
pub struct ExUtf8Error(std::str::Utf8Error);

/// Relies on `std::str::from_utf8`: it succeeds exactly on valid UTF-8, and
/// then views the same bytes as text.
#[verifier::external_body]
fn str_from_utf8(b: &[u8]) -> (r: std::result::Result<&str, std::str::Utf8Error>)
    ensures
        r is Ok <==> valid_utf8(b@),
        r is Ok ==> r->Ok_0@ == decode_utf8(b@),
{
    std::str::from_utf8(b)
}

impl View for Blob {
    type V = Seq<u8>;

    closed spec fn view(&self) -> Seq<u8> {
        self.bytes@
    }
}

impl Blob {
    pub fn new(bytes: Vec<u8>) -> (r: Blob)
        ensures
            r@ == bytes@,
    {
        Blob { bytes }
    }

    /// The bytes of the buffer; its length is the buffer's own size, not the
    /// position of a terminator.
    pub fn as_slice(&self) -> (r: &[u8])
        ensures
            r@ == self@,
    {
        self.bytes.as_slice()
    }

    /// The buffer as text, where it is valid UTF-8.
    pub fn as_str(&self) -> (r: std::result::Result<&str, std::str::Utf8Error>)
        ensures
            r is Ok <==> valid_utf8(self@),
            r is Ok ==> r->Ok_0@ == decode_utf8(self@),
    {
        str_from_utf8(self.bytes.as_slice())
    }
}

/// A failed compiler call: a bare negative status, or a status that came
/// with diagnostic text.
#[derive(Debug)]
pub enum Error {
    Code(i32),
    Blob(Blob),
}

/// Outcome of a fallible compiler call.
pub type Result<T> = std::result::Result<T, Error>;

/// A status code denotes success exactly when it is not negative.
pub open spec fn is_success(code: i32) -> bool {
    code >= 0
}

pub fn succeeded(code: i32) -> (r: bool)
    ensures
        r == is_success(code),
{
    code >= 0
}

/// Folds a status code and the diagnostics that came with it into a result:
/// success for a non-negative code; otherwise the diagnostics where there
/// are any, else the bare code.
pub fn result_from_blob(code: i32, diagnostics: Option<Blob>) -> (r: Result<()>)
    ensures
        is_success(code) <==> r is Ok,
        match r {
            Ok(_) => true,
            Err(Error::Code(c)) => c == code && diagnostics is None,
            Err(Error::Blob(b)) => diagnostics is Some && b@ == diagnostics->0@,
        },
{
    if code < 0 {
        match diagnostics {
            Some(b) => Err(Error::Blob(b)),
            None => Err(Error::Code(code)),
        }
    } else {
        Ok(())
    }
}

/// Result of a compiler call whose object result came back null: the
/// diagnostics where the call supplied any, else the status it returned.
pub fn error_from_null(code: i32, diagnostics: Option<Blob>) -> (r: Error)
    ensures
        match r {
            Error::Code(c) => c == code && diagnostics is None,
            Error::Blob(b) => diagnostics is Some && b@ == diagnostics->0@,
        },
{
    match diagnostics {
        Some(b) => Error::Blob(b),
        None => Error::Code(code),
    }
}

} // verus!
