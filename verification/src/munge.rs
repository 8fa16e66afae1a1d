//! The errors of the munge credential helper, and the decisions taken on what
//! the credential library answers.

use vstd::prelude::*;

verus! {

#[derive(Debug)]
pub enum MungeError {
    /// The library was loaded but could not produce a credential.
    EncodeFailed(String),
    /// `libmunge` could not be loaded, or a symbol resolved, at run time.
    LibraryUnavailable(String),
}

pub open spec fn munge_error_text(e: MungeError) -> Seq<char> {
    match e {
        MungeError::EncodeFailed(m) => "munge encode failed: "@ + m@,
        MungeError::LibraryUnavailable(m) => "munge is not available: "@ + m@,
    }
}

impl MungeError {
    /// The error's message.
    pub fn to_text(&self) -> (s: String)
        ensures
            s@ == munge_error_text(*self),
    {
        match self {
            MungeError::EncodeFailed(m) => {
                let mut s = String::from_str("munge encode failed: ");
                s.append(m.as_str());
                s
            },
            MungeError::LibraryUnavailable(m) => {
                let mut s = String::from_str("munge is not available: ");
                s.append(m.as_str());
                s
            },
        }
    }
}

/// What an encode does after the library's `munge_encode` call returned.
#[derive(Debug)]
pub enum EncodeNext {
    /// Ask the library to describe the error code that it returned.
    DescribeError(i32),
    /// Read the credential that the library wrote: it is the result.
    ReadCredential,
    /// The encode fails with this error.
    Fail(MungeError),
}

/// Decides what follows the library's encode call: a load failure means the
/// library is unavailable, a nonzero code is described and reported, a null
/// credential is an encode failure, and otherwise the credential is read.
pub fn after_encode_call(call: Result<i32, String>, credential_is_null: bool) -> (next: EncodeNext)
    ensures
        match (call, next) {
            (Err(reason), EncodeNext::Fail(MungeError::LibraryUnavailable(m))) => m == reason,
            (Err(_), _) => false,
            (Ok(code), EncodeNext::DescribeError(c)) => code != 0 && c == code,
            (Ok(code), EncodeNext::Fail(MungeError::EncodeFailed(m))) =>
                code == 0 && credential_is_null && m@ == "null credential"@,
            (Ok(code), EncodeNext::ReadCredential) => code == 0 && !credential_is_null,
            (Ok(_), _) => false,
        },
{
    match call {
        Err(reason) => EncodeNext::Fail(MungeError::LibraryUnavailable(reason)),
        Ok(code) => if code != 0 {
            EncodeNext::DescribeError(code)
        } else if credential_is_null {
            EncodeNext::Fail(MungeError::EncodeFailed(String::from_str("null credential")))
        } else {
            EncodeNext::ReadCredential
        },
    }
}

/// The error that a failed encode reports once the library was asked to
/// describe its error code: the description, or the reason the library could
/// not be asked.
pub fn after_describe(description: Result<String, String>) -> (e: MungeError)
    ensures
        match description {
            Ok(text) => e == MungeError::EncodeFailed(text),
            Err(reason) => e == MungeError::LibraryUnavailable(reason),
        },
{
    match description {
        Ok(text) => MungeError::EncodeFailed(text),
        Err(reason) => MungeError::LibraryUnavailable(reason),
    }
}

} // verus!
