//! Errors of the storage layer.
use vstd::prelude::*;

use crate::lorawan;
use crate::lorawan::error::lrwn_error_text;

verus! {

/// Why a storage operation failed.
#[derive(Debug)]
pub enum Error {
    /// The object with the given id does not exist.
    NotFound(String),
    /// An object with the given id exists already.
    AlreadyExists(String),
    InvalidEmail,
    HashPassword(String),
    InvalidUsernameOrPassword,
    /// The payload is not of the expected type.
    InvalidPayload(String),
    InvalidMIC,
    /// The DevNonce was used before.
    InvalidDevNonce,
    /// The object does not pass validation.
    Validation(String),
    NotAllowed(String),
    /// Any other error of the database layer.
    Diesel(diesel::result::Error),
    /// A key, identifier or address could not be built.
    Lrwn(lorawan::Error),
}

/// Whether a database error is `diesel::result::Error::NotFound`, the error
/// of a query that was expected to return a row and returned none.
pub uninterp spec fn diesel_error_not_found(e: diesel::result::Error) -> bool;

/// Tells `diesel::result::Error::NotFound` apart from the other variants of
/// the error: `true` exactly for that variant.
#[verifier::external_body]
fn diesel_error_is_not_found(e: &diesel::result::Error) -> (b: bool)
    ensures
        b == diesel_error_not_found(*e),
{
    match e {
        diesel::result::Error::NotFound => true,
        _ => false,
    }
}

impl Error {
    /// The storage error for a database error on the object with id `s`:
    /// "no rows" becomes `NotFound(s)`, any other error is kept as it is.
    pub fn from_diesel(e: diesel::result::Error, s: String) -> (r: Error)
        ensures
            r is NotFound <==> diesel_error_not_found(e),
            match r {
                Error::NotFound(id) => id == s,
                Error::Diesel(d) => d == e,
                _ => false,
            },
    {
        if diesel_error_is_not_found(&e) {
            Error::NotFound(s)
        } else {
            Error::Diesel(e)
        }
    }
}

/// The outcome of deleting the object with id `id`, given how many rows the
/// delete removed: none means the object did not exist.
pub fn deleted_or_not_found(rows_affected: usize, id: String) -> (r: Result<(), Error>)
    ensures
        r is Ok <==> rows_affected > 0,
        r matches Err(e) ==> e matches Error::NotFound(s) && s == id,
{
    if rows_affected == 0 {
        return Err(Error::NotFound(id));
    }
    Ok(())
}

/// The message that `diesel` gives for a database error.
pub uninterp spec fn diesel_error_display(e: diesel::result::Error) -> Seq<char>;

/// Calls `Display` of `diesel::result::Error`; for `NotFound` the message
/// is "Record not found".
#[verifier::external_body]
fn diesel_error_text(e: &diesel::result::Error) -> (s: String)
    ensures
        s@ == diesel_error_display(*e),
        diesel_error_not_found(*e) ==> s@ == "Record not found"@,
{
    e.to_string()
}

/// The message of a storage error.
pub open spec fn storage_error_text(e: Error) -> Seq<char> {
    match e {
        Error::NotFound(s) => "Object does not exist (id: "@ + s@ + ")"@,
        Error::AlreadyExists(s) => "Object already exists (id: "@ + s@ + ")"@,
        Error::InvalidEmail => "Invalid email address format"@,
        Error::HashPassword(s) => "Hash password error (error: "@ + s@ + ")"@,
        Error::InvalidUsernameOrPassword => "Invalid username or password"@,
        Error::InvalidPayload(s) => "Invalid type (expected: "@ + s@ + ")"@,
        Error::InvalidMIC => "Invalid MIC"@,
        Error::InvalidDevNonce => "Invalid DevNonce"@,
        Error::Validation(s) => "Validation error: "@ + s@,
        Error::NotAllowed(s) => "Not allowed ("@ + s@ + ")"@,
        Error::Diesel(d) => diesel_error_display(d),
        Error::Lrwn(l) => lrwn_error_text(l),
    }
}

fn wrapped(head: &str, s: &str, tail: &str) -> (r: String)
    ensures
        r@ == head@ + s@ + tail@,
{
    let mut r = head.to_owned();
    r.append(s);
    r.append(tail);
    r
}

impl Error {
    /// The message of the error.
    pub fn to_string(&self) -> (s: String)
        ensures
            s@ == storage_error_text(*self),
    {
        match self {
            Error::NotFound(s) => wrapped("Object does not exist (id: ", s.as_str(), ")"),
            Error::AlreadyExists(s) => wrapped("Object already exists (id: ", s.as_str(), ")"),
            Error::InvalidEmail => "Invalid email address format".to_owned(),
            Error::HashPassword(s) => wrapped("Hash password error (error: ", s.as_str(), ")"),
            Error::InvalidUsernameOrPassword => "Invalid username or password".to_owned(),
            Error::InvalidPayload(s) => wrapped("Invalid type (expected: ", s.as_str(), ")"),
            Error::InvalidMIC => "Invalid MIC".to_owned(),
            Error::InvalidDevNonce => "Invalid DevNonce".to_owned(),
            Error::Validation(s) => {
                proof {
                    reveal_strlit("");
                }
                let r = wrapped("Validation error: ", s.as_str(), "");
                assert(r@ =~= "Validation error: "@ + s@);
                r
            },
            Error::NotAllowed(s) => wrapped("Not allowed (", s.as_str(), ")"),
            Error::Diesel(d) => diesel_error_text(d),
            Error::Lrwn(l) => l.to_string(),
        }
    }
}

} // verus!
