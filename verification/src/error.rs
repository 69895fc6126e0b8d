//! The errors a request can end in, and the reply a failed request gets.

use vstd::prelude::*;

verus! {

/// Why a request on the catalogue failed.
#[derive(Debug)]
pub enum Error {
    /// The lock that guards the store could not be taken.
    DBAccessError,
    /// No record carries the id the request named.
    BookNotFoundError,
    /// The page could not be rendered; the text is the renderer's complaint.
    TemplateError(String),
}

/// What is known about a request that was turned away. Several causes may
/// hold at once; [`handle_rejection`] ranks them.
pub struct Rejection<'a> {
    /// No route matched the request.
    pub not_found: bool,
    /// The request body could not be decoded.
    pub invalid_body: bool,
    /// A handler failed with this error.
    pub error: Option<&'a Error>,
    /// A route matched the path but not the method.
    pub method_not_allowed: bool,
}

/// The status line and the text of an error page.
pub struct Failure {
    pub code: u16,
    pub message: &'static str,
}

pub const BAD_REQUEST: u16 = 400;

pub const NOT_FOUND: u16 = 404;

pub const METHOD_NOT_ALLOWED: u16 = 405;

pub const INTERNAL_SERVER_ERROR: u16 = 500;

/// The status code owed to a rejection: the first cause that holds, in the
/// order missing route, undecodable body, handler error, wrong method. Of
/// the handler errors, a missing book is the client's mistake and is answered
/// as not found; an unavailable store and a failed rendering are faults of
/// the server.
pub open spec fn status_of(r: Rejection) -> u16 {
    if r.not_found {
        NOT_FOUND
    } else if r.invalid_body {
        BAD_REQUEST
    } else {
        match r.error {
            Some(Error::BookNotFoundError) => NOT_FOUND,
            Some(Error::DBAccessError) => INTERNAL_SERVER_ERROR,
            Some(Error::TemplateError(_)) => INTERNAL_SERVER_ERROR,
            None => if r.method_not_allowed {
                METHOD_NOT_ALLOWED
            } else {
                INTERNAL_SERVER_ERROR
            },
        }
    }
}

/// The text shown for a rejection, chosen by the same ranking as
/// [`status_of`].
pub open spec fn message_of(r: Rejection) -> Seq<char> {
    if r.not_found {
        "Not Found"@
    } else if r.invalid_body {
        "Invalid Body"@
    } else {
        match r.error {
            Some(Error::BookNotFoundError) => "book not found"@,
            Some(Error::DBAccessError) => "there was an error accessing the database"@,
            Some(Error::TemplateError(_)) => "Internal Server Error"@,
            None => if r.method_not_allowed {
                "Method Not Allowed"@
            } else {
                "Internal Server Error"@
            },
        }
    }
}

/// Chooses the status code and message for a request that was turned away.
pub fn handle_rejection(err: &Rejection) -> (failure: Failure)
    ensures
        failure.code == status_of(*err),
        failure.message@ == message_of(*err),
{
    if err.not_found {
        Failure { code: NOT_FOUND, message: "Not Found" }
    } else if err.invalid_body {
        Failure { code: BAD_REQUEST, message: "Invalid Body" }
    } else if let Some(e) = err.error {
        match e {
            Error::BookNotFoundError => Failure { code: NOT_FOUND, message: "book not found" },
            Error::DBAccessError => Failure {
                code: INTERNAL_SERVER_ERROR,
                message: "there was an error accessing the database",
            },
            Error::TemplateError(_) => Failure {
                code: INTERNAL_SERVER_ERROR,
                message: "Internal Server Error",
            },
        }
    } else if err.method_not_allowed {
        Failure { code: METHOD_NOT_ALLOWED, message: "Method Not Allowed" }
    } else {
        Failure { code: INTERNAL_SERVER_ERROR, message: "Internal Server Error" }
    }
}

/// The body and status of the error page, once rendering has been tried:
/// the rendered page under the chosen status, or, when rendering failed, the
/// bare message under status 500.
pub fn error_page(failure: &Failure, rendered: Option<String>) -> (page: (String, u16))
    ensures
        match rendered {
            Some(html) => page.0@ == html@ && page.1 == failure.code,
            None => page.0@ == failure.message@ && page.1 == INTERNAL_SERVER_ERROR,
        },
{
    match rendered {
        Some(html) => (html, failure.code),
        None => (failure.message.to_owned(), INTERNAL_SERVER_ERROR),
    }
}

} // verus!
