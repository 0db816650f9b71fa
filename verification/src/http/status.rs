//! Response statuses.

use vstd::prelude::*;
use crate::http::HttpError;

verus! {

/// The status of a response.
#[derive(Clone, Copy, PartialEq, Eq, Structural, Debug)]
pub enum Status {
    Continue,
    SwitchingProtocols,
    Success,
    Created,
    Accepted,
    NoContent,
    PartialContent,
    MovedPermanently,
    Found,
    SeeOther,
    NotModified,
    TemporaryRedirect,
    PermanentRedirect,
    BadRequest,
    Unauthorized,
    Forbidden,
    NotFound,
    MethodNotAllowed,
    RequestTimeout,
    Gone,
    PayloadTooLarge,
    TooManyRequests,
    InternalServerError,
    NotImplemented,
    BadGateway,
    ServiceUnavailable,
    GatewayTimeout,
}

impl Status {
    /// The three-digit code of the status.
    pub open spec fn number(self) -> u16 {
        match self {
            Status::Continue => 100,
            Status::SwitchingProtocols => 101,
            Status::Success => 200,
            Status::Created => 201,
            Status::Accepted => 202,
            Status::NoContent => 204,
            Status::PartialContent => 206,
            Status::MovedPermanently => 301,
            Status::Found => 302,
            Status::SeeOther => 303,
            Status::NotModified => 304,
            Status::TemporaryRedirect => 307,
            Status::PermanentRedirect => 308,
            Status::BadRequest => 400,
            Status::Unauthorized => 401,
            Status::Forbidden => 403,
            Status::NotFound => 404,
            Status::MethodNotAllowed => 405,
            Status::RequestTimeout => 408,
            Status::Gone => 410,
            Status::PayloadTooLarge => 413,
            Status::TooManyRequests => 429,
            Status::InternalServerError => 500,
            Status::NotImplemented => 501,
            Status::BadGateway => 502,
            Status::ServiceUnavailable => 503,
            Status::GatewayTimeout => 504,
        }
    }

    /// Whether some status has the code.
    pub open spec fn known(code: u16) -> bool {
        exists|s: Status| #[trigger] s.number() == code
    }

    pub fn code(&self) -> (c: u16)
        ensures
            c == self.number(),
            100 <= c < 600,
    {
        match self {
            Status::Continue => 100,
            Status::SwitchingProtocols => 101,
            Status::Success => 200,
            Status::Created => 201,
            Status::Accepted => 202,
            Status::NoContent => 204,
            Status::PartialContent => 206,
            Status::MovedPermanently => 301,
            Status::Found => 302,
            Status::SeeOther => 303,
            Status::NotModified => 304,
            Status::TemporaryRedirect => 307,
            Status::PermanentRedirect => 308,
            Status::BadRequest => 400,
            Status::Unauthorized => 401,
            Status::Forbidden => 403,
            Status::NotFound => 404,
            Status::MethodNotAllowed => 405,
            Status::RequestTimeout => 408,
            Status::Gone => 410,
            Status::PayloadTooLarge => 413,
            Status::TooManyRequests => 429,
            Status::InternalServerError => 500,
            Status::NotImplemented => 501,
            Status::BadGateway => 502,
            Status::ServiceUnavailable => 503,
            Status::GatewayTimeout => 504,
        }
    }

    /// The words that go with the code on the status line.
    pub open spec fn phrase(self) -> Seq<char> {
        match self {
            Status::Continue => "Continue"@,
            Status::SwitchingProtocols => "Switching Protocols"@,
            Status::Success => "OK"@,
            Status::Created => "Created"@,
            Status::Accepted => "Accepted"@,
            Status::NoContent => "No Content"@,
            Status::PartialContent => "Partial Content"@,
            Status::MovedPermanently => "Moved Permanently"@,
            Status::Found => "Found"@,
            Status::SeeOther => "See Other"@,
            Status::NotModified => "Not Modified"@,
            Status::TemporaryRedirect => "Temporary Redirect"@,
            Status::PermanentRedirect => "Permanent Redirect"@,
            Status::BadRequest => "Bad Request"@,
            Status::Unauthorized => "Unauthorized"@,
            Status::Forbidden => "Forbidden"@,
            Status::NotFound => "Not Found"@,
            Status::MethodNotAllowed => "Method Not Allowed"@,
            Status::RequestTimeout => "Request Timeout"@,
            Status::Gone => "Gone"@,
            Status::PayloadTooLarge => "Payload Too Large"@,
            Status::TooManyRequests => "Too Many Requests"@,
            Status::InternalServerError => "Internal Server Error"@,
            Status::NotImplemented => "Not Implemented"@,
            Status::BadGateway => "Bad Gateway"@,
            Status::ServiceUnavailable => "Service Unavailable"@,
            Status::GatewayTimeout => "Gateway Timeout"@,
        }
    }

    /// The words that go with the code on the status line.
    pub fn reason(&self) -> (r: &'static str)
        ensures
            r@ == self.phrase(),
    {
        match self {
            Status::Continue => "Continue",
            Status::SwitchingProtocols => "Switching Protocols",
            Status::Success => "OK",
            Status::Created => "Created",
            Status::Accepted => "Accepted",
            Status::NoContent => "No Content",
            Status::PartialContent => "Partial Content",
            Status::MovedPermanently => "Moved Permanently",
            Status::Found => "Found",
            Status::SeeOther => "See Other",
            Status::NotModified => "Not Modified",
            Status::TemporaryRedirect => "Temporary Redirect",
            Status::PermanentRedirect => "Permanent Redirect",
            Status::BadRequest => "Bad Request",
            Status::Unauthorized => "Unauthorized",
            Status::Forbidden => "Forbidden",
            Status::NotFound => "Not Found",
            Status::MethodNotAllowed => "Method Not Allowed",
            Status::RequestTimeout => "Request Timeout",
            Status::Gone => "Gone",
            Status::PayloadTooLarge => "Payload Too Large",
            Status::TooManyRequests => "Too Many Requests",
            Status::InternalServerError => "Internal Server Error",
            Status::NotImplemented => "Not Implemented",
            Status::BadGateway => "Bad Gateway",
            Status::ServiceUnavailable => "Service Unavailable",
            Status::GatewayTimeout => "Gateway Timeout",
        }
    }

    /// The status with the code, if there is one.
    pub fn from_code(code: u16) -> (r: Result<Status, HttpError>)
        ensures
            match r {
                Ok(s) => s.number() == code,
                Err(e) => !Status::known(code) && e == HttpError::UnknownStatus(code),
            },
    {
        let found = match code {
            100 => Some(Status::Continue),
            101 => Some(Status::SwitchingProtocols),
            200 => Some(Status::Success),
            201 => Some(Status::Created),
            202 => Some(Status::Accepted),
            204 => Some(Status::NoContent),
            206 => Some(Status::PartialContent),
            301 => Some(Status::MovedPermanently),
            302 => Some(Status::Found),
            303 => Some(Status::SeeOther),
            304 => Some(Status::NotModified),
            307 => Some(Status::TemporaryRedirect),
            308 => Some(Status::PermanentRedirect),
            400 => Some(Status::BadRequest),
            401 => Some(Status::Unauthorized),
            403 => Some(Status::Forbidden),
            404 => Some(Status::NotFound),
            405 => Some(Status::MethodNotAllowed),
            408 => Some(Status::RequestTimeout),
            410 => Some(Status::Gone),
            413 => Some(Status::PayloadTooLarge),
            429 => Some(Status::TooManyRequests),
            500 => Some(Status::InternalServerError),
            501 => Some(Status::NotImplemented),
            502 => Some(Status::BadGateway),
            503 => Some(Status::ServiceUnavailable),
            504 => Some(Status::GatewayTimeout),
            _ => None,
        };
        match found {
            Some(s) => Ok(s),
            None => Err(HttpError::UnknownStatus(code)),
        }
    }
}

/// Two statuses with the same code are the same status.
pub proof fn lemma_code_names_one_status(a: Status, b: Status)
    requires
        a.number() == b.number(),
    ensures
        a == b,
{
}

} // verus!
