//! Status codes and their reason phrases.

use vstd::prelude::*;
use vstd::string::*;
use crate::text::{chars_of, decimal, decimal_string, parse_usize, parsed_usize, same_str, same_text};

verus! {

/// A response status: one of the registered ones, or any other word.
#[derive(Debug, Eq)]
pub enum HttpStatus {
    /// 100 Continue
    Continue,
    /// 101 Switching Protocols
    SwitchingProtocols,
    /// 102 Processing
    Processing,
    /// 103 Early Hints
    EarlyHints,
    /// 200 OK
    OK,
    /// 201 Created
    Created,
    /// 202 Accepted
    Accepted,
    /// 203 Non-Authoritative Information
    NonAuthoritativeInformation,
    /// 204 No Content
    NoContent,
    /// 205 Reset Content
    ResetContent,
    /// 206 Partial Content
    PartialContent,
    /// 207 Multi-Status
    MultiStatus,
    /// 208 Already Reported
    AlreadyReported,
    /// 226 IM Used
    IMUsed,
    /// 300 Multiple Choices
    MultipleChoices,
    /// 301 Moved Permanently
    MovedPermanently,
    /// 302 Found
    Found,
    /// 303 See Other
    SeeOther,
    /// 304 Not Modified
    NotModified,
    /// 305 Use Proxy
    UseProxy,
    /// 307 Temporary Redirect
    TemporaryRedirect,
    /// 308 Permanent Redirect
    PermanentRedirect,
    /// 400 Bad Request
    BadRequest,
    /// 401 Unauthorized
    Unauthorized,
    /// 402 Payment Required
    PaymentRequired,
    /// 403 Forbidden
    Forbidden,
    /// 404 Not Found
    NotFound,
    /// 405 Method Not Allowed
    MethodNotAllowed,
    /// 406 Not Acceptable
    NotAcceptable,
    /// 407 Proxy Authentication Required
    ProxyAuthenticationRequired,
    /// 408 Request Timeout
    RequestTimeout,
    /// 409 Conflict
    Conflict,
    /// 410 Gone
    Gone,
    /// 411 Length Required
    LengthRequired,
    /// 412 Precondition Failed
    PreconditionFailed,
    /// 413 Payload Too Large
    PayloadTooLarge,
    /// 414 URI Too Long
    URITooLong,
    /// 415 Unsupported Media Type
    UnsupportedMediaType,
    /// 416 Range Not Satisfiable
    RangeNotSatisfiable,
    /// 417 Expectation Failed
    ExpectationFailed,
    /// 418 I'm a teapot
    ImATeapot,
    /// 421 Misdirected Request
    MisdirectedRequest,
    /// 422 Unprocessable Entity
    UnprocessableEntity,
    /// 423 Locked
    Locked,
    /// 424 Failed Dependency
    FailedDependency,
    /// 425 Too Early
    TooEarly,
    /// 426 Upgrade Required
    UpgradeRequired,
    /// 428 Precondition Required
    PreconditionRequired,
    /// 429 Too Many Requests
    TooManyRequests,
    /// 431 Request Header Fields Too Large
    RequestHeaderFieldsTooLarge,
    /// 451 Unavailable For Legal Reasons
    UnavailableForLegalReasons,
    /// 500 Internal Server Error
    InternalServerError,
    /// 501 Not Implemented
    NotImplemented,
    /// 502 Bad Gateway
    BadGateway,
    /// 503 Service Unavailable
    ServiceUnavailable,
    /// 504 Gateway Timeout
    GatewayTimeout,
    /// 505 HTTP Version Not Supported
    HTTPVersionNotSupported,
    /// 506 Variant Also Negotiates
    VariantAlsoNegotiates,
    /// 507 Insufficient Storage
    InsufficientStorage,
    /// 508 Loop Detected
    LoopDetected,
    /// 510 Not Extended
    NotExtended,
    /// 511 Network Authentication Required
    NetworkAuthenticationRequired,
    /// A status that is none of the registered ones, with its text as it was read.
    Unknown(String),
}

/// The registered status with the number `code`.
pub open spec fn status_coded(code: nat) -> Option<HttpStatus> {
    if code == 100 {
        Some(HttpStatus::Continue)
    } else if code == 101 {
        Some(HttpStatus::SwitchingProtocols)
    } else if code == 102 {
        Some(HttpStatus::Processing)
    } else if code == 103 {
        Some(HttpStatus::EarlyHints)
    } else if code == 200 {
        Some(HttpStatus::OK)
    } else if code == 201 {
        Some(HttpStatus::Created)
    } else if code == 202 {
        Some(HttpStatus::Accepted)
    } else if code == 203 {
        Some(HttpStatus::NonAuthoritativeInformation)
    } else if code == 204 {
        Some(HttpStatus::NoContent)
    } else if code == 205 {
        Some(HttpStatus::ResetContent)
    } else if code == 206 {
        Some(HttpStatus::PartialContent)
    } else if code == 207 {
        Some(HttpStatus::MultiStatus)
    } else if code == 208 {
        Some(HttpStatus::AlreadyReported)
    } else if code == 226 {
        Some(HttpStatus::IMUsed)
    } else if code == 300 {
        Some(HttpStatus::MultipleChoices)
    } else if code == 301 {
        Some(HttpStatus::MovedPermanently)
    } else if code == 302 {
        Some(HttpStatus::Found)
    } else if code == 303 {
        Some(HttpStatus::SeeOther)
    } else if code == 304 {
        Some(HttpStatus::NotModified)
    } else if code == 305 {
        Some(HttpStatus::UseProxy)
    } else if code == 307 {
        Some(HttpStatus::TemporaryRedirect)
    } else if code == 308 {
        Some(HttpStatus::PermanentRedirect)
    } else if code == 400 {
        Some(HttpStatus::BadRequest)
    } else if code == 401 {
        Some(HttpStatus::Unauthorized)
    } else if code == 402 {
        Some(HttpStatus::PaymentRequired)
    } else if code == 403 {
        Some(HttpStatus::Forbidden)
    } else if code == 404 {
        Some(HttpStatus::NotFound)
    } else if code == 405 {
        Some(HttpStatus::MethodNotAllowed)
    } else if code == 406 {
        Some(HttpStatus::NotAcceptable)
    } else if code == 407 {
        Some(HttpStatus::ProxyAuthenticationRequired)
    } else if code == 408 {
        Some(HttpStatus::RequestTimeout)
    } else if code == 409 {
        Some(HttpStatus::Conflict)
    } else if code == 410 {
        Some(HttpStatus::Gone)
    } else if code == 411 {
        Some(HttpStatus::LengthRequired)
    } else if code == 412 {
        Some(HttpStatus::PreconditionFailed)
    } else if code == 413 {
        Some(HttpStatus::PayloadTooLarge)
    } else if code == 414 {
        Some(HttpStatus::URITooLong)
    } else if code == 415 {
        Some(HttpStatus::UnsupportedMediaType)
    } else if code == 416 {
        Some(HttpStatus::RangeNotSatisfiable)
    } else if code == 417 {
        Some(HttpStatus::ExpectationFailed)
    } else if code == 418 {
        Some(HttpStatus::ImATeapot)
    } else if code == 421 {
        Some(HttpStatus::MisdirectedRequest)
    } else if code == 422 {
        Some(HttpStatus::UnprocessableEntity)
    } else if code == 423 {
        Some(HttpStatus::Locked)
    } else if code == 424 {
        Some(HttpStatus::FailedDependency)
    } else if code == 425 {
        Some(HttpStatus::TooEarly)
    } else if code == 426 {
        Some(HttpStatus::UpgradeRequired)
    } else if code == 428 {
        Some(HttpStatus::PreconditionRequired)
    } else if code == 429 {
        Some(HttpStatus::TooManyRequests)
    } else if code == 431 {
        Some(HttpStatus::RequestHeaderFieldsTooLarge)
    } else if code == 451 {
        Some(HttpStatus::UnavailableForLegalReasons)
    } else if code == 500 {
        Some(HttpStatus::InternalServerError)
    } else if code == 501 {
        Some(HttpStatus::NotImplemented)
    } else if code == 502 {
        Some(HttpStatus::BadGateway)
    } else if code == 503 {
        Some(HttpStatus::ServiceUnavailable)
    } else if code == 504 {
        Some(HttpStatus::GatewayTimeout)
    } else if code == 505 {
        Some(HttpStatus::HTTPVersionNotSupported)
    } else if code == 506 {
        Some(HttpStatus::VariantAlsoNegotiates)
    } else if code == 507 {
        Some(HttpStatus::InsufficientStorage)
    } else if code == 508 {
        Some(HttpStatus::LoopDetected)
    } else if code == 510 {
        Some(HttpStatus::NotExtended)
    } else if code == 511 {
        Some(HttpStatus::NetworkAuthenticationRequired)
    } else {
        None
    }
}

/// The registered status whose reason phrase is `s`. Case matters.
pub open spec fn status_phrased(s: Seq<char>) -> Option<HttpStatus> {
    if s == "Continue"@ {
        Some(HttpStatus::Continue)
    } else if s == "Switching Protocols"@ {
        Some(HttpStatus::SwitchingProtocols)
    } else if s == "Processing"@ {
        Some(HttpStatus::Processing)
    } else if s == "Early Hints"@ {
        Some(HttpStatus::EarlyHints)
    } else if s == "OK"@ {
        Some(HttpStatus::OK)
    } else if s == "Created"@ {
        Some(HttpStatus::Created)
    } else if s == "Accepted"@ {
        Some(HttpStatus::Accepted)
    } else if s == "Non-Authoritative Information"@ {
        Some(HttpStatus::NonAuthoritativeInformation)
    } else if s == "No Content"@ {
        Some(HttpStatus::NoContent)
    } else if s == "Reset Content"@ {
        Some(HttpStatus::ResetContent)
    } else if s == "Partial Content"@ {
        Some(HttpStatus::PartialContent)
    } else if s == "Multi-Status"@ {
        Some(HttpStatus::MultiStatus)
    } else if s == "Already Reported"@ {
        Some(HttpStatus::AlreadyReported)
    } else if s == "IM Used"@ {
        Some(HttpStatus::IMUsed)
    } else if s == "Multiple Choices"@ {
        Some(HttpStatus::MultipleChoices)
    } else if s == "Moved Permanently"@ {
        Some(HttpStatus::MovedPermanently)
    } else if s == "Found"@ {
        Some(HttpStatus::Found)
    } else if s == "See Other"@ {
        Some(HttpStatus::SeeOther)
    } else if s == "Not Modified"@ {
        Some(HttpStatus::NotModified)
    } else if s == "Use Proxy"@ {
        Some(HttpStatus::UseProxy)
    } else if s == "Temporary Redirect"@ {
        Some(HttpStatus::TemporaryRedirect)
    } else if s == "Permanent Redirect"@ {
        Some(HttpStatus::PermanentRedirect)
    } else if s == "Bad Request"@ {
        Some(HttpStatus::BadRequest)
    } else if s == "Unauthorized"@ {
        Some(HttpStatus::Unauthorized)
    } else if s == "Payment Required"@ {
        Some(HttpStatus::PaymentRequired)
    } else if s == "Forbidden"@ {
        Some(HttpStatus::Forbidden)
    } else if s == "Not Found"@ {
        Some(HttpStatus::NotFound)
    } else if s == "Method Not Allowed"@ {
        Some(HttpStatus::MethodNotAllowed)
    } else if s == "Not Acceptable"@ {
        Some(HttpStatus::NotAcceptable)
    } else if s == "Proxy Authentication Required"@ {
        Some(HttpStatus::ProxyAuthenticationRequired)
    } else if s == "Request Timeout"@ {
        Some(HttpStatus::RequestTimeout)
    } else if s == "Conflict"@ {
        Some(HttpStatus::Conflict)
    } else if s == "Gone"@ {
        Some(HttpStatus::Gone)
    } else if s == "Length Required"@ {
        Some(HttpStatus::LengthRequired)
    } else if s == "Precondition Failed"@ {
        Some(HttpStatus::PreconditionFailed)
    } else if s == "Payload Too Large"@ {
        Some(HttpStatus::PayloadTooLarge)
    } else if s == "URI Too Long"@ {
        Some(HttpStatus::URITooLong)
    } else if s == "Unsupported Media Type"@ {
        Some(HttpStatus::UnsupportedMediaType)
    } else if s == "Range Not Satisfiable"@ {
        Some(HttpStatus::RangeNotSatisfiable)
    } else if s == "Expectation Failed"@ {
        Some(HttpStatus::ExpectationFailed)
    } else if s == "I'm a teapot"@ {
        Some(HttpStatus::ImATeapot)
    } else if s == "Misdirected Request"@ {
        Some(HttpStatus::MisdirectedRequest)
    } else if s == "Unprocessable Entity"@ {
        Some(HttpStatus::UnprocessableEntity)
    } else if s == "Locked"@ {
        Some(HttpStatus::Locked)
    } else if s == "Failed Dependency"@ {
        Some(HttpStatus::FailedDependency)
    } else if s == "Too Early"@ {
        Some(HttpStatus::TooEarly)
    } else if s == "Upgrade Required"@ {
        Some(HttpStatus::UpgradeRequired)
    } else if s == "Precondition Required"@ {
        Some(HttpStatus::PreconditionRequired)
    } else if s == "Too Many Requests"@ {
        Some(HttpStatus::TooManyRequests)
    } else if s == "Request Header Fields Too Large"@ {
        Some(HttpStatus::RequestHeaderFieldsTooLarge)
    } else if s == "Unavailable For Legal Reasons"@ {
        Some(HttpStatus::UnavailableForLegalReasons)
    } else if s == "Internal Server Error"@ {
        Some(HttpStatus::InternalServerError)
    } else if s == "Not Implemented"@ {
        Some(HttpStatus::NotImplemented)
    } else if s == "Bad Gateway"@ {
        Some(HttpStatus::BadGateway)
    } else if s == "Service Unavailable"@ {
        Some(HttpStatus::ServiceUnavailable)
    } else if s == "Gateway Timeout"@ {
        Some(HttpStatus::GatewayTimeout)
    } else if s == "HTTP Version Not Supported"@ {
        Some(HttpStatus::HTTPVersionNotSupported)
    } else if s == "Variant Also Negotiates"@ {
        Some(HttpStatus::VariantAlsoNegotiates)
    } else if s == "Insufficient Storage"@ {
        Some(HttpStatus::InsufficientStorage)
    } else if s == "Loop Detected"@ {
        Some(HttpStatus::LoopDetected)
    } else if s == "Not Extended"@ {
        Some(HttpStatus::NotExtended)
    } else if s == "Network Authentication Required"@ {
        Some(HttpStatus::NetworkAuthenticationRequired)
    } else {
        None
    }
}

/// The registered status that `s` names, by its reason phrase or by its
/// number in decimal, without sign or leading zeros.
pub open spec fn registered_status(s: Seq<char>) -> Option<HttpStatus> {
    match status_phrased(s) {
        Some(status) => Some(status),
        None => match parsed_usize(s) {
            Some(code) => if decimal(code as nat) == s {
                status_coded(code as nat)
            } else {
                None
            },
            None => None,
        },
    }
}

/// Whether `status` is what parsing `s` gives: the registered status that
/// `s` names, or `Unknown` with the text itself.
pub open spec fn parses_to(s: Seq<char>, status: HttpStatus) -> bool {
    match registered_status(s) {
        Some(registered) => status == registered,
        None => status matches HttpStatus::Unknown(t) && t@ == s,
    }
}

/// The reason phrase that goes with the number `code`; `Unknown` where no
/// status is registered under it.
pub open spec fn reason_phrase(code: nat) -> Seq<char> {
    match status_coded(code) {
        Some(status) => status.text(),
        None => "Unknown"@,
    }
}

impl HttpStatus {
    /// The reason phrase of the status.
    pub open spec fn text(&self) -> Seq<char> {
        match self {
            HttpStatus::Continue => "Continue"@,
            HttpStatus::SwitchingProtocols => "Switching Protocols"@,
            HttpStatus::Processing => "Processing"@,
            HttpStatus::EarlyHints => "Early Hints"@,
            HttpStatus::OK => "OK"@,
            HttpStatus::Created => "Created"@,
            HttpStatus::Accepted => "Accepted"@,
            HttpStatus::NonAuthoritativeInformation => "Non-Authoritative Information"@,
            HttpStatus::NoContent => "No Content"@,
            HttpStatus::ResetContent => "Reset Content"@,
            HttpStatus::PartialContent => "Partial Content"@,
            HttpStatus::MultiStatus => "Multi-Status"@,
            HttpStatus::AlreadyReported => "Already Reported"@,
            HttpStatus::IMUsed => "IM Used"@,
            HttpStatus::MultipleChoices => "Multiple Choices"@,
            HttpStatus::MovedPermanently => "Moved Permanently"@,
            HttpStatus::Found => "Found"@,
            HttpStatus::SeeOther => "See Other"@,
            HttpStatus::NotModified => "Not Modified"@,
            HttpStatus::UseProxy => "Use Proxy"@,
            HttpStatus::TemporaryRedirect => "Temporary Redirect"@,
            HttpStatus::PermanentRedirect => "Permanent Redirect"@,
            HttpStatus::BadRequest => "Bad Request"@,
            HttpStatus::Unauthorized => "Unauthorized"@,
            HttpStatus::PaymentRequired => "Payment Required"@,
            HttpStatus::Forbidden => "Forbidden"@,
            HttpStatus::NotFound => "Not Found"@,
            HttpStatus::MethodNotAllowed => "Method Not Allowed"@,
            HttpStatus::NotAcceptable => "Not Acceptable"@,
            HttpStatus::ProxyAuthenticationRequired => "Proxy Authentication Required"@,
            HttpStatus::RequestTimeout => "Request Timeout"@,
            HttpStatus::Conflict => "Conflict"@,
            HttpStatus::Gone => "Gone"@,
            HttpStatus::LengthRequired => "Length Required"@,
            HttpStatus::PreconditionFailed => "Precondition Failed"@,
            HttpStatus::PayloadTooLarge => "Payload Too Large"@,
            HttpStatus::URITooLong => "URI Too Long"@,
            HttpStatus::UnsupportedMediaType => "Unsupported Media Type"@,
            HttpStatus::RangeNotSatisfiable => "Range Not Satisfiable"@,
            HttpStatus::ExpectationFailed => "Expectation Failed"@,
            HttpStatus::ImATeapot => "I'm a teapot"@,
            HttpStatus::MisdirectedRequest => "Misdirected Request"@,
            HttpStatus::UnprocessableEntity => "Unprocessable Entity"@,
            HttpStatus::Locked => "Locked"@,
            HttpStatus::FailedDependency => "Failed Dependency"@,
            HttpStatus::TooEarly => "Too Early"@,
            HttpStatus::UpgradeRequired => "Upgrade Required"@,
            HttpStatus::PreconditionRequired => "Precondition Required"@,
            HttpStatus::TooManyRequests => "Too Many Requests"@,
            HttpStatus::RequestHeaderFieldsTooLarge => "Request Header Fields Too Large"@,
            HttpStatus::UnavailableForLegalReasons => "Unavailable For Legal Reasons"@,
            HttpStatus::InternalServerError => "Internal Server Error"@,
            HttpStatus::NotImplemented => "Not Implemented"@,
            HttpStatus::BadGateway => "Bad Gateway"@,
            HttpStatus::ServiceUnavailable => "Service Unavailable"@,
            HttpStatus::GatewayTimeout => "Gateway Timeout"@,
            HttpStatus::HTTPVersionNotSupported => "HTTP Version Not Supported"@,
            HttpStatus::VariantAlsoNegotiates => "Variant Also Negotiates"@,
            HttpStatus::InsufficientStorage => "Insufficient Storage"@,
            HttpStatus::LoopDetected => "Loop Detected"@,
            HttpStatus::NotExtended => "Not Extended"@,
            HttpStatus::NetworkAuthenticationRequired => "Network Authentication Required"@,
            HttpStatus::Unknown(t) => t@,
        }
    }

    /// The number of the status; 0 where it is not registered.
    pub open spec fn number(&self) -> nat {
        match self {
            HttpStatus::Continue => 100,
            HttpStatus::SwitchingProtocols => 101,
            HttpStatus::Processing => 102,
            HttpStatus::EarlyHints => 103,
            HttpStatus::OK => 200,
            HttpStatus::Created => 201,
            HttpStatus::Accepted => 202,
            HttpStatus::NonAuthoritativeInformation => 203,
            HttpStatus::NoContent => 204,
            HttpStatus::ResetContent => 205,
            HttpStatus::PartialContent => 206,
            HttpStatus::MultiStatus => 207,
            HttpStatus::AlreadyReported => 208,
            HttpStatus::IMUsed => 226,
            HttpStatus::MultipleChoices => 300,
            HttpStatus::MovedPermanently => 301,
            HttpStatus::Found => 302,
            HttpStatus::SeeOther => 303,
            HttpStatus::NotModified => 304,
            HttpStatus::UseProxy => 305,
            HttpStatus::TemporaryRedirect => 307,
            HttpStatus::PermanentRedirect => 308,
            HttpStatus::BadRequest => 400,
            HttpStatus::Unauthorized => 401,
            HttpStatus::PaymentRequired => 402,
            HttpStatus::Forbidden => 403,
            HttpStatus::NotFound => 404,
            HttpStatus::MethodNotAllowed => 405,
            HttpStatus::NotAcceptable => 406,
            HttpStatus::ProxyAuthenticationRequired => 407,
            HttpStatus::RequestTimeout => 408,
            HttpStatus::Conflict => 409,
            HttpStatus::Gone => 410,
            HttpStatus::LengthRequired => 411,
            HttpStatus::PreconditionFailed => 412,
            HttpStatus::PayloadTooLarge => 413,
            HttpStatus::URITooLong => 414,
            HttpStatus::UnsupportedMediaType => 415,
            HttpStatus::RangeNotSatisfiable => 416,
            HttpStatus::ExpectationFailed => 417,
            HttpStatus::ImATeapot => 418,
            HttpStatus::MisdirectedRequest => 421,
            HttpStatus::UnprocessableEntity => 422,
            HttpStatus::Locked => 423,
            HttpStatus::FailedDependency => 424,
            HttpStatus::TooEarly => 425,
            HttpStatus::UpgradeRequired => 426,
            HttpStatus::PreconditionRequired => 428,
            HttpStatus::TooManyRequests => 429,
            HttpStatus::RequestHeaderFieldsTooLarge => 431,
            HttpStatus::UnavailableForLegalReasons => 451,
            HttpStatus::InternalServerError => 500,
            HttpStatus::NotImplemented => 501,
            HttpStatus::BadGateway => 502,
            HttpStatus::ServiceUnavailable => 503,
            HttpStatus::GatewayTimeout => 504,
            HttpStatus::HTTPVersionNotSupported => 505,
            HttpStatus::VariantAlsoNegotiates => 506,
            HttpStatus::InsufficientStorage => 507,
            HttpStatus::LoopDetected => 508,
            HttpStatus::NotExtended => 510,
            HttpStatus::NetworkAuthenticationRequired => 511,
            HttpStatus::Unknown(_) => 0,
        }
    }

    /// Whether the status is a registered one.
    pub open spec fn is_registered(&self) -> bool {
        !(self is Unknown)
    }

    /// Whether two statuses are the same: the same registered status, or two
    /// unknown ones with the same text.
    pub open spec fn same(&self, other: &HttpStatus) -> bool {
        match (self, other) {
            (HttpStatus::Unknown(a), HttpStatus::Unknown(b)) => a@ == b@,
            _ => self == other,
        }
    }

    /// The number of the status; 0 where it is not registered.
    pub fn code(&self) -> (r: usize)
        ensures
            r == self.number(),
    {
        match self {
            HttpStatus::Continue => 100,
            HttpStatus::SwitchingProtocols => 101,
            HttpStatus::Processing => 102,
            HttpStatus::EarlyHints => 103,
            HttpStatus::OK => 200,
            HttpStatus::Created => 201,
            HttpStatus::Accepted => 202,
            HttpStatus::NonAuthoritativeInformation => 203,
            HttpStatus::NoContent => 204,
            HttpStatus::ResetContent => 205,
            HttpStatus::PartialContent => 206,
            HttpStatus::MultiStatus => 207,
            HttpStatus::AlreadyReported => 208,
            HttpStatus::IMUsed => 226,
            HttpStatus::MultipleChoices => 300,
            HttpStatus::MovedPermanently => 301,
            HttpStatus::Found => 302,
            HttpStatus::SeeOther => 303,
            HttpStatus::NotModified => 304,
            HttpStatus::UseProxy => 305,
            HttpStatus::TemporaryRedirect => 307,
            HttpStatus::PermanentRedirect => 308,
            HttpStatus::BadRequest => 400,
            HttpStatus::Unauthorized => 401,
            HttpStatus::PaymentRequired => 402,
            HttpStatus::Forbidden => 403,
            HttpStatus::NotFound => 404,
            HttpStatus::MethodNotAllowed => 405,
            HttpStatus::NotAcceptable => 406,
            HttpStatus::ProxyAuthenticationRequired => 407,
            HttpStatus::RequestTimeout => 408,
            HttpStatus::Conflict => 409,
            HttpStatus::Gone => 410,
            HttpStatus::LengthRequired => 411,
            HttpStatus::PreconditionFailed => 412,
            HttpStatus::PayloadTooLarge => 413,
            HttpStatus::URITooLong => 414,
            HttpStatus::UnsupportedMediaType => 415,
            HttpStatus::RangeNotSatisfiable => 416,
            HttpStatus::ExpectationFailed => 417,
            HttpStatus::ImATeapot => 418,
            HttpStatus::MisdirectedRequest => 421,
            HttpStatus::UnprocessableEntity => 422,
            HttpStatus::Locked => 423,
            HttpStatus::FailedDependency => 424,
            HttpStatus::TooEarly => 425,
            HttpStatus::UpgradeRequired => 426,
            HttpStatus::PreconditionRequired => 428,
            HttpStatus::TooManyRequests => 429,
            HttpStatus::RequestHeaderFieldsTooLarge => 431,
            HttpStatus::UnavailableForLegalReasons => 451,
            HttpStatus::InternalServerError => 500,
            HttpStatus::NotImplemented => 501,
            HttpStatus::BadGateway => 502,
            HttpStatus::ServiceUnavailable => 503,
            HttpStatus::GatewayTimeout => 504,
            HttpStatus::HTTPVersionNotSupported => 505,
            HttpStatus::VariantAlsoNegotiates => 506,
            HttpStatus::InsufficientStorage => 507,
            HttpStatus::LoopDetected => 508,
            HttpStatus::NotExtended => 510,
            HttpStatus::NetworkAuthenticationRequired => 511,
            HttpStatus::Unknown(_) => 0,
        }
    }

    /// The registered status with the number `code`, if there is one.
    pub fn from_code(code: usize) -> (r: Option<HttpStatus>)
        ensures
            r == status_coded(code as nat),
    {
        match code {
            100 => Some(HttpStatus::Continue),
            101 => Some(HttpStatus::SwitchingProtocols),
            102 => Some(HttpStatus::Processing),
            103 => Some(HttpStatus::EarlyHints),
            200 => Some(HttpStatus::OK),
            201 => Some(HttpStatus::Created),
            202 => Some(HttpStatus::Accepted),
            203 => Some(HttpStatus::NonAuthoritativeInformation),
            204 => Some(HttpStatus::NoContent),
            205 => Some(HttpStatus::ResetContent),
            206 => Some(HttpStatus::PartialContent),
            207 => Some(HttpStatus::MultiStatus),
            208 => Some(HttpStatus::AlreadyReported),
            226 => Some(HttpStatus::IMUsed),
            300 => Some(HttpStatus::MultipleChoices),
            301 => Some(HttpStatus::MovedPermanently),
            302 => Some(HttpStatus::Found),
            303 => Some(HttpStatus::SeeOther),
            304 => Some(HttpStatus::NotModified),
            305 => Some(HttpStatus::UseProxy),
            307 => Some(HttpStatus::TemporaryRedirect),
            308 => Some(HttpStatus::PermanentRedirect),
            400 => Some(HttpStatus::BadRequest),
            401 => Some(HttpStatus::Unauthorized),
            402 => Some(HttpStatus::PaymentRequired),
            403 => Some(HttpStatus::Forbidden),
            404 => Some(HttpStatus::NotFound),
            405 => Some(HttpStatus::MethodNotAllowed),
            406 => Some(HttpStatus::NotAcceptable),
            407 => Some(HttpStatus::ProxyAuthenticationRequired),
            408 => Some(HttpStatus::RequestTimeout),
            409 => Some(HttpStatus::Conflict),
            410 => Some(HttpStatus::Gone),
            411 => Some(HttpStatus::LengthRequired),
            412 => Some(HttpStatus::PreconditionFailed),
            413 => Some(HttpStatus::PayloadTooLarge),
            414 => Some(HttpStatus::URITooLong),
            415 => Some(HttpStatus::UnsupportedMediaType),
            416 => Some(HttpStatus::RangeNotSatisfiable),
            417 => Some(HttpStatus::ExpectationFailed),
            418 => Some(HttpStatus::ImATeapot),
            421 => Some(HttpStatus::MisdirectedRequest),
            422 => Some(HttpStatus::UnprocessableEntity),
            423 => Some(HttpStatus::Locked),
            424 => Some(HttpStatus::FailedDependency),
            425 => Some(HttpStatus::TooEarly),
            426 => Some(HttpStatus::UpgradeRequired),
            428 => Some(HttpStatus::PreconditionRequired),
            429 => Some(HttpStatus::TooManyRequests),
            431 => Some(HttpStatus::RequestHeaderFieldsTooLarge),
            451 => Some(HttpStatus::UnavailableForLegalReasons),
            500 => Some(HttpStatus::InternalServerError),
            501 => Some(HttpStatus::NotImplemented),
            502 => Some(HttpStatus::BadGateway),
            503 => Some(HttpStatus::ServiceUnavailable),
            504 => Some(HttpStatus::GatewayTimeout),
            505 => Some(HttpStatus::HTTPVersionNotSupported),
            506 => Some(HttpStatus::VariantAlsoNegotiates),
            507 => Some(HttpStatus::InsufficientStorage),
            508 => Some(HttpStatus::LoopDetected),
            510 => Some(HttpStatus::NotExtended),
            511 => Some(HttpStatus::NetworkAuthenticationRequired),
            _ => None,
        }
    }

    /// The reason phrase that goes with the number `code`; `Unknown` where
    /// no status is registered under it.
    pub fn phrase(code: usize) -> (r: String)
        ensures
            r@ == reason_phrase(code as nat),
    {
        match HttpStatus::from_code(code) {
            Some(status) => status.to_string(),
            None => "Unknown".to_string(),
        }
    }

    /// The reason phrase of the status.
    pub fn to_string(&self) -> (r: String)
        ensures
            r@ == self.text(),
    {
        match self {
            HttpStatus::Continue => "Continue".to_string(),
            HttpStatus::SwitchingProtocols => "Switching Protocols".to_string(),
            HttpStatus::Processing => "Processing".to_string(),
            HttpStatus::EarlyHints => "Early Hints".to_string(),
            HttpStatus::OK => "OK".to_string(),
            HttpStatus::Created => "Created".to_string(),
            HttpStatus::Accepted => "Accepted".to_string(),
            HttpStatus::NonAuthoritativeInformation => "Non-Authoritative Information".to_string(),
            HttpStatus::NoContent => "No Content".to_string(),
            HttpStatus::ResetContent => "Reset Content".to_string(),
            HttpStatus::PartialContent => "Partial Content".to_string(),
            HttpStatus::MultiStatus => "Multi-Status".to_string(),
            HttpStatus::AlreadyReported => "Already Reported".to_string(),
            HttpStatus::IMUsed => "IM Used".to_string(),
            HttpStatus::MultipleChoices => "Multiple Choices".to_string(),
            HttpStatus::MovedPermanently => "Moved Permanently".to_string(),
            HttpStatus::Found => "Found".to_string(),
            HttpStatus::SeeOther => "See Other".to_string(),
            HttpStatus::NotModified => "Not Modified".to_string(),
            HttpStatus::UseProxy => "Use Proxy".to_string(),
            HttpStatus::TemporaryRedirect => "Temporary Redirect".to_string(),
            HttpStatus::PermanentRedirect => "Permanent Redirect".to_string(),
            HttpStatus::BadRequest => "Bad Request".to_string(),
            HttpStatus::Unauthorized => "Unauthorized".to_string(),
            HttpStatus::PaymentRequired => "Payment Required".to_string(),
            HttpStatus::Forbidden => "Forbidden".to_string(),
            HttpStatus::NotFound => "Not Found".to_string(),
            HttpStatus::MethodNotAllowed => "Method Not Allowed".to_string(),
            HttpStatus::NotAcceptable => "Not Acceptable".to_string(),
            HttpStatus::ProxyAuthenticationRequired => "Proxy Authentication Required".to_string(),
            HttpStatus::RequestTimeout => "Request Timeout".to_string(),
            HttpStatus::Conflict => "Conflict".to_string(),
            HttpStatus::Gone => "Gone".to_string(),
            HttpStatus::LengthRequired => "Length Required".to_string(),
            HttpStatus::PreconditionFailed => "Precondition Failed".to_string(),
            HttpStatus::PayloadTooLarge => "Payload Too Large".to_string(),
            HttpStatus::URITooLong => "URI Too Long".to_string(),
            HttpStatus::UnsupportedMediaType => "Unsupported Media Type".to_string(),
            HttpStatus::RangeNotSatisfiable => "Range Not Satisfiable".to_string(),
            HttpStatus::ExpectationFailed => "Expectation Failed".to_string(),
            HttpStatus::ImATeapot => "I'm a teapot".to_string(),
            HttpStatus::MisdirectedRequest => "Misdirected Request".to_string(),
            HttpStatus::UnprocessableEntity => "Unprocessable Entity".to_string(),
            HttpStatus::Locked => "Locked".to_string(),
            HttpStatus::FailedDependency => "Failed Dependency".to_string(),
            HttpStatus::TooEarly => "Too Early".to_string(),
            HttpStatus::UpgradeRequired => "Upgrade Required".to_string(),
            HttpStatus::PreconditionRequired => "Precondition Required".to_string(),
            HttpStatus::TooManyRequests => "Too Many Requests".to_string(),
            HttpStatus::RequestHeaderFieldsTooLarge => "Request Header Fields Too Large".to_string(),
            HttpStatus::UnavailableForLegalReasons => "Unavailable For Legal Reasons".to_string(),
            HttpStatus::InternalServerError => "Internal Server Error".to_string(),
            HttpStatus::NotImplemented => "Not Implemented".to_string(),
            HttpStatus::BadGateway => "Bad Gateway".to_string(),
            HttpStatus::ServiceUnavailable => "Service Unavailable".to_string(),
            HttpStatus::GatewayTimeout => "Gateway Timeout".to_string(),
            HttpStatus::HTTPVersionNotSupported => "HTTP Version Not Supported".to_string(),
            HttpStatus::VariantAlsoNegotiates => "Variant Also Negotiates".to_string(),
            HttpStatus::InsufficientStorage => "Insufficient Storage".to_string(),
            HttpStatus::LoopDetected => "Loop Detected".to_string(),
            HttpStatus::NotExtended => "Not Extended".to_string(),
            HttpStatus::NetworkAuthenticationRequired => "Network Authentication Required".to_string(),
            HttpStatus::Unknown(t) => t.clone(),
        }
    }

    /// The registered status whose reason phrase is `s`, if there is one.
    fn from_phrase(s: &[char]) -> (r: Option<HttpStatus>)
        ensures
            r == status_phrased(s@),
    {
        if same_text(s, chars_of("Continue").as_slice()) {
            Some(HttpStatus::Continue)
        } else if same_text(s, chars_of("Switching Protocols").as_slice()) {
            Some(HttpStatus::SwitchingProtocols)
        } else if same_text(s, chars_of("Processing").as_slice()) {
            Some(HttpStatus::Processing)
        } else if same_text(s, chars_of("Early Hints").as_slice()) {
            Some(HttpStatus::EarlyHints)
        } else if same_text(s, chars_of("OK").as_slice()) {
            Some(HttpStatus::OK)
        } else if same_text(s, chars_of("Created").as_slice()) {
            Some(HttpStatus::Created)
        } else if same_text(s, chars_of("Accepted").as_slice()) {
            Some(HttpStatus::Accepted)
        } else if same_text(s, chars_of("Non-Authoritative Information").as_slice()) {
            Some(HttpStatus::NonAuthoritativeInformation)
        } else if same_text(s, chars_of("No Content").as_slice()) {
            Some(HttpStatus::NoContent)
        } else if same_text(s, chars_of("Reset Content").as_slice()) {
            Some(HttpStatus::ResetContent)
        } else if same_text(s, chars_of("Partial Content").as_slice()) {
            Some(HttpStatus::PartialContent)
        } else if same_text(s, chars_of("Multi-Status").as_slice()) {
            Some(HttpStatus::MultiStatus)
        } else if same_text(s, chars_of("Already Reported").as_slice()) {
            Some(HttpStatus::AlreadyReported)
        } else if same_text(s, chars_of("IM Used").as_slice()) {
            Some(HttpStatus::IMUsed)
        } else if same_text(s, chars_of("Multiple Choices").as_slice()) {
            Some(HttpStatus::MultipleChoices)
        } else if same_text(s, chars_of("Moved Permanently").as_slice()) {
            Some(HttpStatus::MovedPermanently)
        } else if same_text(s, chars_of("Found").as_slice()) {
            Some(HttpStatus::Found)
        } else if same_text(s, chars_of("See Other").as_slice()) {
            Some(HttpStatus::SeeOther)
        } else if same_text(s, chars_of("Not Modified").as_slice()) {
            Some(HttpStatus::NotModified)
        } else if same_text(s, chars_of("Use Proxy").as_slice()) {
            Some(HttpStatus::UseProxy)
        } else if same_text(s, chars_of("Temporary Redirect").as_slice()) {
            Some(HttpStatus::TemporaryRedirect)
        } else if same_text(s, chars_of("Permanent Redirect").as_slice()) {
            Some(HttpStatus::PermanentRedirect)
        } else if same_text(s, chars_of("Bad Request").as_slice()) {
            Some(HttpStatus::BadRequest)
        } else if same_text(s, chars_of("Unauthorized").as_slice()) {
            Some(HttpStatus::Unauthorized)
        } else if same_text(s, chars_of("Payment Required").as_slice()) {
            Some(HttpStatus::PaymentRequired)
        } else if same_text(s, chars_of("Forbidden").as_slice()) {
            Some(HttpStatus::Forbidden)
        } else if same_text(s, chars_of("Not Found").as_slice()) {
            Some(HttpStatus::NotFound)
        } else if same_text(s, chars_of("Method Not Allowed").as_slice()) {
            Some(HttpStatus::MethodNotAllowed)
        } else if same_text(s, chars_of("Not Acceptable").as_slice()) {
            Some(HttpStatus::NotAcceptable)
        } else if same_text(s, chars_of("Proxy Authentication Required").as_slice()) {
            Some(HttpStatus::ProxyAuthenticationRequired)
        } else if same_text(s, chars_of("Request Timeout").as_slice()) {
            Some(HttpStatus::RequestTimeout)
        } else if same_text(s, chars_of("Conflict").as_slice()) {
            Some(HttpStatus::Conflict)
        } else if same_text(s, chars_of("Gone").as_slice()) {
            Some(HttpStatus::Gone)
        } else if same_text(s, chars_of("Length Required").as_slice()) {
            Some(HttpStatus::LengthRequired)
        } else if same_text(s, chars_of("Precondition Failed").as_slice()) {
            Some(HttpStatus::PreconditionFailed)
        } else if same_text(s, chars_of("Payload Too Large").as_slice()) {
            Some(HttpStatus::PayloadTooLarge)
        } else if same_text(s, chars_of("URI Too Long").as_slice()) {
            Some(HttpStatus::URITooLong)
        } else if same_text(s, chars_of("Unsupported Media Type").as_slice()) {
            Some(HttpStatus::UnsupportedMediaType)
        } else if same_text(s, chars_of("Range Not Satisfiable").as_slice()) {
            Some(HttpStatus::RangeNotSatisfiable)
        } else if same_text(s, chars_of("Expectation Failed").as_slice()) {
            Some(HttpStatus::ExpectationFailed)
        } else if same_text(s, chars_of("I'm a teapot").as_slice()) {
            Some(HttpStatus::ImATeapot)
        } else if same_text(s, chars_of("Misdirected Request").as_slice()) {
            Some(HttpStatus::MisdirectedRequest)
        } else if same_text(s, chars_of("Unprocessable Entity").as_slice()) {
            Some(HttpStatus::UnprocessableEntity)
        } else if same_text(s, chars_of("Locked").as_slice()) {
            Some(HttpStatus::Locked)
        } else if same_text(s, chars_of("Failed Dependency").as_slice()) {
            Some(HttpStatus::FailedDependency)
        } else if same_text(s, chars_of("Too Early").as_slice()) {
            Some(HttpStatus::TooEarly)
        } else if same_text(s, chars_of("Upgrade Required").as_slice()) {
            Some(HttpStatus::UpgradeRequired)
        } else if same_text(s, chars_of("Precondition Required").as_slice()) {
            Some(HttpStatus::PreconditionRequired)
        } else if same_text(s, chars_of("Too Many Requests").as_slice()) {
            Some(HttpStatus::TooManyRequests)
        } else if same_text(s, chars_of("Request Header Fields Too Large").as_slice()) {
            Some(HttpStatus::RequestHeaderFieldsTooLarge)
        } else if same_text(s, chars_of("Unavailable For Legal Reasons").as_slice()) {
            Some(HttpStatus::UnavailableForLegalReasons)
        } else if same_text(s, chars_of("Internal Server Error").as_slice()) {
            Some(HttpStatus::InternalServerError)
        } else if same_text(s, chars_of("Not Implemented").as_slice()) {
            Some(HttpStatus::NotImplemented)
        } else if same_text(s, chars_of("Bad Gateway").as_slice()) {
            Some(HttpStatus::BadGateway)
        } else if same_text(s, chars_of("Service Unavailable").as_slice()) {
            Some(HttpStatus::ServiceUnavailable)
        } else if same_text(s, chars_of("Gateway Timeout").as_slice()) {
            Some(HttpStatus::GatewayTimeout)
        } else if same_text(s, chars_of("HTTP Version Not Supported").as_slice()) {
            Some(HttpStatus::HTTPVersionNotSupported)
        } else if same_text(s, chars_of("Variant Also Negotiates").as_slice()) {
            Some(HttpStatus::VariantAlsoNegotiates)
        } else if same_text(s, chars_of("Insufficient Storage").as_slice()) {
            Some(HttpStatus::InsufficientStorage)
        } else if same_text(s, chars_of("Loop Detected").as_slice()) {
            Some(HttpStatus::LoopDetected)
        } else if same_text(s, chars_of("Not Extended").as_slice()) {
            Some(HttpStatus::NotExtended)
        } else if same_text(s, chars_of("Network Authentication Required").as_slice()) {
            Some(HttpStatus::NetworkAuthenticationRequired)
        } else {
            None
        }
    }

    /// The status that `s` names. Never fails: a word that names no
    /// registered status is kept as it is.
    pub fn from_str(s: &str) -> (r: Result<HttpStatus, ()>)
        ensures
            r matches Ok(status) && parses_to(s@, status),
    {
        Ok(HttpStatus::parse(s))
    }

    /// The status that `s` names.
    pub fn parse(s: &str) -> (status: HttpStatus)
        ensures
            parses_to(s@, status),
    {
        let text = chars_of(s);
        match HttpStatus::from_phrase(text.as_slice()) {
            Some(status) => status,
            None => {
                let by_number = match parse_usize(text.as_slice()) {
                    Some(code) => if same_str(decimal_string(code).as_str(), s) {
                        HttpStatus::from_code(code)
                    } else {
                        None
                    },
                    None => None,
                };
                match by_number {
                    Some(status) => status,
                    None => HttpStatus::Unknown(s.to_string()),
                }
            },
        }
    }

    /// Whether the status is none of the registered ones.
    pub fn is_unknown(&self) -> (r: bool)
        ensures
            r == (self is Unknown),
    {
        matches!(self, HttpStatus::Unknown(_))
    }
}

/// A registered status is found again under its number.
pub proof fn lemma_registered_numbers(status: HttpStatus)
    requires
        status.is_registered(),
    ensures
        status_coded(status.number()) == Some(status),
{
}

/// The reason phrases of the registered statuses differ from one another.
pub proof fn lemma_registered_phrases(status: HttpStatus)
    requires
        status.is_registered(),
    ensures
        status_phrased(status.text()) == Some(status),
{
    reveal_strlit("Continue");
    reveal_strlit("Switching Protocols");
    reveal_strlit("Processing");
    reveal_strlit("Early Hints");
    reveal_strlit("OK");
    reveal_strlit("Created");
    reveal_strlit("Accepted");
    reveal_strlit("Non-Authoritative Information");
    reveal_strlit("No Content");
    reveal_strlit("Reset Content");
    reveal_strlit("Partial Content");
    reveal_strlit("Multi-Status");
    reveal_strlit("Already Reported");
    reveal_strlit("IM Used");
    reveal_strlit("Multiple Choices");
    reveal_strlit("Moved Permanently");
    reveal_strlit("Found");
    reveal_strlit("See Other");
    reveal_strlit("Not Modified");
    reveal_strlit("Use Proxy");
    reveal_strlit("Temporary Redirect");
    reveal_strlit("Permanent Redirect");
    reveal_strlit("Bad Request");
    reveal_strlit("Unauthorized");
    reveal_strlit("Payment Required");
    reveal_strlit("Forbidden");
    reveal_strlit("Not Found");
    reveal_strlit("Method Not Allowed");
    reveal_strlit("Not Acceptable");
    reveal_strlit("Proxy Authentication Required");
    reveal_strlit("Request Timeout");
    reveal_strlit("Conflict");
    reveal_strlit("Gone");
    reveal_strlit("Length Required");
    reveal_strlit("Precondition Failed");
    reveal_strlit("Payload Too Large");
    reveal_strlit("URI Too Long");
    reveal_strlit("Unsupported Media Type");
    reveal_strlit("Range Not Satisfiable");
    reveal_strlit("Expectation Failed");
    reveal_strlit("I'm a teapot");
    reveal_strlit("Misdirected Request");
    reveal_strlit("Unprocessable Entity");
    reveal_strlit("Locked");
    reveal_strlit("Failed Dependency");
    reveal_strlit("Too Early");
    reveal_strlit("Upgrade Required");
    reveal_strlit("Precondition Required");
    reveal_strlit("Too Many Requests");
    reveal_strlit("Request Header Fields Too Large");
    reveal_strlit("Unavailable For Legal Reasons");
    reveal_strlit("Internal Server Error");
    reveal_strlit("Not Implemented");
    reveal_strlit("Bad Gateway");
    reveal_strlit("Service Unavailable");
    reveal_strlit("Gateway Timeout");
    reveal_strlit("HTTP Version Not Supported");
    reveal_strlit("Variant Also Negotiates");
    reveal_strlit("Insufficient Storage");
    reveal_strlit("Loop Detected");
    reveal_strlit("Not Extended");
    reveal_strlit("Network Authentication Required");
    let s = status.text();
    match status {
        HttpStatus::Continue => {
            assert(s.len() == 8 && s[0] == 'C' && s[1] == 'o' && s[2] == 'n' && s[3] == 't' && s[4] == 'i' && s[5] == 'n' && s[6] == 'u' && s[7] == 'e');
        },
        HttpStatus::SwitchingProtocols => {
            assert(s.len() == 19 && s[0] == 'S' && s[1] == 'w' && s[2] == 'i' && s[3] == 't' && s[4] == 'c' && s[5] == 'h' && s[6] == 'i' && s[7] == 'n' && s[8] == 'g' && s[9] == ' ' && s[10] == 'P' && s[11] == 'r' && s[12] == 'o' && s[13] == 't' && s[14] == 'o' && s[15] == 'c' && s[16] == 'o' && s[17] == 'l' && s[18] == 's');
        },
        HttpStatus::Processing => {
            assert(s.len() == 10 && s[0] == 'P' && s[1] == 'r' && s[2] == 'o' && s[3] == 'c' && s[4] == 'e' && s[5] == 's' && s[6] == 's' && s[7] == 'i' && s[8] == 'n' && s[9] == 'g');
        },
        HttpStatus::EarlyHints => {
            assert(s.len() == 11 && s[0] == 'E' && s[1] == 'a' && s[2] == 'r' && s[3] == 'l' && s[4] == 'y' && s[5] == ' ' && s[6] == 'H' && s[7] == 'i' && s[8] == 'n' && s[9] == 't' && s[10] == 's');
        },
        HttpStatus::OK => {
            assert(s.len() == 2 && s[0] == 'O' && s[1] == 'K');
        },
        HttpStatus::Created => {
            assert(s.len() == 7 && s[0] == 'C' && s[1] == 'r' && s[2] == 'e' && s[3] == 'a' && s[4] == 't' && s[5] == 'e' && s[6] == 'd');
        },
        HttpStatus::Accepted => {
            assert(s.len() == 8 && s[0] == 'A' && s[1] == 'c' && s[2] == 'c' && s[3] == 'e' && s[4] == 'p' && s[5] == 't' && s[6] == 'e' && s[7] == 'd');
        },
        HttpStatus::NonAuthoritativeInformation => {
            assert(s.len() == 29 && s[0] == 'N' && s[1] == 'o' && s[2] == 'n' && s[3] == '-' && s[4] == 'A' && s[5] == 'u' && s[6] == 't' && s[7] == 'h' && s[8] == 'o' && s[9] == 'r' && s[10] == 'i' && s[11] == 't' && s[12] == 'a' && s[13] == 't' && s[14] == 'i' && s[15] == 'v' && s[16] == 'e' && s[17] == ' ' && s[18] == 'I' && s[19] == 'n' && s[20] == 'f' && s[21] == 'o' && s[22] == 'r' && s[23] == 'm' && s[24] == 'a' && s[25] == 't' && s[26] == 'i' && s[27] == 'o' && s[28] == 'n');
        },
        HttpStatus::NoContent => {
            assert(s.len() == 10 && s[0] == 'N' && s[1] == 'o' && s[2] == ' ' && s[3] == 'C' && s[4] == 'o' && s[5] == 'n' && s[6] == 't' && s[7] == 'e' && s[8] == 'n' && s[9] == 't');
        },
        HttpStatus::ResetContent => {
            assert(s.len() == 13 && s[0] == 'R' && s[1] == 'e' && s[2] == 's' && s[3] == 'e' && s[4] == 't' && s[5] == ' ' && s[6] == 'C' && s[7] == 'o' && s[8] == 'n' && s[9] == 't' && s[10] == 'e' && s[11] == 'n' && s[12] == 't');
        },
        HttpStatus::PartialContent => {
            assert(s.len() == 15 && s[0] == 'P' && s[1] == 'a' && s[2] == 'r' && s[3] == 't' && s[4] == 'i' && s[5] == 'a' && s[6] == 'l' && s[7] == ' ' && s[8] == 'C' && s[9] == 'o' && s[10] == 'n' && s[11] == 't' && s[12] == 'e' && s[13] == 'n' && s[14] == 't');
        },
        HttpStatus::MultiStatus => {
            assert(s.len() == 12 && s[0] == 'M' && s[1] == 'u' && s[2] == 'l' && s[3] == 't' && s[4] == 'i' && s[5] == '-' && s[6] == 'S' && s[7] == 't' && s[8] == 'a' && s[9] == 't' && s[10] == 'u' && s[11] == 's');
        },
        HttpStatus::AlreadyReported => {
            assert(s.len() == 16 && s[0] == 'A' && s[1] == 'l' && s[2] == 'r' && s[3] == 'e' && s[4] == 'a' && s[5] == 'd' && s[6] == 'y' && s[7] == ' ' && s[8] == 'R' && s[9] == 'e' && s[10] == 'p' && s[11] == 'o' && s[12] == 'r' && s[13] == 't' && s[14] == 'e' && s[15] == 'd');
        },
        HttpStatus::IMUsed => {
            assert(s.len() == 7 && s[0] == 'I' && s[1] == 'M' && s[2] == ' ' && s[3] == 'U' && s[4] == 's' && s[5] == 'e' && s[6] == 'd');
        },
        HttpStatus::MultipleChoices => {
            assert(s.len() == 16 && s[0] == 'M' && s[1] == 'u' && s[2] == 'l' && s[3] == 't' && s[4] == 'i' && s[5] == 'p' && s[6] == 'l' && s[7] == 'e' && s[8] == ' ' && s[9] == 'C' && s[10] == 'h' && s[11] == 'o' && s[12] == 'i' && s[13] == 'c' && s[14] == 'e' && s[15] == 's');
        },
        HttpStatus::MovedPermanently => {
            assert(s.len() == 17 && s[0] == 'M' && s[1] == 'o' && s[2] == 'v' && s[3] == 'e' && s[4] == 'd' && s[5] == ' ' && s[6] == 'P' && s[7] == 'e' && s[8] == 'r' && s[9] == 'm' && s[10] == 'a' && s[11] == 'n' && s[12] == 'e' && s[13] == 'n' && s[14] == 't' && s[15] == 'l' && s[16] == 'y');
        },
        HttpStatus::Found => {
            assert(s.len() == 5 && s[0] == 'F' && s[1] == 'o' && s[2] == 'u' && s[3] == 'n' && s[4] == 'd');
        },
        HttpStatus::SeeOther => {
            assert(s.len() == 9 && s[0] == 'S' && s[1] == 'e' && s[2] == 'e' && s[3] == ' ' && s[4] == 'O' && s[5] == 't' && s[6] == 'h' && s[7] == 'e' && s[8] == 'r');
        },
        HttpStatus::NotModified => {
            assert(s.len() == 12 && s[0] == 'N' && s[1] == 'o' && s[2] == 't' && s[3] == ' ' && s[4] == 'M' && s[5] == 'o' && s[6] == 'd' && s[7] == 'i' && s[8] == 'f' && s[9] == 'i' && s[10] == 'e' && s[11] == 'd');
        },
        HttpStatus::UseProxy => {
            assert(s.len() == 9 && s[0] == 'U' && s[1] == 's' && s[2] == 'e' && s[3] == ' ' && s[4] == 'P' && s[5] == 'r' && s[6] == 'o' && s[7] == 'x' && s[8] == 'y');
        },
        HttpStatus::TemporaryRedirect => {
            assert(s.len() == 18 && s[0] == 'T' && s[1] == 'e' && s[2] == 'm' && s[3] == 'p' && s[4] == 'o' && s[5] == 'r' && s[6] == 'a' && s[7] == 'r' && s[8] == 'y' && s[9] == ' ' && s[10] == 'R' && s[11] == 'e' && s[12] == 'd' && s[13] == 'i' && s[14] == 'r' && s[15] == 'e' && s[16] == 'c' && s[17] == 't');
        },
        HttpStatus::PermanentRedirect => {
            assert(s.len() == 18 && s[0] == 'P' && s[1] == 'e' && s[2] == 'r' && s[3] == 'm' && s[4] == 'a' && s[5] == 'n' && s[6] == 'e' && s[7] == 'n' && s[8] == 't' && s[9] == ' ' && s[10] == 'R' && s[11] == 'e' && s[12] == 'd' && s[13] == 'i' && s[14] == 'r' && s[15] == 'e' && s[16] == 'c' && s[17] == 't');
        },
        HttpStatus::BadRequest => {
            assert(s.len() == 11 && s[0] == 'B' && s[1] == 'a' && s[2] == 'd' && s[3] == ' ' && s[4] == 'R' && s[5] == 'e' && s[6] == 'q' && s[7] == 'u' && s[8] == 'e' && s[9] == 's' && s[10] == 't');
        },
        HttpStatus::Unauthorized => {
            assert(s.len() == 12 && s[0] == 'U' && s[1] == 'n' && s[2] == 'a' && s[3] == 'u' && s[4] == 't' && s[5] == 'h' && s[6] == 'o' && s[7] == 'r' && s[8] == 'i' && s[9] == 'z' && s[10] == 'e' && s[11] == 'd');
        },
        HttpStatus::PaymentRequired => {
            assert(s.len() == 16 && s[0] == 'P' && s[1] == 'a' && s[2] == 'y' && s[3] == 'm' && s[4] == 'e' && s[5] == 'n' && s[6] == 't' && s[7] == ' ' && s[8] == 'R' && s[9] == 'e' && s[10] == 'q' && s[11] == 'u' && s[12] == 'i' && s[13] == 'r' && s[14] == 'e' && s[15] == 'd');
        },
        HttpStatus::Forbidden => {
            assert(s.len() == 9 && s[0] == 'F' && s[1] == 'o' && s[2] == 'r' && s[3] == 'b' && s[4] == 'i' && s[5] == 'd' && s[6] == 'd' && s[7] == 'e' && s[8] == 'n');
        },
        HttpStatus::NotFound => {
            assert(s.len() == 9 && s[0] == 'N' && s[1] == 'o' && s[2] == 't' && s[3] == ' ' && s[4] == 'F' && s[5] == 'o' && s[6] == 'u' && s[7] == 'n' && s[8] == 'd');
        },
        HttpStatus::MethodNotAllowed => {
            assert(s.len() == 18 && s[0] == 'M' && s[1] == 'e' && s[2] == 't' && s[3] == 'h' && s[4] == 'o' && s[5] == 'd' && s[6] == ' ' && s[7] == 'N' && s[8] == 'o' && s[9] == 't' && s[10] == ' ' && s[11] == 'A' && s[12] == 'l' && s[13] == 'l' && s[14] == 'o' && s[15] == 'w' && s[16] == 'e' && s[17] == 'd');
        },
        HttpStatus::NotAcceptable => {
            assert(s.len() == 14 && s[0] == 'N' && s[1] == 'o' && s[2] == 't' && s[3] == ' ' && s[4] == 'A' && s[5] == 'c' && s[6] == 'c' && s[7] == 'e' && s[8] == 'p' && s[9] == 't' && s[10] == 'a' && s[11] == 'b' && s[12] == 'l' && s[13] == 'e');
        },
        HttpStatus::ProxyAuthenticationRequired => {
            assert(s.len() == 29 && s[0] == 'P' && s[1] == 'r' && s[2] == 'o' && s[3] == 'x' && s[4] == 'y' && s[5] == ' ' && s[6] == 'A' && s[7] == 'u' && s[8] == 't' && s[9] == 'h' && s[10] == 'e' && s[11] == 'n' && s[12] == 't' && s[13] == 'i' && s[14] == 'c' && s[15] == 'a' && s[16] == 't' && s[17] == 'i' && s[18] == 'o' && s[19] == 'n' && s[20] == ' ' && s[21] == 'R' && s[22] == 'e' && s[23] == 'q' && s[24] == 'u' && s[25] == 'i' && s[26] == 'r' && s[27] == 'e' && s[28] == 'd');
        },
        HttpStatus::RequestTimeout => {
            assert(s.len() == 15 && s[0] == 'R' && s[1] == 'e' && s[2] == 'q' && s[3] == 'u' && s[4] == 'e' && s[5] == 's' && s[6] == 't' && s[7] == ' ' && s[8] == 'T' && s[9] == 'i' && s[10] == 'm' && s[11] == 'e' && s[12] == 'o' && s[13] == 'u' && s[14] == 't');
        },
        HttpStatus::Conflict => {
            assert(s.len() == 8 && s[0] == 'C' && s[1] == 'o' && s[2] == 'n' && s[3] == 'f' && s[4] == 'l' && s[5] == 'i' && s[6] == 'c' && s[7] == 't');
        },
        HttpStatus::Gone => {
            assert(s.len() == 4 && s[0] == 'G' && s[1] == 'o' && s[2] == 'n' && s[3] == 'e');
        },
        HttpStatus::LengthRequired => {
            assert(s.len() == 15 && s[0] == 'L' && s[1] == 'e' && s[2] == 'n' && s[3] == 'g' && s[4] == 't' && s[5] == 'h' && s[6] == ' ' && s[7] == 'R' && s[8] == 'e' && s[9] == 'q' && s[10] == 'u' && s[11] == 'i' && s[12] == 'r' && s[13] == 'e' && s[14] == 'd');
        },
        HttpStatus::PreconditionFailed => {
            assert(s.len() == 19 && s[0] == 'P' && s[1] == 'r' && s[2] == 'e' && s[3] == 'c' && s[4] == 'o' && s[5] == 'n' && s[6] == 'd' && s[7] == 'i' && s[8] == 't' && s[9] == 'i' && s[10] == 'o' && s[11] == 'n' && s[12] == ' ' && s[13] == 'F' && s[14] == 'a' && s[15] == 'i' && s[16] == 'l' && s[17] == 'e' && s[18] == 'd');
        },
        HttpStatus::PayloadTooLarge => {
            assert(s.len() == 17 && s[0] == 'P' && s[1] == 'a' && s[2] == 'y' && s[3] == 'l' && s[4] == 'o' && s[5] == 'a' && s[6] == 'd' && s[7] == ' ' && s[8] == 'T' && s[9] == 'o' && s[10] == 'o' && s[11] == ' ' && s[12] == 'L' && s[13] == 'a' && s[14] == 'r' && s[15] == 'g' && s[16] == 'e');
        },
        HttpStatus::URITooLong => {
            assert(s.len() == 12 && s[0] == 'U' && s[1] == 'R' && s[2] == 'I' && s[3] == ' ' && s[4] == 'T' && s[5] == 'o' && s[6] == 'o' && s[7] == ' ' && s[8] == 'L' && s[9] == 'o' && s[10] == 'n' && s[11] == 'g');
        },
        HttpStatus::UnsupportedMediaType => {
            assert(s.len() == 22 && s[0] == 'U' && s[1] == 'n' && s[2] == 's' && s[3] == 'u' && s[4] == 'p' && s[5] == 'p' && s[6] == 'o' && s[7] == 'r' && s[8] == 't' && s[9] == 'e' && s[10] == 'd' && s[11] == ' ' && s[12] == 'M' && s[13] == 'e' && s[14] == 'd' && s[15] == 'i' && s[16] == 'a' && s[17] == ' ' && s[18] == 'T' && s[19] == 'y' && s[20] == 'p' && s[21] == 'e');
        },
        HttpStatus::RangeNotSatisfiable => {
            assert(s.len() == 21 && s[0] == 'R' && s[1] == 'a' && s[2] == 'n' && s[3] == 'g' && s[4] == 'e' && s[5] == ' ' && s[6] == 'N' && s[7] == 'o' && s[8] == 't' && s[9] == ' ' && s[10] == 'S' && s[11] == 'a' && s[12] == 't' && s[13] == 'i' && s[14] == 's' && s[15] == 'f' && s[16] == 'i' && s[17] == 'a' && s[18] == 'b' && s[19] == 'l' && s[20] == 'e');
        },
        HttpStatus::ExpectationFailed => {
            assert(s.len() == 18 && s[0] == 'E' && s[1] == 'x' && s[2] == 'p' && s[3] == 'e' && s[4] == 'c' && s[5] == 't' && s[6] == 'a' && s[7] == 't' && s[8] == 'i' && s[9] == 'o' && s[10] == 'n' && s[11] == ' ' && s[12] == 'F' && s[13] == 'a' && s[14] == 'i' && s[15] == 'l' && s[16] == 'e' && s[17] == 'd');
        },
        HttpStatus::ImATeapot => {
            assert(s.len() == 12 && s[0] == 'I' && s[1] == '\'' && s[2] == 'm' && s[3] == ' ' && s[4] == 'a' && s[5] == ' ' && s[6] == 't' && s[7] == 'e' && s[8] == 'a' && s[9] == 'p' && s[10] == 'o' && s[11] == 't');
        },
        HttpStatus::MisdirectedRequest => {
            assert(s.len() == 19 && s[0] == 'M' && s[1] == 'i' && s[2] == 's' && s[3] == 'd' && s[4] == 'i' && s[5] == 'r' && s[6] == 'e' && s[7] == 'c' && s[8] == 't' && s[9] == 'e' && s[10] == 'd' && s[11] == ' ' && s[12] == 'R' && s[13] == 'e' && s[14] == 'q' && s[15] == 'u' && s[16] == 'e' && s[17] == 's' && s[18] == 't');
        },
        HttpStatus::UnprocessableEntity => {
            assert(s.len() == 20 && s[0] == 'U' && s[1] == 'n' && s[2] == 'p' && s[3] == 'r' && s[4] == 'o' && s[5] == 'c' && s[6] == 'e' && s[7] == 's' && s[8] == 's' && s[9] == 'a' && s[10] == 'b' && s[11] == 'l' && s[12] == 'e' && s[13] == ' ' && s[14] == 'E' && s[15] == 'n' && s[16] == 't' && s[17] == 'i' && s[18] == 't' && s[19] == 'y');
        },
        HttpStatus::Locked => {
            assert(s.len() == 6 && s[0] == 'L' && s[1] == 'o' && s[2] == 'c' && s[3] == 'k' && s[4] == 'e' && s[5] == 'd');
        },
        HttpStatus::FailedDependency => {
            assert(s.len() == 17 && s[0] == 'F' && s[1] == 'a' && s[2] == 'i' && s[3] == 'l' && s[4] == 'e' && s[5] == 'd' && s[6] == ' ' && s[7] == 'D' && s[8] == 'e' && s[9] == 'p' && s[10] == 'e' && s[11] == 'n' && s[12] == 'd' && s[13] == 'e' && s[14] == 'n' && s[15] == 'c' && s[16] == 'y');
        },
        HttpStatus::TooEarly => {
            assert(s.len() == 9 && s[0] == 'T' && s[1] == 'o' && s[2] == 'o' && s[3] == ' ' && s[4] == 'E' && s[5] == 'a' && s[6] == 'r' && s[7] == 'l' && s[8] == 'y');
        },
        HttpStatus::UpgradeRequired => {
            assert(s.len() == 16 && s[0] == 'U' && s[1] == 'p' && s[2] == 'g' && s[3] == 'r' && s[4] == 'a' && s[5] == 'd' && s[6] == 'e' && s[7] == ' ' && s[8] == 'R' && s[9] == 'e' && s[10] == 'q' && s[11] == 'u' && s[12] == 'i' && s[13] == 'r' && s[14] == 'e' && s[15] == 'd');
        },
        HttpStatus::PreconditionRequired => {
            assert(s.len() == 21 && s[0] == 'P' && s[1] == 'r' && s[2] == 'e' && s[3] == 'c' && s[4] == 'o' && s[5] == 'n' && s[6] == 'd' && s[7] == 'i' && s[8] == 't' && s[9] == 'i' && s[10] == 'o' && s[11] == 'n' && s[12] == ' ' && s[13] == 'R' && s[14] == 'e' && s[15] == 'q' && s[16] == 'u' && s[17] == 'i' && s[18] == 'r' && s[19] == 'e' && s[20] == 'd');
        },
        HttpStatus::TooManyRequests => {
            assert(s.len() == 17 && s[0] == 'T' && s[1] == 'o' && s[2] == 'o' && s[3] == ' ' && s[4] == 'M' && s[5] == 'a' && s[6] == 'n' && s[7] == 'y' && s[8] == ' ' && s[9] == 'R' && s[10] == 'e' && s[11] == 'q' && s[12] == 'u' && s[13] == 'e' && s[14] == 's' && s[15] == 't' && s[16] == 's');
        },
        HttpStatus::RequestHeaderFieldsTooLarge => {
            assert(s.len() == 31 && s[0] == 'R' && s[1] == 'e' && s[2] == 'q' && s[3] == 'u' && s[4] == 'e' && s[5] == 's' && s[6] == 't' && s[7] == ' ' && s[8] == 'H' && s[9] == 'e' && s[10] == 'a' && s[11] == 'd' && s[12] == 'e' && s[13] == 'r' && s[14] == ' ' && s[15] == 'F' && s[16] == 'i' && s[17] == 'e' && s[18] == 'l' && s[19] == 'd' && s[20] == 's' && s[21] == ' ' && s[22] == 'T' && s[23] == 'o' && s[24] == 'o' && s[25] == ' ' && s[26] == 'L' && s[27] == 'a' && s[28] == 'r' && s[29] == 'g' && s[30] == 'e');
        },
        HttpStatus::UnavailableForLegalReasons => {
            assert(s.len() == 29 && s[0] == 'U' && s[1] == 'n' && s[2] == 'a' && s[3] == 'v' && s[4] == 'a' && s[5] == 'i' && s[6] == 'l' && s[7] == 'a' && s[8] == 'b' && s[9] == 'l' && s[10] == 'e' && s[11] == ' ' && s[12] == 'F' && s[13] == 'o' && s[14] == 'r' && s[15] == ' ' && s[16] == 'L' && s[17] == 'e' && s[18] == 'g' && s[19] == 'a' && s[20] == 'l' && s[21] == ' ' && s[22] == 'R' && s[23] == 'e' && s[24] == 'a' && s[25] == 's' && s[26] == 'o' && s[27] == 'n' && s[28] == 's');
        },
        HttpStatus::InternalServerError => {
            assert(s.len() == 21 && s[0] == 'I' && s[1] == 'n' && s[2] == 't' && s[3] == 'e' && s[4] == 'r' && s[5] == 'n' && s[6] == 'a' && s[7] == 'l' && s[8] == ' ' && s[9] == 'S' && s[10] == 'e' && s[11] == 'r' && s[12] == 'v' && s[13] == 'e' && s[14] == 'r' && s[15] == ' ' && s[16] == 'E' && s[17] == 'r' && s[18] == 'r' && s[19] == 'o' && s[20] == 'r');
        },
        HttpStatus::NotImplemented => {
            assert(s.len() == 15 && s[0] == 'N' && s[1] == 'o' && s[2] == 't' && s[3] == ' ' && s[4] == 'I' && s[5] == 'm' && s[6] == 'p' && s[7] == 'l' && s[8] == 'e' && s[9] == 'm' && s[10] == 'e' && s[11] == 'n' && s[12] == 't' && s[13] == 'e' && s[14] == 'd');
        },
        HttpStatus::BadGateway => {
            assert(s.len() == 11 && s[0] == 'B' && s[1] == 'a' && s[2] == 'd' && s[3] == ' ' && s[4] == 'G' && s[5] == 'a' && s[6] == 't' && s[7] == 'e' && s[8] == 'w' && s[9] == 'a' && s[10] == 'y');
        },
        HttpStatus::ServiceUnavailable => {
            assert(s.len() == 19 && s[0] == 'S' && s[1] == 'e' && s[2] == 'r' && s[3] == 'v' && s[4] == 'i' && s[5] == 'c' && s[6] == 'e' && s[7] == ' ' && s[8] == 'U' && s[9] == 'n' && s[10] == 'a' && s[11] == 'v' && s[12] == 'a' && s[13] == 'i' && s[14] == 'l' && s[15] == 'a' && s[16] == 'b' && s[17] == 'l' && s[18] == 'e');
        },
        HttpStatus::GatewayTimeout => {
            assert(s.len() == 15 && s[0] == 'G' && s[1] == 'a' && s[2] == 't' && s[3] == 'e' && s[4] == 'w' && s[5] == 'a' && s[6] == 'y' && s[7] == ' ' && s[8] == 'T' && s[9] == 'i' && s[10] == 'm' && s[11] == 'e' && s[12] == 'o' && s[13] == 'u' && s[14] == 't');
        },
        HttpStatus::HTTPVersionNotSupported => {
            assert(s.len() == 26 && s[0] == 'H' && s[1] == 'T' && s[2] == 'T' && s[3] == 'P' && s[4] == ' ' && s[5] == 'V' && s[6] == 'e' && s[7] == 'r' && s[8] == 's' && s[9] == 'i' && s[10] == 'o' && s[11] == 'n' && s[12] == ' ' && s[13] == 'N' && s[14] == 'o' && s[15] == 't' && s[16] == ' ' && s[17] == 'S' && s[18] == 'u' && s[19] == 'p' && s[20] == 'p' && s[21] == 'o' && s[22] == 'r' && s[23] == 't' && s[24] == 'e' && s[25] == 'd');
        },
        HttpStatus::VariantAlsoNegotiates => {
            assert(s.len() == 23 && s[0] == 'V' && s[1] == 'a' && s[2] == 'r' && s[3] == 'i' && s[4] == 'a' && s[5] == 'n' && s[6] == 't' && s[7] == ' ' && s[8] == 'A' && s[9] == 'l' && s[10] == 's' && s[11] == 'o' && s[12] == ' ' && s[13] == 'N' && s[14] == 'e' && s[15] == 'g' && s[16] == 'o' && s[17] == 't' && s[18] == 'i' && s[19] == 'a' && s[20] == 't' && s[21] == 'e' && s[22] == 's');
        },
        HttpStatus::InsufficientStorage => {
            assert(s.len() == 20 && s[0] == 'I' && s[1] == 'n' && s[2] == 's' && s[3] == 'u' && s[4] == 'f' && s[5] == 'f' && s[6] == 'i' && s[7] == 'c' && s[8] == 'i' && s[9] == 'e' && s[10] == 'n' && s[11] == 't' && s[12] == ' ' && s[13] == 'S' && s[14] == 't' && s[15] == 'o' && s[16] == 'r' && s[17] == 'a' && s[18] == 'g' && s[19] == 'e');
        },
        HttpStatus::LoopDetected => {
            assert(s.len() == 13 && s[0] == 'L' && s[1] == 'o' && s[2] == 'o' && s[3] == 'p' && s[4] == ' ' && s[5] == 'D' && s[6] == 'e' && s[7] == 't' && s[8] == 'e' && s[9] == 'c' && s[10] == 't' && s[11] == 'e' && s[12] == 'd');
        },
        HttpStatus::NotExtended => {
            assert(s.len() == 12 && s[0] == 'N' && s[1] == 'o' && s[2] == 't' && s[3] == ' ' && s[4] == 'E' && s[5] == 'x' && s[6] == 't' && s[7] == 'e' && s[8] == 'n' && s[9] == 'd' && s[10] == 'e' && s[11] == 'd');
        },
        HttpStatus::NetworkAuthenticationRequired => {
            assert(s.len() == 31 && s[0] == 'N' && s[1] == 'e' && s[2] == 't' && s[3] == 'w' && s[4] == 'o' && s[5] == 'r' && s[6] == 'k' && s[7] == ' ' && s[8] == 'A' && s[9] == 'u' && s[10] == 't' && s[11] == 'h' && s[12] == 'e' && s[13] == 'n' && s[14] == 't' && s[15] == 'i' && s[16] == 'c' && s[17] == 'a' && s[18] == 't' && s[19] == 'i' && s[20] == 'o' && s[21] == 'n' && s[22] == ' ' && s[23] == 'R' && s[24] == 'e' && s[25] == 'q' && s[26] == 'u' && s[27] == 'i' && s[28] == 'r' && s[29] == 'e' && s[30] == 'd');
        },
        HttpStatus::Unknown(_) => {},
    }
}

/// Writing a registered status and reading the phrase back gives the status.
pub proof fn law_registered_status_round_trip(status: HttpStatus, read: HttpStatus)
    requires
        status.is_registered(),
        parses_to(status.text(), read),
    ensures
        read == status,
{
    lemma_registered_phrases(status);
}

/// The phrase found under the number of a registered status is its own.
pub proof fn law_phrase_of_number(status: HttpStatus)
    requires
        status.is_registered(),
    ensures
        reason_phrase(status.number()) == status.text(),
{
}

impl Default for HttpStatus {
    fn default() -> (r: HttpStatus)
        ensures
            r matches HttpStatus::Unknown(t) && t@.len() == 0,
    {
        HttpStatus::Unknown(String::new())
    }
}

impl Clone for HttpStatus {
    fn clone(&self) -> (r: HttpStatus)
        ensures
            r.same(self),
            r.text() == self.text(),
    {
        match self {
            HttpStatus::Unknown(t) => HttpStatus::Unknown(t.clone()),
            _ => match HttpStatus::from_code(self.code()) {
                Some(status) => status,
                None => HttpStatus::Unknown(String::new()),
            },
        }
    }
}

impl PartialEq for HttpStatus {
    fn eq(&self, other: &HttpStatus) -> (r: bool) {
        match (self, other) {
            (HttpStatus::Unknown(a), HttpStatus::Unknown(b)) => same_str(a.as_str(), b.as_str()),
            (HttpStatus::Unknown(_), _) => false,
            (_, HttpStatus::Unknown(_)) => false,
            _ => self.code() == other.code(),
        }
    }
}

impl vstd::std_specs::cmp::PartialEqSpecImpl for HttpStatus {
    open spec fn obeys_eq_spec() -> bool {
        true
    }

    open spec fn eq_spec(&self, other: &HttpStatus) -> bool {
        self.same(other)
    }
}

impl std::str::FromStr for HttpStatus {
    type Err = ();

    /// The status that `s` names. Never fails: a word that names no
    /// registered status is kept as it is.
    fn from_str(s: &str) -> (r: Result<HttpStatus, ()>)
        ensures
            r matches Ok(status) && parses_to(s@, status),
    {
        Ok(HttpStatus::parse(s))
    }
}

} // verus!
