//! The closed set of HTTP response statuses: each status has a fixed
//! numeric code and a fixed canonical reason phrase, and the code
//! assignment is a bijection, proved below.

use vstd::prelude::*;

verus! {

/// The status of an HTTP response. The set is closed: codes outside the
/// enumeration are unrepresentable.
#[derive(Debug, Clone, Copy, PartialEq, Eq, Structural)]
pub enum HttpStatus {
    /// 100 Continue.
    Continue,
    /// 101 Switching Protocols.
    SwitchingProtocols,
    /// 102 Processing.
    Processing,
    /// 103 Early Hints.
    EarlyHints,
    /// 200 OK.
    Okay,
    /// 201 Created.
    Created,
    /// 202 Accepted.
    Accepted,
    /// 203 Non-Authoritative Information.
    NonAuthorativeInformation,
    /// 204 No Content.
    NoContent,
    /// 205 Reset Content.
    ResetContent,
    /// 206 Partial Content.
    PartialContent,
    /// 207 Multi-Status.
    MultiStatus,
    /// 208 Already Reported.
    AlreadyReported,
    /// 226 IM Used.
    IMUsed,
    /// 300 Multiple Choices.
    MultipleChoices,
    /// 301 Moved Permanently.
    MovedPermanently,
    /// 302 Found.
    Found,
    /// 303 See Other.
    SeeOther,
    /// 304 Not Modified.
    NotModified,
    /// 305 Use Proxy.
    UseProxy,
    /// 306 Unused.
    Unused,
    /// 307 Temporary Redirect.
    TemporaryRedirect,
    /// 308 Permanent Redirect.
    PermanentRedirect,
    /// 400 Bad Request.
    BadRequest,
    /// 401 Unauthorized.
    Unauthorized,
    /// 402 Payment Required.
    PaymentRequired,
    /// 403 Forbidden.
    Forbidden,
    /// 404 Not Found.
    NotFound,
    /// 405 Method Not Allowed.
    MethodNotAllowed,
    /// 406 Not Acceptable.
    NotAcceptable,
    /// 407 Proxy Authentication Required.
    ProxyAuthenticationRequired,
    /// 408 Request Timeout.
    RequestTimeout,
    /// 409 Conflict.
    Conflict,
    /// 410 Gone.
    Gone,
    /// 411 Length Required.
    LengthRequired,
    /// 412 Precondition Failed.
    PreconditionFailed,
    /// 413 Payload Too Large.
    PayloadTooLarge,
    /// 414 URI Too Long.
    URITooLong,
    /// 415 Unsupported Media Type.
    UnsupportedMediaType,
    /// 416 Range Not Satisfiable.
    RangeNotSatisfiable,
    /// 417 Expectation Failed.
    ExpectationFailed,
    /// 418 I'm a teapot.
    IMATeapot,
    /// 421 Misdirected Request.
    MisdirectedRequest,
    /// 422 Unprocessable Entity.
    UnprocessableContent,
    /// 423 Locked.
    Locked,
    /// 424 Failed Dependency.
    FailedDependency,
    /// 425 Too Early.
    TooEarly,
    /// 426 Upgrade Required.
    UpgradeRequired,
    /// 428 Precondition Required.
    PreconditionRequired,
    /// 429 Too Many Requests.
    TooManyRequests,
    /// 431 Request Header Fields Too Large.
    RequestsHeaderFieldsTooLarge,
    /// 451 Unavailable For Legal Reasons.
    UnavailableForLegalReasons,
    /// 500 Internal Server Error.
    InternalServerError,
    /// 501 Not Implemented.
    NotImplemented,
    /// 502 Bad Gateway.
    BadGateway,
    /// 503 Service Unavailable.
    ServiceUnavailable,
    /// 504 Gateway Timeout.
    GatewayTimeout,
    /// 505 HTTP Version Not Supported.
    HTTPVersionNotSupported,
    /// 506 Variant Also Negotiates.
    VariantAlsoNegotiates,
    /// 507 Insufficient Storage.
    InsufficientStorage,
    /// 508 Loop Detected.
    LoopDetected,
    /// 510 Not Extended.
    NotExtended,
    /// 511 Network Authentication Required.
    NetworkAuthenticationRequired,
}

/// The numeric code of a status.
pub open spec fn code_spec(s: HttpStatus) -> int {
    match s {
        HttpStatus::Continue => 100,
        HttpStatus::SwitchingProtocols => 101,
        HttpStatus::Processing => 102,
        HttpStatus::EarlyHints => 103,
        HttpStatus::Okay => 200,
        HttpStatus::Created => 201,
        HttpStatus::Accepted => 202,
        HttpStatus::NonAuthorativeInformation => 203,
        HttpStatus::NoContent => 204,
        HttpStatus::ResetContent => 205,
        HttpStatus::PartialContent => 206,
        HttpStatus::MultiStatus => 207,
        HttpStatus::AlreadyReported => 208,
        HttpStatus::IMUsed => 226,
        HttpStatus::MultipleChoices => 300,
        HttpStatus::MovedPermanently => 301,
        HttpStatus::Found => 302,
        HttpStatus::SeeOther => 303,
        HttpStatus::NotModified => 304,
        HttpStatus::UseProxy => 305,
        HttpStatus::Unused => 306,
        HttpStatus::TemporaryRedirect => 307,
        HttpStatus::PermanentRedirect => 308,
        HttpStatus::BadRequest => 400,
        HttpStatus::Unauthorized => 401,
        HttpStatus::PaymentRequired => 402,
        HttpStatus::Forbidden => 403,
        HttpStatus::NotFound => 404,
        HttpStatus::MethodNotAllowed => 405,
        HttpStatus::NotAcceptable => 406,
        HttpStatus::ProxyAuthenticationRequired => 407,
        HttpStatus::RequestTimeout => 408,
        HttpStatus::Conflict => 409,
        HttpStatus::Gone => 410,
        HttpStatus::LengthRequired => 411,
        HttpStatus::PreconditionFailed => 412,
        HttpStatus::PayloadTooLarge => 413,
        HttpStatus::URITooLong => 414,
        HttpStatus::UnsupportedMediaType => 415,
        HttpStatus::RangeNotSatisfiable => 416,
        HttpStatus::ExpectationFailed => 417,
        HttpStatus::IMATeapot => 418,
        HttpStatus::MisdirectedRequest => 421,
        HttpStatus::UnprocessableContent => 422,
        HttpStatus::Locked => 423,
        HttpStatus::FailedDependency => 424,
        HttpStatus::TooEarly => 425,
        HttpStatus::UpgradeRequired => 426,
        HttpStatus::PreconditionRequired => 428,
        HttpStatus::TooManyRequests => 429,
        HttpStatus::RequestsHeaderFieldsTooLarge => 431,
        HttpStatus::UnavailableForLegalReasons => 451,
        HttpStatus::InternalServerError => 500,
        HttpStatus::NotImplemented => 501,
        HttpStatus::BadGateway => 502,
        HttpStatus::ServiceUnavailable => 503,
        HttpStatus::GatewayTimeout => 504,
        HttpStatus::HTTPVersionNotSupported => 505,
        HttpStatus::VariantAlsoNegotiates => 506,
        HttpStatus::InsufficientStorage => 507,
        HttpStatus::LoopDetected => 508,
        HttpStatus::NotExtended => 510,
        HttpStatus::NetworkAuthenticationRequired => 511,
    }
}

/// The status-line fragment of a status: its code followed by its canonical
/// reason phrase.
pub open spec fn header_spec(s: HttpStatus) -> Seq<char> {
    match s {
        HttpStatus::Continue => "100 Continue"@,
        HttpStatus::SwitchingProtocols => "101 Switching Protocols"@,
        HttpStatus::Processing => "102 Processing"@,
        HttpStatus::EarlyHints => "103 Early Hints"@,
        HttpStatus::Okay => "200 OK"@,
        HttpStatus::Created => "201 Created"@,
        HttpStatus::Accepted => "202 Accepted"@,
        HttpStatus::NonAuthorativeInformation => "203 Non-Authoritative Information"@,
        HttpStatus::NoContent => "204 No Content"@,
        HttpStatus::ResetContent => "205 Reset Content"@,
        HttpStatus::PartialContent => "206 Partial Content"@,
        HttpStatus::MultiStatus => "207 Multi-Status"@,
        HttpStatus::AlreadyReported => "208 Already Reported"@,
        HttpStatus::IMUsed => "226 IM Used"@,
        HttpStatus::MultipleChoices => "300 Multiple Choices"@,
        HttpStatus::MovedPermanently => "301 Moved Permanently"@,
        HttpStatus::Found => "302 Found"@,
        HttpStatus::SeeOther => "303 See Other"@,
        HttpStatus::NotModified => "304 Not Modified"@,
        HttpStatus::UseProxy => "305 Use Proxy"@,
        HttpStatus::Unused => "306 Unused"@,
        HttpStatus::TemporaryRedirect => "307 Temporary Redirect"@,
        HttpStatus::PermanentRedirect => "308 Permanent Redirect"@,
        HttpStatus::BadRequest => "400 Bad Request"@,
        HttpStatus::Unauthorized => "401 Unauthorized"@,
        HttpStatus::PaymentRequired => "402 Payment Required"@,
        HttpStatus::Forbidden => "403 Forbidden"@,
        HttpStatus::NotFound => "404 Not Found"@,
        HttpStatus::MethodNotAllowed => "405 Method Not Allowed"@,
        HttpStatus::NotAcceptable => "406 Not Acceptable"@,
        HttpStatus::ProxyAuthenticationRequired => "407 Proxy Authentication Required"@,
        HttpStatus::RequestTimeout => "408 Request Timeout"@,
        HttpStatus::Conflict => "409 Conflict"@,
        HttpStatus::Gone => "410 Gone"@,
        HttpStatus::LengthRequired => "411 Length Required"@,
        HttpStatus::PreconditionFailed => "412 Precondition Failed"@,
        HttpStatus::PayloadTooLarge => "413 Payload Too Large"@,
        HttpStatus::URITooLong => "414 URI Too Long"@,
        HttpStatus::UnsupportedMediaType => "415 Unsupported Media Type"@,
        HttpStatus::RangeNotSatisfiable => "416 Range Not Satisfiable"@,
        HttpStatus::ExpectationFailed => "417 Expectation Failed"@,
        HttpStatus::IMATeapot => "418 I'm a teapot"@,
        HttpStatus::MisdirectedRequest => "421 Misdirected Request"@,
        HttpStatus::UnprocessableContent => "422 Unprocessable Entity"@,
        HttpStatus::Locked => "423 Locked"@,
        HttpStatus::FailedDependency => "424 Failed Dependency"@,
        HttpStatus::TooEarly => "425 Too Early"@,
        HttpStatus::UpgradeRequired => "426 Upgrade Required"@,
        HttpStatus::PreconditionRequired => "428 Precondition Required"@,
        HttpStatus::TooManyRequests => "429 Too Many Requests"@,
        HttpStatus::RequestsHeaderFieldsTooLarge => "431 Request Header Fields Too Large"@,
        HttpStatus::UnavailableForLegalReasons => "451 Unavailable For Legal Reasons"@,
        HttpStatus::InternalServerError => "500 Internal Server Error"@,
        HttpStatus::NotImplemented => "501 Not Implemented"@,
        HttpStatus::BadGateway => "502 Bad Gateway"@,
        HttpStatus::ServiceUnavailable => "503 Service Unavailable"@,
        HttpStatus::GatewayTimeout => "504 Gateway Timeout"@,
        HttpStatus::HTTPVersionNotSupported => "505 HTTP Version Not Supported"@,
        HttpStatus::VariantAlsoNegotiates => "506 Variant Also Negotiates"@,
        HttpStatus::InsufficientStorage => "507 Insufficient Storage"@,
        HttpStatus::LoopDetected => "508 Loop Detected"@,
        HttpStatus::NotExtended => "510 Not Extended"@,
        HttpStatus::NetworkAuthenticationRequired => "511 Network Authentication Required"@,
    }
}

/// The status carrying the given numeric code, if the code is listed.
pub open spec fn from_code_spec(code: int) -> Option<HttpStatus> {
    if code == 100 {
        Some(HttpStatus::Continue)
    } else if code == 101 {
        Some(HttpStatus::SwitchingProtocols)
    } else if code == 102 {
        Some(HttpStatus::Processing)
    } else if code == 103 {
        Some(HttpStatus::EarlyHints)
    } else if code == 200 {
        Some(HttpStatus::Okay)
    } else if code == 201 {
        Some(HttpStatus::Created)
    } else if code == 202 {
        Some(HttpStatus::Accepted)
    } else if code == 203 {
        Some(HttpStatus::NonAuthorativeInformation)
    } else if code == 204 {
        Some(HttpStatus::NoContent)
    } else if code == 205 {
        Some(HttpStatus::ResetContent)
    } else if code == 206 {
        Some(HttpStatus::PartialContent)
    } else if code == 207 {
        Some(HttpStatus::MultiStatus)
    } else if code == 208 {
        Some(HttpStatus::AlreadyReported)
    } else if code == 226 {
        Some(HttpStatus::IMUsed)
    } else if code == 300 {
        Some(HttpStatus::MultipleChoices)
    } else if code == 301 {
        Some(HttpStatus::MovedPermanently)
    } else if code == 302 {
        Some(HttpStatus::Found)
    } else if code == 303 {
        Some(HttpStatus::SeeOther)
    } else if code == 304 {
        Some(HttpStatus::NotModified)
    } else if code == 305 {
        Some(HttpStatus::UseProxy)
    } else if code == 306 {
        Some(HttpStatus::Unused)
    } else if code == 307 {
        Some(HttpStatus::TemporaryRedirect)
    } else if code == 308 {
        Some(HttpStatus::PermanentRedirect)
    } else if code == 400 {
        Some(HttpStatus::BadRequest)
    } else if code == 401 {
        Some(HttpStatus::Unauthorized)
    } else if code == 402 {
        Some(HttpStatus::PaymentRequired)
    } else if code == 403 {
        Some(HttpStatus::Forbidden)
    } else if code == 404 {
        Some(HttpStatus::NotFound)
    } else if code == 405 {
        Some(HttpStatus::MethodNotAllowed)
    } else if code == 406 {
        Some(HttpStatus::NotAcceptable)
    } else if code == 407 {
        Some(HttpStatus::ProxyAuthenticationRequired)
    } else if code == 408 {
        Some(HttpStatus::RequestTimeout)
    } else if code == 409 {
        Some(HttpStatus::Conflict)
    } else if code == 410 {
        Some(HttpStatus::Gone)
    } else if code == 411 {
        Some(HttpStatus::LengthRequired)
    } else if code == 412 {
        Some(HttpStatus::PreconditionFailed)
    } else if code == 413 {
        Some(HttpStatus::PayloadTooLarge)
    } else if code == 414 {
        Some(HttpStatus::URITooLong)
    } else if code == 415 {
        Some(HttpStatus::UnsupportedMediaType)
    } else if code == 416 {
        Some(HttpStatus::RangeNotSatisfiable)
    } else if code == 417 {
        Some(HttpStatus::ExpectationFailed)
    } else if code == 418 {
        Some(HttpStatus::IMATeapot)
    } else if code == 421 {
        Some(HttpStatus::MisdirectedRequest)
    } else if code == 422 {
        Some(HttpStatus::UnprocessableContent)
    } else if code == 423 {
        Some(HttpStatus::Locked)
    } else if code == 424 {
        Some(HttpStatus::FailedDependency)
    } else if code == 425 {
        Some(HttpStatus::TooEarly)
    } else if code == 426 {
        Some(HttpStatus::UpgradeRequired)
    } else if code == 428 {
        Some(HttpStatus::PreconditionRequired)
    } else if code == 429 {
        Some(HttpStatus::TooManyRequests)
    } else if code == 431 {
        Some(HttpStatus::RequestsHeaderFieldsTooLarge)
    } else if code == 451 {
        Some(HttpStatus::UnavailableForLegalReasons)
    } else if code == 500 {
        Some(HttpStatus::InternalServerError)
    } else if code == 501 {
        Some(HttpStatus::NotImplemented)
    } else if code == 502 {
        Some(HttpStatus::BadGateway)
    } else if code == 503 {
        Some(HttpStatus::ServiceUnavailable)
    } else if code == 504 {
        Some(HttpStatus::GatewayTimeout)
    } else if code == 505 {
        Some(HttpStatus::HTTPVersionNotSupported)
    } else if code == 506 {
        Some(HttpStatus::VariantAlsoNegotiates)
    } else if code == 507 {
        Some(HttpStatus::InsufficientStorage)
    } else if code == 508 {
        Some(HttpStatus::LoopDetected)
    } else if code == 510 {
        Some(HttpStatus::NotExtended)
    } else if code == 511 {
        Some(HttpStatus::NetworkAuthenticationRequired)
    } else {
        None
    }
}

impl HttpStatus {
    /// The numeric code of this status.
    pub fn code(&self) -> (c: u16)
        ensures
            c as int == code_spec(*self),
    {
        match self {
            HttpStatus::Continue => 100u16,
            HttpStatus::SwitchingProtocols => 101u16,
            HttpStatus::Processing => 102u16,
            HttpStatus::EarlyHints => 103u16,
            HttpStatus::Okay => 200u16,
            HttpStatus::Created => 201u16,
            HttpStatus::Accepted => 202u16,
            HttpStatus::NonAuthorativeInformation => 203u16,
            HttpStatus::NoContent => 204u16,
            HttpStatus::ResetContent => 205u16,
            HttpStatus::PartialContent => 206u16,
            HttpStatus::MultiStatus => 207u16,
            HttpStatus::AlreadyReported => 208u16,
            HttpStatus::IMUsed => 226u16,
            HttpStatus::MultipleChoices => 300u16,
            HttpStatus::MovedPermanently => 301u16,
            HttpStatus::Found => 302u16,
            HttpStatus::SeeOther => 303u16,
            HttpStatus::NotModified => 304u16,
            HttpStatus::UseProxy => 305u16,
            HttpStatus::Unused => 306u16,
            HttpStatus::TemporaryRedirect => 307u16,
            HttpStatus::PermanentRedirect => 308u16,
            HttpStatus::BadRequest => 400u16,
            HttpStatus::Unauthorized => 401u16,
            HttpStatus::PaymentRequired => 402u16,
            HttpStatus::Forbidden => 403u16,
            HttpStatus::NotFound => 404u16,
            HttpStatus::MethodNotAllowed => 405u16,
            HttpStatus::NotAcceptable => 406u16,
            HttpStatus::ProxyAuthenticationRequired => 407u16,
            HttpStatus::RequestTimeout => 408u16,
            HttpStatus::Conflict => 409u16,
            HttpStatus::Gone => 410u16,
            HttpStatus::LengthRequired => 411u16,
            HttpStatus::PreconditionFailed => 412u16,
            HttpStatus::PayloadTooLarge => 413u16,
            HttpStatus::URITooLong => 414u16,
            HttpStatus::UnsupportedMediaType => 415u16,
            HttpStatus::RangeNotSatisfiable => 416u16,
            HttpStatus::ExpectationFailed => 417u16,
            HttpStatus::IMATeapot => 418u16,
            HttpStatus::MisdirectedRequest => 421u16,
            HttpStatus::UnprocessableContent => 422u16,
            HttpStatus::Locked => 423u16,
            HttpStatus::FailedDependency => 424u16,
            HttpStatus::TooEarly => 425u16,
            HttpStatus::UpgradeRequired => 426u16,
            HttpStatus::PreconditionRequired => 428u16,
            HttpStatus::TooManyRequests => 429u16,
            HttpStatus::RequestsHeaderFieldsTooLarge => 431u16,
            HttpStatus::UnavailableForLegalReasons => 451u16,
            HttpStatus::InternalServerError => 500u16,
            HttpStatus::NotImplemented => 501u16,
            HttpStatus::BadGateway => 502u16,
            HttpStatus::ServiceUnavailable => 503u16,
            HttpStatus::GatewayTimeout => 504u16,
            HttpStatus::HTTPVersionNotSupported => 505u16,
            HttpStatus::VariantAlsoNegotiates => 506u16,
            HttpStatus::InsufficientStorage => 507u16,
            HttpStatus::LoopDetected => 508u16,
            HttpStatus::NotExtended => 510u16,
            HttpStatus::NetworkAuthenticationRequired => 511u16,
        }
    }

    /// The status carrying the given numeric code, or `None` when the code
    /// is outside the enumeration.
    pub fn from_code(code: u64) -> (r: Option<HttpStatus>)
        ensures
            r == from_code_spec(code as int),
    {
        if code == 100 {
            Some(HttpStatus::Continue)
        } else if code == 101 {
            Some(HttpStatus::SwitchingProtocols)
        } else if code == 102 {
            Some(HttpStatus::Processing)
        } else if code == 103 {
            Some(HttpStatus::EarlyHints)
        } else if code == 200 {
            Some(HttpStatus::Okay)
        } else if code == 201 {
            Some(HttpStatus::Created)
        } else if code == 202 {
            Some(HttpStatus::Accepted)
        } else if code == 203 {
            Some(HttpStatus::NonAuthorativeInformation)
        } else if code == 204 {
            Some(HttpStatus::NoContent)
        } else if code == 205 {
            Some(HttpStatus::ResetContent)
        } else if code == 206 {
            Some(HttpStatus::PartialContent)
        } else if code == 207 {
            Some(HttpStatus::MultiStatus)
        } else if code == 208 {
            Some(HttpStatus::AlreadyReported)
        } else if code == 226 {
            Some(HttpStatus::IMUsed)
        } else if code == 300 {
            Some(HttpStatus::MultipleChoices)
        } else if code == 301 {
            Some(HttpStatus::MovedPermanently)
        } else if code == 302 {
            Some(HttpStatus::Found)
        } else if code == 303 {
            Some(HttpStatus::SeeOther)
        } else if code == 304 {
            Some(HttpStatus::NotModified)
        } else if code == 305 {
            Some(HttpStatus::UseProxy)
        } else if code == 306 {
            Some(HttpStatus::Unused)
        } else if code == 307 {
            Some(HttpStatus::TemporaryRedirect)
        } else if code == 308 {
            Some(HttpStatus::PermanentRedirect)
        } else if code == 400 {
            Some(HttpStatus::BadRequest)
        } else if code == 401 {
            Some(HttpStatus::Unauthorized)
        } else if code == 402 {
            Some(HttpStatus::PaymentRequired)
        } else if code == 403 {
            Some(HttpStatus::Forbidden)
        } else if code == 404 {
            Some(HttpStatus::NotFound)
        } else if code == 405 {
            Some(HttpStatus::MethodNotAllowed)
        } else if code == 406 {
            Some(HttpStatus::NotAcceptable)
        } else if code == 407 {
            Some(HttpStatus::ProxyAuthenticationRequired)
        } else if code == 408 {
            Some(HttpStatus::RequestTimeout)
        } else if code == 409 {
            Some(HttpStatus::Conflict)
        } else if code == 410 {
            Some(HttpStatus::Gone)
        } else if code == 411 {
            Some(HttpStatus::LengthRequired)
        } else if code == 412 {
            Some(HttpStatus::PreconditionFailed)
        } else if code == 413 {
            Some(HttpStatus::PayloadTooLarge)
        } else if code == 414 {
            Some(HttpStatus::URITooLong)
        } else if code == 415 {
            Some(HttpStatus::UnsupportedMediaType)
        } else if code == 416 {
            Some(HttpStatus::RangeNotSatisfiable)
        } else if code == 417 {
            Some(HttpStatus::ExpectationFailed)
        } else if code == 418 {
            Some(HttpStatus::IMATeapot)
        } else if code == 421 {
            Some(HttpStatus::MisdirectedRequest)
        } else if code == 422 {
            Some(HttpStatus::UnprocessableContent)
        } else if code == 423 {
            Some(HttpStatus::Locked)
        } else if code == 424 {
            Some(HttpStatus::FailedDependency)
        } else if code == 425 {
            Some(HttpStatus::TooEarly)
        } else if code == 426 {
            Some(HttpStatus::UpgradeRequired)
        } else if code == 428 {
            Some(HttpStatus::PreconditionRequired)
        } else if code == 429 {
            Some(HttpStatus::TooManyRequests)
        } else if code == 431 {
            Some(HttpStatus::RequestsHeaderFieldsTooLarge)
        } else if code == 451 {
            Some(HttpStatus::UnavailableForLegalReasons)
        } else if code == 500 {
            Some(HttpStatus::InternalServerError)
        } else if code == 501 {
            Some(HttpStatus::NotImplemented)
        } else if code == 502 {
            Some(HttpStatus::BadGateway)
        } else if code == 503 {
            Some(HttpStatus::ServiceUnavailable)
        } else if code == 504 {
            Some(HttpStatus::GatewayTimeout)
        } else if code == 505 {
            Some(HttpStatus::HTTPVersionNotSupported)
        } else if code == 506 {
            Some(HttpStatus::VariantAlsoNegotiates)
        } else if code == 507 {
            Some(HttpStatus::InsufficientStorage)
        } else if code == 508 {
            Some(HttpStatus::LoopDetected)
        } else if code == 510 {
            Some(HttpStatus::NotExtended)
        } else if code == 511 {
            Some(HttpStatus::NetworkAuthenticationRequired)
        } else {
            None
        }
    }
}

/// Every status is recovered from its own code: together with
/// `lemma_code_injective` this makes the code assignment a bijection
/// between the enumeration and the set of listed codes.
pub proof fn lemma_code_roundtrip(s: HttpStatus)
    ensures
        from_code_spec(code_spec(s)) == Some(s),
{
}

/// Distinct statuses carry distinct numeric codes.
pub proof fn lemma_code_injective(s1: HttpStatus, s2: HttpStatus)
    requires
        code_spec(s1) == code_spec(s2),
    ensures
        s1 == s2,
{
    lemma_code_roundtrip(s1);
    lemma_code_roundtrip(s2);
}

/// The numeric code read back from the first three characters of the
/// status-line fragment.
spec fn header_code(s: HttpStatus) -> int {
    let h = header_spec(s);
    (h[0] as int - 48) * 100 + (h[1] as int - 48) * 10 + (h[2] as int - 48)
}

proof fn lemma_header_code(s: HttpStatus)
    ensures
        header_code(s) == code_spec(s),
{
    match s {
        HttpStatus::Continue => {
            reveal_strlit("100 Continue");
        },
        HttpStatus::SwitchingProtocols => {
            reveal_strlit("101 Switching Protocols");
        },
        HttpStatus::Processing => {
            reveal_strlit("102 Processing");
        },
        HttpStatus::EarlyHints => {
            reveal_strlit("103 Early Hints");
        },
        HttpStatus::Okay => {
            reveal_strlit("200 OK");
        },
        HttpStatus::Created => {
            reveal_strlit("201 Created");
        },
        HttpStatus::Accepted => {
            reveal_strlit("202 Accepted");
        },
        HttpStatus::NonAuthorativeInformation => {
            reveal_strlit("203 Non-Authoritative Information");
        },
        HttpStatus::NoContent => {
            reveal_strlit("204 No Content");
        },
        HttpStatus::ResetContent => {
            reveal_strlit("205 Reset Content");
        },
        HttpStatus::PartialContent => {
            reveal_strlit("206 Partial Content");
        },
        HttpStatus::MultiStatus => {
            reveal_strlit("207 Multi-Status");
        },
        HttpStatus::AlreadyReported => {
            reveal_strlit("208 Already Reported");
        },
        HttpStatus::IMUsed => {
            reveal_strlit("226 IM Used");
        },
        HttpStatus::MultipleChoices => {
            reveal_strlit("300 Multiple Choices");
        },
        HttpStatus::MovedPermanently => {
            reveal_strlit("301 Moved Permanently");
        },
        HttpStatus::Found => {
            reveal_strlit("302 Found");
        },
        HttpStatus::SeeOther => {
            reveal_strlit("303 See Other");
        },
        HttpStatus::NotModified => {
            reveal_strlit("304 Not Modified");
        },
        HttpStatus::UseProxy => {
            reveal_strlit("305 Use Proxy");
        },
        HttpStatus::Unused => {
            reveal_strlit("306 Unused");
        },
        HttpStatus::TemporaryRedirect => {
            reveal_strlit("307 Temporary Redirect");
        },
        HttpStatus::PermanentRedirect => {
            reveal_strlit("308 Permanent Redirect");
        },
        HttpStatus::BadRequest => {
            reveal_strlit("400 Bad Request");
        },
        HttpStatus::Unauthorized => {
            reveal_strlit("401 Unauthorized");
        },
        HttpStatus::PaymentRequired => {
            reveal_strlit("402 Payment Required");
        },
        HttpStatus::Forbidden => {
            reveal_strlit("403 Forbidden");
        },
        HttpStatus::NotFound => {
            reveal_strlit("404 Not Found");
        },
        HttpStatus::MethodNotAllowed => {
            reveal_strlit("405 Method Not Allowed");
        },
        HttpStatus::NotAcceptable => {
            reveal_strlit("406 Not Acceptable");
        },
        HttpStatus::ProxyAuthenticationRequired => {
            reveal_strlit("407 Proxy Authentication Required");
        },
        HttpStatus::RequestTimeout => {
            reveal_strlit("408 Request Timeout");
        },
        HttpStatus::Conflict => {
            reveal_strlit("409 Conflict");
        },
        HttpStatus::Gone => {
            reveal_strlit("410 Gone");
        },
        HttpStatus::LengthRequired => {
            reveal_strlit("411 Length Required");
        },
        HttpStatus::PreconditionFailed => {
            reveal_strlit("412 Precondition Failed");
        },
        HttpStatus::PayloadTooLarge => {
            reveal_strlit("413 Payload Too Large");
        },
        HttpStatus::URITooLong => {
            reveal_strlit("414 URI Too Long");
        },
        HttpStatus::UnsupportedMediaType => {
            reveal_strlit("415 Unsupported Media Type");
        },
        HttpStatus::RangeNotSatisfiable => {
            reveal_strlit("416 Range Not Satisfiable");
        },
        HttpStatus::ExpectationFailed => {
            reveal_strlit("417 Expectation Failed");
        },
        HttpStatus::IMATeapot => {
            reveal_strlit("418 I'm a teapot");
        },
        HttpStatus::MisdirectedRequest => {
            reveal_strlit("421 Misdirected Request");
        },
        HttpStatus::UnprocessableContent => {
            reveal_strlit("422 Unprocessable Entity");
        },
        HttpStatus::Locked => {
            reveal_strlit("423 Locked");
        },
        HttpStatus::FailedDependency => {
            reveal_strlit("424 Failed Dependency");
        },
        HttpStatus::TooEarly => {
            reveal_strlit("425 Too Early");
        },
        HttpStatus::UpgradeRequired => {
            reveal_strlit("426 Upgrade Required");
        },
        HttpStatus::PreconditionRequired => {
            reveal_strlit("428 Precondition Required");
        },
        HttpStatus::TooManyRequests => {
            reveal_strlit("429 Too Many Requests");
        },
        HttpStatus::RequestsHeaderFieldsTooLarge => {
            reveal_strlit("431 Request Header Fields Too Large");
        },
        HttpStatus::UnavailableForLegalReasons => {
            reveal_strlit("451 Unavailable For Legal Reasons");
        },
        HttpStatus::InternalServerError => {
            reveal_strlit("500 Internal Server Error");
        },
        HttpStatus::NotImplemented => {
            reveal_strlit("501 Not Implemented");
        },
        HttpStatus::BadGateway => {
            reveal_strlit("502 Bad Gateway");
        },
        HttpStatus::ServiceUnavailable => {
            reveal_strlit("503 Service Unavailable");
        },
        HttpStatus::GatewayTimeout => {
            reveal_strlit("504 Gateway Timeout");
        },
        HttpStatus::HTTPVersionNotSupported => {
            reveal_strlit("505 HTTP Version Not Supported");
        },
        HttpStatus::VariantAlsoNegotiates => {
            reveal_strlit("506 Variant Also Negotiates");
        },
        HttpStatus::InsufficientStorage => {
            reveal_strlit("507 Insufficient Storage");
        },
        HttpStatus::LoopDetected => {
            reveal_strlit("508 Loop Detected");
        },
        HttpStatus::NotExtended => {
            reveal_strlit("510 Not Extended");
        },
        HttpStatus::NetworkAuthenticationRequired => {
            reveal_strlit("511 Network Authentication Required");
        },
    }
}

/// Distinct statuses serialize to distinct status-line fragments (and so
/// to distinct reason strings): the status-to-text mapping is injective,
/// and with the fixed texts of `header_spec` it is a bijection onto them.
pub proof fn lemma_header_injective(s1: HttpStatus, s2: HttpStatus)
    requires
        header_spec(s1) == header_spec(s2),
    ensures
        s1 == s2,
{
    lemma_header_code(s1);
    lemma_header_code(s2);
    lemma_code_injective(s1, s2);
}

} // verus!
