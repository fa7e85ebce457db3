//! The wire-level data model: methods, request/response structures, and the
//! codec between them and HTTP/1.x text. Requests are built from the header
//! lines of a connection; responses serialize to an ordered list of wire
//! lines followed by body bytes.

use vstd::prelude::*;
use vstd::string::*;

use crate::status::{header_spec, HttpStatus};
use crate::strutil::{
    all_digits, find_char, find_char_spec, join_range, kv_view, lookup_pair, parse_usize,
    spec_dec, spec_digits_val, spec_join, spec_lookup, spec_split, split_char, str_eq, strs_view,
    trim_spec, trim_str, usize_to_string,
};

verus! {

/// The supported HTTP methods. The set is closed: any other token on the
/// request line is a parse failure.
#[derive(Debug, Clone, Copy, PartialEq, Eq, Structural)]
pub enum HttpMethod {
    /// Post data to the server.
    POST,
    /// Update data on the server.
    PUT,
    /// Fetch data from the server.
    GET,
    /// Delete data from the server.
    DELETE,
}

/// The method denoted by a request-line token, if any.
pub open spec fn method_of_token(t: Seq<char>) -> Option<HttpMethod> {
    if t == "GET"@ {
        Some(HttpMethod::GET)
    } else if t == "PUT"@ {
        Some(HttpMethod::PUT)
    } else if t == "POST"@ {
        Some(HttpMethod::POST)
    } else if t == "DELETE"@ {
        Some(HttpMethod::DELETE)
    } else {
        None
    }
}

/// The parse of a request line, split on single spaces from the right: the
/// last token is the protocol, the one before it the path, and everything
/// before those two (spaces included) must be a known method token.
pub open spec fn from_line_ok(line: Seq<char>) -> Option<(HttpMethod, Seq<char>, Seq<char>)> {
    let ps = spec_split(line, ' ');
    if ps.len() < 3 {
        None
    } else {
        match method_of_token(spec_join(ps.subrange(0, ps.len() - 2), seq![' '])) {
            Some(m) => Some((m, ps[ps.len() - 2], ps[ps.len() - 1])),
            None => None,
        }
    }
}

/// The error message reported for a request line that does not parse.
pub open spec fn from_line_err(line: Seq<char>) -> Seq<char> {
    let ps = spec_split(line, ' ');
    if ps.len() == 1 {
        "Could not fetch path from headers"@
    } else if ps.len() == 2 {
        "Failed to fetch method, got no method"@
    } else {
        "Failed to fetch method, got: "@ + spec_join(ps.subrange(0, ps.len() - 2), seq![' '])
    }
}

/// The request line: method, requested path, and protocol version.
#[derive(Debug, Clone)]
pub struct HttpHeaders {
    /// The http method.
    pub method: HttpMethod,
    /// The requested path, including any query substring.
    pub path: String,
    /// The protocol token, e.g. `HTTP/1.1`.
    pub protocol: String,
}

impl HttpHeaders {
    /// Creates a new request line from its parts.
    pub fn new(method: HttpMethod, path: String, protocol: String) -> (r: Self)
        ensures
            r.method == method,
            r.path == path,
            r.protocol == protocol,
    {
        Self { method, path, protocol }
    }

    /// Parses a request line such as `GET /a/b HTTP/1.1`. Missing path or
    /// protocol tokens and unknown method tokens are rejected with a message.
    pub fn from_line(headerline: String) -> (r: Result<Self, String>)
        ensures
            match r {
                Ok(h) => from_line_ok(headerline@) == Some((h.method, h.path@, h.protocol@)),
                Err(e) => from_line_ok(headerline@) is None && e@ == from_line_err(headerline@),
            },
    {
        let pieces = split_char(headerline.as_str(), ' ');
        let n = pieces.len();
        if n == 1 {
            return Err("Could not fetch path from headers".to_owned());
        }
        if n == 2 {
            return Err("Failed to fetch method, got no method".to_owned());
        }
        let tok = join_range(&pieces, 0, n - 2, " ");
        proof {
            reveal_strlit(" ");
            assert(" "@ =~= seq![' ']);
        }
        let method = if str_eq(tok.as_str(), "GET") {
            HttpMethod::GET
        } else if str_eq(tok.as_str(), "PUT") {
            HttpMethod::PUT
        } else if str_eq(tok.as_str(), "POST") {
            HttpMethod::POST
        } else if str_eq(tok.as_str(), "DELETE") {
            HttpMethod::DELETE
        } else {
            let mut e = "Failed to fetch method, got: ".to_owned();
            e.append(tok.as_str());
            return Err(e);
        };
        let path = pieces[n - 2].clone();
        let protocol = pieces[n - 1].clone();
        Ok(Self { method, path, protocol })
    }
}

/// The body of a request or response, as an owned byte buffer. Bodies are
/// held fully in memory: when a response carries one, its Content-Length
/// line is always computed from the stored byte length, so clients can rely
/// on the framing.
#[derive(Debug, Clone)]
pub struct HttpData {
    /// The body bytes.
    pub data: Vec<u8>,
}

/// The Content-Length header line announcing a body of `n` bytes.
pub open spec fn content_length_header_spec(n: int) -> Seq<char> {
    "Content-Length: "@ + spec_dec(n)
}

impl HttpData {
    /// Creates a body from a byte buffer.
    pub fn new(data: Vec<u8>) -> (r: Self)
        ensures
            r.data == data,
    {
        Self { data }
    }

    /// The Content-Length header line computed from the stored byte length.
    pub fn to_header(&self) -> (r: String)
        ensures
            r@ == content_length_header_spec(self.data@.len() as int),
    {
        let mut s = "Content-Length: ".to_owned();
        let num = usize_to_string(self.data.len());
        s.append(num.as_str());
        s
    }
}

/// The query pairs read from '&'-separated pieces: each piece is split once
/// on its first '='; pieces without '=' are dropped.
pub open spec fn qp_of_pieces(ps: Seq<Seq<char>>) -> Seq<(Seq<char>, Seq<char>)>
    decreases ps.len(),
{
    if ps.len() == 0 {
        Seq::empty()
    } else {
        let p = ps[0];
        let i = find_char_spec(p, '=');
        let rest = qp_of_pieces(ps.drop_first());
        if 0 <= i < p.len() {
            seq![(p.subrange(0, i), p.subrange(i + 1, p.len() as int))] + rest
        } else {
            rest
        }
    }
}

/// The ordered query parameters of a raw query string (without the '?').
pub open spec fn spec_query_params(s: Seq<char>) -> Seq<(Seq<char>, Seq<char>)> {
    qp_of_pieces(spec_split(s, '&'))
}

/// Splits a raw query string on '&', then each piece once on its first '=';
/// pieces without '=' are dropped. Duplicate keys and insertion order are
/// preserved.
pub fn parse_query_params(params: &str) -> (r: Vec<(String, String)>)
    ensures
        kv_view(r@) == spec_query_params(params@),
{
    let pieces = split_char(params, '&');
    let n = pieces.len();
    let mut out: Vec<(String, String)> = Vec::new();
    let mut i: usize = 0;
    proof {
        assert(strs_view(pieces@).subrange(0, n as int) =~= strs_view(pieces@));
        assert(kv_view(out@) =~= Seq::<(Seq<char>, Seq<char>)>::empty());
        assert(Seq::<(Seq<char>, Seq<char>)>::empty() + qp_of_pieces(strs_view(pieces@))
            =~= qp_of_pieces(strs_view(pieces@)));
    }
    while i < n
        invariant
            n == pieces@.len(),
            0 <= i <= n,
            strs_view(pieces@) == spec_split(params@, '&'),
            kv_view(out@) + qp_of_pieces(strs_view(pieces@).subrange(i as int, n as int))
                == spec_query_params(params@),
        decreases n - i,
    {
        let ghost pre = strs_view(pieces@).subrange(i as int, n as int);
        let ghost post = strs_view(pieces@).subrange(i + 1, n as int);
        proof {
            assert(pre.drop_first() =~= post);
            assert(pre[0] == pieces@[i as int]@);
        }
        let piece = &pieces[i];
        match find_char(piece.as_str(), '=') {
            Some(j) => {
                proof {
                    crate::strutil::lemma_find_char_spec(piece@, '=');
                }
                let m = piece.as_str().unicode_len();
                let key = piece.as_str().substring_char(0, j).to_owned();
                let val = piece.as_str().substring_char(j + 1, m).to_owned();
                let ghost out0 = out@;
                out.push((key, val));
                proof {
                    assert(kv_view(out@) =~= kv_view(out0) + seq![
                        (pre[0].subrange(0, j as int), pre[0].subrange(
                            j + 1,
                            pre[0].len() as int,
                        )),
                    ]);
                    assert(kv_view(out@) + qp_of_pieces(post) =~= kv_view(out0) + qp_of_pieces(
                        pre,
                    ));
                }
            },
            None => {},
        }
        i = i + 1;
    }
    proof {
        assert(strs_view(pieces@).subrange(n as int, n as int) =~= Seq::<Seq<char>>::empty());
        assert(kv_view(out@) + Seq::<(Seq<char>, Seq<char>)>::empty() =~= kv_view(out@));
    }
    out
}

/// The header pairs read from header lines: each line is split once on its
/// first ':' and both sides are trimmed; lines without ':' are skipped;
/// an empty line ends the header section.
pub open spec fn extra_headers_spec(ls: Seq<Seq<char>>) -> Seq<(Seq<char>, Seq<char>)>
    decreases ls.len(),
{
    if ls.len() == 0 || ls[0].len() == 0 {
        Seq::empty()
    } else {
        let l = ls[0];
        let i = find_char_spec(l, ':');
        let rest = extra_headers_spec(ls.drop_first());
        if 0 <= i < l.len() {
            seq![(trim_spec(l.subrange(0, i)), trim_spec(l.subrange(i + 1, l.len() as int)))]
                + rest
        } else {
            rest
        }
    }
}

/// The body length announced by the first Content-Length header, when its
/// value is a well-formed decimal that fits in `usize`; anything else means
/// no body is attached (a deliberately tolerant policy).
pub open spec fn body_len_spec(hs: Seq<(Seq<char>, Seq<char>)>) -> Option<int> {
    match spec_lookup(hs, "Content-Length"@) {
        Some(v) => if v.len() > 0 && all_digits(v) && spec_digits_val(v) <= usize::MAX as int {
            Some(spec_digits_val(v))
        } else {
            None
        },
        None => None,
    }
}

/// The view of the request line handed to the parser: the first line, or the
/// empty string when no line was read.
pub open spec fn first_line_view(lines: Seq<String>) -> Seq<char> {
    if lines.len() > 0 {
        lines[0]@
    } else {
        Seq::empty()
    }
}

/// A parsed request: request line, header pairs in original order, optional
/// body, and the route/query parameters attached during matching.
#[derive(Debug, Clone)]
pub struct HttpRequest {
    /// The client address, e.g. `127.0.0.1:8080`.
    pub client_ip: String,
    /// The request line.
    pub http_headers: HttpHeaders,
    /// Header pairs such as `Content-Length`, in wire order; duplicates kept.
    pub extra_headers: Vec<(String, String)>,
    /// The request body, when one was announced and read.
    pub data: Option<HttpData>,
    /// The route parameters bound by the matched pattern.
    pub route_params: Option<Vec<(String, String)>>,
    /// The query parameters split from the path.
    pub query_params: Option<Vec<(String, String)>>,
}

impl HttpRequest {
    /// Creates a request from its parts.
    pub fn new(
        client_ip: String,
        http_headers: HttpHeaders,
        extra_headers: Vec<(String, String)>,
        data: Option<HttpData>,
        route_params: Option<Vec<(String, String)>>,
        query_params: Option<Vec<(String, String)>>,
    ) -> (r: Self)
        ensures
            r.client_ip == client_ip,
            r.http_headers == http_headers,
            r.extra_headers == extra_headers,
            r.data == data,
            r.route_params == route_params,
            r.query_params == query_params,
    {
        Self { client_ip, http_headers, extra_headers, data, route_params, query_params }
    }

    /// The value of the first header with the given name, if any.
    pub fn get_extra_header(&self, header_name: String) -> (r: Option<String>)
        ensures
            match r {
                Some(v) => spec_lookup(kv_view(self.extra_headers@), header_name@) == Some(v@),
                None => spec_lookup(kv_view(self.extra_headers@), header_name@) is None,
            },
    {
        lookup_pair(&self.extra_headers, header_name.as_str())
    }

    /// The value of the first route parameter with the given name, if any.
    /// Keys carry the literal pattern token, including the leading ':'.
    pub fn get_route_param(&self, param_name: String) -> (r: Option<String>)
        ensures
            match self.route_params {
                Some(ps) => match r {
                    Some(v) => spec_lookup(kv_view(ps@), param_name@) == Some(v@),
                    None => spec_lookup(kv_view(ps@), param_name@) is None,
                },
                None => r is None,
            },
    {
        match &self.route_params {
            Some(ps) => lookup_pair(ps, param_name.as_str()),
            None => None,
        }
    }

    /// The value of the first query parameter with the given name, if any.
    pub fn get_query_param(&self, param_name: String) -> (r: Option<String>)
        ensures
            match self.query_params {
                Some(ps) => match r {
                    Some(v) => spec_lookup(kv_view(ps@), param_name@) == Some(v@),
                    None => spec_lookup(kv_view(ps@), param_name@) is None,
                },
                None => r is None,
            },
    {
        match &self.query_params {
            Some(ps) => lookup_pair(ps, param_name.as_str()),
            None => None,
        }
    }

    /// Splits a raw query string on '&', then each piece once on its first
    /// '='; pieces without '=' are dropped. Duplicate keys and insertion
    /// order are preserved. The request itself is not changed.
    pub fn query_params_from_string(&mut self, params: String) -> (r: Vec<(String, String)>)
        ensures
            kv_view(r@) == spec_query_params(params@),
            *final(self) == *old(self),
    {
        parse_query_params(params.as_str())
    }

    /// Builds a request from the header-section lines of one connection: the
    /// first line is the request line; the following lines are header lines,
    /// split once on ':' with both sides trimmed, malformed lines (no colon)
    /// skipped, and an empty line ending the section. Returns the request
    /// (with `data` left `None`) together with the body length announced by
    /// a well-formed Content-Length header, which the caller still has to
    /// read from its stream.
    pub fn from_lines(client_ip: String, lines: &Vec<String>) -> (r: Result<
        (Self, Option<usize>),
        String,
    >)
        ensures
            match r {
                Ok(p) => {
                    &&& from_line_ok(first_line_view(lines@)) == Some(
                        (p.0.http_headers.method, p.0.http_headers.path@, p.0.http_headers.protocol@),
                    )
                    &&& kv_view(p.0.extra_headers@) == extra_headers_spec(strs_view(lines@).skip(1))
                    &&& p.0.client_ip == client_ip
                    &&& p.0.data is None
                    &&& p.0.route_params is None
                    &&& p.0.query_params is None
                    &&& (match p.1 {
                        Some(nb) => body_len_spec(kv_view(p.0.extra_headers@)) == Some(nb as int),
                        None => body_len_spec(kv_view(p.0.extra_headers@)) is None,
                    })
                },
                Err(e) => from_line_ok(first_line_view(lines@)) is None && e@ == from_line_err(
                    first_line_view(lines@),
                ),
            },
    {
        let first = if lines.len() > 0 {
            lines[0].clone()
        } else {
            String::new()
        };
        let http_headers = match HttpHeaders::from_line(first) {
            Ok(h) => h,
            Err(e) => {
                return Err(e);
            },
        };
        let n = lines.len();
        let mut extra_headers: Vec<(String, String)> = Vec::new();
        let mut i: usize = 1;
        proof {
            assert(strs_view(lines@).subrange(1, n as int) =~= strs_view(lines@).skip(1));
            assert(kv_view(extra_headers@) =~= Seq::<(Seq<char>, Seq<char>)>::empty());
            assert(Seq::<(Seq<char>, Seq<char>)>::empty() + extra_headers_spec(
                strs_view(lines@).skip(1),
            ) =~= extra_headers_spec(strs_view(lines@).skip(1)));
        }
        while i < n && !lines[i].as_str().is_empty()
            invariant
                n == lines@.len(),
                1 <= i <= n || (i == 1 && n == 0),
                kv_view(extra_headers@) + extra_headers_spec(
                    strs_view(lines@).subrange(i as int, n as int),
                ) == extra_headers_spec(strs_view(lines@).skip(1)),
            decreases n - i,
        {
            let ghost pre = strs_view(lines@).subrange(i as int, n as int);
            let ghost post = strs_view(lines@).subrange(i + 1, n as int);
            proof {
                assert(pre.drop_first() =~= post);
                assert(pre[0] == lines@[i as int]@);
            }
            let line = &lines[i];
            match find_char(line.as_str(), ':') {
                Some(j) => {
                    proof {
                        crate::strutil::lemma_find_char_spec(line@, ':');
                    }
                    let m = line.as_str().unicode_len();
                    let key = trim_str(line.as_str().substring_char(0, j));
                    let val = trim_str(line.as_str().substring_char(j + 1, m));
                    let ghost hdrs0 = extra_headers@;
                    extra_headers.push((key, val));
                    proof {
                        assert(kv_view(extra_headers@) =~= kv_view(hdrs0) + seq![
                            (trim_spec(pre[0].subrange(0, j as int)), trim_spec(
                                pre[0].subrange(j + 1, pre[0].len() as int),
                            )),
                        ]);
                        assert(kv_view(extra_headers@) + extra_headers_spec(post) =~= kv_view(
                            hdrs0,
                        ) + extra_headers_spec(pre));
                    }
                },
                None => {},
            }
            i = i + 1;
        }
        proof {
            if i < n {
                assert(strs_view(lines@).subrange(i as int, n as int)[0].len() == 0);
            } else {
                assert(strs_view(lines@).subrange(i as int, n as int) =~= Seq::<Seq<char>>::empty());
            }
            assert(extra_headers_spec(strs_view(lines@).subrange(i as int, n as int))
                =~= Seq::<(Seq<char>, Seq<char>)>::empty());
            assert(kv_view(extra_headers@) + Seq::<(Seq<char>, Seq<char>)>::empty() =~= kv_view(
                extra_headers@,
            ));
        }
        let body_len = match lookup_pair(&extra_headers, "Content-Length") {
            Some(v) => parse_usize(v.as_str()),
            None => None,
        };
        Ok(
            (
                Self {
                    client_ip,
                    http_headers,
                    extra_headers,
                    data: None,
                    route_params: None,
                    query_params: None,
                },
                body_len,
            ),
        )
    }
}

/// A response: protocol version, status, optional extra headers, and an
/// optional body.
#[derive(Debug)]
pub struct HttpResponse {
    /// The http version token, e.g. `1.1`.
    pub http_ver: String,
    /// The response status.
    pub status: HttpStatus,
    /// Extra header pairs emitted after the computed ones, in order.
    pub extra_headers: Option<Vec<(String, String)>>,
    /// The response body.
    pub data: Option<HttpData>,
}

impl Default for HttpResponse {
    /// An empty 200 response over HTTP/1.1.
    fn default() -> (r: Self)
        ensures
            r.http_ver@ == "1.1"@,
            r.status == HttpStatus::Okay,
            r.extra_headers is None,
            r.data is None,
    {
        Self {
            http_ver: "1.1".to_owned(),
            status: HttpStatus::Okay,
            extra_headers: None,
            data: None,
        }
    }
}

/// The status line of a response: `HTTP/<version> <code> <reason>`.
pub open spec fn status_line_spec(resp: HttpResponse) -> Seq<char> {
    "HTTP/"@ + resp.http_ver@ + " "@ + header_spec(resp.status)
}

/// One extra header rendered as a wire line.
pub open spec fn header_line_spec(p: (Seq<char>, Seq<char>)) -> Seq<char> {
    p.0 + ": "@ + p.1
}

/// The ordered wire lines of a response: the status line, a Content-Length
/// line computed from the body when one is present, the extra headers in
/// registration order, and a final blank-line terminator.
pub open spec fn to_headers_spec(resp: HttpResponse) -> Seq<Seq<char>> {
    seq![status_line_spec(resp)] + (match resp.data {
        Some(d) => seq![content_length_header_spec(d.data@.len() as int)],
        None => Seq::<Seq<char>>::empty(),
    }) + (match resp.extra_headers {
        Some(hs) => kv_view(hs@).map_values(|p: (Seq<char>, Seq<char>)| header_line_spec(p)),
        None => Seq::<Seq<char>>::empty(),
    }) + seq!["\r\n"@]
}

impl HttpResponse {
    /// Creates a response from its parts.
    pub fn new(
        http_ver: String,
        status: HttpStatus,
        extra_headers: Option<Vec<(String, String)>>,
        data: Option<HttpData>,
    ) -> (r: Self)
        ensures
            r.http_ver == http_ver,
            r.status == status,
            r.extra_headers == extra_headers,
            r.data == data,
    {
        Self { http_ver, status, extra_headers, data }
    }

    /// The value of the first extra header with the given name, if any.
    pub fn get_extra_header(&self, header_name: String) -> (r: Option<String>)
        ensures
            match self.extra_headers {
                Some(hs) => match r {
                    Some(v) => spec_lookup(kv_view(hs@), header_name@) == Some(v@),
                    None => spec_lookup(kv_view(hs@), header_name@) is None,
                },
                None => r is None,
            },
    {
        match &self.extra_headers {
            Some(hs) => lookup_pair(hs, header_name.as_str()),
            None => None,
        }
    }

    /// The `<code> <reason>` fragment of the status line.
    pub fn status_to_header(&self) -> (r: String)
        ensures
            r@ == header_spec(self.status),
    {
        match self.status {
            HttpStatus::Continue => "100 Continue".to_owned(),
            HttpStatus::SwitchingProtocols => "101 Switching Protocols".to_owned(),
            HttpStatus::Processing => "102 Processing".to_owned(),
            HttpStatus::EarlyHints => "103 Early Hints".to_owned(),
            HttpStatus::Okay => "200 OK".to_owned(),
            HttpStatus::Created => "201 Created".to_owned(),
            HttpStatus::Accepted => "202 Accepted".to_owned(),
            HttpStatus::NonAuthorativeInformation => "203 Non-Authoritative Information".to_owned(),
            HttpStatus::NoContent => "204 No Content".to_owned(),
            HttpStatus::ResetContent => "205 Reset Content".to_owned(),
            HttpStatus::PartialContent => "206 Partial Content".to_owned(),
            HttpStatus::MultiStatus => "207 Multi-Status".to_owned(),
            HttpStatus::AlreadyReported => "208 Already Reported".to_owned(),
            HttpStatus::IMUsed => "226 IM Used".to_owned(),
            HttpStatus::MultipleChoices => "300 Multiple Choices".to_owned(),
            HttpStatus::MovedPermanently => "301 Moved Permanently".to_owned(),
            HttpStatus::Found => "302 Found".to_owned(),
            HttpStatus::SeeOther => "303 See Other".to_owned(),
            HttpStatus::NotModified => "304 Not Modified".to_owned(),
            HttpStatus::UseProxy => "305 Use Proxy".to_owned(),
            HttpStatus::Unused => "306 Unused".to_owned(),
            HttpStatus::TemporaryRedirect => "307 Temporary Redirect".to_owned(),
            HttpStatus::PermanentRedirect => "308 Permanent Redirect".to_owned(),
            HttpStatus::BadRequest => "400 Bad Request".to_owned(),
            HttpStatus::Unauthorized => "401 Unauthorized".to_owned(),
            HttpStatus::PaymentRequired => "402 Payment Required".to_owned(),
            HttpStatus::Forbidden => "403 Forbidden".to_owned(),
            HttpStatus::NotFound => "404 Not Found".to_owned(),
            HttpStatus::MethodNotAllowed => "405 Method Not Allowed".to_owned(),
            HttpStatus::NotAcceptable => "406 Not Acceptable".to_owned(),
            HttpStatus::ProxyAuthenticationRequired => "407 Proxy Authentication Required".to_owned(),
            HttpStatus::RequestTimeout => "408 Request Timeout".to_owned(),
            HttpStatus::Conflict => "409 Conflict".to_owned(),
            HttpStatus::Gone => "410 Gone".to_owned(),
            HttpStatus::LengthRequired => "411 Length Required".to_owned(),
            HttpStatus::PreconditionFailed => "412 Precondition Failed".to_owned(),
            HttpStatus::PayloadTooLarge => "413 Payload Too Large".to_owned(),
            HttpStatus::URITooLong => "414 URI Too Long".to_owned(),
            HttpStatus::UnsupportedMediaType => "415 Unsupported Media Type".to_owned(),
            HttpStatus::RangeNotSatisfiable => "416 Range Not Satisfiable".to_owned(),
            HttpStatus::ExpectationFailed => "417 Expectation Failed".to_owned(),
            HttpStatus::IMATeapot => "418 I'm a teapot".to_owned(),
            HttpStatus::MisdirectedRequest => "421 Misdirected Request".to_owned(),
            HttpStatus::UnprocessableContent => "422 Unprocessable Entity".to_owned(),
            HttpStatus::Locked => "423 Locked".to_owned(),
            HttpStatus::FailedDependency => "424 Failed Dependency".to_owned(),
            HttpStatus::TooEarly => "425 Too Early".to_owned(),
            HttpStatus::UpgradeRequired => "426 Upgrade Required".to_owned(),
            HttpStatus::PreconditionRequired => "428 Precondition Required".to_owned(),
            HttpStatus::TooManyRequests => "429 Too Many Requests".to_owned(),
            HttpStatus::RequestsHeaderFieldsTooLarge => "431 Request Header Fields Too Large".to_owned(),
            HttpStatus::UnavailableForLegalReasons => "451 Unavailable For Legal Reasons".to_owned(),
            HttpStatus::InternalServerError => "500 Internal Server Error".to_owned(),
            HttpStatus::NotImplemented => "501 Not Implemented".to_owned(),
            HttpStatus::BadGateway => "502 Bad Gateway".to_owned(),
            HttpStatus::ServiceUnavailable => "503 Service Unavailable".to_owned(),
            HttpStatus::GatewayTimeout => "504 Gateway Timeout".to_owned(),
            HttpStatus::HTTPVersionNotSupported => "505 HTTP Version Not Supported".to_owned(),
            HttpStatus::VariantAlsoNegotiates => "506 Variant Also Negotiates".to_owned(),
            HttpStatus::InsufficientStorage => "507 Insufficient Storage".to_owned(),
            HttpStatus::LoopDetected => "508 Loop Detected".to_owned(),
            HttpStatus::NotExtended => "510 Not Extended".to_owned(),
            HttpStatus::NetworkAuthenticationRequired => "511 Network Authentication Required".to_owned(),
        }
    }

    /// Serializes this response into its ordered wire lines; the caller joins
    /// them with CRLF and appends the body bytes.
    pub fn to_headers(&self) -> (r: Vec<String>)
        ensures
            strs_view(r@) == to_headers_spec(*self),
    {
        let mut headers: Vec<String> = Vec::new();
        let mut line = "HTTP/".to_owned();
        line.append(self.http_ver.as_str());
        line.append(" ");
        let st = self.status_to_header();
        line.append(st.as_str());
        proof {
            assert(line@ =~= status_line_spec(*self));
        }
        let ghost data_part: Seq<Seq<char>> = match &self.data {
            Some(d) => seq![content_length_header_spec(d.data@.len() as int)],
            None => Seq::<Seq<char>>::empty(),
        };
        let ghost extras_part: Seq<Seq<char>> = match &self.extra_headers {
            Some(hs) => kv_view(hs@).map_values(|p: (Seq<char>, Seq<char>)| header_line_spec(p)),
            None => Seq::<Seq<char>>::empty(),
        };
        headers.push(line);
        proof {
            assert(strs_view(headers@) =~= seq![status_line_spec(*self)]);
        }
        match &self.data {
            Some(data) => {
                let ghost hs0 = headers@;
                headers.push(data.to_header());
                proof {
                    assert(strs_view(headers@) =~= strs_view(hs0) + data_part);
                }
            },
            None => {
                proof {
                    assert(strs_view(headers@) =~= strs_view(headers@) + data_part);
                }
            },
        }
        let ghost head_part = strs_view(headers@);
        proof {
            assert(head_part =~= seq![status_line_spec(*self)] + data_part);
        }
        match &self.extra_headers {
            Some(extra) => {
                let n = extra.len();
                let mut i: usize = 0;
                proof {
                    assert(kv_view(extra@).subrange(0, 0).map_values(
                        |p: (Seq<char>, Seq<char>)| header_line_spec(p),
                    ) =~= Seq::<Seq<char>>::empty());
                    assert(head_part + Seq::<Seq<char>>::empty() =~= head_part);
                }
                while i < n
                    invariant
                        n == extra@.len(),
                        0 <= i <= n,
                        strs_view(headers@) == head_part + kv_view(extra@).subrange(
                            0,
                            i as int,
                        ).map_values(|p: (Seq<char>, Seq<char>)| header_line_spec(p)),
                    decreases n - i,
                {
                    let p = &extra[i];
                    let mut hl = p.0.clone();
                    hl.append(": ");
                    hl.append(p.1.as_str());
                    let ghost hs0 = headers@;
                    headers.push(hl);
                    proof {
                        assert(strs_view(headers@) =~= strs_view(hs0) + seq![
                            header_line_spec((extra@[i as int].0@, extra@[i as int].1@)),
                        ]);
                        assert(kv_view(extra@).subrange(0, i + 1).map_values(
                            |q: (Seq<char>, Seq<char>)| header_line_spec(q),
                        ) =~= kv_view(extra@).subrange(0, i as int).map_values(
                            |q: (Seq<char>, Seq<char>)| header_line_spec(q),
                        ) + seq![header_line_spec((extra@[i as int].0@, extra@[i as int].1@))]);
                    }
                    i = i + 1;
                }
                proof {
                    assert(kv_view(extra@).subrange(0, n as int) =~= kv_view(extra@));
                    assert(strs_view(headers@) == head_part + extras_part);
                }
            },
            None => {
                proof {
                    assert(strs_view(headers@) =~= head_part + extras_part);
                }
            },
        }
        let ghost hs1 = headers@;
        headers.push("\r\n".to_owned());
        proof {
            assert(strs_view(headers@) =~= strs_view(hs1) + seq!["\r\n"@]);
            assert(strs_view(headers@) =~= seq![status_line_spec(*self)] + data_part + extras_part
                + seq!["\r\n"@]);
            assert(strs_view(headers@) == to_headers_spec(*self));
        }
        headers
    }
}

} // verus!
