use vstd::prelude::*;

use crate::header::{Header, HeaderView, first_value, get_header, headers_view, same_bytes};

verus! {

/// What the upstream sent back, with its body as read to the end, or the
/// reason the read broke off.
#[derive(Debug)]
pub struct UpstreamResponse {
    pub status: u16,
    pub headers: Vec<Header>,
    pub body: Result<Vec<u8>, String>,
}

/// The transport produced no response (connection, DNS, TLS, timeout).
#[derive(Debug)]
pub struct TransportError {
    pub cause: String,
}

/// The response handed back to the server side.
#[derive(Debug)]
pub struct InboundResponse {
    pub status: u16,
    pub headers: Vec<Header>,
    pub body: Vec<u8>,
}

/// What the translation asks to have logged.
#[derive(Debug)]
pub enum LogEntry {
    /// Error level: the transport failed, for this cause.
    TransportFailed { cause: String },
    /// Error level: the upstream body could not be read, for this cause.
    BodyReadFailed { cause: String },
    /// Error level: the upstream body was not valid gzip.
    BodyDecodeFailed,
    /// Info level: the upstream answered with a status outside 200 to 299.
    UpstreamStatus { status: u16 },
}

impl LogEntry {
    pub open spec fn spec_is_error(&self) -> bool {
        !(self is UpstreamStatus)
    }

    /// Whether the entry is logged at error level.
    #[verifier::when_used_as_spec(spec_is_error)]
    pub fn is_error(&self) -> (r: bool)
        ensures
            r == self.spec_is_error(),
    {
        match self {
            LogEntry::UpstreamStatus { .. } => false,
            _ => true,
        }
    }
}

/// An inbound response together with what to log about it.
#[derive(Debug)]
pub struct TranslatedResponse {
    pub response: InboundResponse,
    pub log: Vec<LogEntry>,
}

/// A transport outcome under translation, with the two body policies:
/// whether a gzip body is decoded before it is forwarded, and whether the
/// body of a response outside 200 to 299 is forwarded (raw) or dropped.
#[derive(Debug)]
pub struct ResponseWrapper {
    pub response: Result<UpstreamResponse, TransportError>,
    pub decode_content_encoding: bool,
    pub forward_error_body: bool,
}

pub open spec fn is_success_status(status: u16) -> bool {
    200 <= status && status <= 299
}

pub open spec fn content_encoding_name() -> Seq<u8> {
    seq![99u8, 111u8, 110u8, 116u8, 101u8, 110u8, 116u8, 45u8, 101u8, 110u8, 99u8, 111u8, 100u8, 105u8, 110u8, 103u8]
}

pub open spec fn gzip_token() -> Seq<u8> {
    seq![103u8, 122u8, 105u8, 112u8]
}

pub open spec fn content_type_name() -> Seq<u8> {
    seq![99u8, 111u8, 110u8, 116u8, 101u8, 110u8, 116u8, 45u8, 116u8, 121u8, 112u8, 101u8]
}

pub open spec fn gzip_media_type() -> Seq<u8> {
    seq![97u8, 112u8, 112u8, 108u8, 105u8, 99u8, 97u8, 116u8, 105u8, 111u8, 110u8, 47u8, 103u8, 122u8, 105u8, 112u8]
}

/// The diagnostic body of a failure response.
pub open spec fn failure_body() -> Seq<u8> {
    seq![117u8, 112u8, 115u8, 116u8, 114u8, 101u8, 97u8, 109u8, 32u8, 114u8, 101u8, 113u8, 117u8, 101u8, 115u8, 116u8, 32u8, 102u8, 97u8, 105u8, 108u8, 101u8, 100u8]
}

/// The body is gzip: the first `content-encoding` is `gzip`, or the first
/// `content-type` is `application/gzip`.
pub open spec fn is_gzip_body(h: Seq<HeaderView>) -> bool {
    first_value(h, content_encoding_name()) == Some(gzip_token()) || first_value(
        h,
        content_type_name(),
    ) == Some(gzip_media_type())
}

/// The response that stands for a failure: status 500, no headers, a
/// diagnostic body.
pub open spec fn is_failure_response(r: InboundResponse) -> bool {
    &&& r.status == 500
    &&& r.headers@.len() == 0
    &&& r.body@ == failure_body()
}

/// What `gzip` decoding makes of a byte stream, `None` where it is not valid
/// gzip.
pub uninterp spec fn gunzip_of(b: Seq<u8>) -> Option<Seq<u8>>;

/// Relies on async_compression's `GzipDecoder` (futures, bufread), read to its
/// end: the decoded bytes, or an error where the input is not valid gzip. The
/// reader is a byte slice, which is never pending, so one poll finishes the
/// read and no executor is entered.
#[verifier::external_body]
fn gunzip(data: &Vec<u8>) -> (r: Option<Vec<u8>>)
    ensures
        match r {
            Some(v) => gunzip_of(data@) == Some(v@),
            None => gunzip_of(data@) is None,
        },
{
    let mut decoder = async_compression::futures::bufread::GzipDecoder::new(data.as_slice());
    let mut out: Vec<u8> = Vec::new();
    let read = futures::io::AsyncReadExt::read_to_end(&mut decoder, &mut out);
    match futures::FutureExt::now_or_never(read) {
        Some(Ok(_)) => Some(out),
        _ => None,
    }
}

/// Whether a status is in 200 to 299.
pub fn is_success(status: u16) -> (r: bool)
    ensures
        r == is_success_status(status),
{
    200 <= status && status <= 299
}

/// Whether headers `h` announce a gzip body.
pub fn gzip_announced(h: &Vec<Header>) -> (r: bool)
    ensures
        r == is_gzip_body(headers_view(h@)),
{
    let ce: Vec<u8> = vec![99u8, 111u8, 110u8, 116u8, 101u8, 110u8, 116u8, 45u8, 101u8, 110u8, 99u8, 111u8, 100u8, 105u8, 110u8, 103u8];
    let gz: Vec<u8> = vec![103u8, 122u8, 105u8, 112u8];
    let ct: Vec<u8> = vec![99u8, 111u8, 110u8, 116u8, 101u8, 110u8, 116u8, 45u8, 116u8, 121u8, 112u8, 101u8];
    let ag: Vec<u8> = vec![97u8, 112u8, 112u8, 108u8, 105u8, 99u8, 97u8, 116u8, 105u8, 111u8, 110u8, 47u8, 103u8, 122u8, 105u8, 112u8];
    assert(ce@ =~= content_encoding_name());
    assert(gz@ =~= gzip_token());
    assert(ct@ =~= content_type_name());
    assert(ag@ =~= gzip_media_type());
    let by_encoding = match get_header(h, &ce) {
        Some(v) => same_bytes(v, &gz),
        None => false,
    };
    if by_encoding {
        return true;
    }
    match get_header(h, &ct) {
        Some(v) => same_bytes(v, &ag),
        None => false,
    }
}

/// The failure response: status 500, no headers, a diagnostic body.
pub fn failure_response() -> (r: InboundResponse)
    ensures
        is_failure_response(r),
{
    let body: Vec<u8> = vec![117u8, 112u8, 115u8, 116u8, 114u8, 101u8, 97u8, 109u8, 32u8, 114u8, 101u8, 113u8, 117u8, 101u8, 115u8, 116u8, 32u8, 102u8, 97u8, 105u8, 108u8, 101u8, 100u8];
    assert(body@ =~= failure_body());
    InboundResponse { status: 500, headers: Vec::new(), body }
}

/// The response for a success status whose body has been decoded, or has
/// failed to decode (`None`).
pub fn respond_with_body(status: u16, headers: Vec<Header>, body: Option<Vec<u8>>) -> (r:
    TranslatedResponse)
    ensures
        match body {
            Some(b) => {
                &&& r.response.status == status
                &&& r.response.headers@ == headers@
                &&& r.response.body@ == b@
                &&& r.log@.len() == 0
            },
            None => {
                &&& is_failure_response(r.response)
                &&& r.log@ == seq![LogEntry::BodyDecodeFailed]
            },
        },
{
    match body {
        Some(b) => TranslatedResponse {
            response: InboundResponse { status, headers, body: b },
            log: Vec::new(),
        },
        None => {
            let mut log: Vec<LogEntry> = Vec::new();
            log.push(LogEntry::BodyDecodeFailed);
            assert(log@ =~= seq![LogEntry::BodyDecodeFailed]);
            TranslatedResponse { response: failure_response(), log }
        },
    }
}

impl ResponseWrapper {
    /// A wrapper that decodes gzip bodies and drops the bodies of responses
    /// outside 200 to 299.
    pub fn new(response: Result<UpstreamResponse, TransportError>) -> (r: Self)
        ensures
            r.response == response,
            r.decode_content_encoding,
            !r.forward_error_body,
    {
        Self { response, decode_content_encoding: true, forward_error_body: false }
    }

    /// The same wrapper, decoding gzip bodies or not as `decode` says.
    pub fn with_decoding(self, decode: bool) -> (r: Self)
        ensures
            r.response == self.response,
            r.decode_content_encoding == decode,
            r.forward_error_body == self.forward_error_body,
    {
        Self {
            response: self.response,
            decode_content_encoding: decode,
            forward_error_body: self.forward_error_body,
        }
    }

    /// The same wrapper, forwarding the bodies of responses outside 200 to 299
    /// or not as `forward` says.
    pub fn with_error_body(self, forward: bool) -> (r: Self)
        ensures
            r.response == self.response,
            r.decode_content_encoding == self.decode_content_encoding,
            r.forward_error_body == forward,
    {
        Self {
            response: self.response,
            decode_content_encoding: self.decode_content_encoding,
            forward_error_body: forward,
        }
    }

    /// The inbound response for the transport outcome, and what to log.
    pub fn into(self) -> (r: TranslatedResponse)
        ensures
            match self.response {
                Err(e) => {
                    &&& is_failure_response(r.response)
                    &&& r.log@ == seq![LogEntry::TransportFailed { cause: e.cause }]
                },
                Ok(u) => if !is_success_status(u.status) {
                    if !self.forward_error_body {
                        &&& r.response.status == u.status
                        &&& r.response.headers@ == u.headers@
                        &&& r.response.body@.len() == 0
                        &&& r.log@ == seq![LogEntry::UpstreamStatus { status: u.status }]
                    } else {
                        match u.body {
                            Err(cause) => {
                                &&& is_failure_response(r.response)
                                &&& r.log@ == seq![LogEntry::BodyReadFailed { cause }]
                            },
                            Ok(b) => {
                                &&& r.response.status == u.status
                                &&& r.response.headers@ == u.headers@
                                &&& r.response.body@ == b@
                                &&& r.log@ == seq![LogEntry::UpstreamStatus { status: u.status }]
                            },
                        }
                    }
                } else {
                    match u.body {
                        Err(cause) => {
                            &&& is_failure_response(r.response)
                            &&& r.log@ == seq![LogEntry::BodyReadFailed { cause }]
                        },
                        Ok(b) => if self.decode_content_encoding && is_gzip_body(
                            headers_view(u.headers@),
                        ) {
                            match gunzip_of(b@) {
                                Some(p) => {
                                    &&& r.response.status == u.status
                                    &&& r.response.headers@ == u.headers@
                                    &&& r.response.body@ == p
                                    &&& r.log@.len() == 0
                                },
                                None => {
                                    &&& is_failure_response(r.response)
                                    &&& r.log@ == seq![LogEntry::BodyDecodeFailed]
                                },
                            }
                        } else {
                            &&& r.response.status == u.status
                            &&& r.response.headers@ == u.headers@
                            &&& r.response.body@ == b@
                            &&& r.log@.len() == 0
                        },
                    }
                },
            },
    {
        let decode = self.decode_content_encoding;
        let forward_error_body = self.forward_error_body;
        match self.response {
            Err(e) => {
                let mut log: Vec<LogEntry> = Vec::new();
                log.push(LogEntry::TransportFailed { cause: e.cause });
                TranslatedResponse { response: failure_response(), log }
            },
            Ok(u) => {
                let UpstreamResponse { status, headers, body } = u;
                if !is_success(status) {
                    let kept = if forward_error_body {
                        match body {
                            Ok(b) => b,
                            Err(cause) => {
                                let mut log: Vec<LogEntry> = Vec::new();
                                log.push(LogEntry::BodyReadFailed { cause });
                                return TranslatedResponse { response: failure_response(), log };
                            },
                        }
                    } else {
                        Vec::new()
                    };
                    let mut log: Vec<LogEntry> = Vec::new();
                    log.push(LogEntry::UpstreamStatus { status });
                    return TranslatedResponse {
                        response: InboundResponse { status, headers, body: kept },
                        log,
                    };
                }
                match body {
                    Err(cause) => {
                        let mut log: Vec<LogEntry> = Vec::new();
                        log.push(LogEntry::BodyReadFailed { cause });
                        TranslatedResponse { response: failure_response(), log }
                    },
                    Ok(raw) => {
                        if decode && gzip_announced(&headers) {
                            let decoded = gunzip(&raw);
                            respond_with_body(status, headers, decoded)
                        } else {
                            respond_with_body(status, headers, Some(raw))
                        }
                    },
                }
            },
        }
    }
}

} // verus!
