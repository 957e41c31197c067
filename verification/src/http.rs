//! HTTP: request headers, and the configuration of an HTTP instance in
//! the form the firmware takes.

use crate::error::Error;
use crate::status::{Status, SUCCESS};
use vstd::prelude::*;

verus! {

/// An HTTP header: a name and a value, each a string of 8-bit characters
/// without its terminating nul.
#[derive(Clone, Copy, Debug)]
pub struct HttpHeader<'a> {
    pub name: &'a [u8],
    pub value: &'a [u8],
}

impl<'a> HttpHeader<'a> {
    /// A header with this name and value.
    pub fn new(name: &'a [u8], value: &'a [u8]) -> (h: Self)
        ensures
            h.name@ == name@,
            h.value@ == value@,
    {
        HttpHeader { name, value }
    }
}


/// The HTTP version: 1.0.
pub const HTTP_VERSION_10: u32 = 0;
/// The HTTP version: 1.1.
pub const HTTP_VERSION_11: u32 = 1;
/// An HTTP version that is not supported.
pub const HTTP_VERSION_UNSUPPORTED: u32 = 2;

/// An HTTP version.
#[derive(Clone, Copy, Debug, PartialEq, Eq, Structural)]
pub struct HttpVersion(pub u32);

/// Where an HTTP instance sends from over IPv4.
#[derive(Clone, Copy, Debug, PartialEq, Eq)]
pub struct HttpV4AccessPoint {
    /// Whether to use the default address and subnet.
    pub use_default_addr: bool,
    pub local_address: [u8; 4],
    pub local_subnet: [u8; 4],
    pub local_port: u16,
}

/// Where an HTTP instance sends from over IPv6.
#[derive(Clone, Copy, Debug, PartialEq, Eq)]
pub struct HttpV6AccessPoint {
    pub local_address: [u8; 16],
    pub local_port: u16,
}

/// Where an HTTP instance sends from.
#[derive(Clone, Copy, Debug, PartialEq, Eq)]
pub enum HttpAccessPoint {
    IpV4(HttpV4AccessPoint),
    IpV6(HttpV6AccessPoint),
}

/// The default access point: IPv4 on port 80 with the default address.
pub open spec fn default_access_point() -> HttpAccessPoint {
    HttpAccessPoint::IpV4(
        HttpV4AccessPoint {
            use_default_addr: true,
            local_address: [0u8, 0u8, 0u8, 0u8],
            local_subnet: [0u8, 0u8, 0u8, 0u8],
            local_port: 80,
        },
    )
}

impl Default for HttpAccessPoint {
    fn default() -> (a: Self)
        ensures
            a == default_access_point(),
    {
        HttpAccessPoint::IpV4(
            HttpV4AccessPoint {
                use_default_addr: true,
                local_address: [0u8, 0u8, 0u8, 0u8],
                local_subnet: [0u8, 0u8, 0u8, 0u8],
                local_port: 80,
            },
        )
    }
}

/// A span of time: whole seconds and the nanoseconds beyond them.
#[derive(Clone, Copy, Debug, PartialEq, Eq, Structural)]
pub struct Timeout {
    pub secs: u64,
    pub subsec_nanos: u32,
}

/// The whole milliseconds in a span of time.
pub open spec fn timeout_millis(t: Timeout) -> int {
    t.secs * 1000 + t.subsec_nanos / 1_000_000
}

impl Timeout {
    /// The whole milliseconds in the span.
    pub fn as_millis(&self) -> (m: u128)
        ensures
            m == timeout_millis(*self),
    {
        self.secs as u128 * 1000 + (self.subsec_nanos / 1_000_000) as u128
    }

    /// A span of `ms` milliseconds.
    pub fn from_millis(ms: u64) -> (t: Timeout)
        ensures
            t.secs == ms / 1000,
            t.subsec_nanos == (ms % 1000) * 1_000_000,
            timeout_millis(t) == ms,
    {
        Timeout { secs: ms / 1000, subsec_nanos: ((ms % 1000) * 1_000_000) as u32 }
    }
}

/// How an HTTP instance is configured.
#[derive(Clone, Copy, Debug, PartialEq, Eq)]
pub struct HttpConfiguration {
    pub http_version: HttpVersion,
    pub timeout: Timeout,
    pub access_point: HttpAccessPoint,
}

/// How the firmware takes and gives an HTTP configuration: the timeout in
/// milliseconds, and whether the access point is an IPv6 one.
#[derive(Clone, Copy, Debug, PartialEq, Eq)]
pub struct HttpConfigData {
    pub http_version: HttpVersion,
    pub time_out_millisec: u32,
    pub local_addr_is_ipv6: bool,
    pub access_point: HttpAccessPoint,
}

/// The firmware's form of a configuration whose timeout fits in 32 bits of
/// milliseconds.
pub open spec fn config_data_of(config: HttpConfiguration) -> HttpConfigData {
    HttpConfigData {
        http_version: config.http_version,
        time_out_millisec: timeout_millis(config.timeout) as u32,
        local_addr_is_ipv6: config.access_point is IpV6,
        access_point: config.access_point,
    }
}

/// The configuration that the firmware's form stands for.
pub open spec fn configuration_of(data: HttpConfigData) -> HttpConfiguration {
    HttpConfiguration {
        http_version: data.http_version,
        timeout: Timeout {
            secs: (data.time_out_millisec / 1000) as u64,
            subsec_nanos: ((data.time_out_millisec % 1000) * 1_000_000) as u32,
        },
        access_point: data.access_point,
    }
}

/// Turns a configuration into the firmware's form, as configuring an HTTP
/// instance does; a timeout of more than `u32::MAX` milliseconds is an
/// invalid parameter.
pub fn config_data(config: &HttpConfiguration) -> (r: Result<HttpConfigData, Error>)
    ensures
        timeout_millis(config.timeout) <= u32::MAX ==> r == Ok::<HttpConfigData, Error>(
            config_data_of(*config),
        ),
        timeout_millis(config.timeout) > u32::MAX ==> r == Err::<HttpConfigData, Error>(
            Error::InvalidParameter,
        ),
{
    let ms = config.timeout.as_millis();
    if ms > u32::MAX as u128 {
        return Err(Error::InvalidParameter);
    }
    let local_addr_is_ipv6 = match config.access_point {
        HttpAccessPoint::IpV4(_) => false,
        HttpAccessPoint::IpV6(_) => true,
    };
    Ok(
        HttpConfigData {
            http_version: config.http_version,
            time_out_millisec: ms as u32,
            local_addr_is_ipv6,
            access_point: config.access_point,
        },
    )
}

/// Reads a configuration from the firmware's form, as asking an HTTP
/// instance for its configuration does.
pub fn configuration(data: &HttpConfigData) -> (c: HttpConfiguration)
    ensures
        c == configuration_of(*data),
{
    HttpConfiguration {
        http_version: data.http_version,
        timeout: Timeout::from_millis(data.time_out_millisec as u64),
        access_point: data.access_point,
    }
}

/// A configuration whose timeout is a whole number of milliseconds that
/// fits in 32 bits reads back unchanged from the firmware's form.
pub proof fn lemma_configuration_roundtrip(config: HttpConfiguration)
    requires
        config.timeout.subsec_nanos % 1_000_000 == 0,
        config.timeout.subsec_nanos < 1_000_000_000,
        timeout_millis(config.timeout) <= u32::MAX,
    ensures
        configuration_of(config_data_of(config)) == config,
{
    let t = config.timeout;
    let ms = timeout_millis(t);
    assert(ms / 1000 == t.secs && ms % 1000 == t.subsec_nanos / 1_000_000) by (nonlinear_arith)
        requires
            ms == t.secs * 1000 + t.subsec_nanos / 1_000_000,
            t.subsec_nanos < 1_000_000_000,
    ;
    assert((t.subsec_nanos / 1_000_000) * 1_000_000 == t.subsec_nanos) by (nonlinear_arith)
        requires
            t.subsec_nanos % 1_000_000 == 0,
    ;
}

/// The firmware's form of a configuration read from it is the form it was
/// read from, when its IPv6 flag matches its access point.
pub proof fn lemma_config_data_roundtrip(data: HttpConfigData)
    requires
        data.local_addr_is_ipv6 == data.access_point is IpV6,
    ensures
        timeout_millis(configuration_of(data).timeout) == data.time_out_millisec,
        config_data_of(configuration_of(data)) == data,
{
    let ms = data.time_out_millisec as int;
    assert((ms / 1000) * 1000 + ((ms % 1000) * 1_000_000) / 1_000_000 == ms) by (nonlinear_arith)
        requires
            ms >= 0,
    ;
}


/// Which message of an exchange is under way: the request going out, or
/// the response coming in.
#[derive(Clone, Copy, Debug, PartialEq, Eq, Structural)]
pub enum HttpStage {
    Request,
    Response,
}

/// What happened last in an exchange.
#[derive(Clone, Copy, Debug, PartialEq, Eq, Structural)]
pub enum HttpEvent {
    /// The call that starts the stage returned this status.
    Called(Status),
    /// The completion event was checked: whether it fired, and the status
    /// the firmware left in the token.
    Checked { is_done: bool, token_status: Status },
    /// Polling the instance returned this status.
    Polled(Status),
}

/// What an exchange does next.
#[derive(Clone, Copy, Debug, PartialEq, Eq, Structural)]
pub enum HttpStep {
    /// Check whether the stage is done.
    Check,
    /// Poll the instance, then check again.
    Poll,
    /// The request went out: start receiving the response.
    ReceiveResponse,
    /// The response has come in.
    Received,
    /// The exchange failed with this status.
    Failed(Status),
}

/// The step that follows an event of a stage: a call or a poll that fails
/// ends the exchange with its status, one that succeeds leads to a check;
/// a check finds the stage either still running (poll), failed with the
/// token's status, or done, which leads from the request to the response
/// and from the response to its end.
pub open spec fn next_step_of(stage: HttpStage, event: HttpEvent) -> HttpStep {
    match event {
        HttpEvent::Called(st) => if st.0 == SUCCESS {
            HttpStep::Check
        } else {
            HttpStep::Failed(st)
        },
        HttpEvent::Polled(st) => if st.0 == SUCCESS {
            HttpStep::Check
        } else {
            HttpStep::Failed(st)
        },
        HttpEvent::Checked { is_done, token_status } => if !is_done {
            HttpStep::Poll
        } else if token_status.0 != SUCCESS {
            HttpStep::Failed(token_status)
        } else {
            match stage {
                HttpStage::Request => HttpStep::ReceiveResponse,
                HttpStage::Response => HttpStep::Received,
            }
        },
    }
}

/// The step that follows an event of a stage of a synchronous exchange.
pub fn next_step(stage: HttpStage, event: HttpEvent) -> (step: HttpStep)
    ensures
        step == next_step_of(stage, event),
{
    match event {
        HttpEvent::Called(st) => if st.0 == SUCCESS {
            HttpStep::Check
        } else {
            HttpStep::Failed(st)
        },
        HttpEvent::Polled(st) => if st.0 == SUCCESS {
            HttpStep::Check
        } else {
            HttpStep::Failed(st)
        },
        HttpEvent::Checked { is_done, token_status } => if !is_done {
            HttpStep::Poll
        } else if token_status.0 != SUCCESS {
            HttpStep::Failed(token_status)
        } else {
            match stage {
                HttpStage::Request => HttpStep::ReceiveResponse,
                HttpStage::Response => HttpStep::Received,
            }
        },
    }
}

/// An exchange fails exactly with a status that is not success, and only a
/// finished response ends it successfully.
pub proof fn lemma_exchange_steps(stage: HttpStage, event: HttpEvent)
    ensures
        next_step_of(stage, event) matches HttpStep::Failed(st) ==> st.0 != SUCCESS,
        next_step_of(stage, event) == HttpStep::Received ==> stage == HttpStage::Response,
        next_step_of(stage, event) == HttpStep::ReceiveResponse ==> stage == HttpStage::Request,
{
}


/// An HTTP method.
#[derive(Clone, Copy, Debug, PartialEq, Eq, Structural)]
pub struct HttpMethod(pub u32);

pub const HTTP_METHOD_GET: u32 = 0;
pub const HTTP_METHOD_POST: u32 = 1;
pub const HTTP_METHOD_PATCH: u32 = 2;
pub const HTTP_METHOD_OPTIONS: u32 = 3;
pub const HTTP_METHOD_CONNECT: u32 = 4;
pub const HTTP_METHOD_HEAD: u32 = 5;
pub const HTTP_METHOD_PUT: u32 = 6;
pub const HTTP_METHOD_DELETE: u32 = 7;
pub const HTTP_METHOD_TRACE: u32 = 8;

/// A request to send: the method, the URL in UCS-2, the headers in order
/// and the body.
#[derive(Clone, Copy, Debug)]
pub struct HttpRequest<'a> {
    pub method: HttpMethod,
    pub url: &'a [u16],
    pub headers: &'a [HttpHeader<'a>],
    pub body: &'a [u8],
}

/// The size of a header record in the firmware's layout: two addresses.
pub const HTTP_HEADER_SIZE: usize = 16;

/// The size of the body buffer offered for a response.
pub const RESPONSE_BODY_SIZE: usize = 4096;

/// The request part of a message: the method and the URL.
#[derive(Debug)]
pub struct HttpRequestData {
    pub method: HttpMethod,
    pub url: Vec<u16>,
}

/// A message handed to the HTTP driver.
#[derive(Debug)]
pub struct HttpMessage {
    /// The request's method and URL; `None` for a response.
    pub request: Option<HttpRequestData>,
    /// The headers, as name and value, in order; their number is the
    /// message's header count.
    pub headers: Vec<(Vec<u8>, Vec<u8>)>,
    /// The length of the body.
    pub body_length: usize,
    /// The pool memory the message needs: its memory type and size in
    /// bytes (the header records of a request, the body of a response).
    pub pool: (u32, usize),
}

/// Whether `m` is the message that sends `req`: its method and URL, its
/// headers in order, the length of its body, and pool memory of loader data
/// for the header records.
pub open spec fn is_request_message(m: HttpMessage, req: HttpRequest) -> bool {
    &&& (m.request matches Some(d) && d.method == req.method && d.url@ == req.url@)
    &&& m.headers@.len() == req.headers@.len()
    &&& forall|i: int|
        0 <= i < m.headers@.len() ==> (#[trigger] m.headers@[i]).0@ == req.headers@[i].name@
            && m.headers@[i].1@ == req.headers@[i].value@
    &&& m.body_length == req.body@.len()
    &&& m.pool == (crate::firmware::LOADER_DATA, (HTTP_HEADER_SIZE * req.headers@.len()) as usize)
}

/// Whether `m` is the message that receives a response: no request part,
/// no headers, and a body of 4096 bytes of loader data from the pool.
pub open spec fn is_response_message(m: HttpMessage) -> bool {
    &&& m.request is None
    &&& m.headers@.len() == 0
    &&& m.body_length == RESPONSE_BODY_SIZE
    &&& m.pool == (crate::firmware::LOADER_DATA, RESPONSE_BODY_SIZE)
}

/// The message that sends a request: the first stage of a synchronous
/// exchange.
pub fn request_message(req: &HttpRequest) -> (m: HttpMessage)
    requires
        HTTP_HEADER_SIZE * req.headers@.len() <= usize::MAX,
    ensures
        is_request_message(m, *req),
{
    let mut headers: Vec<(Vec<u8>, Vec<u8>)> = Vec::new();
    let mut i: usize = 0;
    while i < req.headers.len()
        invariant
            i <= req.headers@.len(),
            headers@.len() == i,
            forall|k: int|
                0 <= k < i ==> (#[trigger] headers@[k]).0@ == req.headers@[k].name@ && headers@[k].1@
                    == req.headers@[k].value@,
        decreases req.headers@.len() - i,
    {
        let h = req.headers[i];
        headers.push((vstd::slice::slice_to_vec(h.name), vstd::slice::slice_to_vec(h.value)));
        i = i + 1;
    }
    HttpMessage {
        request: Some(HttpRequestData { method: req.method, url: vstd::slice::slice_to_vec(req.url) }),
        headers,
        body_length: req.body.len(),
        pool: (crate::firmware::LOADER_DATA, HTTP_HEADER_SIZE * req.headers.len()),
    }
}

/// The message that receives the response, once the request went out
/// ([`HttpStep::ReceiveResponse`]).
pub fn response_message() -> (m: HttpMessage)
    ensures
        is_response_message(m),
{
    HttpMessage {
        request: None,
        headers: Vec::new(),
        body_length: RESPONSE_BODY_SIZE,
        pool: (crate::firmware::LOADER_DATA, RESPONSE_BODY_SIZE),
    }
}


/// The message to hand the driver after an event of a stage: the
/// response's message exactly when the event moves the exchange from the
/// request to the response, and none otherwise.
pub fn message_after(stage: HttpStage, event: HttpEvent) -> (m: Option<HttpMessage>)
    ensures
        m is Some <==> next_step_of(stage, event) == HttpStep::ReceiveResponse,
        m matches Some(msg) ==> is_response_message(msg),
{
    match next_step(stage, event) {
        HttpStep::ReceiveResponse => Some(response_message()),
        _ => None,
    }
}

/// The message handed to the driver at the start of a stage: the request's
/// message, then the response's.
pub fn message_for(stage: HttpStage, req: &HttpRequest) -> (m: HttpMessage)
    requires
        HTTP_HEADER_SIZE * req.headers@.len() <= usize::MAX,
    ensures
        stage == HttpStage::Request ==> is_request_message(m, *req),
        stage == HttpStage::Response ==> is_response_message(m),
{
    match stage {
        HttpStage::Request => request_message(req),
        HttpStage::Response => response_message(),
    }
}

} // verus!
