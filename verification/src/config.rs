//! Endpoint configuration: turning a URI-shaped address string into the
//! host and port the sink resolves and sends to.
//!
//! The address is parsed by the `http` crate's URI parser; the scheme is
//! ignored, and a missing host or port is a configuration error reported at
//! construction time, never retried.

use vstd::prelude::*;

use crate::sink::ResolveState;
use crate::sink::UdpSink;
use crate::sink::spec_fresh_backoff;

verus! {

/// Whether the address string parses as a URI at all.
pub uninterp spec fn uri_ok(address: Seq<char>) -> bool;

/// The host component of the parsed address, if the URI has one.
pub uninterp spec fn uri_host(address: Seq<char>) -> Option<Seq<char>>;

/// The port component of the parsed address, if the URI has one.
pub uninterp spec fn uri_port(address: Seq<char>) -> Option<u16>;

/// The view of an optional owned string.
pub open spec fn opt_string_view(o: Option<String>) -> Option<Seq<char>> {
    match o {
        Option::Some(s) => Option::Some(s@),
        Option::None => Option::None,
    }
}

/// Relies on the `http` crate's URI parser (`Uri`'s `FromStr` impl,
/// `Uri::host` and `Uri::port_u16`): whether the address parses, and the
/// host and port components it parses to, depend on the address string
/// alone. Returns the two components verbatim; the outer `None` reports a
/// parse failure.
#[verifier::external_body]
fn parse_address(address: &String) -> (r: Option<(Option<String>, Option<u16>)>)
    ensures
        r is Some <==> uri_ok(address@),
        r matches Some(parts) ==> opt_string_view(parts.0) == uri_host(address@) && parts.1
            == uri_port(address@),
{
    match address.parse::<http::Uri>() {
        Ok(uri) => Some((uri.host().map(|h| h.to_string()), uri.port_u16())),
        Err(_) => None,
    }
}

/// Configuration errors: reported at construction time, fatal to sink
/// setup, never retried.
#[derive(Clone, Copy, PartialEq, Eq, Structural, Debug)]
pub enum SinkBuildError {
    /// The address string does not parse as a URI.
    InvalidAddress,
    /// The address parses but names no host.
    MissingHost,
    /// The address parses but names no port.
    MissingPort,
}

/// Errors constructing the running sink around the machine. Binding the
/// UDP socket is the runtime's work, so the runtime reports this variant;
/// constructing the machine itself cannot fail.
#[derive(Clone, Copy, PartialEq, Eq, Structural, Debug)]
pub enum UdpBuildError {
    /// The UDP socket could not be bound at construction time.
    SocketBind,
}

/// Configuration of one UDP sink: a single URI-shaped address string.
#[derive(Clone, Debug)]
pub struct UdpSinkConfig {
    pub address: String,
}

impl UdpSinkConfig {
    pub fn new(address: String) -> (r: Self)
        ensures
            r.address == address,
    {
        UdpSinkConfig { address }
    }

    /// Extract host and port from the configured address. Succeeds exactly
    /// when the address parses as a URI that names both a host and a port;
    /// each way it can fail is reported by its own error, and nothing is
    /// bound or resolved here.
    pub fn prepare(&self) -> (r: Result<IntoUdpSink, SinkBuildError>)
        ensures
            r is Ok <==> uri_ok(self.address@) && uri_host(self.address@) is Some && uri_port(
                self.address@,
            ) is Some,
            r matches Ok(sink) ==> uri_host(self.address@) == Some(sink.host@) && uri_port(
                self.address@,
            ) == Some(sink.port),
            (r matches Err(e) && e is InvalidAddress) <==> !uri_ok(self.address@),
            (r matches Err(e) && e is MissingHost) <==> uri_ok(self.address@) && uri_host(
                self.address@,
            ) is None,
            (r matches Err(e) && e is MissingPort) <==> uri_ok(self.address@) && uri_host(
                self.address@,
            ) is Some && uri_port(self.address@) is None,
    {
        match parse_address(&self.address) {
            None => Err(SinkBuildError::InvalidAddress),
            Some((host_opt, port_opt)) => match host_opt {
                None => Err(SinkBuildError::MissingHost),
                Some(host) => match port_opt {
                    None => Err(SinkBuildError::MissingPort),
                    Some(port) => Ok(IntoUdpSink::new(host, port)),
                },
            },
        }
    }
}

/// The UDP transport has no handshake to probe before the first send, so
/// its healthcheck is trivially healthy.
pub fn udp_healthcheck() -> (r: bool)
    ensures
        r,
{
    true
}

/// A validated endpoint descriptor, ready to become a sink: the host and
/// port extracted from the configured address.
#[derive(Clone, Debug)]
pub struct IntoUdpSink {
    pub host: String,
    pub port: u16,
}

impl IntoUdpSink {
    pub fn new(host: String, port: u16) -> (r: Self)
        ensures
            r.host == host,
            r.port == port,
    {
        IntoUdpSink { host, port }
    }

    /// Construct the resolve-then-send machine for this endpoint. The
    /// machine itself always constructs; binding the socket is the
    /// runtime's work, and a bind failure is its `UdpBuildError`.
    pub fn into_sink(self) -> (r: Result<UdpSink, UdpBuildError>)
        ensures
            r matches Ok(sink) && sink.host == self.host && sink.port == self.port && sink.state
                == ResolveState::Initializing && sink.backoff == spec_fresh_backoff()
                && !sink.failed,
    {
        Ok(UdpSink::new(self.host, self.port))
    }
}

} // verus!
