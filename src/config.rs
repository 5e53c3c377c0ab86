use vstd::prelude::*;

verus! {

/// Connect timeout used when none is set, in milliseconds.
pub const DEFAULT_CONNECT_TIMEOUT_MS: u64 = 15000;

/// Request timeout used when none is set, in milliseconds.
pub const DEFAULT_REQUEST_TIMEOUT_MS: u64 = 30000;

/// Port of the socket protocol when the caller names none.
pub const DEFAULT_PORT: u16 = 4028;

/// Library-level settings of a client: timeouts (in milliseconds), the
/// connection budget (0 for none) and whether tokens are shared across
/// handles.
#[derive(Debug, Clone, Copy)]
pub struct ClientBuilder {
    pub connect_timeout_ms: u64,
    pub request_timeout_ms: u64,
    pub max_connections: usize,
    pub cache_token: bool,
}

impl ClientBuilder {
    /// The default settings: 15 s to connect, 30 s per request, no budget, no
    /// shared tokens.
    pub fn new() -> (r: Self)
        ensures
            r.connect_timeout_ms == DEFAULT_CONNECT_TIMEOUT_MS,
            r.request_timeout_ms == DEFAULT_REQUEST_TIMEOUT_MS,
            r.max_connections == 0,
            !r.cache_token,
    {
        ClientBuilder {
            connect_timeout_ms: DEFAULT_CONNECT_TIMEOUT_MS,
            request_timeout_ms: DEFAULT_REQUEST_TIMEOUT_MS,
            max_connections: 0,
            cache_token: false,
        }
    }

    /// Sets the connect timeout.
    pub fn connect_timeout(self, timeout_ms: u64) -> (r: Self)
        ensures
            r == (ClientBuilder { connect_timeout_ms: timeout_ms, ..self }),
    {
        ClientBuilder { connect_timeout_ms: timeout_ms, ..self }
    }

    /// Sets the timeout of each request.
    pub fn request_timeout(self, timeout_ms: u64) -> (r: Self)
        ensures
            r == (ClientBuilder { request_timeout_ms: timeout_ms, ..self }),
    {
        ClientBuilder { request_timeout_ms: timeout_ms, ..self }
    }

    /// Sets the most sessions that may be open at once; 0 leaves them
    /// unbounded.
    pub fn max_connections(self, max: usize) -> (r: Self)
        ensures
            r == (ClientBuilder { max_connections: max, ..self }),
    {
        ClientBuilder { max_connections: max, ..self }
    }

    /// Sets whether session tokens are shared by every handle of the client.
    pub fn cache_token(self, cache: bool) -> (r: Self)
        ensures
            r == (ClientBuilder { cache_token: cache, ..self }),
    {
        ClientBuilder { cache_token: cache, ..self }
    }

    /// The size of the connection budget, or `None` when sessions are not
    /// limited.
    pub fn budget(&self) -> (r: Option<usize>)
        ensures
            r == (if self.max_connections > 0 {
                Some(self.max_connections)
            } else {
                None::<usize>
            }),
    {
        if self.max_connections > 0 {
            Some(self.max_connections)
        } else {
            None
        }
    }
}

/// The port to probe: the one given, else the socket protocol's default.
pub fn port_or_default(port: Option<u16>) -> (r: u16)
    ensures
        r == match port {
            Some(p) => p,
            None => DEFAULT_PORT,
        },
{
    match port {
        Some(p) => p,
        None => DEFAULT_PORT,
    }
}

} // verus!
