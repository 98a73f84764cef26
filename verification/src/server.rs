//! The transport server's verified state and per-connection decisions:
//! classifying a request by its path (query string stripped) and producing
//! the status document.  The listener, sockets and threads live outside the
//! library and only act on what these functions decide.

use vstd::prelude::*;
use vstd::slice::slice_subrange;
use crate::util::bytes_eq;

verus! {

/// The player page path.
pub open spec fn path_root() -> Seq<u8> {
    seq![
    0x2fu8,
    ]
}

/// The progressive MP3 path.
pub open spec fn path_stream() -> Seq<u8> {
    seq![
    0x2fu8, 0x73u8, 0x74u8, 0x72u8, 0x65u8, 0x61u8, 0x6du8,
    ]
}

/// The progressive MP3 path, explicit suffix.
pub open spec fn path_stream_mp3() -> Seq<u8> {
    seq![
    0x2fu8, 0x73u8, 0x74u8, 0x72u8, 0x65u8, 0x61u8, 0x6du8, 0x2eu8, 0x6du8, 0x70u8,
    0x33u8,
    ]
}

/// The Ogg/Opus path.
pub open spec fn path_stream_opus() -> Seq<u8> {
    seq![
    0x2fu8, 0x73u8, 0x74u8, 0x72u8, 0x65u8, 0x61u8, 0x6du8, 0x2eu8, 0x6fu8, 0x70u8,
    0x75u8, 0x73u8,
    ]
}

/// The Ogg/Opus path, alternative suffix.
pub open spec fn path_stream_ogg() -> Seq<u8> {
    seq![
    0x2fu8, 0x73u8, 0x74u8, 0x72u8, 0x65u8, 0x61u8, 0x6du8, 0x2eu8, 0x6fu8, 0x67u8,
    0x67u8,
    ]
}

/// The WebSocket path.
pub open spec fn path_ws() -> Seq<u8> {
    seq![
    0x2fu8, 0x77u8, 0x73u8,
    ]
}

/// The status path.
pub open spec fn path_status() -> Seq<u8> {
    seq![
    0x2fu8, 0x73u8, 0x74u8, 0x61u8, 0x74u8, 0x75u8, 0x73u8,
    ]
}

/// The opening of the status document, up to the client count.
pub open spec fn status_prefix() -> Seq<u8> {
    seq![
    0x7bu8, 0x22u8, 0x63u8, 0x6cu8, 0x69u8, 0x65u8, 0x6eu8, 0x74u8, 0x73u8, 0x22u8,
    0x3au8, 0x20u8,
    ]
}

/// The middle of the status document, between count and flag.
pub open spec fn status_middle() -> Seq<u8> {
    seq![
    0x2cu8, 0x20u8, 0x22u8, 0x72u8, 0x75u8, 0x6eu8, 0x6eu8, 0x69u8, 0x6eu8, 0x67u8,
    0x22u8, 0x3au8, 0x20u8,
    ]
}

/// The word `true`.
pub open spec fn bytes_true() -> Seq<u8> {
    seq![
    0x74u8, 0x72u8, 0x75u8, 0x65u8,
    ]
}

/// The word `false`.
pub open spec fn bytes_false() -> Seq<u8> {
    seq![
    0x66u8, 0x61u8, 0x6cu8, 0x73u8, 0x65u8,
    ]
}

/// The player page path.  Executable form.
fn path_root_bytes() -> (v: Vec<u8>)
    ensures
        v@ == path_root(),
{
    let mut v: Vec<u8> = Vec::new();
    v.push(0x2fu8);
    proof {
        assert(v@ =~= path_root());
    }
    v
}

/// The progressive MP3 path.  Executable form.
fn path_stream_bytes() -> (v: Vec<u8>)
    ensures
        v@ == path_stream(),
{
    let mut v: Vec<u8> = Vec::new();
    v.push(0x2fu8);
    v.push(0x73u8);
    v.push(0x74u8);
    v.push(0x72u8);
    v.push(0x65u8);
    v.push(0x61u8);
    v.push(0x6du8);
    proof {
        assert(v@ =~= path_stream());
    }
    v
}

/// The progressive MP3 path, explicit suffix.  Executable form.
fn path_stream_mp3_bytes() -> (v: Vec<u8>)
    ensures
        v@ == path_stream_mp3(),
{
    let mut v: Vec<u8> = Vec::new();
    v.push(0x2fu8);
    v.push(0x73u8);
    v.push(0x74u8);
    v.push(0x72u8);
    v.push(0x65u8);
    v.push(0x61u8);
    v.push(0x6du8);
    v.push(0x2eu8);
    v.push(0x6du8);
    v.push(0x70u8);
    v.push(0x33u8);
    proof {
        assert(v@ =~= path_stream_mp3());
    }
    v
}

/// The Ogg/Opus path.  Executable form.
fn path_stream_opus_bytes() -> (v: Vec<u8>)
    ensures
        v@ == path_stream_opus(),
{
    let mut v: Vec<u8> = Vec::new();
    v.push(0x2fu8);
    v.push(0x73u8);
    v.push(0x74u8);
    v.push(0x72u8);
    v.push(0x65u8);
    v.push(0x61u8);
    v.push(0x6du8);
    v.push(0x2eu8);
    v.push(0x6fu8);
    v.push(0x70u8);
    v.push(0x75u8);
    v.push(0x73u8);
    proof {
        assert(v@ =~= path_stream_opus());
    }
    v
}

/// The Ogg/Opus path, alternative suffix.  Executable form.
fn path_stream_ogg_bytes() -> (v: Vec<u8>)
    ensures
        v@ == path_stream_ogg(),
{
    let mut v: Vec<u8> = Vec::new();
    v.push(0x2fu8);
    v.push(0x73u8);
    v.push(0x74u8);
    v.push(0x72u8);
    v.push(0x65u8);
    v.push(0x61u8);
    v.push(0x6du8);
    v.push(0x2eu8);
    v.push(0x6fu8);
    v.push(0x67u8);
    v.push(0x67u8);
    proof {
        assert(v@ =~= path_stream_ogg());
    }
    v
}

/// The WebSocket path.  Executable form.
fn path_ws_bytes() -> (v: Vec<u8>)
    ensures
        v@ == path_ws(),
{
    let mut v: Vec<u8> = Vec::new();
    v.push(0x2fu8);
    v.push(0x77u8);
    v.push(0x73u8);
    proof {
        assert(v@ =~= path_ws());
    }
    v
}

/// The status path.  Executable form.
fn path_status_bytes() -> (v: Vec<u8>)
    ensures
        v@ == path_status(),
{
    let mut v: Vec<u8> = Vec::new();
    v.push(0x2fu8);
    v.push(0x73u8);
    v.push(0x74u8);
    v.push(0x61u8);
    v.push(0x74u8);
    v.push(0x75u8);
    v.push(0x73u8);
    proof {
        assert(v@ =~= path_status());
    }
    v
}

/// The status document opening, executable form.
fn status_prefix_bytes() -> (v: Vec<u8>)
    ensures
        v@ == status_prefix(),
{
    let mut v: Vec<u8> = Vec::new();
    v.push(0x7bu8);
    v.push(0x22u8);
    v.push(0x63u8);
    v.push(0x6cu8);
    v.push(0x69u8);
    v.push(0x65u8);
    v.push(0x6eu8);
    v.push(0x74u8);
    v.push(0x73u8);
    v.push(0x22u8);
    v.push(0x3au8);
    v.push(0x20u8);
    proof {
        assert(v@ =~= status_prefix());
    }
    v
}

/// The status document middle, executable form.
fn status_middle_bytes() -> (v: Vec<u8>)
    ensures
        v@ == status_middle(),
{
    let mut v: Vec<u8> = Vec::new();
    v.push(0x2cu8);
    v.push(0x20u8);
    v.push(0x22u8);
    v.push(0x72u8);
    v.push(0x75u8);
    v.push(0x6eu8);
    v.push(0x6eu8);
    v.push(0x69u8);
    v.push(0x6eu8);
    v.push(0x67u8);
    v.push(0x22u8);
    v.push(0x3au8);
    v.push(0x20u8);
    proof {
        assert(v@ =~= status_middle());
    }
    v
}

} // verus!

verus! {

/// Where a classified connection goes.
#[derive(Clone, Copy, Debug, PartialEq, Eq, Structural)]
pub enum Route {
    /// The HTML player page.
    Player,
    /// Progressive HTTP: raw MP3 bytes until disconnect.
    Progressive,
    /// Ogg-framed Opus bytes until disconnect.
    OggHttp,
    /// WebSocket upgrade, then one binary frame per packet.
    WebSocket,
    /// The small status document.
    Status,
    /// Anything else.
    NotFound,
}

/// The index of the first query-string marker, or the length when none.
pub open spec fn query_start(s: Seq<u8>) -> int
    decreases s.len(),
{
    if s.len() == 0 {
        0
    } else if s[0] == 0x3fu8 {
        0
    } else {
        1 + query_start(s.drop_first())
    }
}

/// The path with any query string stripped.
pub open spec fn strip_query(s: Seq<u8>) -> Seq<u8> {
    s.take(query_start(s))
}

/// `query_start` is the first index holding `?`.
pub proof fn lemma_query_start(s: Seq<u8>)
    ensures
        0 <= query_start(s) <= s.len(),
        query_start(s) < s.len() ==> s[query_start(s)] == 0x3fu8,
        forall|k: int| 0 <= k < query_start(s) ==> s[k] != 0x3fu8,
    decreases s.len(),
{
    if s.len() > 0 && s[0] != 0x3fu8 {
        lemma_query_start(s.drop_first());
        assert forall|k: int| 0 <= k < query_start(s) implies s[k] != 0x3fu8 by {
            if k > 0 {
                assert(s.drop_first()[k - 1] == s[k]);
            }
        }
    }
}

/// The route a request path is classified into, query string stripped.
pub open spec fn route_of(url: Seq<u8>) -> Route {
    let p = strip_query(url);
    if p == path_root() {
        Route::Player
    } else if p == path_stream() || p == path_stream_mp3() {
        Route::Progressive
    } else if p == path_stream_opus() || p == path_stream_ogg() {
        Route::OggHttp
    } else if p == path_ws() {
        Route::WebSocket
    } else if p == path_status() {
        Route::Status
    } else {
        Route::NotFound
    }
}

/// Classify a request path: decided purely from the path, with any query
/// string stripped before matching.
pub fn classify_path(url: &[u8]) -> (r: Route)
    ensures
        r == route_of(url@),
{
    let mut q: usize = 0;
    while q < url.len() && url[q] != 0x3fu8
        invariant
            q <= url@.len(),
            forall|k: int| 0 <= k < q ==> url@[k] != 0x3fu8,
        decreases url@.len() - q,
    {
        q = q + 1;
    }
    proof {
        lemma_query_start(url@);
        if q < query_start(url@) {
            assert(url@[q as int] == 0x3fu8);
        }
        assert(q == query_start(url@));
    }
    let p = slice_subrange(url, 0, q);
    if bytes_eq(p, path_root_bytes().as_slice()) {
        Route::Player
    } else if bytes_eq(p, path_stream_bytes().as_slice()) || bytes_eq(
        p,
        path_stream_mp3_bytes().as_slice(),
    ) {
        Route::Progressive
    } else if bytes_eq(p, path_stream_opus_bytes().as_slice()) || bytes_eq(
        p,
        path_stream_ogg_bytes().as_slice(),
    ) {
        Route::OggHttp
    } else if bytes_eq(p, path_ws_bytes().as_slice()) {
        Route::WebSocket
    } else if bytes_eq(p, path_status_bytes().as_slice()) {
        Route::Status
    } else {
        Route::NotFound
    }
}

/// The decimal digits of a nonnegative number, most significant first.
pub open spec fn dec_digits(n: int) -> Seq<u8>
    recommends
        n >= 0,
    decreases n,
{
    if n < 10 {
        seq![(0x30 + n) as u8]
    } else {
        dec_digits(n / 10) + seq![(0x30 + n % 10) as u8]
    }
}

/// Write a number in decimal.
pub fn u64_to_dec(n: u64) -> (v: Vec<u8>)
    ensures
        v@ == dec_digits(n as int),
{
    let mut rev: Vec<u8> = Vec::new();
    let mut m: u64 = n;
    while m >= 10
        invariant
            dec_digits(n as int) == dec_digits(m as int) + rev@.reverse(),
        decreases m,
    {
        let ghost prev = rev@;
        let d: u8 = 0x30u8 + (m % 10) as u8;
        rev.push(d);
        proof {
            assert(rev@.reverse() =~= seq![d] + prev.reverse());
            assert(dec_digits(m as int) =~= dec_digits(m as int / 10) + seq![d]);
            assert(dec_digits(m as int / 10) + seq![d] + prev.reverse() =~= dec_digits(
                m as int / 10,
            ) + (seq![d] + prev.reverse()));
        }
        m = m / 10;
    }
    let ghost prev = rev@;
    let last: u8 = 0x30u8 + m as u8;
    rev.push(last);
    proof {
        assert(rev@.reverse() =~= seq![last] + prev.reverse());
        assert(dec_digits(m as int) =~= seq![last]);
        assert(dec_digits(n as int) =~= rev@.reverse());
    }
    let mut v: Vec<u8> = Vec::new();
    let mut j: usize = rev.len();
    while j > 0
        invariant
            j <= rev@.len(),
            v@.len() == rev@.len() - j,
            forall|t: int| 0 <= t < v@.len() ==> v@[t] == rev@[rev@.len() - 1 - t],
        decreases j,
    {
        j = j - 1;
        v.push(rev[j]);
    }
    proof {
        assert(v@ =~= rev@.reverse());
    }
    v
}

/// The status document for a client count and running flag.
pub open spec fn status_json(clients: int, running: bool) -> Seq<u8>
    recommends
        clients >= 0,
{
    status_prefix() + dec_digits(clients) + status_middle() + (if running {
        bytes_true()
    } else {
        bytes_false()
    }) + seq![0x7du8]
}

/// Build the status document.
pub fn build_status_json(clients: u64, running: bool) -> (v: Vec<u8>)
    ensures
        v@ == status_json(clients as int, running),
{
    let mut v = status_prefix_bytes();
    let digits = u64_to_dec(clients);
    crate::util::append_copy(&mut v, digits.as_slice());
    let mid = status_middle_bytes();
    crate::util::append_copy(&mut v, mid.as_slice());
    if running {
        v.push(0x74u8);
        v.push(0x72u8);
        v.push(0x75u8);
        v.push(0x65u8);
    } else {
        v.push(0x66u8);
        v.push(0x61u8);
        v.push(0x6cu8);
        v.push(0x73u8);
        v.push(0x65u8);
    }
    v.push(0x7du8);
    proof {
        assert(bytes_true() =~= seq![0x74u8, 0x72u8, 0x75u8, 0x65u8]);
        assert(bytes_false() =~= seq![0x66u8, 0x61u8, 0x6cu8, 0x73u8, 0x65u8]);
        assert(v@ =~= status_json(clients as int, running));
    }
    v
}

/// Opus stream parameters each Ogg client session needs for its own
/// header pages.
#[derive(Clone, Copy, Debug, PartialEq, Eq, Structural)]
pub struct OpusStreamInfo {
    /// Channel count.
    pub channels: u16,
    /// Original input sample rate.
    pub sample_rate: u32,
    /// Samples per codec frame at the codec rate.
    pub frame_size: usize,
}

/// The streaming server's control state.  The listener and sockets live
/// outside the library; this holds what they decide against.
pub struct StreamServer {
    /// The TCP port served on.
    pub port: u16,
    /// Whether the accept loop is meant to run.
    pub running: bool,
    /// How many client sessions are currently attached.
    pub clients: usize,
    /// Stream parameters for Ogg sessions, set before starting.
    pub opus_info: Option<OpusStreamInfo>,
}

impl StreamServer {
    /// A stopped server for a port, no clients attached.
    pub fn new(port: u16) -> (s: Self)
        ensures
            s.port == port,
            !s.running,
            s.clients == 0,
            s.opus_info is None,
    {
        StreamServer { port, running: false, clients: 0, opus_info: None }
    }

    /// A stopped server that starts from an existing client count.
    pub fn with_client_count(port: u16, client_count: usize) -> (s: Self)
        ensures
            s.port == port,
            !s.running,
            s.clients == client_count,
            s.opus_info is None,
    {
        StreamServer { port, running: false, clients: client_count, opus_info: None }
    }

    /// Record the Opus stream parameters; must happen before starting.
    pub fn set_opus_info(&mut self, channels: u16, sample_rate: u32, frame_size: usize)
        ensures
            final(self).opus_info == Some(OpusStreamInfo { channels, sample_rate, frame_size }),
            final(self).port == old(self).port,
            final(self).running == old(self).running,
            final(self).clients == old(self).clients,
    {
        self.opus_info = Some(OpusStreamInfo { channels, sample_rate, frame_size });
    }

    /// The number of attached client sessions.
    pub fn client_count(&self) -> (n: usize)
        ensures
            n == self.clients,
    {
        self.clients
    }

    /// Whether the accept loop is meant to run.
    pub fn is_running(&self) -> (r: bool)
        ensures
            r == self.running,
    {
        self.running
    }

    /// Record that the accept loop is up.
    pub fn mark_running(&mut self)
        ensures
            *final(self) == (StreamServer { running: true, ..*old(self) }),
    {
        self.running = true;
    }

    /// Ask the accept loop to wind down.
    pub fn stop(&mut self)
        ensures
            *final(self) == (StreamServer { running: false, ..*old(self) }),
    {
        self.running = false;
    }

    /// A client session attached.
    pub fn client_connected(&mut self)
        requires
            old(self).clients < usize::MAX,
        ensures
            *final(self) == (StreamServer { clients: (old(self).clients + 1) as usize, ..*old(self) }),
    {
        self.clients = self.clients + 1;
    }

    /// A client session went away.
    pub fn client_disconnected(&mut self)
        requires
            old(self).clients > 0,
        ensures
            *final(self) == (StreamServer { clients: (old(self).clients - 1) as usize, ..*old(self) }),
    {
        self.clients = self.clients - 1;
    }

    /// The status document for the current state.
    pub fn status_body(&self) -> (v: Vec<u8>)
        ensures
            v@ == status_json(self.clients as int, self.running),
    {
        build_status_json(self.clients as u64, self.running)
    }
}

} // verus!
