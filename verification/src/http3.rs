//! Telling a graceful close of an HTTP/3 connection from a failure.

use ::h3::error::ConnectionError;
use vstd::prelude::*;

verus! {

/// An error that ends an HTTP/3 connection (`h3::error::ConnectionError`).
#[verifier::external_type_specification]
#[verifier::external_body]
pub struct ExConnectionError(ConnectionError);

/// The text that the derived `Debug` of `h3::error::ConnectionError` writes
/// for an error.
pub uninterp spec fn connection_error_debug(err: ConnectionError) -> Seq<char>;

/// Formats the error with `Debug`: the text is
/// [`connection_error_debug`] of the error.
#[verifier::external_body]
fn debug_text(err: &ConnectionError) -> (t: String)
    ensures
        t@ == connection_error_debug(*err),
{
    format!("{:?}", err)
}

/// The `Debug` texts of the errors in the error's source chain
/// (`std::error::Error::source`), nearest first. `ConnectionError`
/// implements `std::error::Error` without overriding `source`, which then
/// returns `None`: the chain is empty.
#[verifier::external_body]
fn source_texts(err: &ConnectionError) -> (ts: Vec<String>)
    ensures
        ts@.len() == 0,
{
    std::iter::successors(std::error::Error::source(err), |e| e.source()).map(|e| format!("{:?}", e)).collect()
}

/// `pat` occurs in `s`.
pub open spec fn contains_text(s: Seq<char>, pat: Seq<char>) -> bool {
    exists|i: int| 0 <= i && i + pat.len() <= s.len() && #[trigger] s.subrange(i, i + pat.len()) == pat
}

/// The texts of an error that mark a graceful close: the error's own text
/// names `NO_ERROR`, an application close with code 0, or a closed
/// connection; or the text of an error in its source chain names `NO_ERROR`
/// or an application close.
pub open spec fn graceful_close(own: Seq<char>, sources: Seq<Seq<char>>) -> bool {
    ||| contains_text(own, "NO_ERROR"@)
    ||| contains_text(own, "ApplicationClose: 0x0"@)
    ||| contains_text(own, "ApplicationClose(0x0)"@)
    ||| contains_text(own, "ConnectionClosed"@)
    ||| exists|i: int| 0 <= i < sources.len() && (contains_text(#[trigger] sources[i], "NO_ERROR"@)
        || contains_text(sources[i], "ApplicationClose"@))
}

/// Whether `pat` occurs in `s`.
pub fn str_contains(s: &str, pat: &str) -> (b: bool)
    ensures
        b == contains_text(s@, pat@),
{
    let n = s.unicode_len();
    let m = pat.unicode_len();
    if m > n {
        assert forall|i: int| 0 <= i && i + pat@.len() <= s@.len() implies #[trigger] s@.subrange(i, i + pat@.len()) != pat@ by {}
        return false;
    }
    let mut i: usize = 0;
    while i <= n - m
        invariant
            n == s@.len(),
            m == pat@.len(),
            m <= n,
            i <= n - m + 1,
            forall|k: int| 0 <= k < i ==> #[trigger] s@.subrange(k, k + m) != pat@,
        decreases n - m + 1 - i,
    {
        let mut j: usize = 0;
        let mut same = true;
        while j < m
            invariant
                n == s@.len(),
                m == pat@.len(),
                i + m <= n,
                j <= m,
                same == (forall|q: int| 0 <= q < j ==> s@[i + q] == pat@[q]),
            decreases m - j,
        {
            if same && s.get_char(i + j) != pat.get_char(j) {
                same = false;
            }
            j = j + 1;
        }
        if same {
            assert(s@.subrange(i as int, i + m) =~= pat@);
            return true;
        }
        assert(s@.subrange(i as int, i + m)[(choose|q: int| 0 <= q < m && s@[i + q] != pat@[q])]
            != pat@[(choose|q: int| 0 <= q < m && s@[i + q] != pat@[q])]);
        i = i + 1;
    }
    assert forall|k: int| 0 <= k && k + pat@.len() <= s@.len() implies #[trigger] s@.subrange(k, k + pat@.len()) != pat@ by {
        assert(k < i);
    }
    false
}

/// Whether the texts of a connection error, its own `Debug` text and those of
/// its source chain, mark a graceful close.
pub fn is_graceful_close_text(own: &str, sources: &Vec<String>) -> (b: bool)
    ensures
        b == graceful_close(own@, sources@.map_values(|t: String| t@)),
{
    let ghost srcs = sources@.map_values(|t: String| t@);
    if str_contains(own, "NO_ERROR") || str_contains(own, "ApplicationClose: 0x0") || str_contains(
        own,
        "ApplicationClose(0x0)",
    ) || str_contains(own, "ConnectionClosed") {
        return true;
    }
    let mut i: usize = 0;
    while i < sources.len()
        invariant
            i <= sources@.len(),
            srcs == sources@.map_values(|t: String| t@),
            forall|k: int| 0 <= k < i ==> !(contains_text(#[trigger] srcs[k], "NO_ERROR"@)
                || contains_text(srcs[k], "ApplicationClose"@)),
        decreases sources@.len() - i,
    {
        let t = sources[i].as_str();
        if str_contains(t, "NO_ERROR") || str_contains(t, "ApplicationClose") {
            assert(srcs[i as int] == t@);
            return true;
        }
        i = i + 1;
    }
    false
}

/// Checks whether an HTTP/3 connection error is a graceful close, as its
/// `Debug` text tells (see [`graceful_close`]); its source chain is empty.
pub fn is_graceful_h3_close(err: &ConnectionError) -> (b: bool)
    ensures
        b == graceful_close(connection_error_debug(*err), Seq::<Seq<char>>::empty()),
{
    let own = debug_text(err);
    let sources = source_texts(err);
    let b = is_graceful_close_text(own.as_str(), &sources);
    assert(sources@.map_values(|t: String| t@) =~= Seq::<Seq<char>>::empty());
    b
}


/// What accepting the next request of an HTTP/3 connection gave.
#[derive(Clone, Copy, Debug, PartialEq, Eq, Structural)]
pub enum AcceptOutcome {
    /// A request arrived.
    Request,
    /// The peer closed the connection.
    Closed,
    /// The connection failed; `graceful` where the error marks a graceful
    /// close (see [`is_graceful_h3_close`]).
    Failed { graceful: bool },
}

/// What a connection does next.
#[derive(Clone, Copy, Debug, PartialEq, Eq, Structural)]
pub enum ConnectionAction {
    /// Serve the request and accept the next one.
    Serve,
    /// Stop, as a normal end of the connection.
    Close,
    /// Stop, and report the error.
    CloseWithError,
}

/// The decision of a connection's accept loop, once a graceful shutdown is
/// not requested: serve a request; stop when the peer closed or the error is
/// a graceful close; stop and report any other error.
pub fn on_accept(outcome: AcceptOutcome) -> (a: ConnectionAction)
    ensures
        outcome == AcceptOutcome::Request <==> a == ConnectionAction::Serve,
        a == ConnectionAction::CloseWithError <==> outcome == (AcceptOutcome::Failed { graceful: false }),
{
    match outcome {
        AcceptOutcome::Request => ConnectionAction::Serve,
        AcceptOutcome::Closed => ConnectionAction::Close,
        AcceptOutcome::Failed { graceful } => if graceful {
            ConnectionAction::Close
        } else {
            ConnectionAction::CloseWithError
        },
    }
}

/// What happens to a server, as its accept loop sees it.
#[derive(Clone, Copy, Debug, PartialEq, Eq, Structural)]
pub enum ServerEvent {
    /// The graceful shutdown signal arrived.
    ShutdownSignal,
    /// A connection came in.
    Incoming,
    /// The QUIC endpoint stopped giving connections.
    EndpointClosed,
    /// A connection being served closed.
    ConnectionClosed,
}

/// What a server does on an event.
#[derive(Clone, Copy, Debug, PartialEq, Eq, Structural)]
pub enum ServerAction {
    /// Serve the incoming connection.
    Serve,
    /// Drop the incoming connection: the server no longer accepts.
    Refuse,
    /// Stop accepting connections.
    StopAccepting,
    /// The last connection of a shutdown closed: whoever waits for the
    /// connections to drain may go on.
    Drained,
    /// Nothing to do.
    Continue,
}

/// Counts a server's open connections, whether it still accepts connections
/// and whether it is shutting down, to tell when the last connection of a
/// shutdown has closed.
pub struct ConnectionTracker {
    alive: usize,
    accepting: bool,
    shutting_down: bool,
}

impl ConnectionTracker {
    /// The number of open connections.
    pub closed spec fn alive(self) -> nat {
        self.alive as nat
    }

    /// Whether the server still accepts connections.
    pub closed spec fn accepting(self) -> bool {
        self.accepting
    }

    /// Whether a graceful shutdown has begun.
    pub closed spec fn shutting_down(self) -> bool {
        self.shutting_down
    }

    /// No open connection, accepting, no shutdown.
    pub fn new() -> (t: Self)
        ensures
            t.alive() == 0,
            t.accepting(),
            !t.shutting_down(),
    {
        ConnectionTracker { alive: 0, accepting: true, shutting_down: false }
    }

    /// A connection opened.
    pub fn open(&mut self)
        ensures
            final(self).alive() == if old(self).alive() < usize::MAX { old(self).alive() + 1 } else {
                old(self).alive()
            },
            final(self).accepting() == old(self).accepting(),
            final(self).shutting_down() == old(self).shutting_down(),
    {
        if self.alive < usize::MAX {
            self.alive = self.alive + 1;
        }
    }

    /// A connection closed; `true` where it was the last one of a shutdown,
    /// so that whoever waits for the connections to drain may go on.
    pub fn close(&mut self) -> (drained: bool)
        ensures
            drained == (old(self).alive() == 1 && old(self).shutting_down()),
            final(self).alive() == if old(self).alive() > 0 { old(self).alive() - 1 } else { 0 },
            final(self).accepting() == old(self).accepting(),
            final(self).shutting_down() == old(self).shutting_down(),
    {
        let last = self.alive == 1;
        if self.alive > 0 {
            self.alive = self.alive - 1;
        }
        last && self.shutting_down
    }

    /// The shutdown signal arrived: the server stops accepting connections.
    pub fn begin_shutdown(&mut self)
        ensures
            final(self).shutting_down(),
            !final(self).accepting(),
            final(self).alive() == old(self).alive(),
    {
        self.shutting_down = true;
        self.accepting = false;
    }

    /// The decision of a server's accept loop on an event: a shutdown signal
    /// or a closed endpoint stops the accepting, an incoming connection is
    /// served only while the server accepts, and a closed connection is
    /// counted, telling when it was the last one of a shutdown.
    pub fn on_event(&mut self, event: ServerEvent) -> (a: ServerAction)
        ensures
            event == ServerEvent::ShutdownSignal ==> a == ServerAction::StopAccepting
                && final(self).shutting_down() && !final(self).accepting() && final(self).alive()
                == old(self).alive(),
            event == ServerEvent::EndpointClosed ==> a == ServerAction::StopAccepting
                && !final(self).accepting() && final(self).shutting_down() == old(self).shutting_down()
                && final(self).alive() == old(self).alive(),
            event == ServerEvent::Incoming ==> if old(self).accepting() {
                &&& a == ServerAction::Serve
                &&& final(self).alive() == if old(self).alive() < usize::MAX {
                    old(self).alive() + 1
                } else {
                    old(self).alive()
                }
                &&& final(self).accepting() && final(self).shutting_down() == old(self).shutting_down()
            } else {
                a == ServerAction::Refuse && *final(self) == *old(self)
            },
            event == ServerEvent::ConnectionClosed ==> {
                &&& a == if old(self).alive() == 1 && old(self).shutting_down() {
                    ServerAction::Drained
                } else {
                    ServerAction::Continue
                }
                &&& final(self).alive() == if old(self).alive() > 0 { old(self).alive() - 1 } else { 0 }
                &&& final(self).accepting() == old(self).accepting()
                &&& final(self).shutting_down() == old(self).shutting_down()
            },
    {
        match event {
            ServerEvent::ShutdownSignal => {
                self.begin_shutdown();
                ServerAction::StopAccepting
            },
            ServerEvent::EndpointClosed => {
                self.accepting = false;
                ServerAction::StopAccepting
            },
            ServerEvent::Incoming => {
                if self.accepting {
                    self.open();
                    ServerAction::Serve
                } else {
                    ServerAction::Refuse
                }
            },
            ServerEvent::ConnectionClosed => {
                if self.close() {
                    ServerAction::Drained
                } else {
                    ServerAction::Continue
                }
            },
        }
    }

    /// Whether the server must wait for connections to close before it stops.
    pub fn must_wait(&self) -> (w: bool)
        ensures
            w == (self.alive() > 0),
    {
        self.alive > 0
    }
}

} // verus!
