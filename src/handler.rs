//! The connection handler: one request read, classified, optionally
//! delayed, answered with a status line and a file's contents, then
//! flushed. Each step takes what the connection produced and names the
//! next thing to do with it.

use vstd::prelude::*;
use vstd::string::StringExecFns;

use vstd::string::is_ascii_spec_bytes;

use crate::route::{
    classify, delay_spec, filename_spec, is_prefix, root_request_spec, route_of,
    sleep_request_spec, status_line_spec, Route, REQUEST_CAPACITY,
};

verus! {

/// Where a connection stands.
#[derive(Clone, Copy, Debug, PartialEq, Eq, Structural)]
pub enum Phase {
    /// Nothing has happened yet.
    Idle,
    /// Waiting for the request bytes.
    Reading,
    /// Waiting out the delay of the delayed route.
    Delaying,
    /// Waiting for the contents of the selected file.
    Loading,
    /// Waiting for the response to be written.
    Writing,
    /// Waiting for the flush.
    Flushing,
    /// The response went out.
    Done,
    /// The connection failed; nothing more is done on it.
    Failed,
}

/// The state of one connection.
#[derive(Clone, Copy, Debug, PartialEq, Eq, Structural)]
pub struct Handler {
    pub phase: Phase,
    /// The route selected by the request; `NotFound` until it is read.
    pub route: Route,
}

/// What the connection reports back.
#[derive(Debug)]
pub enum Event {
    /// The connection is open.
    Connected,
    /// The request buffer was read.
    RequestRead(Vec<u8>),
    /// The delay is over.
    DelayElapsed,
    /// The selected file was read as text.
    FileLoaded(String),
    /// The response was written.
    Written,
    /// The stream was flushed.
    Flushed,
    /// A read, a file read or a write failed.
    IoFailed,
}

/// What the handler asks for next.
#[derive(Debug)]
pub enum Action {
    /// Read once, at most this many bytes.
    ReadRequest(usize),
    /// Wait this many milliseconds.
    Sleep(u64),
    /// Read the named file in full, as text.
    LoadFile(&'static str),
    /// Write this response.
    Write(String),
    /// Flush the stream.
    Flush,
    /// The connection was served.
    Finish,
    /// The connection failed.
    Abort,
}

/// An event as the protocol sees it: bytes and text as sequences.
pub enum EventView {
    Connected,
    RequestRead(Seq<u8>),
    DelayElapsed,
    FileLoaded(Seq<char>),
    Written,
    Flushed,
    IoFailed,
}

/// An action as the protocol sees it.
pub enum ActionView {
    ReadRequest(nat),
    Sleep(u64),
    LoadFile(Seq<char>),
    Write(Seq<char>),
    Flush,
    Finish,
    Abort,
}

impl View for Event {
    type V = EventView;

    open spec fn view(&self) -> EventView {
        match self {
            Event::Connected => EventView::Connected,
            Event::RequestRead(b) => EventView::RequestRead(b@),
            Event::DelayElapsed => EventView::DelayElapsed,
            Event::FileLoaded(c) => EventView::FileLoaded(c@),
            Event::Written => EventView::Written,
            Event::Flushed => EventView::Flushed,
            Event::IoFailed => EventView::IoFailed,
        }
    }
}

impl View for Action {
    type V = ActionView;

    open spec fn view(&self) -> ActionView {
        match self {
            Action::ReadRequest(n) => ActionView::ReadRequest(*n as nat),
            Action::Sleep(ms) => ActionView::Sleep(*ms),
            Action::LoadFile(f) => ActionView::LoadFile(f@),
            Action::Write(r) => ActionView::Write(r@),
            Action::Flush => ActionView::Flush,
            Action::Finish => ActionView::Finish,
            Action::Abort => ActionView::Abort,
        }
    }
}

/// The response for a route: its status line followed by the file's text.
pub open spec fn response_spec(route: Route, contents: Seq<char>) -> Seq<char> {
    status_line_spec(route) + contents
}

/// After the request (or its delay), the selected file is read.
pub open spec fn load_step(route: Route) -> (Handler, ActionView) {
    (Handler { phase: Phase::Loading, route }, ActionView::LoadFile(filename_spec(route)))
}

/// The protocol: the next state and action for a state and an event.
/// An event that the state does not wait for fails the connection, and
/// the two final phases stay as they are.
pub open spec fn next(h: Handler, e: EventView) -> (Handler, ActionView) {
    match (h.phase, e) {
        (Phase::Idle, EventView::Connected) => (
            Handler { phase: Phase::Reading, ..h },
            ActionView::ReadRequest(REQUEST_CAPACITY as nat),
        ),
        (Phase::Reading, EventView::RequestRead(buf)) => {
            let route = route_of(buf);
            if delay_spec(route) > 0 {
                (Handler { phase: Phase::Delaying, route }, ActionView::Sleep(delay_spec(route)))
            } else {
                load_step(route)
            }
        },
        (Phase::Delaying, EventView::DelayElapsed) => load_step(h.route),
        (Phase::Loading, EventView::FileLoaded(c)) => (
            Handler { phase: Phase::Writing, ..h },
            ActionView::Write(response_spec(h.route, c)),
        ),
        (Phase::Writing, EventView::Written) => (
            Handler { phase: Phase::Flushing, ..h },
            ActionView::Flush,
        ),
        (Phase::Flushing, EventView::Flushed) => (
            Handler { phase: Phase::Done, ..h },
            ActionView::Finish,
        ),
        (Phase::Done, _) => (h, ActionView::Finish),
        _ => (Handler { phase: Phase::Failed, ..h }, ActionView::Abort),
    }
}

/// The states and actions of a connection that starts in `h` and sees
/// `events` in order.
pub open spec fn run(h: Handler, events: Seq<EventView>) -> (Handler, Seq<ActionView>)
    decreases events.len(),
{
    if events.len() == 0 {
        (h, Seq::empty())
    } else {
        let (h1, a) = next(h, events[0]);
        let (h2, rest) = run(h1, events.drop_first());
        (h2, seq![a] + rest)
    }
}

/// The events of a connection on which everything succeeds, apart from
/// the delay.
pub open spec fn served_events(buf: Seq<u8>, contents: Seq<char>) -> Seq<EventView> {
    seq![
        EventView::Connected,
        EventView::RequestRead(buf),
        EventView::FileLoaded(contents),
        EventView::Written,
        EventView::Flushed,
    ]
}

/// A connection on which nothing has happened yet.
pub open spec fn idle() -> Handler {
    Handler { phase: Phase::Idle, route: Route::NotFound }
}

/// Neither request line is a prefix of the other, so a buffer starts
/// with at most one of them.
pub proof fn lemma_request_lines_differ(buf: Seq<u8>)
    ensures
        !(is_prefix(root_request_spec(), buf) && is_prefix(sleep_request_spec(), buf)),
{
    reveal_strlit("GET / HTTP/1.1\r\n");
    reveal_strlit("GET /sleep HTTP/1.1\r\n");
    is_ascii_spec_bytes("GET / HTTP/1.1\r\n");
    is_ascii_spec_bytes("GET /sleep HTTP/1.1\r\n");
    if is_prefix(root_request_spec(), buf) && is_prefix(sleep_request_spec(), buf) {
        assert(buf.subrange(0, 16)[5] == root_request_spec()[5]);
        assert(buf.subrange(0, 21)[5] == sleep_request_spec()[5]);
    }
}

/// A request that starts with the root request line is answered with the
/// 200 status line followed by the root file's contents, read from
/// `hello.html`, and the connection ends served.
pub proof fn lemma_root_request_served(buf: Seq<u8>, contents: Seq<char>)
    requires
        is_prefix(root_request_spec(), buf),
    ensures
        run(idle(), served_events(buf, contents)) == (
            Handler { phase: Phase::Done, route: Route::Root },
            seq![
                ActionView::ReadRequest(1024),
                ActionView::LoadFile("hello.html"@),
                ActionView::Write("HTTP/1.1 200 OK\r\n\r\n"@ + contents),
                ActionView::Flush,
                ActionView::Finish,
            ],
        ),
{
    reveal_with_fuel(run, 6);
    assert(run(idle(), served_events(buf, contents)).1 =~= seq![
        ActionView::ReadRequest(1024),
        ActionView::LoadFile("hello.html"@),
        ActionView::Write("HTTP/1.1 200 OK\r\n\r\n"@ + contents),
        ActionView::Flush,
        ActionView::Finish,
    ]);
}

/// A request that starts with the delayed request line first gets a
/// 500 ms wait and nothing else: until the wait is reported over, no file
/// is read and nothing is written, and any other report fails the
/// connection. After the wait it is answered exactly as the root request.
pub proof fn lemma_sleep_request_delayed(buf: Seq<u8>, contents: Seq<char>)
    requires
        is_prefix(sleep_request_spec(), buf),
    ensures
        run(idle(), seq![EventView::Connected, EventView::RequestRead(buf)]) == (
            Handler { phase: Phase::Delaying, route: Route::Sleep },
            seq![ActionView::ReadRequest(1024), ActionView::Sleep(500)],
        ),
        forall|e: EventView|
            e != EventView::DelayElapsed ==> #[trigger] next(
                Handler { phase: Phase::Delaying, route: Route::Sleep },
                e,
            ) == (Handler { phase: Phase::Failed, route: Route::Sleep }, ActionView::Abort),
        run(
            Handler { phase: Phase::Delaying, route: Route::Sleep },
            seq![
                EventView::DelayElapsed,
                EventView::FileLoaded(contents),
                EventView::Written,
                EventView::Flushed,
            ],
        ) == (
            Handler { phase: Phase::Done, route: Route::Sleep },
            seq![
                ActionView::LoadFile("hello.html"@),
                ActionView::Write("HTTP/1.1 200 OK\r\n\r\n"@ + contents),
                ActionView::Flush,
                ActionView::Finish,
            ],
        ),
{
    lemma_request_lines_differ(buf);
    reveal_with_fuel(run, 5);
    let d = Handler { phase: Phase::Delaying, route: Route::Sleep };
    assert(run(idle(), seq![EventView::Connected, EventView::RequestRead(buf)]).1 =~= seq![
        ActionView::ReadRequest(1024),
        ActionView::Sleep(500),
    ]);
    assert(run(
        d,
        seq![
            EventView::DelayElapsed,
            EventView::FileLoaded(contents),
            EventView::Written,
            EventView::Flushed,
        ],
    ).1 =~= seq![
        ActionView::LoadFile("hello.html"@),
        ActionView::Write("HTTP/1.1 200 OK\r\n\r\n"@ + contents),
        ActionView::Flush,
        ActionView::Finish,
    ]);
}

/// A request that starts with neither request line is answered with the
/// 404 status line followed by the contents of `404.html`.
pub proof fn lemma_other_request_not_found(buf: Seq<u8>, contents: Seq<char>)
    requires
        !is_prefix(root_request_spec(), buf),
        !is_prefix(sleep_request_spec(), buf),
    ensures
        run(idle(), served_events(buf, contents)) == (
            Handler { phase: Phase::Done, route: Route::NotFound },
            seq![
                ActionView::ReadRequest(1024),
                ActionView::LoadFile("404.html"@),
                ActionView::Write("HTTP/1.1 404 NOT FOUND\r\n\r\n"@ + contents),
                ActionView::Flush,
                ActionView::Finish,
            ],
        ),
{
    reveal_with_fuel(run, 6);
    assert(run(idle(), served_events(buf, contents)).1 =~= seq![
        ActionView::ReadRequest(1024),
        ActionView::LoadFile("404.html"@),
        ActionView::Write("HTTP/1.1 404 NOT FOUND\r\n\r\n"@ + contents),
        ActionView::Flush,
        ActionView::Finish,
    ]);
}

/// When the selected file cannot be read, the connection fails: it writes
/// nothing, and from then on every report leaves it failed.
pub proof fn lemma_missing_file_fails(h: Handler, later: Seq<EventView>)
    requires
        h.phase == Phase::Loading,
    ensures
        next(h, EventView::IoFailed) == (
            Handler { phase: Phase::Failed, route: h.route },
            ActionView::Abort,
        ),
        run(Handler { phase: Phase::Failed, route: h.route }, later) == (
            Handler { phase: Phase::Failed, route: h.route },
            Seq::new(later.len(), |i: int| ActionView::Abort),
        ),
    decreases later.len(),
{
    let f = Handler { phase: Phase::Failed, route: h.route };
    if later.len() > 0 {
        lemma_missing_file_fails(h, later.drop_first());
        assert(run(f, later).1 =~= Seq::new(later.len(), |i: int| ActionView::Abort));
    } else {
        assert(run(f, later).1 =~= Seq::new(later.len(), |i: int| ActionView::Abort));
    }
}

/// The response text: `status` followed by `contents`.
pub fn response_text(status: &str, contents: &str) -> (r: String)
    ensures
        r@ == status@ + contents@,
{
    status.to_owned().concat(contents)
}

impl Handler {
    /// A connection on which nothing has happened yet.
    pub fn new() -> (h: Handler)
        ensures
            h.phase == Phase::Idle,
            h.route == Route::NotFound,
    {
        Handler { phase: Phase::Idle, route: Route::NotFound }
    }

    /// Whether the connection is over, served or failed.
    pub fn is_finished(&self) -> (r: bool)
        ensures
            r == (self.phase == Phase::Done || self.phase == Phase::Failed),
    {
        match self.phase {
            Phase::Done | Phase::Failed => true,
            _ => false,
        }
    }

    fn load(route: Route) -> (r: (Handler, Action))
        ensures
            (r.0, r.1@) == load_step(route),
    {
        (Handler { phase: Phase::Loading, route }, Action::LoadFile(route.filename()))
    }

    /// Takes the connection's report and returns what to do next.
    pub fn step(&mut self, e: Event) -> (a: Action)
        ensures
            (*final(self), a@) == next(*old(self), e@),
    {
        let (h, a) = match (self.phase, e) {
            (Phase::Idle, Event::Connected) => (
                Handler { phase: Phase::Reading, route: self.route },
                Action::ReadRequest(REQUEST_CAPACITY),
            ),
            (Phase::Reading, Event::RequestRead(buf)) => {
                let route = classify(buf.as_slice());
                let ms = route.delay_millis();
                if ms > 0 {
                    (Handler { phase: Phase::Delaying, route }, Action::Sleep(ms))
                } else {
                    Handler::load(route)
                }
            },
            (Phase::Delaying, Event::DelayElapsed) => Handler::load(self.route),
            (Phase::Loading, Event::FileLoaded(c)) => (
                Handler { phase: Phase::Writing, route: self.route },
                Action::Write(response_text(self.route.status_line(), c.as_str())),
            ),
            (Phase::Writing, Event::Written) => (
                Handler { phase: Phase::Flushing, route: self.route },
                Action::Flush,
            ),
            (Phase::Flushing, Event::Flushed) => (
                Handler { phase: Phase::Done, route: self.route },
                Action::Finish,
            ),
            (Phase::Done, _) => (*self, Action::Finish),
            _ => (Handler { phase: Phase::Failed, route: self.route }, Action::Abort),
        };
        *self = h;
        a
    }
}

} // verus!
