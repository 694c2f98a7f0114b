use hello_server::handler::{response_text, Action, Event, Handler, Phase};
use hello_server::route::{
    classify, root_request_line, sleep_request_line, starts_with, Route, REQUEST_CAPACITY,
    SLEEP_MILLIS,
};

fn padded(text: &str) -> Vec<u8> {
    let mut buf = vec![0u8; 1024];
    buf[..text.len()].copy_from_slice(text.as_bytes());
    buf
}

/// Runs a connection on which everything succeeds and returns the actions.
fn serve(request: &[u8], contents: &str) -> (Handler, Vec<Action>) {
    let mut h = Handler::new();
    let mut actions = Vec::new();
    actions.push(h.step(Event::Connected));
    actions.push(h.step(Event::RequestRead(request.to_vec())));
    if let Action::Sleep(_) = actions[1] {
        actions.push(h.step(Event::DelayElapsed));
    }
    actions.push(h.step(Event::FileLoaded(contents.to_string())));
    actions.push(h.step(Event::Written));
    actions.push(h.step(Event::Flushed));
    (h, actions)
}

fn written(actions: &[Action]) -> Vec<String> {
    actions
        .iter()
        .filter_map(|a| match a {
            Action::Write(r) => Some(r.clone()),
            _ => None,
        })
        .collect()
}

#[test]
fn request_lines_are_the_literal_lines() {
    assert_eq!(root_request_line(), b"GET / HTTP/1.1\r\n");
    assert_eq!(sleep_request_line(), b"GET /sleep HTTP/1.1\r\n");
}

#[test]
fn starts_with_cases() {
    assert!(starts_with(b"abc", b""));
    assert!(starts_with(b"abc", b"ab"));
    assert!(starts_with(b"abc", b"abc"));
    assert!(!starts_with(b"abc", b"abcd"));
    assert!(!starts_with(b"abc", b"b"));
    assert!(!starts_with(b"", b"a"));
}

#[test]
fn classify_root_request() {
    assert_eq!(classify(b"GET / HTTP/1.1\r\nHost: x\r\n\r\n"), Route::Root);
    assert_eq!(classify(&padded("GET / HTTP/1.1\r\n")), Route::Root);
}

#[test]
fn classify_sleep_request() {
    assert_eq!(classify(b"GET /sleep HTTP/1.1\r\nHost: x\r\n\r\n"), Route::Sleep);
    assert_eq!(classify(&padded("GET /sleep HTTP/1.1\r\n")), Route::Sleep);
}

#[test]
fn classify_other_requests() {
    assert_eq!(classify(b""), Route::NotFound);
    assert_eq!(classify(&[0u8; 1024]), Route::NotFound);
    assert_eq!(classify(b"GET / HTTP/1.1"), Route::NotFound);
    assert_eq!(classify(b"GET /index.html HTTP/1.1\r\n"), Route::NotFound);
    assert_eq!(classify(b"GET /sleepy HTTP/1.1\r\n"), Route::NotFound);
    assert_eq!(classify(b"POST / HTTP/1.1\r\n"), Route::NotFound);
    assert_eq!(classify(b"get / HTTP/1.1\r\n"), Route::NotFound);
}

#[test]
fn route_parameters() {
    assert_eq!(Route::Root.status_line(), "HTTP/1.1 200 OK\r\n\r\n");
    assert_eq!(Route::Sleep.status_line(), "HTTP/1.1 200 OK\r\n\r\n");
    assert_eq!(Route::NotFound.status_line(), "HTTP/1.1 404 NOT FOUND\r\n\r\n");
    assert_eq!(Route::Root.filename(), "hello.html");
    assert_eq!(Route::Sleep.filename(), "hello.html");
    assert_eq!(Route::NotFound.filename(), "404.html");
    assert_eq!(Route::Root.delay_millis(), 0);
    assert_eq!(Route::Sleep.delay_millis(), 500);
    assert_eq!(Route::NotFound.delay_millis(), 0);
    assert_eq!(SLEEP_MILLIS, 500);
    assert_eq!(REQUEST_CAPACITY, 1024);
}

#[test]
fn response_text_concatenates() {
    assert_eq!(response_text("A\r\n", "<p>b</p>"), "A\r\n<p>b</p>");
    assert_eq!(response_text("", ""), "");
}

#[test]
fn root_request_is_served_with_root_file() {
    let (h, actions) = serve(&padded("GET / HTTP/1.1\r\n"), "<h1>Hello!</h1>");
    assert!(matches!(actions[0], Action::ReadRequest(1024)));
    assert!(matches!(actions[1], Action::LoadFile("hello.html")));
    assert_eq!(written(&actions), vec!["HTTP/1.1 200 OK\r\n\r\n<h1>Hello!</h1>".to_string()]);
    assert!(matches!(actions[3], Action::Flush));
    assert!(matches!(actions[4], Action::Finish));
    assert_eq!(actions.len(), 5);
    assert_eq!(h.phase, Phase::Done);
    assert_eq!(h.route, Route::Root);
    assert!(h.is_finished());
}

#[test]
fn sleep_request_waits_before_loading() {
    let (h, actions) = serve(b"GET /sleep HTTP/1.1\r\n", "<h1>Hello!</h1>");
    assert!(matches!(actions[1], Action::Sleep(500)));
    assert!(matches!(actions[2], Action::LoadFile("hello.html")));
    assert_eq!(written(&actions), vec!["HTTP/1.1 200 OK\r\n\r\n<h1>Hello!</h1>".to_string()]);
    assert_eq!(actions.len(), 6);
    assert_eq!(h.phase, Phase::Done);
    assert_eq!(h.route, Route::Sleep);
}

#[test]
fn sleep_request_answers_like_root_request() {
    let (_, slept) = serve(b"GET /sleep HTTP/1.1\r\n", "page");
    let (_, direct) = serve(b"GET / HTTP/1.1\r\n", "page");
    assert_eq!(written(&slept), written(&direct));
}

#[test]
fn nothing_is_loaded_before_the_delay_ends() {
    let mut h = Handler::new();
    h.step(Event::Connected);
    assert!(matches!(h.step(Event::RequestRead(b"GET /sleep HTTP/1.1\r\n".to_vec())), Action::Sleep(500)));
    assert_eq!(h.phase, Phase::Delaying);
    assert!(matches!(h.step(Event::FileLoaded("early".to_string())), Action::Abort));
    assert_eq!(h.phase, Phase::Failed);
}

#[test]
fn other_request_is_not_found() {
    let (h, actions) = serve(b"GET /missing HTTP/1.1\r\n", "<h1>Oops</h1>");
    assert!(matches!(actions[1], Action::LoadFile("404.html")));
    assert_eq!(
        written(&actions),
        vec!["HTTP/1.1 404 NOT FOUND\r\n\r\n<h1>Oops</h1>".to_string()]
    );
    assert_eq!(h.route, Route::NotFound);
    assert_eq!(h.phase, Phase::Done);
}

#[test]
fn empty_request_is_not_found_with_empty_file() {
    let (_, actions) = serve(b"", "");
    assert_eq!(written(&actions), vec!["HTTP/1.1 404 NOT FOUND\r\n\r\n".to_string()]);
}

#[test]
fn missing_file_fails_the_connection() {
    let mut h = Handler::new();
    h.step(Event::Connected);
    assert!(matches!(h.step(Event::RequestRead(b"GET / HTTP/1.1\r\n".to_vec())), Action::LoadFile("hello.html")));
    assert!(matches!(h.step(Event::IoFailed), Action::Abort));
    assert_eq!(h.phase, Phase::Failed);
    assert!(h.is_finished());
    assert!(matches!(h.step(Event::Written), Action::Abort));
    assert!(matches!(h.step(Event::FileLoaded("late".to_string())), Action::Abort));
    assert_eq!(h.phase, Phase::Failed);
}

#[test]
fn read_and_write_failures_fail_the_connection() {
    let mut h = Handler::new();
    h.step(Event::Connected);
    assert!(matches!(h.step(Event::IoFailed), Action::Abort));
    assert_eq!(h.phase, Phase::Failed);

    let mut h = Handler::new();
    h.step(Event::Connected);
    h.step(Event::RequestRead(b"GET / HTTP/1.1\r\n".to_vec()));
    h.step(Event::FileLoaded("x".to_string()));
    assert!(matches!(h.step(Event::IoFailed), Action::Abort));
    assert_eq!(h.phase, Phase::Failed);
}

#[test]
fn served_connection_stays_served() {
    let (mut h, _) = serve(b"GET / HTTP/1.1\r\n", "x");
    assert!(matches!(h.step(Event::IoFailed), Action::Finish));
    assert_eq!(h.phase, Phase::Done);
}

#[test]
fn new_handler_is_idle() {
    let h = Handler::new();
    assert_eq!(h.phase, Phase::Idle);
    assert!(!h.is_finished());
}
