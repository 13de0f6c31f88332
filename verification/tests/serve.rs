use shelly::accept::{conclude, ServeAction, ServeEvent, ServePhase, ShutdownSignal};
use shelly::serve::{
    name_is_valid, name_taken, respond, FileCandidate, MappingError, MappingFault, PathProbe, RequestPlan,
    StaticServer,
};

fn candidate(name: &str, path: &str, probe: PathProbe) -> FileCandidate {
    FileCandidate { name: name.to_string(), path: path.to_string(), probe }
}

fn index_server() -> StaticServer {
    let files = vec![candidate("index", "/srv/hello.txt", PathProbe::RegularFile)];
    StaticServer::new("127.0.0.1", 9001, &files).expect("a sound mapping")
}

#[test]
fn request_for_index_is_delivered_and_stops_the_server() {
    let server = index_server();
    let plan = server.plan_request(b"GET /index HTTP/1.1");
    assert_eq!(plan, RequestPlan::Deliver { entry: 0 });
    assert_eq!(server.path_at(0), Some("/srv/hello.txt"));
    assert_eq!(server.path_at(1), None);
    let response = respond(Some(b"hello"));
    assert!(response.success);
    assert_eq!(response.bytes, b"HTTP/1.1 200 OK\r\nContent-Length: 5\r\n\r\nhello".to_vec());

    let mut run = server.serve();
    assert_eq!(run.endpoint(), "127.0.0.1:9001");
    assert_eq!(run.action(), ServeAction::Bind);
    assert_eq!(run.step(ServeEvent::Bound), ServeAction::Accept);
    assert_eq!(run.step(ServeEvent::Accepted), ServeAction::Poll);
    let mut signal = ShutdownSignal::new();
    conclude(&mut signal, &response, true);
    assert!(signal.is_fired());
    assert_eq!(run.poll(&signal), ServeAction::Finish);
    assert_eq!(run.current(), ServePhase::Stopped);
    assert_eq!(run.step(ServeEvent::Accepted), ServeAction::Finish);
    assert_eq!(run.step(ServeEvent::Rested), ServeAction::Finish);
}

#[test]
fn request_for_a_missing_file_is_answered_and_the_server_goes_on() {
    let server = index_server();
    let plan = server.plan_request(b"GET /missing HTTP/1.1");
    assert_eq!(plan, RequestPlan::NotFound);
    let response = respond(None);
    assert!(!response.success);
    assert_eq!(
        response.bytes,
        b"HTTP/1.1 404 NOT FOUND\r\nContent-Length: 14\r\n\r\n404 Not Found.".to_vec()
    );

    let mut run = server.serve();
    run.step(ServeEvent::Bound);
    run.step(ServeEvent::Accepted);
    let mut signal = ShutdownSignal::new();
    conclude(&mut signal, &response, true);
    assert!(!signal.is_fired());
    assert_eq!(run.poll(&signal), ServeAction::Accept);
    assert_eq!(run.current(), ServePhase::Accepting);
}

#[test]
fn root_is_served_exactly_when_an_index_exists() {
    let with_index = index_server();
    assert_eq!(with_index.plan_text("GET / HTTP/1.1\r\n"), RequestPlan::Deliver { entry: 0 });
    assert_eq!(with_index.plan_text("GET"), RequestPlan::Deliver { entry: 0 });

    let files = vec![
        candidate("logo.png", "/srv/logo.png", PathProbe::RegularFile),
        candidate("Index", "/srv/index.html", PathProbe::RegularFile),
    ];
    let without = StaticServer::new("0.0.0.0", 8000, &files).expect("a sound mapping");
    assert_eq!(without.plan_text("GET / HTTP/1.1\r\n"), RequestPlan::NotFound);
    assert_eq!(without.plan_text("GET /Index HTTP/1.1\r\n"), RequestPlan::Deliver { entry: 1 });
    assert_eq!(without.plan_text("GET /index HTTP/1.1\r\n"), RequestPlan::NotFound);
}

#[test]
fn names_match_verbatim_or_not_at_all() {
    let files = vec![
        candidate("a.bin", "/srv/a.bin", PathProbe::RegularFile),
        candidate("b.bin", "/srv/b.bin", PathProbe::RegularFile),
    ];
    let server = StaticServer::new("0.0.0.0", 8000, &files).expect("a sound mapping");
    assert_eq!(server.len(), 2);
    assert_eq!(server.host(), "0.0.0.0");
    assert_eq!(server.port(), 8000);
    assert_eq!(server.name_at(1), Some("b.bin"));
    assert_eq!(server.name_at(2), None);
    assert_eq!(server.find("b.bin"), Some(1));
    assert_eq!(server.find("B.bin"), None);
    assert_eq!(server.plan_text("GET /b.bin HTTP/1.1"), RequestPlan::Deliver { entry: 1 });
    assert_eq!(server.plan_text("GET b.bin HTTP/1.1"), RequestPlan::Deliver { entry: 1 });
    assert_eq!(server.plan_text("GET //b.bin HTTP/1.1"), RequestPlan::NotFound);
    assert_eq!(server.plan_text("GET /../b.bin HTTP/1.1"), RequestPlan::NotFound);
    assert_eq!(server.plan_text("GET /b.bin/ HTTP/1.1"), RequestPlan::NotFound);
}

#[test]
fn an_empty_read_is_ignored() {
    let server = index_server();
    assert_eq!(server.plan_request(b""), RequestPlan::Ignore);
}

#[test]
fn only_the_first_2048_bytes_of_a_request_are_read() {
    let server = index_server();
    let mut long = vec![b' '; 2048];
    long.extend_from_slice(b"GET /index HTTP/1.1");
    assert_eq!(server.plan_request(&long), RequestPlan::Deliver { entry: 0 });
    let mut longer = vec![b'x'; 2048];
    longer.extend_from_slice(b" /missing HTTP/1.1");
    assert_eq!(server.plan_request(&longer), RequestPlan::Deliver { entry: 0 });
    let mut inside = vec![b'x'; 2030];
    inside.extend_from_slice(b" /missing HTTP/1.1");
    assert_eq!(server.plan_request(&inside), RequestPlan::NotFound);
}

#[test]
fn bytes_that_are_not_utf8_are_decoded_leniently() {
    let server = index_server();
    let request = [b'G', b'E', b'T', b' ', b'/', 0xff, b' ', b'H'];
    assert_eq!(server.plan_request(&request), RequestPlan::NotFound);
    let request = [0xff, b' ', b'/', b'i', b'n', b'd', b'e', b'x', b'\n'];
    assert_eq!(server.plan_request(&request), RequestPlan::Deliver { entry: 0 });
}

#[test]
fn construction_reports_the_first_unsound_candidate() {
    let files = vec![
        candidate("ok", "/srv/ok", PathProbe::RegularFile),
        candidate("", "/srv/empty", PathProbe::RegularFile),
        candidate("a/b", "/srv/ab", PathProbe::Unresolved),
    ];
    assert_eq!(
        StaticServer::new("h", 1, &files).err(),
        Some(MappingError { index: 1, fault: MappingFault::InvalidName })
    );
    let files = vec![candidate("a/b", "/srv/ab", PathProbe::RegularFile)];
    assert_eq!(
        StaticServer::new("h", 1, &files).err(),
        Some(MappingError { index: 0, fault: MappingFault::InvalidName })
    );
    let files = vec![candidate("a\\b", "/srv/ab", PathProbe::RegularFile)];
    assert_eq!(
        StaticServer::new("h", 1, &files).err(),
        Some(MappingError { index: 0, fault: MappingFault::InvalidName })
    );
    let files = vec![
        candidate("same", "/srv/one", PathProbe::RegularFile),
        candidate("other", "/srv/two", PathProbe::RegularFile),
        candidate("same", "/srv/three", PathProbe::RegularFile),
    ];
    assert_eq!(
        StaticServer::new("h", 1, &files).err(),
        Some(MappingError { index: 2, fault: MappingFault::DuplicateName })
    );
    let files = vec![candidate("gone", "nowhere", PathProbe::Unresolved)];
    assert_eq!(
        StaticServer::new("h", 1, &files).err(),
        Some(MappingError { index: 0, fault: MappingFault::Unresolved })
    );
    let files = vec![candidate("dir", "/srv", PathProbe::NotAFile)];
    assert_eq!(
        StaticServer::new("h", 1, &files).err(),
        Some(MappingError { index: 0, fault: MappingFault::NotAFile })
    );
}

#[test]
fn the_name_is_judged_before_the_path() {
    let files = vec![
        candidate("a", "/srv/a", PathProbe::RegularFile),
        candidate("a", "/srv/none", PathProbe::Unresolved),
    ];
    assert_eq!(
        StaticServer::new("h", 1, &files).err(),
        Some(MappingError { index: 1, fault: MappingFault::DuplicateName })
    );
}

#[test]
fn an_empty_mapping_serves_nothing() {
    let server = StaticServer::new("::1", 65535, &Vec::new()).expect("an empty mapping is sound");
    assert_eq!(server.len(), 0);
    assert_eq!(server.endpoint(), "::1:65535");
    assert_eq!(server.plan_text("GET / HTTP/1.1"), RequestPlan::NotFound);
}

#[test]
fn valid_names_hold_no_separator() {
    assert!(name_is_valid("socatx64.bin"));
    assert!(name_is_valid(".."));
    assert!(!name_is_valid(""));
    assert!(!name_is_valid("a/b"));
    assert!(!name_is_valid("a\\b"));
    assert!(!name_is_valid("/"));
}

#[test]
fn a_read_failure_on_a_matched_path_is_answered_as_not_found() {
    let server = index_server();
    assert_eq!(server.plan_text("GET /index HTTP/1.1"), RequestPlan::Deliver { entry: 0 });
    let response = respond(None);
    assert!(!response.success);
    assert!(response.bytes.starts_with(b"HTTP/1.1 404 NOT FOUND\r\n"));
}

#[test]
fn an_empty_file_is_delivered_with_length_zero() {
    let response = respond(Some(b""));
    assert!(response.success);
    assert_eq!(response.bytes, b"HTTP/1.1 200 OK\r\nContent-Length: 0\r\n\r\n".to_vec());
}

#[test]
fn a_cloned_server_serves_the_same_files() {
    let server = index_server();
    let copy = server.clone();
    assert_eq!(copy.endpoint(), server.endpoint());
    assert_eq!(copy.len(), 1);
    assert_eq!(copy.name_at(0), Some("index"));
    assert_eq!(copy.path_at(0), Some("/srv/hello.txt"));
    assert_eq!(copy.plan_text("GET / HTTP/1.1"), RequestPlan::Deliver { entry: 0 });
}

#[test]
fn a_name_is_taken_when_an_entry_bears_it() {
    let map = vec![("a".to_string(), "/x/a".to_string()), ("b".to_string(), "/x/b".to_string())];
    assert!(name_taken(&map, "a"));
    assert!(name_taken(&map, "b"));
    assert!(!name_taken(&map, "A"));
    assert!(!name_taken(&map, "/x/a"));
    assert!(!name_taken(&Vec::new(), "a"));
}
