//! The single-use file server: the mapping it serves, what it answers to a
//! request, and when its accept loop stops.
//!
//! Nothing here touches a socket or a file. The caller probes the paths,
//! reads the bytes off a connection, reads the file that a plan names and
//! writes the response; every decision in between is made here.

use vstd::prelude::*;
use vstd::slice::slice_subrange;
use vstd::utf8::encode_utf8;
use json::JsonValue;
use crate::config::{json_tree, toolbox_key, tree_member};
use crate::http::{
    decode_lossy, http_200_response, index_name, lossy_text, not_found_body, not_found_bytes,
    not_found_response, ok_response, parse_request_path, request_path, requested_name,
    resolve_name, root_path, REQUEST_BUFFER_SIZE,
};
use crate::text::{chars_of, decimal, decimal_string, pairs_of, str_eq, texts_of};
use crate::toolbox::{stage_at, start_run, toolbox_items, work_list, ToolboxRun};

verus! {

/// Milliseconds the accept loop rests when no connection is waiting.
pub const POLL_INTERVAL_MS: u64 = 50;

/// What the file system said of a candidate's path.
#[derive(Clone, Copy, Debug, PartialEq, Eq, Structural)]
pub enum PathProbe {
    /// The path could not be made canonical: it does not exist or cannot be reached.
    Unresolved,
    /// The path exists and is not a regular file.
    NotAFile,
    /// The path is an existing regular file.
    RegularFile,
}

/// One `(public name, path)` pair offered to the server, with what the file
/// system said of the path.
#[derive(Debug)]
pub struct FileCandidate {
    /// The name under which the file is to be served.
    pub name: String,
    /// The canonical path where the probe resolved it, else the path as given.
    pub path: String,
    /// What probing the path found.
    pub probe: PathProbe,
}

/// Why a candidate cannot enter the mapping.
#[derive(Clone, Copy, Debug, PartialEq, Eq, Structural)]
pub enum MappingFault {
    /// The name is empty or holds `/` or `\`.
    InvalidName,
    /// An earlier candidate has the same name.
    DuplicateName,
    /// The path does not resolve.
    Unresolved,
    /// The path resolves to something that is not a regular file.
    NotAFile,
}

/// The first candidate that cannot enter the mapping, and why.
#[derive(Clone, Copy, Debug, PartialEq, Eq, Structural)]
pub struct MappingError {
    /// Position of the candidate among those offered.
    pub index: usize,
    /// What is wrong with it.
    pub fault: MappingFault,
}

/// A name is valid when it is not empty and holds no path separator.
pub open spec fn valid_name(name: Seq<char>) -> bool {
    &&& name.len() > 0
    &&& forall|i: int| 0 <= i < name.len() ==> #[trigger] name[i] != '/' && name[i] != '\\'
}

/// What is wrong with the candidate at `i`, given those before it. The name
/// is judged first, then the path.
pub open spec fn candidate_fault(files: Seq<FileCandidate>, i: int) -> Option<MappingFault> {
    let c = files[i];
    if !valid_name(c.name@) {
        Some(MappingFault::InvalidName)
    } else if exists|j: int| 0 <= j < i && (#[trigger] files[j]).name@ == c.name@ {
        Some(MappingFault::DuplicateName)
    } else if c.probe == PathProbe::Unresolved {
        Some(MappingFault::Unresolved)
    } else if c.probe == PathProbe::NotAFile {
        Some(MappingFault::NotAFile)
    } else {
        None
    }
}

/// The `(name, path)` pairs of the candidates, in order.
pub open spec fn mapping_of(files: Seq<FileCandidate>) -> Seq<(Seq<char>, Seq<char>)> {
    Seq::new(files.len(), |i: int| (files[i].name@, files[i].path@))
}

/// No two entries share a name.
pub open spec fn names_unique(files: Seq<(Seq<char>, Seq<char>)>) -> bool {
    forall|i: int, j: int|
        0 <= i < j < files.len() ==> (#[trigger] files[i]).0 != (#[trigger] files[j]).0
}

/// A mapping is well formed when every name is valid and no name occurs twice.
pub open spec fn well_formed(files: Seq<(Seq<char>, Seq<char>)>) -> bool {
    &&& forall|i: int| 0 <= i < files.len() ==> valid_name((#[trigger] files[i]).0)
    &&& names_unique(files)
}

/// Position of the first entry at or after `from` that is named `name`.
pub open spec fn position_from(
    files: Seq<(Seq<char>, Seq<char>)>,
    name: Seq<char>,
    from: int,
) -> Option<int>
    decreases files.len() - from,
{
    if from < 0 || from >= files.len() {
        None
    } else if files[from].0 == name {
        Some(from)
    } else {
        position_from(files, name, from + 1)
    }
}

/// Position of the entry named `name`. Names match exactly or not at all.
pub open spec fn position(files: Seq<(Seq<char>, Seq<char>)>, name: Seq<char>) -> Option<int> {
    position_from(files, name, 0)
}

/// What to do about a connection once its request has been read.
#[derive(Clone, Copy, Debug, PartialEq, Eq, Structural)]
pub enum RequestPlan {
    /// The peer closed without sending: answer nothing.
    Ignore,
    /// The path names no entry: answer not-found.
    NotFound,
    /// The path names the entry at `entry`: read its file and deliver it.
    Deliver { entry: usize },
}

/// The plan for a request whose text is `request`.
pub open spec fn plan_for(files: Seq<(Seq<char>, Seq<char>)>, request: Seq<char>) -> RequestPlan {
    match position(files, requested_name(request_path(request))) {
        Some(i) => RequestPlan::Deliver { entry: i as usize },
        None => RequestPlan::NotFound,
    }
}

/// The part of what was received that is looked at.
pub open spec fn request_window(received: Seq<u8>) -> Seq<u8> {
    if received.len() > REQUEST_BUFFER_SIZE {
        received.take(REQUEST_BUFFER_SIZE as int)
    } else {
        received
    }
}

/// The plan for a connection on which `received` was read.
pub open spec fn plan_for_bytes(
    files: Seq<(Seq<char>, Seq<char>)>,
    received: Seq<u8>,
) -> RequestPlan {
    if received.len() == 0 {
        RequestPlan::Ignore
    } else {
        plan_for(files, lossy_text(request_window(received)))
    }
}

/// What is written back on a connection, and whether it is a delivery.
#[derive(Debug)]
pub struct Response {
    /// The bytes to write.
    pub bytes: Vec<u8>,
    /// Whether these bytes are a successful delivery.
    pub success: bool,
}

/// The response once the file was read, or could not be.
pub open spec fn response_bytes(contents: Option<Seq<u8>>) -> Seq<u8> {
    match contents {
        Some(bytes) => ok_response(bytes),
        None => encode_utf8(not_found_response(not_found_body())),
    }
}

/// The abstract value of a server.
pub struct ServerView {
    pub host: Seq<char>,
    pub port: u16,
    pub files: Seq<(Seq<char>, Seq<char>)>,
}

/// `host`, a colon and the port in decimal.
pub open spec fn endpoint_of(host: Seq<char>, port: u16) -> Seq<char> {
    host + seq![':'] + decimal(port as nat)
}

/// A bind address, a port and a well-formed mapping from public names to
/// files. The mapping never changes after construction.
#[derive(Debug)]
pub struct StaticServer {
    host: String,
    port: u16,
    file_map: Vec<(String, String)>,
}

impl StaticServer {
    /// The host, the port and the `(name, path)` pairs in order.
    pub closed spec fn view(&self) -> ServerView {
        ServerView {
            host: self.host@,
            port: self.port,
            files: pairs_of(self.file_map@),
        }
    }

    /// Every server holds a well-formed mapping. A caller that holds a
    /// server learns so from `use_type_invariant`.
    #[verifier::type_invariant]
    pub open spec fn inv(&self) -> bool {
        well_formed(self@.files)
    }

    /// Builds a server from candidates whose paths were probed. Either every
    /// candidate is sound and all of them enter the mapping in order, or the
    /// first unsound one is reported and no server exists.
    pub fn new(host: &str, port: u16, files: &Vec<FileCandidate>) -> (r: Result<
        StaticServer,
        MappingError,
    >)
        ensures
            match r {
                Ok(server) => {
                    &&& forall|i: int| 0 <= i < files.len() ==> candidate_fault(files@, i) is None
                    &&& server@.host == host@
                    &&& server@.port == port
                    &&& server@.files == mapping_of(files@)
                    &&& well_formed(server@.files)
                },
                Err(e) => {
                    &&& e.index < files.len()
                    &&& candidate_fault(files@, e.index as int) == Some(e.fault)
                    &&& forall|j: int| 0 <= j < e.index ==> candidate_fault(files@, j) is None
                },
            },
    {
        let mut map: Vec<(String, String)> = Vec::new();
        let mut i: usize = 0;
        while i < files.len()
            invariant
                i <= files.len(),
                map.len() == i,
                forall|j: int| 0 <= j < i ==> candidate_fault(files@, j) is None,
                forall|j: int|
                    0 <= j < i ==> (#[trigger] map[j]).0@ == files[j].name@ && map[j].1@
                        == files[j].path@,
            decreases files.len() - i,
        {
            let candidate = &files[i];
            if !name_is_valid(candidate.name.as_str()) {
                return Err(MappingError { index: i, fault: MappingFault::InvalidName });
            }
            if name_taken(&map, candidate.name.as_str()) {
                proof {
                    let j = choose|j: int|
                        0 <= j < map.len() && (#[trigger] map[j]).0@ == candidate.name@;
                    assert(files[j].name@ == candidate.name@);
                }
                return Err(MappingError { index: i, fault: MappingFault::DuplicateName });
            }
            assert forall|j: int| 0 <= j < i implies (#[trigger] files[j]).name@
                != candidate.name@ by {
                assert(map[j].0@ == files[j].name@);
            }
            match candidate.probe {
                PathProbe::Unresolved => {
                    return Err(MappingError { index: i, fault: MappingFault::Unresolved });
                },
                PathProbe::NotAFile => {
                    return Err(MappingError { index: i, fault: MappingFault::NotAFile });
                },
                PathProbe::RegularFile => {},
            }
            map.push((candidate.name.clone(), candidate.path.clone()));
            i += 1;
        }
        proof {
            let pairs = pairs_of(map@);
            assert(pairs =~= mapping_of(files@));
            assert forall|a: int, b: int| 0 <= a < b < pairs.len() implies (#[trigger] pairs[a]).0
                != (#[trigger] pairs[b]).0 by {
                assert(candidate_fault(files@, b) is None);
                assert(files[a].name@ != files[b].name@);
            }
            assert forall|a: int| 0 <= a < pairs.len() implies valid_name(
                (#[trigger] pairs[a]).0,
            ) by {
                assert(candidate_fault(files@, a) is None);
            }
        }
        Ok(StaticServer { host: host.to_owned(), port, file_map: map })
    }

    /// The address the server binds.
    pub fn host(&self) -> (r: &str)
        ensures
            r@ == self@.host,
    {
        self.host.as_str()
    }

    /// The port the server binds.
    pub fn port(&self) -> (r: u16)
        ensures
            r == self@.port,
    {
        self.port
    }

    /// How many files the server offers.
    pub fn len(&self) -> (r: usize)
        ensures
            r == self@.files.len(),
    {
        self.file_map.len()
    }

    /// The public name of the entry at `entry`, where there is one.
    pub fn name_at(&self, entry: usize) -> (r: Option<&str>)
        ensures
            match r {
                Some(name) => entry < self@.files.len() && name@ == self@.files[entry as int].0,
                None => entry >= self@.files.len(),
            },
    {
        if entry < self.file_map.len() {
            Some(self.file_map[entry].0.as_str())
        } else {
            None
        }
    }

    /// The path of the entry at `entry`, where there is one.
    pub fn path_at(&self, entry: usize) -> (r: Option<&str>)
        ensures
            match r {
                Some(path) => entry < self@.files.len() && path@ == self@.files[entry as int].1,
                None => entry >= self@.files.len(),
            },
    {
        if entry < self.file_map.len() {
            Some(self.file_map[entry].1.as_str())
        } else {
            None
        }
    }

    /// The text to bind to: host, colon, port.
    pub fn endpoint(&self) -> (r: String)
        ensures
            r@ == endpoint_of(self@.host, self@.port),
    {
        let mut r = self.host.clone();
        proof {
            reveal_strlit(":");
        }
        r.append(":");
        r.append(decimal_string(self.port as usize).as_str());
        assert(r@ =~= endpoint_of(self@.host, self@.port));
        r
    }

    /// Finds the entry with the given public name.
    pub fn find(&self, name: &str) -> (r: Option<usize>)
        ensures
            match r {
                Some(i) => position(self@.files, name@) == Some(i as int) && i
                    < self@.files.len(),
                None => position(self@.files, name@) is None,
            },
            well_formed(self@.files),
    {
        proof {
            use_type_invariant(self);
        }
        let mut i: usize = 0;
        while i < self.file_map.len()
            invariant
                i <= self.file_map.len(),
                position_from(self@.files, name@, i as int) == position(self@.files, name@),
                well_formed(self@.files),
            decreases self.file_map.len() - i,
        {
            if str_eq(self.file_map[i].0.as_str(), name) {
                return Some(i);
            }
            i += 1;
        }
        None
    }

    /// Plans the answer to a request given as text.
    pub fn plan_text(&self, request: &str) -> (r: RequestPlan)
        ensures
            r == plan_for(self@.files, request@),
            r matches RequestPlan::Deliver { entry } ==> entry < self@.files.len(),
            well_formed(self@.files),
    {
        let path = parse_request_path(request);
        let name = resolve_name(path.as_str());
        match self.find(name.as_str()) {
            Some(entry) => RequestPlan::Deliver { entry },
            None => RequestPlan::NotFound,
        }
    }

    /// Plans the answer to what was read from a connection. Nothing read means
    /// nothing to answer; otherwise the first `REQUEST_BUFFER_SIZE` bytes are
    /// decoded, leniently, and planned as text.
    pub fn plan_request(&self, received: &[u8]) -> (r: RequestPlan)
        ensures
            r == plan_for_bytes(self@.files, received@),
            r matches RequestPlan::Deliver { entry } ==> entry < self@.files.len(),
            well_formed(self@.files),
    {
        proof {
            use_type_invariant(self);
        }
        if received.len() == 0 {
            return RequestPlan::Ignore;
        }
        let window = if received.len() > REQUEST_BUFFER_SIZE {
            slice_subrange(received, 0, REQUEST_BUFFER_SIZE)
        } else {
            received
        };
        assert(window@ =~= request_window(received@));
        let text = decode_lossy(window);
        self.plan_text(text.as_str())
    }
}

impl Clone for StaticServer {
    /// A server with the same address, port and mapping.
    fn clone(&self) -> (r: StaticServer)
        ensures
            r@ == self@,
    {
        proof {
            use_type_invariant(self);
        }
        let mut map: Vec<(String, String)> = Vec::new();
        let mut i: usize = 0;
        while i < self.file_map.len()
            invariant
                i <= self.file_map.len(),
                map.len() == i,
                forall|j: int|
                    0 <= j < i ==> (#[trigger] map[j]).0@ == self.file_map[j].0@ && map[j].1@
                        == self.file_map[j].1@,
            decreases self.file_map.len() - i,
        {
            map.push((self.file_map[i].0.clone(), self.file_map[i].1.clone()));
            i += 1;
        }
        assert(pairs_of(map@) =~= pairs_of(self.file_map@));
        StaticServer { host: self.host.clone(), port: self.port, file_map: map }
    }
}

/// Builds what is written back once the planned file was read (`Some`) or
/// could not be read (`None`).
pub fn respond(contents: Option<&[u8]>) -> (r: Response)
    ensures
        r.success == contents is Some,
        r.bytes@ == response_bytes(
            match contents {
                Some(bytes) => Some(bytes@),
                None => None,
            },
        ),
{
    match contents {
        Some(bytes) => Response { bytes: http_200_response(bytes), success: true },
        None => Response { bytes: not_found_bytes(), success: false },
    }
}

/// Starts resolving the artifacts `serve_files` as the configuration
/// describes them, for files kept in the directory `dir` and to be served on
/// `port`.
pub fn build_from_config(
    serve_files: &Vec<String>,
    config: &JsonValue,
    dir: &str,
    port: u16,
) -> (r: ToolboxRun)
    ensures
        r@.items == toolbox_items(
            tree_member(json_tree(*config), toolbox_key()),
            texts_of(serve_files@),
        ),
        r@.dir == dir@,
        r@.port == port,
        r@.cursor == 0,
        r@.stage == stage_at(r@.items, 0, r@.files),
        r@.files == Seq::<(Seq<char>, Seq<char>)>::empty(),
{
    start_run(work_list(serve_files, config), dir, port)
}

/// Builds a server from pairs that make a well-formed mapping.
pub(crate) fn server_of(host: &str, port: u16, files: &Vec<(String, String)>) -> (r:
    StaticServer)
    requires
        well_formed(pairs_of(files@)),
    ensures
        r@.host == host@,
        r@.port == port,
        r@.files == pairs_of(files@),
{
    let mut map: Vec<(String, String)> = Vec::new();
    let mut i: usize = 0;
    while i < files.len()
        invariant
            i <= files.len(),
            map.len() == i,
            forall|j: int|
                0 <= j < i ==> (#[trigger] map[j]).0@ == files[j].0@ && map[j].1@ == files[j].1@,
        decreases files.len() - i,
    {
        map.push((files[i].0.clone(), files[i].1.clone()));
        i += 1;
    }
    assert(pairs_of(map@) =~= pairs_of(files@));
    StaticServer { host: host.to_owned(), port, file_map: map }
}

/// Decides whether `name` may be a public name.
pub fn name_is_valid(name: &str) -> (r: bool)
    ensures
        r == valid_name(name@),
{
    let chars = chars_of(name);
    if chars.len() == 0 {
        return false;
    }
    let mut i: usize = 0;
    while i < chars.len()
        invariant
            i <= chars.len(),
            chars@ == name@,
            forall|j: int| 0 <= j < i ==> #[trigger] name@[j] != '/' && name@[j] != '\\',
        decreases chars.len() - i,
    {
        if chars[i] == '/' || chars[i] == '\\' {
            return false;
        }
        i += 1;
    }
    true
}

/// Whether an entry of `map` already has the name `name`.
pub fn name_taken(map: &Vec<(String, String)>, name: &str) -> (r: bool)
    ensures
        r == exists|j: int| 0 <= j < map.len() && (#[trigger] map[j]).0@ == name@,
{
    let mut i: usize = 0;
    while i < map.len()
        invariant
            i <= map.len(),
            forall|j: int| 0 <= j < i ==> (#[trigger] map[j]).0@ != name@,
        decreases map.len() - i,
    {
        if str_eq(map[i].0.as_str(), name) {
            return true;
        }
        i += 1;
    }
    false
}

/// A position that is found lies in the mapping, bears the name, and is the
/// first to do so; nothing found means no entry bears the name.
pub proof fn lemma_position_in_range(
    files: Seq<(Seq<char>, Seq<char>)>,
    name: Seq<char>,
    from: int,
)
    requires
        0 <= from,
    ensures
        match position_from(files, name, from) {
            Some(i) => from <= i < files.len() && files[i].0 == name && forall|j: int|
                from <= j < i ==> (#[trigger] files[j]).0 != name,
            None => forall|j: int| from <= j < files.len() ==> (#[trigger] files[j]).0 != name,
        },
    decreases files.len() - from,
{
    if from < files.len() && files[from].0 != name {
        lemma_position_in_range(files, name, from + 1);
    }
}

/// Nothing is delivered but what was asked for by name: the entry that a
/// plan delivers bears exactly the name that the request's path resolves
/// to, and that name is valid, so it holds no separator.
pub proof fn law_delivery_is_by_name(files: Seq<(Seq<char>, Seq<char>)>, request: Seq<char>)
    requires
        well_formed(files),
        files.len() <= usize::MAX,
    ensures
        plan_for(files, request) matches RequestPlan::Deliver { entry } ==> entry < files.len()
            && files[entry as int].0 == requested_name(request_path(request)) && valid_name(
            requested_name(request_path(request)),
        ),
{
    lemma_position_in_range(files, requested_name(request_path(request)), 0);
}

/// In a well-formed mapping a request for the root path is planned as a
/// delivery exactly when an entry named `index` exists, and then it is that
/// entry which is delivered; otherwise the plan is not-found.
pub proof fn law_root_serves_index(files: Seq<(Seq<char>, Seq<char>)>, request: Seq<char>)
    requires
        well_formed(files),
        files.len() <= usize::MAX,
        request_path(request) == root_path(),
    ensures
        plan_for(files, request) is Deliver <==> exists|i: int|
            0 <= i < files.len() && (#[trigger] files[i]).0 == index_name(),
        plan_for(files, request) matches RequestPlan::Deliver { entry } ==> entry < files.len()
            && files[entry as int].0 == index_name(),
        !(plan_for(files, request) is Deliver) ==> plan_for(files, request)
            == RequestPlan::NotFound,
{
    assert(root_path().drop_first() =~= Seq::<char>::empty());
    assert(requested_name(root_path()) == index_name());
    lemma_position_in_range(files, index_name(), 0);
}

/// A name that is found in a well-formed mapping is found at the one entry
/// that bears it.
pub proof fn law_lookup_is_exact(files: Seq<(Seq<char>, Seq<char>)>, name: Seq<char>, i: int)
    requires
        well_formed(files),
        0 <= i < files.len(),
        files[i].0 == name,
    ensures
        position(files, name) == Some(i),
{
    lemma_position_in_range(files, name, 0);
}

} // verus!
