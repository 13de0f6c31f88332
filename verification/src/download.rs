//! Fetching an artifact: the steps of a download and the order they come in.
//!
//! The bytes go to a temporary file, which is never the destination itself,
//! and only a download that was received and written in full and made
//! executable is moved into place. The driver sends the request, reads and
//! writes the chunks, sets the permission and renames the file; this module
//! says when.

use vstd::prelude::*;
use crate::text::{parse_number, parsed_number, str_eq};

verus! {

/// How many bytes are asked for at a time.
pub const CHUNK_SIZE: usize = 8192;

/// The permission bits given to an artifact once it is in place.
pub const EXECUTABLE_MODE: u32 = 0o755;

/// Which step of a download failed.
#[derive(Clone, Copy, Debug, PartialEq, Eq, Structural)]
pub enum DownloadFailure {
    /// The destination's directory could not be made.
    Prepare,
    /// The request could not be sent, or the response could not be read.
    Transport,
    /// The server answered with a status that is not a success.
    Status,
    /// The temporary file could not be made or written.
    Temporary,
    /// More bytes came than can be counted.
    TooLarge,
    /// The temporary file could not be made executable.
    Permission,
    /// The temporary file could not be moved into place.
    Install,
}

/// How progress can be shown.
#[derive(Clone, Copy, Debug, PartialEq, Eq, Structural)]
pub enum Progress {
    /// The server disclosed the total size.
    Determinate { total: u64 },
    /// The total size is not known.
    Indeterminate,
}

/// Which outcome a download awaits.
#[derive(Clone, Copy, Debug, PartialEq, Eq, Structural)]
pub enum DownloadStage {
    /// That of making the destination's directory.
    Preparing,
    /// The response to the request.
    Requesting,
    /// That of making the temporary file.
    Opening,
    /// The next chunk of the body.
    Receiving,
    /// That of writing the chunk to the temporary file.
    Writing,
    /// That of making the temporary file executable.
    Marking,
    /// That of moving the temporary file into place.
    Installing,
    /// None: the artifact is in place.
    Installed,
    /// None: the download failed and the destination was not touched.
    Failed { failure: DownloadFailure },
}

/// What the driver is to do next.
#[derive(Clone, Copy, Debug, PartialEq, Eq, Structural)]
pub enum DownloadAction {
    /// Make the directory of the destination.
    Prepare,
    /// Send the request and read status and headers.
    Request,
    /// Make the temporary file.
    CreateTemp,
    /// Read up to `CHUNK_SIZE` bytes of the body.
    ReadChunk,
    /// Write the chunk just read to the temporary file.
    WriteChunk,
    /// Give the temporary file the permission bits `EXECUTABLE_MODE`, where
    /// the system has such bits.
    MarkExecutable,
    /// Move the temporary file to the destination.
    Install,
    /// Report success.
    Finish,
    /// Report the failure.
    Abandon { failure: DownloadFailure },
}

/// The path that `path` becomes when its extension is replaced by `extension`.
pub uninterp spec fn path_with_extension(path: Seq<char>, extension: Seq<char>) -> Seq<char>;

/// Whether a text holds no path separator, `/` or `\`.
pub open spec fn separator_free(text: Seq<char>) -> bool {
    forall|i: int| 0 <= i < text.len() ==> #[trigger] text[i] != '/' && text[i] != '\\'
}

/// `Path::with_extension` of std, on paths given and returned as text. The
/// result is a function of the two texts. An extension that holds a path
/// separator is left out: std does not return from it.
#[verifier::external_body]
fn with_extension(path: &str, extension: &str) -> (r: String)
    requires
        separator_free(extension@),
    ensures
        r@ == path_with_extension(path@, extension@),
{
    std::path::Path::new(path).with_extension(extension).to_string_lossy().into_owned()
}

/// The extension of the temporary file.
pub open spec fn temporary_extension() -> Seq<char> {
    "download"@
}

/// What is put behind a destination whose extension cannot be replaced.
pub open spec fn temporary_suffix() -> Seq<char> {
    ".download"@
}

/// The temporary path of a destination: the destination with the extension
/// `download` in place of its own, and where that is the destination itself,
/// the destination with `.download` behind it. It is never the destination.
pub open spec fn temporary_for(destination: Seq<char>) -> Seq<char> {
    let sibling = path_with_extension(destination, temporary_extension());
    if sibling == destination {
        destination + temporary_suffix()
    } else {
        sibling
    }
}

/// Whether a status code reports success.
pub open spec fn is_success(status: u16) -> bool {
    200 <= status <= 299
}

/// How progress can be shown, given the `Content-Length` header as far as
/// there is one that reads as text: determinate where it is a number.
pub open spec fn progress_for(content_length: Option<Seq<char>>) -> Progress {
    match content_length {
        Some(text) => match parsed_number(text, u64::MAX as nat) {
            Some(total) => Progress::Determinate { total: total as u64 },
            None => Progress::Indeterminate,
        },
        None => Progress::Indeterminate,
    }
}

/// The abstract value of a download.
pub struct DownloadView {
    pub url: Seq<char>,
    pub destination: Seq<char>,
    pub temporary: Seq<char>,
    pub stage: DownloadStage,
    pub progress: Progress,
    pub received: u64,
    pub pending: usize,
}

/// The download in another stage.
pub open spec fn moved(m: DownloadView, stage: DownloadStage) -> DownloadView {
    DownloadView { stage, ..m }
}

/// The download given up.
pub open spec fn failed(m: DownloadView, failure: DownloadFailure) -> DownloadView {
    DownloadView { stage: DownloadStage::Failed { failure }, ..m }
}

/// The download after the driver reports the response: its status and its
/// `Content-Length`, or `None` where no response came.
pub open spec fn after_response(
    m: DownloadView,
    response: Option<(u16, Option<Seq<char>>)>,
) -> DownloadView {
    if m.stage != DownloadStage::Requesting {
        m
    } else {
        match response {
            None => failed(m, DownloadFailure::Transport),
            Some((status, length)) => if is_success(status) {
                DownloadView {
                    stage: DownloadStage::Opening,
                    progress: progress_for(length),
                    ..m
                }
            } else {
                failed(m, DownloadFailure::Status)
            },
        }
    }
}

/// The download after the driver reports a read: how many bytes it gave, or
/// `None` where it failed. A read that gives nothing ends the body.
pub open spec fn after_chunk(m: DownloadView, read: Option<usize>) -> DownloadView {
    if m.stage != DownloadStage::Receiving {
        m
    } else {
        match read {
            None => failed(m, DownloadFailure::Transport),
            Some(n) => if n == 0 {
                moved(m, DownloadStage::Marking)
            } else {
                DownloadView { stage: DownloadStage::Writing, pending: n, ..m }
            },
        }
    }
}

/// The download after the driver reports how the awaited step went, for the
/// steps that either succeed or fail.
pub open spec fn after_step(m: DownloadView, ok: bool) -> DownloadView {
    match m.stage {
        DownloadStage::Preparing => if ok {
            moved(m, DownloadStage::Requesting)
        } else {
            failed(m, DownloadFailure::Prepare)
        },
        DownloadStage::Opening => if ok {
            moved(m, DownloadStage::Receiving)
        } else {
            failed(m, DownloadFailure::Temporary)
        },
        DownloadStage::Writing => if !ok {
            failed(m, DownloadFailure::Temporary)
        } else if m.received + m.pending > u64::MAX {
            failed(m, DownloadFailure::TooLarge)
        } else {
            DownloadView {
                stage: DownloadStage::Receiving,
                received: (m.received + m.pending) as u64,
                pending: 0,
                ..m
            }
        },
        DownloadStage::Marking => if ok {
            moved(m, DownloadStage::Installing)
        } else {
            failed(m, DownloadFailure::Permission)
        },
        DownloadStage::Installing => if ok {
            moved(m, DownloadStage::Installed)
        } else {
            failed(m, DownloadFailure::Install)
        },
        _ => m,
    }
}

/// What a stage asks of the driver.
pub open spec fn download_action(stage: DownloadStage) -> DownloadAction {
    match stage {
        DownloadStage::Preparing => DownloadAction::Prepare,
        DownloadStage::Requesting => DownloadAction::Request,
        DownloadStage::Opening => DownloadAction::CreateTemp,
        DownloadStage::Receiving => DownloadAction::ReadChunk,
        DownloadStage::Writing => DownloadAction::WriteChunk,
        DownloadStage::Marking => DownloadAction::MarkExecutable,
        DownloadStage::Installing => DownloadAction::Install,
        DownloadStage::Installed => DownloadAction::Finish,
        DownloadStage::Failed { failure } => DownloadAction::Abandon { failure },
    }
}

/// One download of one address to one destination.
#[derive(Debug)]
pub struct Download {
    url: String,
    destination: String,
    temporary: String,
    stage: DownloadStage,
    progress: Progress,
    received: u64,
    pending: usize,
}

impl Download {
    pub closed spec fn view(&self) -> DownloadView {
        DownloadView {
            url: self.url@,
            destination: self.destination@,
            temporary: self.temporary@,
            stage: self.stage,
            progress: self.progress,
            received: self.received,
            pending: self.pending,
        }
    }

    /// A download of `url` to `destination` that has not begun. Its
    /// temporary file is another path than the destination.
    pub fn new(url: &str, destination: &str) -> (r: Download)
        ensures
            r@ == (DownloadView {
                url: url@,
                destination: destination@,
                temporary: temporary_for(destination@),
                stage: DownloadStage::Preparing,
                progress: Progress::Indeterminate,
                received: 0,
                pending: 0,
            }),
            r@.temporary != r@.destination,
    {
        proof {
            reveal_strlit("download");
            reveal_strlit(".download");
        }
        let sibling = with_extension(destination, "download");
        let temporary = if str_eq(sibling.as_str(), destination) {
            let mut behind = destination.to_owned();
            behind.append(".download");
            assert(behind@.len() == destination@.len() + 9);
            behind
        } else {
            sibling
        };
        Download {
            url: url.to_owned(),
            destination: destination.to_owned(),
            temporary,
            stage: DownloadStage::Preparing,
            progress: Progress::Indeterminate,
            received: 0,
            pending: 0,
        }
    }

    /// The address to fetch.
    pub fn url(&self) -> (r: &str)
        ensures
            r@ == self@.url,
    {
        self.url.as_str()
    }

    /// Where the artifact is to end up.
    pub fn destination(&self) -> (r: &str)
        ensures
            r@ == self@.destination,
    {
        self.destination.as_str()
    }

    /// Where the bytes are gathered.
    pub fn temporary(&self) -> (r: &str)
        ensures
            r@ == self@.temporary,
    {
        self.temporary.as_str()
    }

    /// How progress can be shown.
    pub fn progress(&self) -> (r: Progress)
        ensures
            r == self@.progress,
    {
        self.progress
    }

    /// How many bytes were written to the temporary file.
    pub fn received(&self) -> (r: u64)
        ensures
            r == self@.received,
    {
        self.received
    }

    /// Which outcome the download awaits.
    pub fn stage(&self) -> (r: DownloadStage)
        ensures
            r == self@.stage,
    {
        self.stage
    }

    /// What the driver is to do next.
    pub fn action(&self) -> (r: DownloadAction)
        ensures
            r == download_action(self@.stage),
    {
        match self.stage {
            DownloadStage::Preparing => DownloadAction::Prepare,
            DownloadStage::Requesting => DownloadAction::Request,
            DownloadStage::Opening => DownloadAction::CreateTemp,
            DownloadStage::Receiving => DownloadAction::ReadChunk,
            DownloadStage::Writing => DownloadAction::WriteChunk,
            DownloadStage::Marking => DownloadAction::MarkExecutable,
            DownloadStage::Installing => DownloadAction::Install,
            DownloadStage::Installed => DownloadAction::Finish,
            DownloadStage::Failed { failure } => DownloadAction::Abandon { failure },
        }
    }

    /// Takes in the response: status and `Content-Length`, or `None` where
    /// the request failed.
    pub fn on_response(&mut self, response: Option<(u16, Option<&str>)>) -> (r: DownloadAction)
        ensures
            final(self)@ == after_response(
                old(self)@,
                match response {
                    Some((status, Some(length))) => Some((status, Some(length@))),
                    Some((status, None)) => Some((status, None)),
                    None => None,
                },
            ),
            r == download_action(final(self)@.stage),
    {
        match self.stage {
            DownloadStage::Requesting => {
                match response {
                    None => {
                        self.stage = DownloadStage::Failed { failure: DownloadFailure::Transport };
                    },
                    Some((status, length)) => {
                        if 200 <= status && status <= 299 {
                            self.progress = progress_of(length);
                            self.stage = DownloadStage::Opening;
                        } else {
                            self.stage = DownloadStage::Failed { failure: DownloadFailure::Status };
                        }
                    },
                }
            },
            _ => {},
        }
        self.action()
    }

    /// Takes in a read of the body: the number of bytes it gave, or `None`
    /// where it failed.
    pub fn on_chunk(&mut self, read: Option<usize>) -> (r: DownloadAction)
        ensures
            final(self)@ == after_chunk(old(self)@, read),
            r == download_action(final(self)@.stage),
    {
        match self.stage {
            DownloadStage::Receiving => {
                match read {
                    None => {
                        self.stage = DownloadStage::Failed { failure: DownloadFailure::Transport };
                    },
                    Some(n) => {
                        if n == 0 {
                            self.stage = DownloadStage::Marking;
                        } else {
                            self.pending = n;
                            self.stage = DownloadStage::Writing;
                        }
                    },
                }
            },
            _ => {},
        }
        self.action()
    }

    /// Takes in how the awaited step went.
    pub fn on_step(&mut self, ok: bool) -> (r: DownloadAction)
        ensures
            final(self)@ == after_step(old(self)@, ok),
            r == download_action(final(self)@.stage),
    {
        match self.stage {
            DownloadStage::Preparing => {
                self.stage = if ok {
                    DownloadStage::Requesting
                } else {
                    DownloadStage::Failed { failure: DownloadFailure::Prepare }
                };
            },
            DownloadStage::Opening => {
                self.stage = if ok {
                    DownloadStage::Receiving
                } else {
                    DownloadStage::Failed { failure: DownloadFailure::Temporary }
                };
            },
            DownloadStage::Writing => {
                if !ok {
                    self.stage = DownloadStage::Failed { failure: DownloadFailure::Temporary };
                } else {
                    match self.received.checked_add(self.pending as u64) {
                        Some(total) => {
                            self.received = total;
                            self.pending = 0;
                            self.stage = DownloadStage::Receiving;
                        },
                        None => {
                            self.stage = DownloadStage::Failed {
                                failure: DownloadFailure::TooLarge,
                            };
                        },
                    }
                }
            },
            DownloadStage::Marking => {
                self.stage = if ok {
                    DownloadStage::Installing
                } else {
                    DownloadStage::Failed { failure: DownloadFailure::Permission }
                };
            },
            DownloadStage::Installing => {
                self.stage = if ok {
                    DownloadStage::Installed
                } else {
                    DownloadStage::Failed { failure: DownloadFailure::Install }
                };
            },
            _ => {},
        }
        self.action()
    }
}

/// Decides how progress can be shown from the `Content-Length` header.
pub fn progress_of(content_length: Option<&str>) -> (r: Progress)
    ensures
        r == progress_for(
            match content_length {
                Some(text) => Some(text@),
                None => None,
            },
        ),
{
    match content_length {
        Some(text) => match parse_number(text, u64::MAX) {
            Some(total) => Progress::Determinate { total },
            None => Progress::Indeterminate,
        },
        None => Progress::Indeterminate,
    }
}

/// Whether the destination has been written while a download is in `stage`:
/// only a download that is installed has touched it.
pub open spec fn destination_written(stage: DownloadStage) -> bool {
    stage == DownloadStage::Installed
}

/// The destination is written only by moving the temporary file into place,
/// and that is asked for only after the body has come to its end with every
/// chunk written and the file made executable: the one way into `Marking` is
/// a read that gives nothing while receiving, the one way into `Installing`
/// is a marking that succeeded, and the one way into `Installed` is an
/// install that succeeded. A download that failed stays failed and asks for
/// nothing more.
pub proof fn law_install_follows_full_receipt(
    m: DownloadView,
    ok: bool,
    read: Option<usize>,
    response: Option<(u16, Option<Seq<char>>)>,
)
    ensures
        download_action(m.stage) == DownloadAction::Install <==> m.stage
            == DownloadStage::Installing,
        after_chunk(m, read).stage == DownloadStage::Marking ==> m.stage == DownloadStage::Marking
            || (m.stage == DownloadStage::Receiving && read == Some(0usize)),
        after_step(m, ok).stage == DownloadStage::Marking ==> m.stage == DownloadStage::Marking,
        after_response(m, response).stage == DownloadStage::Marking ==> m.stage
            == DownloadStage::Marking,
        after_chunk(m, read).stage == DownloadStage::Installing ==> m.stage
            == DownloadStage::Installing,
        after_step(m, ok).stage == DownloadStage::Installing ==> m.stage
            == DownloadStage::Installing || (m.stage == DownloadStage::Marking && ok),
        after_response(m, response).stage == DownloadStage::Installing ==> m.stage
            == DownloadStage::Installing,
        destination_written(after_step(m, ok).stage) ==> destination_written(m.stage) || (m.stage
            == DownloadStage::Installing && ok),
        destination_written(after_chunk(m, read).stage) == destination_written(m.stage),
        destination_written(after_response(m, response).stage) == destination_written(m.stage),
        m.stage is Failed ==> after_step(m, ok) == m && after_chunk(m, read) == m
            && after_response(m, response) == m,
{
}

/// The two files of a download, which are two paths: what each holds, where
/// `None` stands for a file that is not there, and whether each may be run.
pub ghost struct Files {
    pub destination: Option<Seq<u8>>,
    pub destination_executable: bool,
    pub temporary: Option<Seq<u8>>,
    pub temporary_executable: bool,
}

/// What a driver reports to a download.
pub ghost enum DownloadEvent {
    /// How the awaited step went.
    Step(bool),
    /// The response: status and `Content-Length`, or that none came.
    Response(Option<(u16, Option<Seq<char>>)>),
    /// The bytes that a read of the body gave, or that it failed.
    Chunk(Option<Seq<u8>>),
}

/// A download together with the files it works on and the bytes read last.
pub ghost struct Transfer {
    pub download: DownloadView,
    pub files: Files,
    pub chunk: Seq<u8>,
}

/// The files after a step that was carried out with success, as the stage
/// asked for it: making the temporary file leaves it empty and not to be
/// run, writing adds the chunk to it, marking makes it executable, and
/// installing moves it to the destination as it is.
pub open spec fn files_after_step(t: Transfer) -> Files {
    match t.download.stage {
        DownloadStage::Opening => Files {
            temporary: Some(Seq::empty()),
            temporary_executable: false,
            ..t.files
        },
        DownloadStage::Writing => match t.files.temporary {
            Some(written) => Files { temporary: Some(written + t.chunk), ..t.files },
            None => t.files,
        },
        DownloadStage::Marking => Files { temporary_executable: true, ..t.files },
        DownloadStage::Installing => Files {
            destination: t.files.temporary,
            destination_executable: t.files.temporary_executable,
            temporary: None,
            temporary_executable: false,
        },
        _ => t.files,
    }
}

/// The transfer after one report, with a driver that does what it is asked
/// and nothing else. A step that failed is taken to have left the
/// destination as it was.
pub open spec fn transfer_after(t: Transfer, event: DownloadEvent) -> Transfer {
    match event {
        DownloadEvent::Response(response) => Transfer {
            download: after_response(t.download, response),
            ..t
        },
        DownloadEvent::Chunk(read) => match read {
            Some(bytes) => Transfer {
                download: after_chunk(t.download, Some(bytes.len() as usize)),
                chunk: if t.download.stage == DownloadStage::Receiving {
                    bytes
                } else {
                    t.chunk
                },
                ..t
            },
            None => Transfer { download: after_chunk(t.download, None), ..t },
        },
        DownloadEvent::Step(ok) => Transfer {
            download: after_step(t.download, ok),
            files: if ok {
                files_after_step(t)
            } else {
                t.files
            },
            ..t
        },
    }
}

/// The transfer after a run of reports.
pub open spec fn transfer_run(t: Transfer, events: Seq<DownloadEvent>) -> Transfer
    decreases events.len(),
{
    if events.len() == 0 {
        t
    } else {
        transfer_after(transfer_run(t, events.drop_last()), events.last())
    }
}

/// No read gives more bytes than can be counted.
pub open spec fn chunks_fit(events: Seq<DownloadEvent>) -> bool {
    forall|i: int|
        0 <= i < events.len() ==> (#[trigger] events[i] matches DownloadEvent::Chunk(Some(bytes))
            ==> bytes.len() <= usize::MAX)
}

/// With a driver that does what it is asked, a download from its beginning
/// through any run of reports leaves the destination all or nothing: until
/// the download is installed the destination is as it was before, and once
/// it is installed the destination holds exactly the bytes that were
/// received, as many as were counted, and is executable. While the body is
/// coming in, the temporary file holds what was counted so far.
pub proof fn law_destination_is_all_or_nothing(t: Transfer, events: Seq<DownloadEvent>)
    requires
        t.download.stage == DownloadStage::Preparing,
        t.download.received == 0,
        chunks_fit(events),
    ensures
        ({
            let end = transfer_run(t, events);
            &&& end.download.stage != DownloadStage::Installed ==> end.files.destination
                == t.files.destination && end.files.destination_executable
                == t.files.destination_executable
            &&& end.download.stage == DownloadStage::Installed ==> end.files.destination is Some
                && end.files.destination->0.len() == end.download.received
                && end.files.destination_executable
            &&& end.download.stage == DownloadStage::Receiving || end.download.stage
                == DownloadStage::Writing || end.download.stage == DownloadStage::Marking
                || end.download.stage == DownloadStage::Installing ==> end.files.temporary is Some
                && end.files.temporary->0.len() == end.download.received
            &&& end.download.stage == DownloadStage::Installing ==> end.files.temporary_executable
            &&& end.download.stage == DownloadStage::Writing ==> end.chunk.len()
                == end.download.pending
            &&& (end.download.stage == DownloadStage::Preparing || end.download.stage
                == DownloadStage::Requesting || end.download.stage == DownloadStage::Opening)
                ==> end.download.received == 0
        }),
    decreases events.len(),
{
    if events.len() > 0 {
        let earlier = events.drop_last();
        assert(chunks_fit(earlier)) by {
            assert forall|i: int| 0 <= i < earlier.len() implies (
            #[trigger] earlier[i] matches DownloadEvent::Chunk(Some(bytes)) ==> bytes.len()
                <= usize::MAX) by {
                assert(earlier[i] == events[i]);
            }
        }
        law_destination_is_all_or_nothing(t, earlier);
        assert(events.last() == events[events.len() - 1]);
    }
}

/// The count of received bytes grows by exactly the size of each chunk that
/// was written, and by nothing else.
pub proof fn law_received_counts_written_bytes(
    m: DownloadView,
    ok: bool,
    read: Option<usize>,
    response: Option<(u16, Option<Seq<char>>)>,
)
    ensures
        after_chunk(m, read).received == m.received,
        after_response(m, response).received == m.received,
        after_step(m, ok).received == (if m.stage == DownloadStage::Writing && ok && m.received
            + m.pending <= u64::MAX {
            (m.received + m.pending) as u64
        } else {
            m.received
        }),
        after_chunk(m, read).stage == DownloadStage::Writing && m.stage
            == DownloadStage::Receiving ==> read == Some(after_chunk(m, read).pending),
{
}

} // verus!
