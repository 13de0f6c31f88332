//! Resolving toolbox artifacts into the files that the file server offers.
//!
//! The configuration lists, for each logical artifact, one entry per
//! architecture with a file name and, optionally, a download address. A run
//! goes through those entries in order: a file that is already there is
//! reused, a missing one is downloaded if the operator agrees, and whatever
//! cannot be had, or could not be served under its name, is reported and
//! left out. What a run has gathered is a well-formed mapping at every time,
//! so the server can always be built from it.

use vstd::prelude::*;
use json::JsonValue;
use crate::config::{
    as_text, has_key, is_object, json_tree, keys, member, toolbox_key, tree_has_key, tree_keys,
    tree_member, tree_text, JsonTree,
};
use crate::serve::{
    name_is_valid, name_taken, server_of, valid_name, well_formed, PathProbe, StaticServer,
};
use crate::text::{
    chars_of, eq_ignore_ascii_case, pairs_of, same_ignoring_ascii_case, text_of, texts_of, trim,
    trimmed,
};

verus! {

/// Seconds after which a download is given up.
pub const DOWNLOAD_TIMEOUT_SECS: u64 = 300;

/// What an item of the work list is.
#[derive(Clone, Copy, Debug, PartialEq, Eq, Structural)]
pub enum ItemKind {
    /// The toolbox has no entry for the artifact.
    Missing,
    /// The toolbox entry for the artifact is not an object.
    NotAnObject,
    /// One architecture's entry of the artifact.
    Artifact,
}

/// One item of the work list. For an `Artifact` it is the artifact
/// specification: architecture key, file name and download address, the
/// last two as far as the configuration gives them.
#[derive(Debug)]
pub struct ToolboxItem {
    pub kind: ItemKind,
    pub artifact: String,
    pub arch: String,
    pub filename: Option<String>,
    pub download: Option<String>,
}

/// The abstract value of an item.
pub struct ItemView {
    pub kind: ItemKind,
    pub artifact: Seq<char>,
    pub arch: Seq<char>,
    pub filename: Option<Seq<char>>,
    pub download: Option<Seq<char>>,
}

impl ToolboxItem {
    pub open spec fn view(&self) -> ItemView {
        ItemView {
            kind: self.kind,
            artifact: self.artifact@,
            arch: self.arch@,
            filename: text_of(self.filename),
            download: text_of(self.download),
        }
    }
}

/// The abstract values of a list of items.
pub open spec fn items_view(items: Seq<ToolboxItem>) -> Seq<ItemView> {
    Seq::new(items.len(), |i: int| items[i]@)
}

pub open spec fn filename_key() -> Seq<char> {
    "filename"@
}

pub open spec fn download_key() -> Seq<char> {
    "download"@
}

/// The item that stands for an artifact without a usable toolbox entry.
pub open spec fn bare_item(kind: ItemKind, artifact: Seq<char>) -> ItemView {
    ItemView { kind, artifact, arch: Seq::empty(), filename: None, download: None }
}

/// The item for the architecture `arch` of an artifact whose toolbox entry
/// is `entry`.
pub open spec fn arch_item(artifact: Seq<char>, entry: JsonTree, arch: Seq<char>) -> ItemView {
    let value = tree_member(entry, arch);
    ItemView {
        kind: ItemKind::Artifact,
        artifact,
        arch,
        filename: tree_text(tree_member(value, filename_key())),
        download: tree_text(tree_member(value, download_key())),
    }
}

/// The items for the architectures `archs` of an artifact, in order;
/// architectures whose value is not an object are passed over.
pub open spec fn arch_items(artifact: Seq<char>, entry: JsonTree, archs: Seq<Seq<char>>) -> Seq<
    ItemView,
>
    decreases archs.len(),
{
    if archs.len() == 0 {
        Seq::empty()
    } else {
        let before = arch_items(artifact, entry, archs.drop_last());
        if tree_member(entry, archs.last()) is Object {
            before.push(arch_item(artifact, entry, archs.last()))
        } else {
            before
        }
    }
}

/// The items that one artifact contributes.
pub open spec fn artifact_items(toolbox: JsonTree, artifact: Seq<char>) -> Seq<ItemView> {
    let entry = tree_member(toolbox, artifact);
    if !tree_has_key(toolbox, artifact) {
        seq![bare_item(ItemKind::Missing, artifact)]
    } else if !(entry is Object) {
        seq![bare_item(ItemKind::NotAnObject, artifact)]
    } else {
        arch_items(artifact, entry, tree_keys(entry))
    }
}

/// The work list for the artifacts `names`, in order.
pub open spec fn toolbox_items(toolbox: JsonTree, names: Seq<Seq<char>>) -> Seq<ItemView>
    decreases names.len(),
{
    if names.len() == 0 {
        Seq::empty()
    } else {
        toolbox_items(toolbox, names.drop_last()) + artifact_items(toolbox, names.last())
    }
}

/// The file that a directory and a file name lead to.
pub uninterp spec fn joined_path(dir: Seq<char>, name: Seq<char>) -> Seq<char>;

/// `Path::join` of std, on paths given and returned as text: the path that
/// `name` leads to from `dir`. The result is a function of the two texts.
#[verifier::external_body]
fn join_path(dir: &str, name: &str) -> (r: String)
    ensures
        r@ == joined_path(dir@, name@),
{
    std::path::Path::new(dir).join(name).to_string_lossy().into_owned()
}

/// Whether an answer to the download prompt agrees: nothing but white space,
/// or `y` or `yes` in any case, white space around it aside.
pub open spec fn accepts(answer: Seq<char>) -> bool {
    let t = trimmed(answer);
    ||| t.len() == 0
    ||| same_ignoring_ascii_case(t, seq!['y'])
    ||| same_ignoring_ascii_case(t, seq!['y', 'e', 's'])
}

/// Why an item contributes no file.
#[derive(Clone, Copy, Debug, PartialEq, Eq, Structural)]
pub enum ToolboxNote {
    /// The artifact is not in the toolbox.
    NotInConfig,
    /// The artifact's toolbox entry is not an object.
    NotAnObject,
    /// The architecture's entry names no file.
    NoFilename,
    /// The file name is empty or holds a path separator.
    InvalidName,
    /// A file of that name is already gathered.
    DuplicateName,
    /// The path exists and is not a regular file.
    NotAFile,
    /// The file is missing and no download address is given.
    NoUrl,
    /// The operator declined the download.
    Declined,
    /// The download failed.
    DownloadFailed,
}

/// What a run awaits.
#[derive(Clone, Copy, Debug, PartialEq, Eq, Structural)]
pub enum ToolboxStage {
    /// What is at the current item's path.
    Probing,
    /// The operator's answer to the offer to download it.
    Asking,
    /// The outcome of the download.
    Downloading,
    /// That the note was shown.
    Reporting { note: ToolboxNote },
    /// Nothing: every item is dealt with.
    Done,
}

/// What the driver is to do next.
#[derive(Clone, Copy, Debug, PartialEq, Eq, Structural)]
pub enum ToolboxAction {
    /// Find out what is at the current item's path.
    Probe,
    /// Offer the download of the current item and read the answer.
    Ask,
    /// Download the current item to its path.
    Download,
    /// Show the note about the current item.
    Report { note: ToolboxNote },
    /// Build the file server from the files of the run.
    Finish,
}

/// The abstract value of a run.
pub struct RunView {
    pub items: Seq<ItemView>,
    pub dir: Seq<char>,
    pub port: u16,
    pub cursor: nat,
    pub stage: ToolboxStage,
    pub files: Seq<(Seq<char>, Seq<char>)>,
}

/// Whether no file among `files` is named `name`.
pub open spec fn name_free(files: Seq<(Seq<char>, Seq<char>)>, name: Seq<char>) -> bool {
    forall|i: int| 0 <= i < files.len() ==> (#[trigger] files[i]).0 != name
}

/// The stage in which a run that has gathered `files` arrives at the item at
/// `cursor`. An artifact whose file name could not be served, or is served
/// already, is reported and not looked for.
pub open spec fn stage_at(
    items: Seq<ItemView>,
    cursor: nat,
    files: Seq<(Seq<char>, Seq<char>)>,
) -> ToolboxStage {
    if cursor >= items.len() {
        ToolboxStage::Done
    } else {
        match items[cursor as int].kind {
            ItemKind::Missing => ToolboxStage::Reporting { note: ToolboxNote::NotInConfig },
            ItemKind::NotAnObject => ToolboxStage::Reporting { note: ToolboxNote::NotAnObject },
            ItemKind::Artifact => match items[cursor as int].filename {
                None => ToolboxStage::Reporting { note: ToolboxNote::NoFilename },
                Some(name) => if !valid_name(name) {
                    ToolboxStage::Reporting { note: ToolboxNote::InvalidName }
                } else if !name_free(files, name) {
                    ToolboxStage::Reporting { note: ToolboxNote::DuplicateName }
                } else {
                    ToolboxStage::Probing
                },
            },
        }
    }
}

/// The file name of the current item, if it has one.
pub open spec fn current_filename(m: RunView) -> Option<Seq<char>> {
    if m.cursor < m.items.len() {
        m.items[m.cursor as int].filename
    } else {
        None
    }
}

/// The download address of the current item, if it has one.
pub open spec fn current_download(m: RunView) -> Option<Seq<char>> {
    if m.cursor < m.items.len() {
        m.items[m.cursor as int].download
    } else {
        None
    }
}

/// The run moved on to the next item.
pub open spec fn advanced(m: RunView) -> RunView {
    if m.cursor < m.items.len() {
        RunView { cursor: m.cursor + 1, stage: stage_at(m.items, m.cursor + 1, m.files), ..m }
    } else {
        RunView { stage: ToolboxStage::Done, ..m }
    }
}

/// The run with the current item's file added, moved on to the next item.
/// Nothing is added under a name that could not be served or is taken.
pub open spec fn kept(m: RunView) -> RunView {
    match current_filename(m) {
        Some(name) => if valid_name(name) && name_free(m.files, name) {
            advanced(RunView { files: m.files.push((name, joined_path(m.dir, name))), ..m })
        } else {
            advanced(m)
        },
        None => advanced(m),
    }
}

/// The run waiting in another stage at the same item.
pub open spec fn staged(m: RunView, stage: ToolboxStage) -> RunView {
    RunView { stage, ..m }
}

/// The run after the driver reports what is at the current item's path: a
/// regular file is kept, anything else that is there is reported, and a
/// file that is not there is offered for download where an address is given.
pub open spec fn after_probe(m: RunView, probe: PathProbe) -> RunView {
    if m.stage != ToolboxStage::Probing {
        m
    } else {
        match probe {
            PathProbe::RegularFile => kept(m),
            PathProbe::NotAFile => staged(
                m,
                ToolboxStage::Reporting { note: ToolboxNote::NotAFile },
            ),
            PathProbe::Unresolved => if current_download(m) is Some {
                staged(m, ToolboxStage::Asking)
            } else {
                staged(m, ToolboxStage::Reporting { note: ToolboxNote::NoUrl })
            },
        }
    }
}

/// The run after the driver reports the operator's answer, or that none
/// could be read.
pub open spec fn after_answer(m: RunView, answer: Option<Seq<char>>) -> RunView {
    if m.stage != ToolboxStage::Asking {
        m
    } else {
        match answer {
            None => advanced(m),
            Some(a) => if accepts(a) {
                staged(m, ToolboxStage::Downloading)
            } else {
                staged(m, ToolboxStage::Reporting { note: ToolboxNote::Declined })
            },
        }
    }
}

/// The run after the driver reports how the download went.
pub open spec fn after_download(m: RunView, ok: bool) -> RunView {
    if m.stage != ToolboxStage::Downloading {
        m
    } else if ok {
        kept(m)
    } else {
        staged(m, ToolboxStage::Reporting { note: ToolboxNote::DownloadFailed })
    }
}

/// The run after the driver has shown the note.
pub open spec fn after_report(m: RunView) -> RunView {
    if m.stage is Reporting {
        advanced(m)
    } else {
        m
    }
}

/// What a stage asks of the driver.
pub open spec fn toolbox_action(stage: ToolboxStage) -> ToolboxAction {
    match stage {
        ToolboxStage::Probing => ToolboxAction::Probe,
        ToolboxStage::Asking => ToolboxAction::Ask,
        ToolboxStage::Downloading => ToolboxAction::Download,
        ToolboxStage::Reporting { note } => ToolboxAction::Report { note },
        ToolboxStage::Done => ToolboxAction::Finish,
    }
}

/// One run through the work list.
#[derive(Debug)]
pub struct ToolboxRun {
    items: Vec<ToolboxItem>,
    dir: String,
    port: u16,
    cursor: usize,
    stage: ToolboxStage,
    files: Vec<(String, String)>,
}

impl ToolboxRun {
    /// The files of every run are fit to be served: each name is valid and
    /// none occurs twice.
    #[verifier::type_invariant]
    pub open spec fn inv(&self) -> bool {
        well_formed(self@.files)
    }

    pub closed spec fn view(&self) -> RunView {
        RunView {
            items: items_view(self.items@),
            dir: self.dir@,
            port: self.port,
            cursor: self.cursor as nat,
            stage: self.stage,
            files: pairs_of(self.files@),
        }
    }

    /// What the driver is to do next.
    pub fn action(&self) -> (r: ToolboxAction)
        ensures
            r == toolbox_action(self@.stage),
    {
        match self.stage {
            ToolboxStage::Probing => ToolboxAction::Probe,
            ToolboxStage::Asking => ToolboxAction::Ask,
            ToolboxStage::Downloading => ToolboxAction::Download,
            ToolboxStage::Reporting { note } => ToolboxAction::Report { note },
            ToolboxStage::Done => ToolboxAction::Finish,
        }
    }

    /// The port on which the files are to be served.
    pub fn port(&self) -> (r: u16)
        ensures
            r == self@.port,
    {
        self.port
    }

    /// The item the run is at, if any is left.
    pub fn current(&self) -> (r: Option<&ToolboxItem>)
        ensures
            match r {
                Some(item) => self@.cursor < self@.items.len() && item@
                    == self@.items[self@.cursor as int],
                None => self@.cursor >= self@.items.len(),
            },
    {
        if self.cursor < self.items.len() {
            Some(&self.items[self.cursor])
        } else {
            None
        }
    }

    /// The path of the current item's file: its file name within the
    /// toolbox directory.
    pub fn current_path(&self) -> (r: Option<String>)
        ensures
            text_of(r) == match current_filename(self@) {
                Some(name) => Some(joined_path(self@.dir, name)),
                None => None,
            },
    {
        if self.cursor < self.items.len() {
            match &self.items[self.cursor].filename {
                Some(name) => Some(join_path(self.dir.as_str(), name.as_str())),
                None => None,
            }
        } else {
            None
        }
    }

    /// The `(file name, path)` pairs gathered so far, in order.
    pub fn files(&self) -> (r: &Vec<(String, String)>)
        ensures
            pairs_of(r@) == self@.files,
    {
        &self.files
    }

    fn advance(&mut self)
        ensures
            final(self)@ == advanced(old(self)@),
    {
        proof {
            use_type_invariant(&*self);
        }
        if self.cursor < self.items.len() {
            self.cursor = self.cursor + 1;
            self.stage = stage_for(&self.items, self.cursor, &self.files);
        } else {
            self.stage = ToolboxStage::Done;
        }
    }

    fn keep(&mut self)
        ensures
            final(self)@ == kept(old(self)@),
    {
        proof {
            use_type_invariant(&*self);
        }
        if self.cursor < self.items.len() {
            match &self.items[self.cursor].filename {
                Some(name) => {
                    let ghost before = pairs_of(self.files@);
                    let valid = name_is_valid(name.as_str());
                    let taken = name_taken(&self.files, name.as_str());
                    proof {
                        if taken {
                            let j = choose|j: int|
                                0 <= j < self.files.len() && (#[trigger] self.files[j]).0@
                                    == name@;
                            assert(before[j].0 == name@);
                        } else {
                            assert forall|i: int| 0 <= i < before.len() implies (
                            #[trigger] before[i]).0 != name@ by {
                                assert(self.files[i].0@ == before[i].0);
                            }
                        }
                        assert(taken == !name_free(before, name@));
                    }
                    if valid && !taken {
                        let path = join_path(self.dir.as_str(), name.as_str());
                        let pair = (name.clone(), path);
                        proof {
                            let after = before.push((pair.0@, pair.1@));
                            assert(pairs_of(self.files@.push(pair)) =~= after);
                            assert(well_formed(after));
                            assert(pairs_of(Seq::<(String, String)>::empty()) =~= Seq::empty());
                        }
                        let mut files: Vec<(String, String)> = Vec::new();
                        core::mem::swap(&mut self.files, &mut files);
                        files.push(pair);
                        core::mem::swap(&mut self.files, &mut files);
                    }
                },
                None => {},
            }
        }
        self.advance();
    }

    /// Takes in what is at the current item's path.
    pub fn on_probe(&mut self, probe: PathProbe) -> (r: ToolboxAction)
        ensures
            final(self)@ == after_probe(old(self)@, probe),
            r == toolbox_action(final(self)@.stage),
    {
        proof {
            use_type_invariant(&*self);
        }
        match self.stage {
            ToolboxStage::Probing => {
                match probe {
                    PathProbe::RegularFile => {
                        self.keep();
                    },
                    PathProbe::NotAFile => {
                        self.stage = ToolboxStage::Reporting { note: ToolboxNote::NotAFile };
                    },
                    PathProbe::Unresolved => {
                        let offered = self.cursor < self.items.len()
                            && self.items[self.cursor].download.is_some();
                        if offered {
                            self.stage = ToolboxStage::Asking;
                        } else {
                            self.stage = ToolboxStage::Reporting { note: ToolboxNote::NoUrl };
                        }
                    },
                }
            },
            _ => {},
        }
        self.action()
    }

    /// Takes in the operator's answer to the offer, or that none could be read.
    pub fn on_answer(&mut self, answer: Option<&str>) -> (r: ToolboxAction)
        ensures
            final(self)@ == after_answer(
                old(self)@,
                match answer {
                    Some(a) => Some(a@),
                    None => None,
                },
            ),
            r == toolbox_action(final(self)@.stage),
    {
        proof {
            use_type_invariant(&*self);
        }
        match self.stage {
            ToolboxStage::Asking => {
                match answer {
                    None => {
                        self.advance();
                    },
                    Some(a) => {
                        if accepts_download(a) {
                            self.stage = ToolboxStage::Downloading;
                        } else {
                            self.stage = ToolboxStage::Reporting { note: ToolboxNote::Declined };
                        }
                    },
                }
            },
            _ => {},
        }
        self.action()
    }

    /// Takes in how the download went.
    pub fn on_download(&mut self, ok: bool) -> (r: ToolboxAction)
        ensures
            final(self)@ == after_download(old(self)@, ok),
            r == toolbox_action(final(self)@.stage),
    {
        proof {
            use_type_invariant(&*self);
        }
        match self.stage {
            ToolboxStage::Downloading => {
                if ok {
                    self.keep();
                } else {
                    self.stage = ToolboxStage::Reporting { note: ToolboxNote::DownloadFailed };
                }
            },
            _ => {},
        }
        self.action()
    }

    /// Builds the server that offers the files of the run on `host` and the
    /// run's port. The files are fit to be served as they are, so this
    /// cannot fail.
    pub fn server(&self, host: &str) -> (r: StaticServer)
        ensures
            r@.host == host@,
            r@.port == self@.port,
            r@.files == self@.files,
            well_formed(r@.files),
    {
        proof {
            use_type_invariant(self);
        }
        server_of(host, self.port, &self.files)
    }

    /// Takes in that the note was shown.
    pub fn on_report(&mut self) -> (r: ToolboxAction)
        ensures
            final(self)@ == after_report(old(self)@),
            r == toolbox_action(final(self)@.stage),
    {
        proof {
            use_type_invariant(&*self);
        }
        match self.stage {
            ToolboxStage::Reporting { note } => {
                self.advance();
            },
            _ => {},
        }
        self.action()
    }
}

/// The stage in which a run that has gathered `files` arrives at the item at
/// `cursor`.
fn stage_for(items: &Vec<ToolboxItem>, cursor: usize, files: &Vec<(String, String)>) -> (r:
    ToolboxStage)
    ensures
        r == stage_at(items_view(items@), cursor as nat, pairs_of(files@)),
{
    if cursor >= items.len() {
        ToolboxStage::Done
    } else {
        match items[cursor].kind {
            ItemKind::Missing => ToolboxStage::Reporting { note: ToolboxNote::NotInConfig },
            ItemKind::NotAnObject => ToolboxStage::Reporting { note: ToolboxNote::NotAnObject },
            ItemKind::Artifact => match &items[cursor].filename {
                None => ToolboxStage::Reporting { note: ToolboxNote::NoFilename },
                Some(name) => if !name_is_valid(name.as_str()) {
                    ToolboxStage::Reporting { note: ToolboxNote::InvalidName }
                } else if name_taken(files, name.as_str()) {
                    proof {
                        let j = choose|j: int|
                            0 <= j < files.len() && (#[trigger] files[j]).0@ == name@;
                        assert(pairs_of(files@)[j].0 == name@);
                    }
                    ToolboxStage::Reporting { note: ToolboxNote::DuplicateName }
                } else {
                    assert(name_free(pairs_of(files@), name@)) by {
                        assert forall|i: int| 0 <= i < files.len() implies (#[trigger] pairs_of(
                            files@,
                        )[i]).0 != name@ by {
                            assert(files[i].0@ == pairs_of(files@)[i].0);
                        }
                    }
                    ToolboxStage::Probing
                },
            },
        }
    }
}

/// Decides whether an answer to the download prompt agrees.
pub fn accepts_download(answer: &str) -> (r: bool)
    ensures
        r == accepts(answer@),
{
    let t = trim(answer);
    let chars = chars_of(t.as_str());
    if chars.len() == 0 {
        return true;
    }
    let mut y: Vec<char> = Vec::new();
    y.push('y');
    assert(y@ =~= seq!['y']);
    if eq_ignore_ascii_case(&chars, &y) {
        return true;
    }
    y.push('e');
    y.push('s');
    assert(y@ =~= seq!['y', 'e', 's']);
    eq_ignore_ascii_case(&chars, &y)
}

/// An optional text made into an owned string.
fn owned(text: Option<&str>) -> (r: Option<String>)
    ensures
        text_of(r) == match text {
            Some(t) => Some(t@),
            None => None,
        },
{
    match text {
        Some(t) => Some(t.to_owned()),
        None => None,
    }
}

/// Appends to `items` what one artifact contributes.
fn push_artifact_items(items: &mut Vec<ToolboxItem>, toolbox: &JsonValue, artifact: &str)
    ensures
        items_view(final(items)@) == items_view(old(items)@) + artifact_items(
            json_tree(*toolbox),
            artifact@,
        ),
{
    let ghost before = items_view(items@);
    if !has_key(toolbox, artifact) {
        items.push(
            ToolboxItem {
                kind: ItemKind::Missing,
                artifact: artifact.to_owned(),
                arch: String::new(),
                filename: None,
                download: None,
            },
        );
        assert(items_view(items@) =~= before + artifact_items(json_tree(*toolbox), artifact@));
        return;
    }
    let entry = member(toolbox, artifact);
    if !is_object(entry) {
        items.push(
            ToolboxItem {
                kind: ItemKind::NotAnObject,
                artifact: artifact.to_owned(),
                arch: String::new(),
                filename: None,
                download: None,
            },
        );
        assert(items_view(items@) =~= before + artifact_items(json_tree(*toolbox), artifact@));
        return;
    }
    let archs = keys(entry);
    let ghost tree = json_tree(*entry);
    let ghost arch_names = tree_keys(tree);
    let mut i: usize = 0;
    assert(arch_names.take(0) =~= Seq::<Seq<char>>::empty());
    assert(items_view(items@) =~= before + arch_items(artifact@, tree, arch_names.take(0)));
    while i < archs.len()
        invariant
            i <= archs.len(),
            tree == json_tree(*entry),
            archs.len() == arch_names.len(),
            forall|j: int| 0 <= j < archs.len() ==> (#[trigger] archs[j])@ == arch_names[j],
            items_view(items@) == before + arch_items(artifact@, tree, arch_names.take(i as int)),
        decreases archs.len() - i,
    {
        let arch = archs[i].as_str();
        let value = member(entry, arch);
        let ghost prefix = arch_names.take(i as int);
        let ghost next = arch_names.take(i + 1);
        assert(next.drop_last() =~= prefix);
        assert(next.last() == arch@);
        if is_object(value) {
            let filename = owned(as_text(member(value, "filename")));
            let download = owned(as_text(member(value, "download")));
            let ghost shown = items_view(items@);
            items.push(
                ToolboxItem {
                    kind: ItemKind::Artifact,
                    artifact: artifact.to_owned(),
                    arch: arch.to_owned(),
                    filename,
                    download,
                },
            );
            assert(items_view(items@) =~= shown.push(arch_item(artifact@, tree, arch@)));
            assert(items_view(items@) =~= before + arch_items(artifact@, tree, next));
        }
        i += 1;
    }
    assert(arch_names.take(i as int) =~= arch_names);
}

/// Reads the work list for the artifacts `serve_files` out of a
/// configuration: what its `toolbox` object holds for each of them, in order.
pub fn work_list(serve_files: &Vec<String>, config: &JsonValue) -> (r: Vec<ToolboxItem>)
    ensures
        items_view(r@) == toolbox_items(
            tree_member(json_tree(*config), toolbox_key()),
            texts_of(serve_files@),
        ),
{
    let toolbox = member(config, "toolbox");
    let mut items: Vec<ToolboxItem> = Vec::new();
    let ghost names = texts_of(serve_files@);
    let mut i: usize = 0;
    assert(items_view(items@) =~= toolbox_items(json_tree(*toolbox), names.take(0)));
    while i < serve_files.len()
        invariant
            i <= serve_files.len(),
            names == texts_of(serve_files@),
            items_view(items@) == toolbox_items(json_tree(*toolbox), names.take(i as int)),
        decreases serve_files.len() - i,
    {
        assert(names.take(i + 1).drop_last() =~= names.take(i as int));
        assert(names.take(i + 1).last() == serve_files[i as int]@);
        push_artifact_items(&mut items, toolbox, serve_files[i].as_str());
        i += 1;
    }
    assert(names.take(i as int) =~= names);
    items
}

/// Starts a run over given items for files kept in the directory `dir`, to
/// be served on `port`.
pub fn start_run(items: Vec<ToolboxItem>, dir: &str, port: u16) -> (r: ToolboxRun)
    ensures
        r@ == (RunView {
            items: items_view(items@),
            dir: dir@,
            port,
            cursor: 0,
            stage: stage_at(items_view(items@), 0, Seq::empty()),
            files: Seq::empty(),
        }),
{
    let files: Vec<(String, String)> = Vec::new();
    assert(pairs_of(files@) =~= Seq::empty());
    let stage = stage_for(&items, 0, &files);
    ToolboxRun { items, dir: dir.to_owned(), port, cursor: 0, stage, files }
}

/// What a driver reports to a run.
pub ghost enum ToolboxEvent {
    /// What is at the current item's path.
    Probe(PathProbe),
    /// The operator's answer, or that none could be read.
    Answer(Option<Seq<char>>),
    /// How the download went.
    Download(bool),
    /// That the note was shown.
    Report,
}

/// The run after one report.
pub open spec fn run_after(m: RunView, event: ToolboxEvent) -> RunView {
    match event {
        ToolboxEvent::Probe(probe) => after_probe(m, probe),
        ToolboxEvent::Answer(answer) => after_answer(m, answer),
        ToolboxEvent::Download(ok) => after_download(m, ok),
        ToolboxEvent::Report => after_report(m),
    }
}

/// The run after a run of reports.
pub open spec fn run_through(m: RunView, events: Seq<ToolboxEvent>) -> RunView
    decreases events.len(),
{
    if events.len() == 0 {
        m
    } else {
        run_after(run_through(m, events.drop_last()), events.last())
    }
}

/// Whether `file` is the file of the item at `j`: its file name, and the
/// path that the name leads to from the directory.
pub open spec fn file_of_item(m: RunView, file: (Seq<char>, Seq<char>), j: int) -> bool {
    &&& 0 <= j < m.items.len()
    &&& m.items[j].kind == ItemKind::Artifact
    &&& m.items[j].filename == Some(file.0)
    &&& file.1 == joined_path(m.dir, file.0)
}

/// Whatever is reported to a run from its start, every file it has gathered
/// is the file of an artifact among the items that it has dealt with, no
/// item gives more than one file, and the files stand in the order of their
/// items. What cannot be resolved or could not be served is left out and
/// the run goes on, so the files make a well-formed mapping at every time.
pub proof fn law_files_come_from_items(m: RunView, events: Seq<ToolboxEvent>) -> (origin: Seq<int>)
    requires
        m.cursor == 0,
        m.stage == stage_at(m.items, 0, m.files),
        m.files.len() == 0,
    ensures
        ({
            let end = run_through(m, events);
            &&& run_sound(end)
            &&& well_formed(end.files)
            &&& end.items == m.items && end.dir == m.dir && end.port == m.port
            &&& origin.len() == end.files.len()
            &&& forall|i: int| 0 <= i < origin.len() ==> (#[trigger] origin[i]) < end.cursor
            &&& forall|i: int|
                0 <= i < origin.len() ==> file_of_item(m, end.files[i], #[trigger] origin[i])
            &&& forall|i: int, j: int|
                0 <= i < j < origin.len() ==> (#[trigger] origin[i]) < (#[trigger] origin[j])
        }),
    decreases events.len(),
{
    if events.len() == 0 {
        Seq::empty()
    } else {
        let earlier = law_files_come_from_items(m, events.drop_last());
        let before = run_through(m, events.drop_last());
        let end = run_through(m, events);
        match events.last() {
            ToolboxEvent::Probe(probe) => {
                law_run_stays_sound(before, probe, None, true);
            },
            ToolboxEvent::Answer(answer) => {
                law_run_stays_sound(before, PathProbe::Unresolved, answer, true);
            },
            ToolboxEvent::Download(ok) => {
                law_run_stays_sound(before, PathProbe::Unresolved, None, ok);
            },
            ToolboxEvent::Report => {
                law_run_stays_sound(before, PathProbe::Unresolved, None, true);
            },
        }
        if end.files.len() == before.files.len() {
            assert(end.files =~= before.files);
            earlier
        } else {
            let origin = earlier.push(before.cursor as int);
            assert(end.files =~= with_current_file(before));
            assert(end.cursor == before.cursor + 1);
            assert forall|i: int| 0 <= i < origin.len() implies file_of_item(
                m,
                end.files[i],
                #[trigger] origin[i],
            ) by {
                if i < earlier.len() {
                    assert(origin[i] == earlier[i]);
                    assert(end.files[i] == before.files[i]);
                }
            }
            origin
        }
    }
}

/// The files of a run with the current item's file added.
pub open spec fn with_current_file(m: RunView) -> Seq<(Seq<char>, Seq<char>)> {
    m.files.push((current_filename(m)->0, joined_path(m.dir, current_filename(m)->0)))
}

/// A run is sound when its files make a well-formed mapping, its cursor is
/// within the list and its stage fits the item it is at.
pub open spec fn run_sound(m: RunView) -> bool {
    &&& well_formed(m.files)
    &&& m.stage is Probing || m.stage is Asking || m.stage is Downloading ==> valid_name(
        current_filename(m)->0,
    ) && name_free(m.files, current_filename(m)->0)
    &&& m.cursor <= m.items.len()
    &&& m.stage is Done <==> m.cursor == m.items.len()
    &&& m.stage is Probing || m.stage is Asking || m.stage is Downloading ==> current_filename(m)
        is Some && m.items[m.cursor as int].kind == ItemKind::Artifact
    &&& m.stage is Asking || m.stage is Downloading ==> current_download(m) is Some
}

/// A run that starts at the first item is sound, and whatever is reported
/// to a sound run leaves it sound.
pub proof fn law_run_stays_sound(
    m: RunView,
    probe: PathProbe,
    answer: Option<Seq<char>>,
    ok: bool,
)
    requires
        run_sound(m),
    ensures
        run_sound(
            RunView {
                cursor: 0,
                stage: stage_at(m.items, 0, Seq::empty()),
                files: Seq::empty(),
                ..m
            },
        ),
        run_sound(after_probe(m, probe)),
        run_sound(after_answer(m, answer)),
        run_sound(after_download(m, ok)),
        run_sound(after_report(m)),
{
}

/// Only a file that was found, or that was downloaded with the operator's
/// consent, enters the list: a report adds the current item's file exactly
/// when it says that a regular file is there or that the download
/// succeeded, and nothing else ever changes the list. Items are never gone
/// back to.
pub proof fn law_only_resolved_files_are_kept(
    m: RunView,
    probe: PathProbe,
    answer: Option<Seq<char>>,
    ok: bool,
)
    requires
        run_sound(m),
    ensures
        after_probe(m, probe).files == (if m.stage == ToolboxStage::Probing && probe
            == PathProbe::RegularFile {
            with_current_file(m)
        } else {
            m.files
        }),
        after_download(m, ok).files == (if m.stage == ToolboxStage::Downloading && ok {
            with_current_file(m)
        } else {
            m.files
        }),
        after_answer(m, answer).files == m.files,
        after_report(m).files == m.files,
        after_answer(m, answer).stage == ToolboxStage::Downloading ==> (m.stage
            == ToolboxStage::Downloading || (answer matches Some(a) && accepts(a))),
        after_probe(m, probe).cursor >= m.cursor,
        after_answer(m, answer).cursor >= m.cursor,
        after_download(m, ok).cursor >= m.cursor,
        after_report(m).cursor >= m.cursor,
{
}

} // verus!
