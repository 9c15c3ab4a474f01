//! The layout of a PCB3D archive.
//!
//! An archive is written as a sequence of entries: directories, and files whose
//! bytes come from a file on disk or from TOML text made here. The functions of
//! this module decide that sequence; writing it out is left to the caller.

use vstd::prelude::*;
use crate::board::{
    Bounds, Stackup, Pad, StackedBoard, bounds_toml, stackup_toml, pad_toml, stacked_board_toml,
};
use crate::names::{extension_of, has_extension};
use crate::pcb3d::{
    PCB_WRL, COMPONENTS_DIR, LAYERS_DIR, BOARDS_DIR, PADS_DIR, BOUNDS_TOML, STACKUP_TOML,
};

verus! {

/// One board of the export and the boards stacked on it.
pub struct BoardExport {
    pub bounds: Bounds,
    /// Offsets of the stacked boards, by name.
    pub stacked_boards: Vec<(String, StackedBoard)>,
}

/// What the exporter reports: where it left its files, and the board data.
pub struct PythonExportResult {
    /// The board's VRML model.
    pub wrl_path: String,
    /// The directory of the component models.
    pub components_dir: String,
    /// The directory of the layer drawings.
    pub layers_dir: String,
    pub bounds: Bounds,
    pub stackup: Stackup,
    /// The boards, by name.
    pub boards: Vec<(String, BoardExport)>,
    /// The pads, by name.
    pub pads: Vec<(String, Pad)>,
}

/// No two of the pairs share a key.
pub open spec fn keys_distinct<T>(s: Seq<(String, T)>) -> bool {
    forall|i: int, j: int| 0 <= i < j < s.len() ==> (#[trigger] s[i]).0@ != (#[trigger] s[j]).0@
}

impl BoardExport {
    /// Every number is well formed, and no two stacked boards share a name.
    pub open spec fn wf(&self) -> bool {
        &&& self.bounds.wf()
        &&& keys_distinct(self.stacked_boards@)
        &&& forall|i: int|
            0 <= i < self.stacked_boards@.len() ==> (#[trigger] self.stacked_boards@[i]).1.wf()
    }
}

impl PythonExportResult {
    /// Every number is well formed, and no two boards and no two pads share a
    /// name.
    pub open spec fn wf(&self) -> bool {
        &&& self.bounds.wf()
        &&& keys_distinct(self.boards@)
        &&& keys_distinct(self.pads@)
        &&& self.stackup.wf()
        &&& forall|i: int| 0 <= i < self.boards@.len() ==> (#[trigger] self.boards@[i]).1.wf()
        &&& forall|i: int| 0 <= i < self.pads@.len() ==> (#[trigger] self.pads@[i]).1.wf()
    }
}

/// Where the bytes of a file entry come from.
#[derive(Debug, PartialEq, Eq)]
pub enum EntrySource {
    /// The file at this path.
    Path(String),
    /// The file of this name in this directory.
    InDir(String, String),
    /// This text.
    Text(String),
}

/// One entry of an archive.
#[derive(Debug, PartialEq, Eq)]
pub enum ArchiveEntry {
    /// A directory; its name ends with `/`.
    Directory(String),
    /// A file with this name and these bytes.
    File(String, EntrySource),
}

/// [`EntrySource`] with its strings as character sequences.
pub enum SourceView {
    Path(Seq<char>),
    InDir(Seq<char>, Seq<char>),
    Text(Seq<char>),
}

/// [`ArchiveEntry`] with its strings as character sequences.
pub enum EntryView {
    Directory(Seq<char>),
    File(Seq<char>, SourceView),
}

impl View for EntrySource {
    type V = SourceView;

    open spec fn view(&self) -> SourceView {
        match self {
            EntrySource::Path(p) => SourceView::Path(p@),
            EntrySource::InDir(d, n) => SourceView::InDir(d@, n@),
            EntrySource::Text(t) => SourceView::Text(t@),
        }
    }
}

impl View for ArchiveEntry {
    type V = EntryView;

    open spec fn view(&self) -> EntryView {
        match self {
            ArchiveEntry::Directory(n) => EntryView::Directory(n@),
            ArchiveEntry::File(n, s) => EntryView::File(n@, s@),
        }
    }
}

/// The views of a sequence of entries.
pub open spec fn entries_view(v: Seq<ArchiveEntry>) -> Seq<EntryView> {
    v.map_values(|e: ArchiveEntry| e@)
}

/// The name of an entry.
pub open spec fn entry_name(e: EntryView) -> Seq<char> {
    match e {
        EntryView::Directory(n) => n,
        EntryView::File(n, _) => n,
    }
}

/// The directory entry name of a top-level directory.
pub open spec fn dir_entry(dir: Seq<char>) -> Seq<char> {
    dir + "/"@
}

/// The directory of a board inside the archive, with its trailing `/`.
pub open spec fn board_dir(name: Seq<char>) -> Seq<char> {
    BOARDS_DIR@ + "/"@ + name + "/"@
}

/// The main model and the four top-level directories.
pub open spec fn head_plan(e: PythonExportResult) -> Seq<EntryView> {
    seq![
        EntryView::File(PCB_WRL@, SourceView::Path(e.wrl_path@)),
        EntryView::Directory(dir_entry(COMPONENTS_DIR@)),
        EntryView::Directory(dir_entry(LAYERS_DIR@)),
        EntryView::Directory(dir_entry(BOARDS_DIR@)),
        EntryView::Directory(dir_entry(PADS_DIR@)),
    ]
}

/// The files of a listing that have extension `ext`, in listing order, copied
/// under `archive_dir`.
pub open spec fn listing_plan(
    archive_dir: Seq<char>,
    source_dir: Seq<char>,
    names: Seq<Seq<char>>,
    ext: Seq<char>,
) -> Seq<EntryView>
    decreases names.len(),
{
    if names.len() == 0 {
        Seq::empty()
    } else {
        let rest = listing_plan(archive_dir, source_dir, names.drop_last(), ext);
        let name = names.last();
        if extension_of(name) == Some(ext) {
            rest.push(
                EntryView::File(archive_dir + "/"@ + name, SourceView::InDir(source_dir, name)),
            )
        } else {
            rest
        }
    }
}

/// The component models of a listing.
pub open spec fn components_plan(e: PythonExportResult, names: Seq<Seq<char>>) -> Seq<EntryView> {
    listing_plan(COMPONENTS_DIR@, e.components_dir@, names, "wrl"@)
}

/// The layer drawings of a listing.
pub open spec fn layers_plan(e: PythonExportResult, names: Seq<Seq<char>>) -> Seq<EntryView> {
    listing_plan(LAYERS_DIR@, e.layers_dir@, names, "svg"@)
}

/// The offsets of the boards stacked on one board.
pub open spec fn stacked_plan(dir: Seq<char>, stacked: Seq<(String, StackedBoard)>) -> Seq<
    EntryView,
>
    decreases stacked.len(),
{
    if stacked.len() == 0 {
        Seq::empty()
    } else {
        let (name, board) = stacked.last();
        stacked_plan(dir, stacked.drop_last()).push(
            EntryView::File(
                dir + "stacked_"@ + name@ + ".toml"@,
                SourceView::Text(stacked_board_toml(board)),
            ),
        )
    }
}

/// The directory, outline and stacked offsets of one board.
pub open spec fn board_plan(name: Seq<char>, board: BoardExport) -> Seq<EntryView> {
    seq![
        EntryView::Directory(board_dir(name)),
        EntryView::File(
            board_dir(name) + BOUNDS_TOML@,
            SourceView::Text(bounds_toml(board.bounds)),
        ),
    ] + stacked_plan(board_dir(name), board.stacked_boards@)
}

/// The entries of all boards, board after board.
pub open spec fn boards_plan(boards: Seq<(String, BoardExport)>) -> Seq<EntryView>
    decreases boards.len(),
{
    if boards.len() == 0 {
        Seq::empty()
    } else {
        boards_plan(boards.drop_last()) + board_plan(boards.last().0@, boards.last().1)
    }
}

/// The entries of all pads.
pub open spec fn pads_plan(pads: Seq<(String, Pad)>) -> Seq<EntryView>
    decreases pads.len(),
{
    if pads.len() == 0 {
        Seq::empty()
    } else {
        let (name, pad) = pads.last();
        pads_plan(pads.drop_last()).push(
            EntryView::File(
                PADS_DIR@ + "/"@ + name@ + ".toml"@,
                SourceView::Text(pad_toml(pad)),
            ),
        )
    }
}

/// The outline and stackup of the whole design, then the boards, then the pads.
pub open spec fn metadata_plan(e: PythonExportResult) -> Seq<EntryView> {
    seq![
        EntryView::File(
            LAYERS_DIR@ + "/"@ + BOUNDS_TOML@,
            SourceView::Text(bounds_toml(e.bounds)),
        ),
        EntryView::File(
            LAYERS_DIR@ + "/"@ + STACKUP_TOML@,
            SourceView::Text(stackup_toml(e.stackup)),
        ),
    ] + boards_plan(e.boards@) + pads_plan(e.pads@)
}

/// The whole archive, given the listings of the component and layer directories.
pub open spec fn archive_plan(
    e: PythonExportResult,
    components: Seq<Seq<char>>,
    layers: Seq<Seq<char>>,
) -> Seq<EntryView> {
    head_plan(e) + components_plan(e, components) + layers_plan(e, layers) + metadata_plan(e)
}

/// The character sequences of a list of names.
pub open spec fn names_view(names: Seq<String>) -> Seq<Seq<char>> {
    names.map_values(|s: String| s@)
}

/// Joins two strings.
fn join2(a: &str, b: &str) -> (s: String)
    ensures
        s@ == a@ + b@,
{
    let mut s = a.to_owned();
    s.append(b);
    s
}

/// Joins three strings.
fn join3(a: &str, b: &str, c: &str) -> (s: String)
    ensures
        s@ == a@ + b@ + c@,
{
    let mut s = a.to_owned();
    s.append(b);
    s.append(c);
    s
}

/// The main model and the four top-level directories.
pub fn archive_head(e: &PythonExportResult) -> (v: Vec<ArchiveEntry>)
    ensures
        entries_view(v@) == head_plan(*e),
{
    let mut v: Vec<ArchiveEntry> = Vec::new();
    v.push(ArchiveEntry::File(PCB_WRL.to_owned(), EntrySource::Path(e.wrl_path.clone())));
    v.push(ArchiveEntry::Directory(join2(COMPONENTS_DIR, "/")));
    v.push(ArchiveEntry::Directory(join2(LAYERS_DIR, "/")));
    v.push(ArchiveEntry::Directory(join2(BOARDS_DIR, "/")));
    v.push(ArchiveEntry::Directory(join2(PADS_DIR, "/")));
    assert(entries_view(v@) =~= head_plan(*e));
    v
}

/// The files of a listing with extension `ext`, in listing order, each copied
/// from `source_dir` to `archive_dir/name`.
#[verifier::rlimit(50)]
pub fn listing_entries(archive_dir: &str, source_dir: &str, names: &Vec<String>, ext: &str) -> (v:
    Vec<ArchiveEntry>)
    ensures
        entries_view(v@) == listing_plan(archive_dir@, source_dir@, names_view(names@), ext@),
{
    let mut v: Vec<ArchiveEntry> = Vec::new();
    let mut i: usize = 0;
    while i < names.len()
        invariant
            i <= names@.len(),
            entries_view(v@) == listing_plan(
                archive_dir@,
                source_dir@,
                names_view(names@.subrange(0, i as int)),
                ext@,
            ),
        decreases names@.len() - i,
    {
        let ghost before = v@;
        let name = &names[i];
        let keep = has_extension(name.as_str(), ext);
        if keep {
            v.push(
                ArchiveEntry::File(
                    join3(archive_dir, "/", name.as_str()),
                    EntrySource::InDir(source_dir.to_owned(), name.clone()),
                ),
            );
        }
        proof {
            let pre = names_view(names@.subrange(0, i as int));
            let post = names_view(names@.subrange(0, i + 1));
            assert(post.drop_last() =~= pre);
            assert(post.last() == names@[i as int]@);
            assert(entries_view(v@) =~= listing_plan(archive_dir@, source_dir@, post, ext@));
        }
        i = i + 1;
    }
    proof {
        assert(names@.subrange(0, names@.len() as int) =~= names@);
    }
    v
}

/// The component models among the files of the components directory.
pub fn component_entries(e: &PythonExportResult, names: &Vec<String>) -> (v: Vec<ArchiveEntry>)
    ensures
        entries_view(v@) == components_plan(*e, names_view(names@)),
{
    listing_entries(COMPONENTS_DIR, e.components_dir.as_str(), names, "wrl")
}

/// The layer drawings among the files of the layers directory.
pub fn layer_entries(e: &PythonExportResult, names: &Vec<String>) -> (v: Vec<ArchiveEntry>)
    ensures
        entries_view(v@) == layers_plan(*e, names_view(names@)),
{
    listing_entries(LAYERS_DIR, e.layers_dir.as_str(), names, "svg")
}

/// The directory, outline and stacked offsets of one board.
#[verifier::rlimit(50)]
fn board_entries(name: &String, board: &BoardExport) -> (v: Vec<ArchiveEntry>)
    requires
        board.wf(),
    ensures
        entries_view(v@) == board_plan(name@, *board),
{
    let dir = join3(BOARDS_DIR, "/", name.as_str());
    let dir = join2(dir.as_str(), "/");
    let mut v: Vec<ArchiveEntry> = Vec::new();
    v.push(ArchiveEntry::Directory(dir.clone()));
    v.push(
        ArchiveEntry::File(
            join2(dir.as_str(), BOUNDS_TOML),
            EntrySource::Text(board.bounds.to_toml()),
        ),
    );
    assert(entries_view(v@) =~= board_plan(name@, *board).subrange(0, 2));
    let stacked = &board.stacked_boards;
    let mut i: usize = 0;
    while i < stacked.len()
        invariant
            i <= stacked@.len(),
            board.wf(),
            *stacked == board.stacked_boards,
            dir@ == board_dir(name@),
            entries_view(v@) == board_plan(name@, *board).subrange(0, 2) + stacked_plan(
                dir@,
                stacked@.subrange(0, i as int),
            ),
        decreases stacked@.len() - i,
    {
        let (sname, sboard) = &stacked[i];
        let file = join3(dir.as_str(), "stacked_", sname.as_str());
        let file = join2(file.as_str(), ".toml");
        assert(stacked@[i as int].1.wf());
        let ghost before = v@;
        let text = sboard.to_toml();
        let entry = ArchiveEntry::File(file, EntrySource::Text(text));
        assert(entry@ == EntryView::File(
            dir@ + "stacked_"@ + sname@ + ".toml"@,
            SourceView::Text(stacked_board_toml(*sboard)),
        ));
        v.push(entry);
        proof {
            assert(entries_view(v@) =~= entries_view(before).push(entry@));
            let post = stacked@.subrange(0, i + 1);
            assert(post.drop_last() =~= stacked@.subrange(0, i as int));
            assert(post.last() == stacked@[i as int]);
            assert(stacked_plan(dir@, post) == stacked_plan(dir@, post.drop_last()).push(
                EntryView::File(
                    dir@ + "stacked_"@ + sname@ + ".toml"@,
                    SourceView::Text(stacked_board_toml(*sboard)),
                ),
            ));
            assert(entries_view(v@) =~= board_plan(name@, *board).subrange(0, 2) + stacked_plan(
                dir@,
                post,
            ));
        }
        i = i + 1;
    }
    proof {
        assert(stacked@.subrange(0, stacked@.len() as int) =~= stacked@);
        assert(entries_view(v@) =~= board_plan(name@, *board));
    }
    v
}

/// The outline and stackup of the design, then every board, then every pad.
#[verifier::rlimit(50)]
pub fn metadata_entries(e: &PythonExportResult) -> (v: Vec<ArchiveEntry>)
    requires
        e.wf(),
    ensures
        entries_view(v@) == metadata_plan(*e),
{
    let mut v: Vec<ArchiveEntry> = Vec::new();
    v.push(
        ArchiveEntry::File(
            join3(LAYERS_DIR, "/", BOUNDS_TOML),
            EntrySource::Text(e.bounds.to_toml()),
        ),
    );
    v.push(
        ArchiveEntry::File(
            join3(LAYERS_DIR, "/", STACKUP_TOML),
            EntrySource::Text(e.stackup.to_toml()),
        ),
    );
    let ghost top = entries_view(v@);
    let mut i: usize = 0;
    while i < e.boards.len()
        invariant
            i <= e.boards@.len(),
            e.wf(),
            entries_view(v@) == top + boards_plan(e.boards@.subrange(0, i as int)),
        decreases e.boards@.len() - i,
    {
        let (name, board) = &e.boards[i];
        assert(e.boards@[i as int].1.wf());
        let mut more = board_entries(name, board);
        let ghost before = v@;
        v.append(&mut more);
        proof {
            let post = e.boards@.subrange(0, i + 1);
            assert(post.drop_last() =~= e.boards@.subrange(0, i as int));
            assert(entries_view(v@) =~= entries_view(before) + board_plan(name@, *board));
            assert(entries_view(v@) =~= top + boards_plan(post));
        }
        i = i + 1;
    }
    let ghost mid = entries_view(v@);
    let mut j: usize = 0;
    while j < e.pads.len()
        invariant
            j <= e.pads@.len(),
            e.wf(),
            entries_view(v@) == mid + pads_plan(e.pads@.subrange(0, j as int)),
        decreases e.pads@.len() - j,
    {
        let (name, pad) = &e.pads[j];
        assert(e.pads@[j as int].1.wf());
        let file = join3(PADS_DIR, "/", name.as_str());
        let file = join2(file.as_str(), ".toml");
        let ghost before = v@;
        let text = pad.to_toml();
        let entry = ArchiveEntry::File(file, EntrySource::Text(text));
        assert(entry@ == EntryView::File(
            PADS_DIR@ + "/"@ + name@ + ".toml"@,
            SourceView::Text(pad_toml(*pad)),
        ));
        v.push(entry);
        proof {
            assert(entries_view(v@) =~= entries_view(before).push(entry@));
            let post = e.pads@.subrange(0, j + 1);
            assert(post.drop_last() =~= e.pads@.subrange(0, j as int));
            assert(post.last() == e.pads@[j as int]);
            assert(pads_plan(post) == pads_plan(post.drop_last()).push(
                EntryView::File(
                    PADS_DIR@ + "/"@ + name@ + ".toml"@,
                    SourceView::Text(pad_toml(*pad)),
                ),
            ));
            assert(entries_view(v@) =~= mid + pads_plan(post));
        }
        j = j + 1;
    }
    proof {
        assert(e.boards@.subrange(0, e.boards@.len() as int) =~= e.boards@);
        assert(e.pads@.subrange(0, e.pads@.len() as int) =~= e.pads@);
        assert(entries_view(v@) =~= metadata_plan(*e));
    }
    v
}

/// Every entry of the archive, in the order they are written.
pub fn archive_entries(e: &PythonExportResult, components: &Vec<String>, layers: &Vec<String>) -> (v:
    Vec<ArchiveEntry>)
    requires
        e.wf(),
    ensures
        entries_view(v@) == archive_plan(*e, names_view(components@), names_view(layers@)),
{
    let mut v = archive_head(e);
    let mut c = component_entries(e, components);
    let mut l = layer_entries(e, layers);
    let mut m = metadata_entries(e);
    let ghost (v0, c0, l0, m0) = (v@, c@, l@, m@);
    v.append(&mut c);
    v.append(&mut l);
    v.append(&mut m);
    assert(entries_view(v@) =~= entries_view(v0) + entries_view(c0) + entries_view(l0)
        + entries_view(m0));
    v
}

} // verus!
