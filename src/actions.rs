use vstd::prelude::*;
use crate::config;
use crate::utils::{full_name_of, opt_view, FileMetaData};

verus! {

/// What the filesystem holds at a destination path.
#[derive(Clone, Copy, Debug, PartialEq, Eq, Structural)]
pub enum PathState {
    Missing,
    Directory,
    NotDirectory,
}

/// One filesystem operation for the caller to perform.
#[derive(Clone, Debug)]
pub enum FsOp {
    CreateDirAll(String),
    Rename { from: String, to: String },
    CopyFile { from: String, to: String },
    RemoveFile(String),
    RemoveDirAll(String),
}

pub enum FsOpView {
    CreateDirAll(Seq<char>),
    Rename(Seq<char>, Seq<char>),
    CopyFile(Seq<char>, Seq<char>),
    RemoveFile(Seq<char>),
    RemoveDirAll(Seq<char>),
}

impl View for FsOp {
    type V = FsOpView;

    open spec fn view(&self) -> FsOpView {
        match self {
            FsOp::CreateDirAll(p) => FsOpView::CreateDirAll(p@),
            FsOp::Rename { from, to } => FsOpView::Rename(from@, to@),
            FsOp::CopyFile { from, to } => FsOpView::CopyFile(from@, to@),
            FsOp::RemoveFile(p) => FsOpView::RemoveFile(p@),
            FsOp::RemoveDirAll(p) => FsOpView::RemoveDirAll(p@),
        }
    }
}

pub open spec fn op_view(o: Option<FsOp>) -> Option<FsOpView> {
    match o {
        Some(op) => Some(op@),
        None => None,
    }
}

/// A failure tied to one path.
#[derive(Clone, Debug)]
pub struct EntryError {
    pub path: String,
    pub message: String,
}

/// `name` placed inside directory `dir`.
pub open spec fn join_path(dir: Seq<char>, name: Seq<char>) -> Seq<char> {
    if dir.len() == 0 {
        name
    } else if dir.last() == '/' {
        dir + name
    } else {
        dir + seq!['/'] + name
    }
}

/// Places `name` inside directory `dir`.
pub fn join(dir: &str, name: &str) -> (r: String)
    ensures
        r@ == join_path(dir@, name@),
{
    let n = dir.unicode_len();
    if n == 0 {
        name.to_owned()
    } else if dir.get_char(n - 1) == '/' {
        dir.to_owned().concat(name)
    } else {
        proof {
            reveal_strlit("/");
        }
        let with_sep = dir.to_owned().concat("/");
        let r = with_sep.concat(name);
        proof {
            assert(r@ =~= join_path(dir@, name@));
        }
        r
    }
}

/// Where a matched entry lands inside the destination directory.
pub open spec fn landing_path(destination: Seq<char>, m: FileMetaData) -> Seq<char> {
    join_path(destination, full_name_of(m.file_name@, opt_view(m.extension)))
}

/// The step that makes the destination usable: a directory is used as it
/// is, a missing one is created, anything else refuses the whole batch.
pub open spec fn prepare_spec(destination: Seq<char>, state: PathState, r: Result<Option<FsOp>, EntryError>) -> bool {
    match state {
        PathState::Missing => r is Ok && op_view(r->Ok_0) == Some(FsOpView::CreateDirAll(destination)),
        PathState::Directory => r is Ok && r->Ok_0 is None,
        PathState::NotDirectory => r is Err && r->Err_0.path@ == destination,
    }
}

/// The operation for one entry of a Move or Copy batch: none where the
/// landing path is taken and replacing is off, the transfer otherwise.
pub open spec fn transfer_spec(
    is_move: bool,
    destination: Seq<char>,
    over_ride: bool,
    m: FileMetaData,
    target_exists: bool,
) -> Option<FsOpView> {
    if !over_ride && target_exists {
        None
    } else if is_move {
        Some(FsOpView::Rename(m.path@, landing_path(destination, m)))
    } else {
        Some(FsOpView::CopyFile(m.path@, landing_path(destination, m)))
    }
}

/// The operation for one entry of a Delete batch: files are removed, directories
/// with their whole contents; anything else is left.
pub open spec fn removal_spec(m: FileMetaData) -> Option<FsOpView> {
    if m.is_file {
        Some(FsOpView::RemoveFile(m.path@))
    } else if m.is_dir {
        Some(FsOpView::RemoveDirAll(m.path@))
    } else {
        None
    }
}

fn refuse(destination: &str) -> (r: Result<Option<FsOp>, EntryError>)
    ensures
        r is Err && r->Err_0.path@ == destination@,
{
    let message = "exists but is not a directory".to_owned();
    Err(EntryError { path: destination.to_owned(), message })
}

fn prepare_destination(destination: &str, state: PathState) -> (r: Result<Option<FsOp>, EntryError>)
    ensures
        prepare_spec(destination@, state, r),
{
    match state {
        PathState::Missing => Ok(Some(FsOp::CreateDirAll(destination.to_owned()))),
        PathState::Directory => Ok(None),
        PathState::NotDirectory => refuse(destination),
    }
}

fn transfer(is_move: bool, destination: &str, over_ride: bool, m: &FileMetaData, target_exists: bool) -> (r: Option<FsOp>)
    ensures
        op_view(r) == transfer_spec(is_move, destination@, over_ride, *m, target_exists),
{
    if !over_ride && target_exists {
        return None;
    }
    let to = join(destination, m.full_name().as_str());
    let from = m.path.clone();
    if is_move {
        Some(FsOp::Rename { from, to })
    } else {
        Some(FsOp::CopyFile { from, to })
    }
}

/// A batch operation over matched entries, decided one entry at a time: what
/// to do about the destination first, then, for each entry, which path to
/// probe and which operation to perform.
pub trait Action {
    spec fn spec_destination(&self) -> Option<Seq<char>>;

    spec fn spec_entry_op(&self, m: FileMetaData, target_exists: bool) -> Option<FsOpView>;

    /// The directory that must be usable before any entry is handled.
    fn destination(&self) -> (r: Option<String>)
        ensures
            opt_view(r) == self.spec_destination(),
    ;

    /// Decides, from what lies at the destination, what to do before the batch.
    fn prepare(&self, state: PathState) -> (r: Result<Option<FsOp>, EntryError>)
        ensures
            match self.spec_destination() {
                Some(d) => prepare_spec(d, state, r),
                None => r is Ok && r->Ok_0 is None,
            },
    ;

    /// The path whose existence decides whether an entry is handled.
    fn target(&self, m: &FileMetaData) -> (r: Option<String>)
        ensures
            opt_view(r) == match self.spec_destination() {
                Some(d) => Some(landing_path(d, *m)),
                None => None,
            },
    ;

    /// The operation for one entry, given whether its target already exists.
    fn entry_op(&self, m: &FileMetaData, target_exists: bool) -> (r: Option<FsOp>)
        ensures
            op_view(r) == self.spec_entry_op(*m, target_exists),
    ;
}

pub struct MoveAction<'a> {
    pub destination: &'a str,
    pub over_ride: bool,
}

impl<'a> MoveAction<'a> {
    pub fn new(destination: &'a str, over_ride: bool) -> (r: Self)
        ensures
            r.destination@ == destination@,
            r.over_ride == over_ride,
    {
        MoveAction { destination, over_ride }
    }

    pub fn prepare(&self, state: PathState) -> (r: Result<Option<FsOp>, EntryError>)
        ensures
            prepare_spec(self.destination@, state, r),
    {
        prepare_destination(self.destination, state)
    }
}

impl<'a> Action for MoveAction<'a> {
    open spec fn spec_destination(&self) -> Option<Seq<char>> {
        Some(self.destination@)
    }

    open spec fn spec_entry_op(&self, m: FileMetaData, target_exists: bool) -> Option<FsOpView> {
        transfer_spec(true, self.destination@, self.over_ride, m, target_exists)
    }

    fn destination(&self) -> (r: Option<String>) {
        Some(self.destination.to_owned())
    }

    fn prepare(&self, state: PathState) -> (r: Result<Option<FsOp>, EntryError>) {
        prepare_destination(self.destination, state)
    }

    fn target(&self, m: &FileMetaData) -> (r: Option<String>) {
        Some(join(self.destination, m.full_name().as_str()))
    }

    fn entry_op(&self, m: &FileMetaData, target_exists: bool) -> (r: Option<FsOp>) {
        transfer(true, self.destination, self.over_ride, m, target_exists)
    }
}

pub struct CopyAction<'a> {
    pub destination: &'a str,
    pub over_ride: bool,
}

impl<'a> CopyAction<'a> {
    pub fn new(destination: &'a str, over_ride: bool) -> (r: Self)
        ensures
            r.destination@ == destination@,
            r.over_ride == over_ride,
    {
        CopyAction { destination, over_ride }
    }

    pub fn prepare(&self, state: PathState) -> (r: Result<Option<FsOp>, EntryError>)
        ensures
            prepare_spec(self.destination@, state, r),
    {
        prepare_destination(self.destination, state)
    }
}

impl<'a> Action for CopyAction<'a> {
    open spec fn spec_destination(&self) -> Option<Seq<char>> {
        Some(self.destination@)
    }

    open spec fn spec_entry_op(&self, m: FileMetaData, target_exists: bool) -> Option<FsOpView> {
        transfer_spec(false, self.destination@, self.over_ride, m, target_exists)
    }

    fn destination(&self) -> (r: Option<String>) {
        Some(self.destination.to_owned())
    }

    fn prepare(&self, state: PathState) -> (r: Result<Option<FsOp>, EntryError>) {
        prepare_destination(self.destination, state)
    }

    fn target(&self, m: &FileMetaData) -> (r: Option<String>) {
        Some(join(self.destination, m.full_name().as_str()))
    }

    fn entry_op(&self, m: &FileMetaData, target_exists: bool) -> (r: Option<FsOp>) {
        transfer(false, self.destination, self.over_ride, m, target_exists)
    }
}

pub struct DeleteAction;

impl DeleteAction {
    pub fn new() -> (r: Self) {
        DeleteAction
    }
}

impl Action for DeleteAction {
    open spec fn spec_destination(&self) -> Option<Seq<char>> {
        None
    }

    open spec fn spec_entry_op(&self, m: FileMetaData, target_exists: bool) -> Option<FsOpView> {
        removal_spec(m)
    }

    fn destination(&self) -> (r: Option<String>) {
        None
    }

    fn prepare(&self, state: PathState) -> (r: Result<Option<FsOp>, EntryError>) {
        Ok(None)
    }

    fn target(&self, m: &FileMetaData) -> (r: Option<String>) {
        None
    }

    fn entry_op(&self, m: &FileMetaData, target_exists: bool) -> (r: Option<FsOp>) {
        if m.is_file {
            Some(FsOp::RemoveFile(m.path.clone()))
        } else if m.is_dir {
            Some(FsOp::RemoveDirAll(m.path.clone()))
        } else {
            None
        }
    }
}

/// The action a rule's specification selects.
pub enum ActionKind<'a> {
    Move(MoveAction<'a>),
    Copy(CopyAction<'a>),
    Delete(DeleteAction),
}

impl<'a> Action for ActionKind<'a> {
    open spec fn spec_destination(&self) -> Option<Seq<char>> {
        match self {
            ActionKind::Move(a) => a.spec_destination(),
            ActionKind::Copy(a) => a.spec_destination(),
            ActionKind::Delete(a) => a.spec_destination(),
        }
    }

    open spec fn spec_entry_op(&self, m: FileMetaData, target_exists: bool) -> Option<FsOpView> {
        match self {
            ActionKind::Move(a) => a.spec_entry_op(m, target_exists),
            ActionKind::Copy(a) => a.spec_entry_op(m, target_exists),
            ActionKind::Delete(a) => a.spec_entry_op(m, target_exists),
        }
    }

    fn destination(&self) -> (r: Option<String>) {
        match self {
            ActionKind::Move(a) => a.destination(),
            ActionKind::Copy(a) => a.destination(),
            ActionKind::Delete(a) => a.destination(),
        }
    }

    fn prepare(&self, state: PathState) -> (r: Result<Option<FsOp>, EntryError>) {
        match self {
            ActionKind::Move(a) => Action::prepare(a, state),
            ActionKind::Copy(a) => Action::prepare(a, state),
            ActionKind::Delete(a) => Action::prepare(a, state),
        }
    }

    fn target(&self, m: &FileMetaData) -> (r: Option<String>) {
        match self {
            ActionKind::Move(a) => a.target(m),
            ActionKind::Copy(a) => a.target(m),
            ActionKind::Delete(a) => a.target(m),
        }
    }

    fn entry_op(&self, m: &FileMetaData, target_exists: bool) -> (r: Option<FsOp>) {
        match self {
            ActionKind::Move(a) => a.entry_op(m, target_exists),
            ActionKind::Copy(a) => a.entry_op(m, target_exists),
            ActionKind::Delete(a) => a.entry_op(m, target_exists),
        }
    }
}

/// Whether `a` is the action that the specification `cfg` names.
pub open spec fn selects(cfg: config::Action, a: ActionKind) -> bool {
    match cfg {
        config::Action::Move(c) => a is Move && a->Move_0.destination@ == c.destination@
            && a->Move_0.over_ride == c.over_ride,
        config::Action::Copy(c) => a is Copy && a->Copy_0.destination@ == c.destination@
            && a->Copy_0.over_ride == c.over_ride,
        config::Action::Delete => a is Delete,
    }
}

/// The action that an action specification names.
pub fn parse(action_cfg: &config::Action) -> (r: ActionKind<'_>)
    ensures
        selects(*action_cfg, r),
{
    match action_cfg {
        config::Action::Move(move_cfg) => ActionKind::Move(
            MoveAction::new(move_cfg.destination.as_str(), move_cfg.over_ride),
        ),
        config::Action::Copy(copy_cfg) => ActionKind::Copy(
            CopyAction::new(copy_cfg.destination.as_str(), copy_cfg.over_ride),
        ),
        config::Action::Delete => ActionKind::Delete(DeleteAction::new()),
    }
}

/// Deleting removes a plain file, and a directory together with all it holds.
pub proof fn lemma_delete_removes(m: FileMetaData)
    ensures
        m.is_file ==> removal_spec(m) == Some(FsOpView::RemoveFile(m.path@)),
        m.is_dir && !m.is_file ==> removal_spec(m) == Some(FsOpView::RemoveDirAll(m.path@)),
{
}

} // verus!
