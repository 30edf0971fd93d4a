use vstd::prelude::*;

use crate::sort_desc::{permutes, sorted_desc_stable, stable_sort_desc};
use crate::strings::opt_text;
use crate::time::{datetime_text, format_datetime};

verus! {

/// Who made a snapshot: the tool itself when it opens, or the user.
#[derive(Clone, Copy, Debug, PartialEq, Eq, Structural)]
pub enum SnapshotKind {
    System,
    User,
}

impl SnapshotKind {
    /// The localization key of the kind's label.
    pub fn label_key(&self) -> (k: &'static str)
        ensures
            k@ == (match *self { SnapshotKind::System => "system"@, SnapshotKind::User => "user"@ }),
    {
        match self {
            SnapshotKind::System => "system",
            SnapshotKind::User => "user",
        }
    }
}

/// A saved state of the desktop's panels.
#[derive(Debug)]
pub struct Snapshot {
    pub id: u128,
    pub name: String,
    pub kind: SnapshotKind,
    /// When it was taken: seconds since the epoch of the local time, read as UTC.
    pub created: i64,
    /// The panel configuration it holds, serialized, if one could be captured.
    pub schema: Option<String>,
}

/// The value of a snapshot.
pub struct SnapshotView {
    pub id: u128,
    pub name: Seq<char>,
    pub kind: SnapshotKind,
    pub created: i64,
    pub schema: Option<Seq<char>>,
}

impl View for Snapshot {
    type V = SnapshotView;

    open spec fn view(&self) -> SnapshotView {
        SnapshotView {
            id: self.id,
            name: self.name@,
            kind: self.kind,
            created: self.created,
            schema: opt_text(self.schema),
        }
    }
}

/// The values of a list of snapshots.
pub open spec fn snapshot_views(v: Seq<Snapshot>) -> Seq<SnapshotView> {
    Seq::new(v.len(), |i: int| v[i]@)
}

/// The times of a list of snapshots.
pub open spec fn created_times(v: Seq<Snapshot>) -> Seq<i64> {
    Seq::new(v.len(), |i: int| v[i].created)
}

impl Snapshot {
    /// When the snapshot was taken, as `%Y-%m-%d %H:%M:%S`; `None` only for a
    /// time beyond what chrono represents.
    pub fn created(&self) -> (t: Option<String>)
        ensures
            opt_text(t) == datetime_text(self.created),
    {
        format_datetime(self.created)
    }
}

/// A row of the snapshot table: the name, the localization key of the kind,
/// and when it was taken.
#[derive(Debug)]
pub struct SnapshotRow {
    pub name: String,
    pub kind_key: &'static str,
    pub created: Option<String>,
}

/// The localization key of a kind's label.
pub open spec fn kind_key(k: SnapshotKind) -> Seq<char> {
    match k {
        SnapshotKind::System => "system"@,
        SnapshotKind::User => "user"@,
    }
}

/// The snapshots page: the snapshots found, newest first.
#[derive(Debug)]
pub struct Snapshots {
    pub snapshots: Vec<Snapshot>,
}

/// What the snapshots page is told.
#[derive(Debug)]
pub enum Message {
    CreateSnapshot(String, SnapshotKind),
    ReloadSnapshots,
    RestoreSnapshot(Snapshot),
    DeleteSnapshot(Snapshot),
    /// The snapshots read from the snapshot directory, in the order read.
    Listed(Vec<Snapshot>),
}

/// What the snapshots page asks of the program.
#[derive(Debug)]
pub enum Action {
    /// Take a snapshot of this name and kind and write it; then list the
    /// snapshots again (report `Listed`).
    Create(String, SnapshotKind),
    /// Read all snapshots and report them with `Listed`.
    List,
    /// Load this panel configuration onto the desktop.
    LoadTemplate(String),
    /// Delete the snapshot's file if it is there; then list the snapshots again.
    Delete(u128),
}

/// `list` reordered by `perm`: newest first, stable among equal times.
pub open spec fn newest_first(list: Seq<SnapshotView>, times: Seq<i64>, perm: Seq<usize>, out: Seq<SnapshotView>) -> bool {
    &&& permutes(perm, list.len())
    &&& sorted_desc_stable(times, perm)
    &&& out.len() == perm.len()
    &&& forall|i: int| 0 <= i < out.len() ==> #[trigger] out[i] == list[perm[i] as int]
}

/// How the snapshots page answers a message: its next state and its request.
pub open spec fn snapshots_step(old: Snapshots, fin: Snapshots, message: Message, action: Option<Action>) -> bool {
    match message {
        Message::Listed(list) => action is None && exists|perm: Seq<usize>|
            newest_first(snapshot_views(list@), created_times(list@), perm, snapshot_views(fin.snapshots@)),
        Message::CreateSnapshot(name, kind) => fin == old
            && (action matches Some(Action::Create(n, k)) && n@ == name@ && k == kind),
        Message::ReloadSnapshots => fin == old && (action matches Some(Action::List)),
        Message::RestoreSnapshot(s) => fin == old && match s.schema {
            Some(schema) => (action matches Some(Action::LoadTemplate(t)) && t@ == schema@),
            None => action is None,
        },
        Message::DeleteSnapshot(s) => fin == old
            && (action matches Some(Action::Delete(id)) && id == s.id),
    }
}

impl Snapshots {
    /// A page with no snapshots yet.
    pub fn new() -> (s: Snapshots)
        ensures
            s.snapshots@.len() == 0,
    {
        Snapshots { snapshots: Vec::new() }
    }

    /// The table's rows, one per snapshot in order; with none the page says
    /// there are no snapshots and shows no table heading.
    pub fn rows(&self) -> (r: Vec<SnapshotRow>)
        ensures
            r@.len() == self.snapshots@.len(),
            forall|i: int| 0 <= i < r@.len() ==> {
                &&& (#[trigger] r@[i]).name@ == self.snapshots@[i].name@
                &&& r@[i].kind_key@ == kind_key(self.snapshots@[i].kind)
                &&& opt_text(r@[i].created) == datetime_text(self.snapshots@[i].created)
            },
    {
        let n = self.snapshots.len();
        let mut out: Vec<SnapshotRow> = Vec::new();
        let mut i: usize = 0;
        while i < n
            invariant
                n == self.snapshots@.len(),
                i <= n,
                out@.len() == i,
                forall|j: int| 0 <= j < i ==> {
                    &&& (#[trigger] out@[j]).name@ == self.snapshots@[j].name@
                    &&& out@[j].kind_key@ == kind_key(self.snapshots@[j].kind)
                    &&& opt_text(out@[j].created) == datetime_text(self.snapshots@[j].created)
                },
            decreases n - i,
        {
            let s = &self.snapshots[i];
            out.push(SnapshotRow { name: s.name.clone(), kind_key: s.kind.label_key(), created: s.created() });
            i = i + 1;
        }
        out
    }

    /// Takes the listed snapshots, newest first; snapshots taken at the same
    /// second keep the order in which they were read.
    pub fn set_listed(&mut self, list: Vec<Snapshot>)
        ensures
            exists|perm: Seq<usize>|
                newest_first(snapshot_views(list@), created_times(list@), perm, snapshot_views(final(self).snapshots@)),
    {
        let n = list.len();
        let mut times: Vec<i64> = Vec::new();
        let mut i: usize = 0;
        while i < n
            invariant
                n == list@.len(),
                i <= n,
                times@.len() == i,
                forall|j: int| 0 <= j < i ==> times@[j] == list@[j].created,
            decreases n - i,
        {
            times.push(list[i].created);
            i = i + 1;
        }
        assert(times@ =~= created_times(list@));
        let perm = stable_sort_desc(&times);
        let mut out: Vec<Snapshot> = Vec::new();
        let mut j: usize = 0;
        while j < n
            invariant
                n == list@.len(),
                perm@.len() == n,
                forall|t: int| 0 <= t < perm@.len() ==> #[trigger] perm@[t] < n,
                j <= n,
                out@.len() == j,
                forall|t: int| 0 <= t < j ==> (#[trigger] out@[t])@ == list@[perm@[t] as int]@,
            decreases n - j,
        {
            let s = &list[perm[j]];
            out.push(Snapshot {
                id: s.id,
                name: s.name.clone(),
                kind: s.kind,
                created: s.created,
                schema: crate::strings::clone_opt_string(&s.schema),
            });
            j = j + 1;
        }
        self.snapshots = out;
        assert(newest_first(snapshot_views(list@), created_times(list@), perm@, snapshot_views(self.snapshots@)));
    }

    /// Handles a message: listings replace the snapshots (newest first);
    /// the rest are asked of the program.
    pub fn update(&mut self, message: Message) -> (action: Option<Action>)
        ensures
            snapshots_step(*old(self), *final(self), message, action),
    {
        match message {
            Message::Listed(list) => {
                self.set_listed(list);
                None
            },
            Message::CreateSnapshot(name, kind) => Some(Action::Create(name, kind)),
            Message::ReloadSnapshots => Some(Action::List),
            Message::RestoreSnapshot(s) => match s.schema {
                Some(schema) => Some(Action::LoadTemplate(schema)),
                None => None,
            },
            Message::DeleteSnapshot(s) => Some(Action::Delete(s.id)),
        }
    }
}

} // verus!
