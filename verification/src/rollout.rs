//! Durable session state: the conventional paths rollout files live at, the
//! recognition rule for rollout files, and the selection of the most
//! recently modified one after a run.

use vstd::prelude::*;
use vstd::string::*;
use crate::text::{dec_padded2, dec_signed, i32_dec_str, u32_padded2_str};
use crate::workspace::joined_path;

verus! {

/// The session directory for a date: `sessions/<year>/<month>/<day>`, month
/// and day zero-padded to two places.
pub open spec fn session_dir_model(year: int, month: nat, day: nat) -> Seq<char> {
    "sessions/"@ + dec_signed(year) + "/"@ + dec_padded2(month) + "/"@ + dec_padded2(day)
}

/// The file name a rollout is stored under for a session identifier.
pub open spec fn rollout_file_name_model(session_id: Seq<char>) -> Seq<char> {
    "rollout-"@ + session_id + ".jsonl"@
}

/// The path of a session's rollout file for a date, relative to the home
/// directory.
pub open spec fn rollout_rel_path_model(year: int, month: nat, day: nat, session_id: Seq<char>) -> Seq<char> {
    joined_path(session_dir_model(year, month, day), rollout_file_name_model(session_id))
}

/// Renders the session directory for a date.
pub fn session_dir(year: i32, month: u32, day: u32) -> (r: String)
    ensures
        r@ == session_dir_model(year as int, month as nat, day as nat),
{
    let y = i32_dec_str(year);
    let mut s = String::new();
    s.append("sessions/");
    s.append(y.as_str());
    s.append("/");
    let m = u32_padded2_str(month);
    s.append(m.as_str());
    s.append("/");
    let d = u32_padded2_str(day);
    s.append(d.as_str());
    assert(s@ =~= session_dir_model(year as int, month as nat, day as nat));
    s
}

/// Renders the file name a rollout is stored under.
pub fn rollout_file_name(session_id: &str) -> (r: String)
    ensures
        r@ == rollout_file_name_model(session_id@),
{
    let mut s = String::new();
    s.append("rollout-");
    s.append(session_id);
    s.append(".jsonl");
    assert(s@ =~= rollout_file_name_model(session_id@));
    s
}

/// Renders the path of a session's rollout file for a date, relative to the
/// home directory.
pub fn rollout_rel_path(year: i32, month: u32, day: u32, session_id: &str) -> (r: String)
    ensures
        r@ == rollout_rel_path_model(year as int, month as nat, day as nat, session_id@),
{
    let dir = session_dir(year, month, day);
    let name = rollout_file_name(session_id);
    crate::workspace::join_path(dir.as_str(), name.as_str())
}

/// The suffix that marks a durable-state file.
pub open spec fn rollout_suffix() -> Seq<char> {
    seq!['.', 'j', 's', 'o', 'n', 'l']
}

/// Whether a path names a rollout file: it ends in the durable-state suffix
/// and the final path component has at least one character before the dot.
pub open spec fn has_rollout_ext(p: Seq<char>) -> bool {
    p.len() >= 7 && p[p.len() - 7] != '/' && p.subrange(p.len() - 6, p.len() as int)
        == rollout_suffix()
}

/// Decides whether a path names a rollout file.
pub fn is_rollout_path(path: &str) -> (b: bool)
    ensures
        b == has_rollout_ext(path@),
{
    let n = path.unicode_len();
    if n < 7 {
        return false;
    }
    if path.get_char(n - 7) == '/' {
        return false;
    }
    let ok = path.get_char(n - 6) == '.' && path.get_char(n - 5) == 'j' && path.get_char(n - 4)
        == 's' && path.get_char(n - 3) == 'o' && path.get_char(n - 2) == 'n' && path.get_char(
        n - 1,
    ) == 'l';
    proof {
        let sub = path@.subrange(n - 6, n as int);
        if ok {
            assert(sub =~= rollout_suffix());
        } else {
            if sub == rollout_suffix() {
                assert(sub[0] == '.' && sub[1] == 'j' && sub[2] == 's' && sub[3] == 'o' && sub[4]
                    == 'n' && sub[5] == 'l');
                assert(false);
            }
        }
    }
    ok
}

/// One file found beneath the session root: its path and its modification
/// time, as an opaque tick count.
pub struct FileEntry {
    pub path: String,
    pub mtime: u64,
}

pub ghost struct FileEntryModel {
    pub path: Seq<char>,
    pub mtime: u64,
}

impl View for FileEntry {
    type V = FileEntryModel;

    open spec fn view(&self) -> FileEntryModel {
        FileEntryModel { path: self.path@, mtime: self.mtime }
    }
}

/// Whether an entry is a candidate for extraction.
pub open spec fn is_rollout_entry(e: FileEntryModel) -> bool {
    has_rollout_ext(e.path)
}

/// The scan over `entries` keeping the first candidate with the strictly
/// greatest modification time seen so far, starting from `acc`.
pub open spec fn scan_latest(entries: Seq<FileEntryModel>, acc: Option<FileEntryModel>) -> Option<
    FileEntryModel,
>
    decreases entries.len(),
{
    if entries.len() == 0 {
        acc
    } else {
        let take_it = is_rollout_entry(entries[0]) && (match acc {
            Option::Some(a) => entries[0].mtime > a.mtime,
            Option::None => true,
        });
        scan_latest(
            entries.skip(1),
            if take_it {
                Option::Some(entries[0])
            } else {
                acc
            },
        )
    }
}

/// The rollout entry the extractor selects: the first, in walk order, among
/// those with the greatest modification time; `None` when no entry is a
/// rollout file.
pub open spec fn latest_rollout(entries: Seq<FileEntryModel>) -> Option<FileEntryModel> {
    scan_latest(entries, Option::None)
}

fn clone_entry(e: &FileEntry) -> (r: FileEntry)
    ensures
        r@ == e@,
{
    FileEntry { path: e.path.clone(), mtime: e.mtime }
}

/// Selects the most recently modified rollout file among `entries`; an
/// earlier entry wins a tie.
pub fn select_latest_rollout(entries: &Vec<FileEntry>) -> (r: Option<FileEntry>)
    ensures
        match r {
            Option::Some(e) => latest_rollout(entries@.map_values(|x: FileEntry| x@))
                == Option::Some(e@),
            Option::None => latest_rollout(entries@.map_values(|x: FileEntry| x@)) is None,
        },
{
    let ghost m = entries@.map_values(|x: FileEntry| x@);
    proof {
        assert(m.skip(0) =~= m);
    }
    let mut latest: Option<FileEntry> = Option::None;
    let mut i: usize = 0;
    while i < entries.len()
        invariant
            i <= entries.len(),
            m == entries@.map_values(|x: FileEntry| x@),
            scan_latest(m, Option::None) == scan_latest(
                m.skip(i as int),
                match latest {
                    Option::Some(e) => Option::Some(e@),
                    Option::None => Option::None,
                },
            ),
        decreases entries.len() - i,
    {
        proof {
            assert(m.skip(i as int)[0] == m[i as int]);
            assert(m.skip(i as int).skip(1) =~= m.skip(i + 1));
        }
        let candidate = is_rollout_path(entries[i].path.as_str());
        let newer = match &latest {
            Option::Some(a) => entries[i].mtime > a.mtime,
            Option::None => true,
        };
        if candidate && newer {
            latest = Option::Some(clone_entry(&entries[i]));
        }
        i = i + 1;
    }
    proof {
        assert(m.skip(entries.len() as int) =~= Seq::<FileEntryModel>::empty());
    }
    latest
}

proof fn lemma_scan_latest_props(entries: Seq<FileEntryModel>, acc: Option<FileEntryModel>)
    ensures
        match scan_latest(entries, acc) {
            Option::Some(e) => (acc == Option::Some(e) || (is_rollout_entry(e) && entries.contains(
                e,
            ))) && (match acc {
                Option::Some(a) => e.mtime >= a.mtime,
                Option::None => true,
            }) && (forall|i: int|
                0 <= i < entries.len() && is_rollout_entry(#[trigger] entries[i])
                    ==> entries[i].mtime <= e.mtime),
            Option::None => acc is None && (forall|i: int|
                0 <= i < entries.len() ==> !is_rollout_entry(#[trigger] entries[i])),
        },
    decreases entries.len(),
{
    if entries.len() == 0 {
    } else {
        let head = entries[0];
        let take_it = is_rollout_entry(head) && (match acc {
            Option::Some(a) => head.mtime > a.mtime,
            Option::None => true,
        });
        let acc2 = if take_it {
            Option::Some(head)
        } else {
            acc
        };
        lemma_scan_latest_props(entries.skip(1), acc2);
        assert forall|i: int| 1 <= i < entries.len() implies entries.skip(1).contains(
            entries[i],
        ) by {
            assert(entries.skip(1)[i - 1] == entries[i]);
        }
        assert forall|e: FileEntryModel| entries.skip(1).contains(e) implies entries.contains(
            e,
        ) by {
            let j = choose|j: int| 0 <= j < entries.skip(1).len() && entries.skip(1)[j] == e;
            assert(entries[j + 1] == e);
        }
    }
}

/// Law: when the extractor selects an entry, that entry is a rollout file,
/// is one of the walked entries, and no rollout entry among them is newer;
/// when it selects none, no walked entry is a rollout file.
pub proof fn lemma_latest_rollout_sound(entries: Seq<FileEntryModel>)
    ensures
        match latest_rollout(entries) {
            Option::Some(e) => is_rollout_entry(e) && entries.contains(e) && (forall|i: int|
                0 <= i < entries.len() && is_rollout_entry(#[trigger] entries[i])
                    ==> entries[i].mtime <= e.mtime),
            Option::None => forall|i: int|
                0 <= i < entries.len() ==> !is_rollout_entry(#[trigger] entries[i]),
        },
{
    lemma_scan_latest_props(entries, Option::None);
}

} // verus!
