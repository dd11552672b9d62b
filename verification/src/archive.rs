//! Tolerant archive extraction, planned as data.
//!
//! An in-memory byte buffer is opened as a zip container; failure to parse
//! the container is fatal for the year being processed. Once open, every
//! entry is classified independently: an entry that cannot be read, or whose
//! path would escape the destination root, is skipped and counted, and never
//! stops the remaining entries. The verified part turns the archive into a
//! list of write actions with safe relative paths plus a report; the caller
//! performs the filesystem writes and reports individual write failures
//! back, which are likewise counted and never fatal.

use vstd::prelude::*;

verus! {

/// One archive entry as the zip reader presents it: raw name bytes, whether
/// it is a directory, and its decompressed content. `None` stands for an
/// entry whose header or data could not be read.
pub type EntryModel = Option<(Seq<u8>, bool, Seq<u8>)>;

/// What the zip reader finds in a byte buffer: `None` when the container
/// itself cannot be parsed, otherwise the entries in index order. The
/// listing is a function of the bytes alone.
pub uninterp spec fn zip_listing(bytes: Seq<u8>) -> Option<Seq<EntryModel>>;

/// The archive container itself could not be parsed.
#[derive(Clone, Copy, Debug, PartialEq, Eq, Structural)]
pub struct ArchiveOpenError;

#[verifier::external_type_specification]
#[verifier::external_body]
#[verifier::reject_recursive_types(R)]
pub struct ExZipArchive<R>(zip::ZipArchive<R>);

#[verifier::external_type_specification]
#[verifier::external_body]
#[verifier::reject_recursive_types(T)]
pub struct ExCursor<T>(std::io::Cursor<T>);

/// The bytes an open archive reader was opened from; everything the reader
/// hands out is determined by them.
pub uninterp spec fn archive_source(a: zip::ZipArchive<std::io::Cursor<Vec<u8>>>) -> Seq<u8>;

/// Relies on `zip::ZipArchive::new` over an in-memory cursor: it parses the
/// central directory of the buffer, succeeds exactly when the container is
/// well formed, and depends on the bytes alone.
#[verifier::external_body]
fn open_archive(bytes: Vec<u8>) -> (r: Result<
    zip::ZipArchive<std::io::Cursor<Vec<u8>>>,
    ArchiveOpenError,
>)
    ensures
        r is Ok <==> zip_listing(bytes@) is Some,
        r matches Ok(a) ==> archive_source(a) == bytes@,
{
    match zip::ZipArchive::new(std::io::Cursor::new(bytes)) {
        Ok(z) => Ok(z),
        Err(_) => Err(ArchiveOpenError),
    }
}

/// Relies on `zip::ZipArchive::len`: the number of entries named by the
/// central directory.
#[verifier::external_body]
fn entry_count(a: &zip::ZipArchive<std::io::Cursor<Vec<u8>>>) -> (n: usize)
    ensures
        zip_listing(archive_source(*a)) matches Some(l) ==> n == l.len(),
{
    a.len()
}

/// One entry read out as plain values.
struct RawEntry {
    name: Vec<u8>,
    is_dir: bool,
    data: Vec<u8>,
}

/// Relies on `zip::ZipArchive::by_index` and, on the entry it returns, on
/// `ZipFile::name_raw`, `ZipFile::is_dir` and the entry's `std::io::Read`
/// impl: all depend on the archive bytes and the index alone. An entry whose
/// header or data cannot be read comes back as `None`.
#[verifier::external_body]
fn read_entry(a: &mut zip::ZipArchive<std::io::Cursor<Vec<u8>>>, i: usize) -> (r: Option<
    RawEntry,
>)
    requires
        zip_listing(archive_source(*old(a))) matches Some(l) && i < l.len(),
    ensures
        archive_source(*final(a)) == archive_source(*old(a)),
        zip_listing(archive_source(*old(a))) matches Some(l) ==> (match l[i as int] {
            Some(e) => (r matches Some(re) && re.name@ == e.0 && re.is_dir == e.1 && re.data@
                == e.2),
            None => r is None,
        }),
{
    match a.by_index(i) {
        Ok(mut f) => {
            let name = f.name_raw().to_vec();
            let is_dir = f.is_dir();
            let mut data = Vec::new();
            match std::io::Read::read_to_end(&mut f, &mut data) {
                Ok(_) => Some(RawEntry { name, is_dir, data }),
                Err(_) => None,
            }
        },
        Err(_) => None,
    }
}

/// A `..` path component begins at index `i`.
pub open spec fn dotdot_at(s: Seq<u8>, i: int) -> bool {
    &&& 0 <= i
    &&& i + 2 <= s.len()
    &&& s[i] == 46
    &&& s[i + 1] == 46
    &&& (i == 0 || s[i - 1] == 47)
    &&& (i + 2 == s.len() || s[i + 2] == 47)
}

/// A relative path that stays inside the destination root: non-empty, not
/// absolute, free of NUL bytes and backslash separators, and without a `..`
/// component.
pub open spec fn safe_path(s: Seq<u8>) -> bool {
    &&& s.len() > 0
    &&& s[0] != 47
    &&& (forall|i: int| 0 <= i < s.len() ==> s[i] != 0 && s[i] != 92)
    &&& !(exists|i: int| dotdot_at(s, i))
}

/// Decide `safe_path` for a raw entry name.
pub fn is_safe_path(name: &Vec<u8>) -> (r: bool)
    ensures
        r == safe_path(name@),
{
    let n = name.len();
    if n == 0 {
        return false;
    }
    if *name.get(0).unwrap() == 47 {
        return false;
    }
    let mut i: usize = 0;
    while i < n
        invariant
            i <= n,
            n == name@.len(),
            forall|j: int| 0 <= j < i ==> name@[j] != 0 && name@[j] != 92,
            forall|j: int| 0 <= j < i ==> !dotdot_at(name@, j),
        decreases n - i,
    {
        let b = *name.get(i).unwrap();
        if b == 0 || b == 92 {
            return false;
        }
        if b == 46 && i + 1 < n && *name.get(i + 1).unwrap() == 46 {
            let start_ok = i == 0 || *name.get(i - 1).unwrap() == 47;
            let end_ok = i + 2 == n || *name.get(i + 2).unwrap() == 47;
            if start_ok && end_ok {
                proof {
                    assert(dotdot_at(name@, i as int));
                }
                return false;
            }
        }
        i += 1;
    }
    proof {
        assert forall|k: int| !dotdot_at(name@, k) by {
            if 0 <= k && k + 2 <= name@.len() {
                assert(!dotdot_at(name@, k));
            }
        }
    }
    true
}

/// One filesystem write owed to the caller: the paths are relative to the
/// destination root and are always safe.
pub enum EntryAction {
    MakeDir { path: Vec<u8> },
    WriteFile { path: Vec<u8>, data: Vec<u8> },
}

/// Mathematical value of an `EntryAction`.
pub enum SpecAction {
    MakeDir { path: Seq<u8> },
    WriteFile { path: Seq<u8>, data: Seq<u8> },
}

impl View for EntryAction {
    type V = SpecAction;

    open spec fn view(&self) -> SpecAction {
        match *self {
            EntryAction::MakeDir { path } => SpecAction::MakeDir { path: path@ },
            EntryAction::WriteFile { path, data } => (SpecAction::WriteFile {
                path: path@,
                data: data@,
            }),
        }
    }
}

/// The path an action writes to.
pub open spec fn action_path(a: SpecAction) -> Seq<u8> {
    match a {
        SpecAction::MakeDir { path } => path,
        SpecAction::WriteFile { path, data } => path,
    }
}

/// The writes one entry contributes: nothing for an unreadable entry or an
/// unsafe path, one directory creation or one file write otherwise.
pub open spec fn entry_actions(e: EntryModel) -> Seq<SpecAction> {
    match e {
        Some((name, is_dir, data)) => {
            if safe_path(name) {
                if is_dir {
                    seq![SpecAction::MakeDir { path: name }]
                } else {
                    seq![SpecAction::WriteFile { path: name, data: data }]
                }
            } else {
                Seq::empty()
            }
        },
        None => Seq::empty(),
    }
}

/// All writes an entry listing owes, in entry order.
pub open spec fn plan_of(l: Seq<EntryModel>) -> Seq<SpecAction>
    decreases l.len(),
{
    if l.len() == 0 {
        Seq::empty()
    } else {
        plan_of(l.drop_last()) + entry_actions(l.last())
    }
}

/// How many entries of the listing are skipped (unreadable or unsafe).
pub open spec fn skip_count(l: Seq<EntryModel>) -> nat
    decreases l.len(),
{
    if l.len() == 0 {
        0
    } else {
        skip_count(l.drop_last()) + if entry_actions(l.last()).len() == 0 {
            1nat
        } else {
            0nat
        }
    }
}

/// View of a list of actions.
pub open spec fn actions_view(s: Seq<EntryAction>) -> Seq<SpecAction> {
    s.map_values(|a: EntryAction| a@)
}

/// What extraction did: how many entries the archive held, how many were
/// planned as writes, how many were skipped, and how many of the planned
/// writes the caller reported as failed.
pub struct ExtractionReport {
    pub entries: usize,
    pub planned: usize,
    pub skipped: usize,
    pub write_failures: usize,
}

impl ExtractionReport {
    /// Count one failed filesystem write reported by the caller; the
    /// failure is recorded, never propagated.
    pub fn note_write_failure(&mut self)
        requires
            old(self).write_failures < usize::MAX,
        ensures
            final(self).write_failures == old(self).write_failures + 1,
            final(self).entries == old(self).entries,
            final(self).planned == old(self).planned,
            final(self).skipped == old(self).skipped,
    {
        self.write_failures = self.write_failures + 1;
    }
}

/// The planned writes of one archive, with their report.
pub struct ExtractPlan {
    pub actions: Vec<EntryAction>,
    pub report: ExtractionReport,
}

/// Open `bytes` as an archive and plan its extraction. The container must
/// parse; after that, no single entry can fail the whole archive: every
/// readable entry with a safe path becomes exactly one write action, in
/// entry order, and every other entry is counted as skipped.
pub fn plan_extraction(bytes: Vec<u8>) -> (r: Result<ExtractPlan, ArchiveOpenError>)
    ensures
        r is Ok <==> zip_listing(bytes@) is Some,
        r is Err ==> r->Err_0 == ArchiveOpenError,
        r matches Ok(p) ==> {
            let l = zip_listing(bytes@)->Some_0;
            &&& actions_view(p.actions@) == plan_of(l)
            &&& p.report.entries == l.len()
            &&& p.report.skipped == skip_count(l)
            &&& p.report.planned == p.actions@.len()
            &&& p.report.planned + p.report.skipped == l.len()
            &&& p.report.write_failures == 0
            &&& forall|k: int|
                0 <= k < p.actions@.len() ==> safe_path(action_path(#[trigger] p.actions@[k]@))
        },
{
    let ghost bs = bytes@;
    let mut a = match open_archive(bytes) {
        Ok(a) => a,
        Err(e) => {
            return Err(e);
        },
    };
    let ghost l = zip_listing(bs)->Some_0;
    let total = entry_count(&a);
    let mut actions: Vec<EntryAction> = Vec::new();
    let mut skipped: usize = 0;
    let mut i: usize = 0;
    while i < total
        invariant
            archive_source(a) == bs,
            zip_listing(bs) == Some(l),
            total == l.len(),
            i <= total,
            actions_view(actions@) =~= plan_of(l.take(i as int)),
            skipped == skip_count(l.take(i as int)),
            skipped + actions@.len() == i,
            forall|k: int|
                0 <= k < actions@.len() ==> safe_path(action_path(#[trigger] actions@[k]@)),
        decreases total - i,
    {
        proof {
            assert(l.take(i + 1).drop_last() =~= l.take(i as int));
            assert(l.take(i + 1).last() == l[i as int]);
        }
        match read_entry(&mut a, i) {
            Some(entry) => {
                if is_safe_path(&entry.name) {
                    if entry.is_dir {
                        actions.push(EntryAction::MakeDir { path: entry.name });
                    } else {
                        actions.push(
                            EntryAction::WriteFile { path: entry.name, data: entry.data },
                        );
                    }
                } else {
                    skipped += 1;
                }
            },
            None => {
                skipped += 1;
            },
        }
        i += 1;
    }
    proof {
        assert(l.take(total as int) =~= l);
    }
    let planned = actions.len();
    Ok(
        ExtractPlan {
            actions,
            report: ExtractionReport { entries: total, planned, skipped, write_failures: 0 },
        },
    )
}

/// Every readable, safely named entry contributes exactly one write.
pub open spec fn entry_good(e: EntryModel) -> bool {
    entry_actions(e).len() == 1
}

/// A listing where every entry is good plans one write per entry and skips
/// nothing.
pub proof fn lemma_plan_all_good(l: Seq<EntryModel>)
    requires
        forall|i: int| 0 <= i < l.len() ==> entry_good(#[trigger] l[i]),
    ensures
        plan_of(l).len() == l.len(),
        skip_count(l) == 0,
    decreases l.len(),
{
    if l.len() > 0 {
        lemma_plan_all_good(l.drop_last());
    }
}

/// Entry isolation law: in a listing where every entry but one is good and
/// that one entry is skipped (unreadable or unsafely named), extraction
/// plans exactly one write per good entry and records exactly one skip; the
/// bad entry never stops the others.
pub proof fn lemma_entry_isolation(l: Seq<EntryModel>, u: int)
    requires
        0 <= u < l.len(),
        entry_actions(l[u]).len() == 0,
        forall|i: int| 0 <= i < l.len() && i != u ==> entry_good(#[trigger] l[i]),
    ensures
        plan_of(l).len() == l.len() - 1,
        skip_count(l) == 1,
    decreases l.len(),
{
    if u == l.len() - 1 {
        lemma_plan_all_good(l.drop_last());
    } else {
        lemma_entry_isolation(l.drop_last(), u);
    }
}

} // verus!
