//! Backups: where they go, how they are named, which are kept, and what is
//! reported.
//!
//! Reading directories, writing the ZIP file and deleting old backups are
//! done by the caller; the functions here take what was found on disk and
//! decide.
use vstd::prelude::*;
use crate::clock::{format_utc, spec_format_utc, Timestamp};
use crate::server_discovery::{resolution_of, DiscoveryError};
use crate::paths::{
    app_subdir, app_subdir_of, data_dir, opt_view, path_debug, path_join, path_parent, path_strip_prefix,
    spec_path_debug, spec_path_join, spec_path_parent, spec_path_strip_prefix,
};
use crate::text::{
    strings_view, chars_to_string, decimal, decimal_chars, ends_with, ends_with_chars, extend_with_chars,
    extend_with_str, starts_with, starts_with_chars,
    str_chars,
};

verus! {

/// Describes a completed or failed backup operation.
#[derive(Clone, Debug)]
pub struct BackupResult {
    /// Path to the created ZIP file, or None if failed.
    pub zip_path: Option<String>,
    /// Human-readable message (success or error).
    pub message: String,
    /// Number of backups retained after this operation.
    pub backups_retained: u32,
}

/// A file found in a directory.
#[derive(Clone, Debug)]
pub struct FileEntry {
    /// The file's path.
    pub path: String,
    /// The file's name, when it is valid Unicode.
    pub file_name: Option<String>,
    /// When the file was last modified, in nanoseconds since the Unix epoch,
    /// when known.
    pub modified: Option<i128>,
}

impl FileEntry {
    /// A copy of this entry.
    pub fn duplicate(&self) -> (r: FileEntry)
        ensures
            r == *self,
    {
        FileEntry {
            path: self.path.clone(),
            file_name: match &self.file_name {
                Some(n) => Some(n.clone()),
                None => None,
            },
            modified: self.modified,
        }
    }
}

// ---------------------------------------------------------------------------
// Locations and names
// ---------------------------------------------------------------------------

/// The backup directory of a profile: its own `backup_dir` when set, else
/// `backups` under its SteamCMD install directory when set, else
/// `{data dir}/ArkServerManager/backups`.
pub open spec fn backup_dir_for(
    steamcmd_install_dir: Option<Seq<char>>,
    backup_dir: Option<Seq<char>>,
    data: Option<Seq<char>>,
) -> Seq<char> {
    match backup_dir {
        Some(b) => b,
        None => match steamcmd_install_dir {
            Some(d) => spec_path_join(d, "backups"@),
            None => app_subdir(data, "backups"@),
        },
    }
}

/// Resolves the backup directory given the user's data directory (see
/// [`backup_dir_for`]).
pub fn resolve_backup_dir_with(
    steamcmd_install_dir: &Option<String>,
    backup_dir: &Option<String>,
    data: &Option<String>,
) -> (r: String)
    ensures
        r@ == backup_dir_for(opt_view(*steamcmd_install_dir), opt_view(*backup_dir), opt_view(*data)),
{
    match backup_dir {
        Some(b) => b.clone(),
        None => match steamcmd_install_dir {
            Some(d) => path_join(d.as_str(), "backups"),
            None => app_subdir_of(data, "backups"),
        },
    }
}

/// Resolves the backup directory of a profile (see [`backup_dir_for`]); the
/// user's data directory is looked up only when neither directory is set.
pub fn resolve_backup_dir(steamcmd_install_dir: &Option<String>, backup_dir: &Option<String>) -> (r: String)
    ensures
        exists|data: Option<Seq<char>>|
            r@ == backup_dir_for(opt_view(*steamcmd_install_dir), opt_view(*backup_dir), data),
{
    if backup_dir.is_none() && steamcmd_install_dir.is_none() {
        let data = data_dir();
        let r = resolve_backup_dir_with(steamcmd_install_dir, backup_dir, &data);
        assert(r@ == backup_dir_for(opt_view(*steamcmd_install_dir), opt_view(*backup_dir), opt_view(data)));
        r
    } else {
        let none: Option<String> = None;
        let r = resolve_backup_dir_with(steamcmd_install_dir, backup_dir, &none);
        assert(r@ == backup_dir_for(opt_view(*steamcmd_install_dir), opt_view(*backup_dir), opt_view(none)));
        r
    }
}

/// The file name of a backup: `{profile}_{suffix}_{time}.zip`, the time in
/// UTC as `%Y%m%d_%H%M%S`.
pub open spec fn backup_file_name(profile_name: Seq<char>, suffix: Seq<char>, t: Timestamp) -> Seq<char> {
    profile_name + "_"@ + suffix + "_"@ + spec_format_utc(t.secs, t.nanos, "%Y%m%d_%H%M%S"@) + ".zip"@
}

/// Returns the timestamp-based filename for a new backup (see
/// [`backup_file_name`]).
pub fn backup_filename(profile_name: &str, suffix: &str, timestamp: &Timestamp) -> (s: String)
    requires
        timestamp.wf(),
    ensures
        s@ == backup_file_name(profile_name@, suffix@, *timestamp),
{
    let pattern = "%Y%m%d_%H%M%S";
    proof {
        reveal_strlit("%Y%m%d_%H%M%S");
    }
    let time = format_utc(*timestamp, pattern);
    let mut v: Vec<char> = Vec::new();
    extend_with_str(&mut v, profile_name);
    extend_with_str(&mut v, "_");
    extend_with_str(&mut v, suffix);
    extend_with_str(&mut v, "_");
    extend_with_str(&mut v, time.as_str());
    extend_with_str(&mut v, ".zip");
    chars_to_string(&v)
}

/// The prefix shared by the backup files of a profile: `{profile}_{suffix}`.
pub open spec fn backup_prefix(profile_name: Seq<char>, suffix: Seq<char>) -> Seq<char> {
    profile_name + "_"@ + suffix
}

/// Whether a file is a backup of a profile: its name is valid Unicode,
/// starts with the profile's prefix and ends with `.zip`.
pub open spec fn is_backup_of(e: FileEntry, prefix: Seq<char>) -> bool {
    match e.file_name {
        Some(n) => starts_with(n@, prefix) && ends_with(n@, ".zip"@),
        None => false,
    }
}

fn prefix_chars(profile_name: &str, suffix: &str) -> (v: Vec<char>)
    ensures
        v@ == backup_prefix(profile_name@, suffix@),
{
    let mut v: Vec<char> = Vec::new();
    extend_with_str(&mut v, profile_name);
    extend_with_str(&mut v, "_");
    extend_with_str(&mut v, suffix);
    v
}

fn is_backup_exec(e: &FileEntry, prefix: &Vec<char>, zip: &Vec<char>) -> (r: bool)
    requires
        zip@ == ".zip"@,
    ensures
        r == is_backup_of(*e, prefix@),
{
    match &e.file_name {
        Some(n) => {
            let chars = str_chars(n.as_str());
            starts_with_chars(&chars, prefix) && ends_with_chars(&chars, zip)
        },
        None => false,
    }
}

/// The number of files among the first `n` entries that are backups.
pub open spec fn backup_count(entries: Seq<FileEntry>, prefix: Seq<char>, n: int) -> nat
    decreases n,
{
    if n <= 0 {
        0
    } else {
        backup_count(entries, prefix, n - 1) + if is_backup_of(entries[n - 1], prefix) {
            1nat
        } else {
            0nat
        }
    }
}

proof fn lemma_backup_count_bound(entries: Seq<FileEntry>, prefix: Seq<char>, n: int)
    requires
        0 <= n,
    ensures
        backup_count(entries, prefix, n) <= n,
    decreases n,
{
    if n > 0 {
        lemma_backup_count_bound(entries, prefix, n - 1);
    }
}

/// Counts how many backup ZIP files of a profile are among the entries of
/// its backup directory.
pub fn count_backups(entries: &Vec<FileEntry>, profile_name: &str, suffix: &str) -> (n: u32)
    requires
        entries@.len() <= u32::MAX,
    ensures
        n == backup_count(entries@, backup_prefix(profile_name@, suffix@), entries@.len() as int),
{
    let prefix = prefix_chars(profile_name, suffix);
    let zip = str_chars(".zip");
    proof {
        reveal_strlit(".zip");
    }
    let mut n: u32 = 0;
    let mut i: usize = 0;
    while i < entries.len()
        invariant
            i <= entries@.len() <= u32::MAX,
            zip@ == ".zip"@,
            n == backup_count(entries@, prefix@, i as int),
        decreases entries.len() - i,
    {
        proof {
            lemma_backup_count_bound(entries@, prefix@, i as int);
        }
        if is_backup_exec(&entries[i], &prefix, &zip) {
            n = n + 1;
        }
        i = i + 1;
    }
    n
}

// ---------------------------------------------------------------------------
// Ordering by modification time
// ---------------------------------------------------------------------------

/// Whether modification time `a` is earlier than `b`; an unknown time is
/// earlier than every known one.
pub open spec fn time_lt(a: Option<i128>, b: Option<i128>) -> bool {
    match (a, b) {
        (None, Some(_)) => true,
        (Some(x), Some(y)) => x < y,
        _ => false,
    }
}

/// Whether entry `i` goes before entry `j` when entries are put in order of
/// modification time (newest first when `newest_first`), entries with the
/// same time keeping their order.
pub open spec fn comes_before(keys: Seq<Option<i128>>, newest_first: bool, i: int, j: int) -> bool {
    if keys[i] == keys[j] {
        i < j
    } else if newest_first {
        time_lt(keys[j], keys[i])
    } else {
        time_lt(keys[i], keys[j])
    }
}

/// Whether `order` lists every entry once, in order of modification time
/// (see [`comes_before`]): the order a stable sort by that time gives.
pub open spec fn is_time_order(keys: Seq<Option<i128>>, newest_first: bool, order: Seq<usize>) -> bool {
    &&& order.len() == keys.len()
    &&& forall|k: int| 0 <= k < order.len() ==> #[trigger] order[k] < keys.len()
    &&& forall|a: int, b: int|
        0 <= a < b < order.len() ==> comes_before(keys, newest_first, #[trigger] order[a] as int, #[trigger] order[b] as int)
}

proof fn lemma_time_lt_total(a: Option<i128>, b: Option<i128>)
    requires
        a != b,
    ensures
        time_lt(a, b) || time_lt(b, a),
{
}

proof fn lemma_before_total(keys: Seq<Option<i128>>, nf: bool, i: int, j: int)
    requires
        i != j,
    ensures
        comes_before(keys, nf, i, j) || comes_before(keys, nf, j, i),
{
    if keys[i] != keys[j] {
        lemma_time_lt_total(keys[i], keys[j]);
    }
}

proof fn lemma_before_trans(keys: Seq<Option<i128>>, nf: bool, i: int, j: int, k: int)
    requires
        comes_before(keys, nf, i, j),
        comes_before(keys, nf, j, k),
    ensures
        comes_before(keys, nf, i, k),
{
}

proof fn lemma_before_irreflexive(keys: Seq<Option<i128>>, nf: bool, i: int)
    ensures
        !comes_before(keys, nf, i, i),
{
}

fn time_lt_exec(a: Option<i128>, b: Option<i128>) -> (r: bool)
    ensures
        r == time_lt(a, b),
{
    match (a, b) {
        (None, Some(_)) => true,
        (Some(x), Some(y)) => x < y,
        _ => false,
    }
}

fn comes_before_exec(keys: &Vec<Option<i128>>, newest_first: bool, i: usize, j: usize) -> (r: bool)
    requires
        i < keys@.len(),
        j < keys@.len(),
    ensures
        r == comes_before(keys@, newest_first, i as int, j as int),
{
    let a = keys[i];
    let b = keys[j];
    if a == b {
        i < j
    } else if newest_first {
        time_lt_exec(b, a)
    } else {
        time_lt_exec(a, b)
    }
}

/// Puts entries in order of modification time (newest first when
/// `newest_first`), entries with the same time keeping their order; returns
/// their positions in that order (see [`is_time_order`]).
pub fn time_order(keys: &Vec<Option<i128>>, newest_first: bool) -> (order: Vec<usize>)
    ensures
        is_time_order(keys@, newest_first, order@),
{
    let mut order: Vec<usize> = Vec::new();
    let mut i: usize = 0;
    while i < keys.len()
        invariant
            i <= keys@.len(),
            order@.len() == i,
            forall|k: int| 0 <= k < order@.len() ==> #[trigger] order@[k] < i,
            forall|a: int, b: int|
                0 <= a < b < order@.len() ==> comes_before(keys@, newest_first, #[trigger] order@[a] as int, #[trigger] order@[b] as int),
        decreases keys.len() - i,
    {
        let mut p: usize = 0;
        while p < order.len() && !comes_before_exec(keys, newest_first, i, order[p])
            invariant
                i < keys@.len(),
                p <= order@.len() == i,
                forall|k: int| 0 <= k < order@.len() ==> #[trigger] order@[k] < i,
                forall|k: int| 0 <= k < p ==> comes_before(keys@, newest_first, #[trigger] order@[k] as int, i as int),
            decreases order@.len() - p,
        {
            proof {
                lemma_before_total(keys@, newest_first, i as int, order@[p as int] as int);
            }
            p = p + 1;
        }
        let ghost before = order@;
        proof {
            assert forall|k: int| p <= k < before.len() implies comes_before(keys@, newest_first, i as int, #[trigger] before[k] as int) by {
                if k > p {
                    lemma_before_trans(keys@, newest_first, i as int, before[p as int] as int, before[k] as int);
                }
            }
        }
        order.insert(p, i);
        proof {
            let after = order@;
            assert(after == before.insert(p as int, i));
            assert forall|k: int| 0 <= k < after.len() implies #[trigger] after[k] < i + 1 by {
                if k < p {
                    assert(after[k] == before[k]);
                } else if k > p {
                    assert(after[k] == before[k - 1]);
                }
            }
            assert forall|a: int, b: int|
                0 <= a < b < after.len() implies comes_before(keys@, newest_first, #[trigger] after[a] as int, #[trigger] after[b] as int) by {
                if b < p {
                    assert(after[a] == before[a] && after[b] == before[b]);
                } else if b == p {
                    assert(after[a] == before[a]);
                } else if a < p {
                    assert(after[a] == before[a] && after[b] == before[b - 1]);
                } else if a == p {
                    assert(after[b] == before[b - 1]);
                } else {
                    assert(after[a] == before[a - 1] && after[b] == before[b - 1]);
                }
            }
        }
        i = i + 1;
    }
    order
}

/// The modification times of entries.
pub open spec fn times_of(entries: Seq<FileEntry>) -> Seq<Option<i128>> {
    entries.map_values(|e: FileEntry| e.modified)
}

fn times(entries: &Vec<FileEntry>) -> (keys: Vec<Option<i128>>)
    ensures
        keys@ == times_of(entries@),
{
    let mut keys: Vec<Option<i128>> = Vec::new();
    let mut i: usize = 0;
    while i < entries.len()
        invariant
            i <= entries@.len(),
            keys@ == times_of(entries@.take(i as int)),
        decreases entries.len() - i,
    {
        keys.push(entries[i].modified);
        assert(times_of(entries@.take(i + 1)) =~= times_of(entries@.take(i as int)).push(
            entries@[i as int].modified,
        ));
        i = i + 1;
    }
    assert(entries@.take(i as int) =~= entries@);
    keys
}

/// The backup files of a profile among the entries, in their order.
pub open spec fn backups_among(entries: Seq<FileEntry>, prefix: Seq<char>) -> Seq<FileEntry> {
    entries.filter(|e: FileEntry| is_backup_of(e, prefix))
}

fn select_backups(entries: &Vec<FileEntry>, prefix: &Vec<char>) -> (r: Vec<FileEntry>)
    ensures
        r@ == backups_among(entries@, prefix@),
{
    let zip = str_chars(".zip");
    proof {
        reveal_strlit(".zip");
    }
    let mut r: Vec<FileEntry> = Vec::new();
    let mut i: usize = 0;
    while i < entries.len()
        invariant
            i <= entries@.len(),
            zip@ == ".zip"@,
            r@ == backups_among(entries@.take(i as int), prefix@),
        decreases entries.len() - i,
    {
        let ghost pre = entries@.take(i as int);
        proof {
            reveal(Seq::filter);
            assert(entries@.take(i + 1).drop_last() =~= pre);
            assert(entries@.take(i + 1).last() == entries@[i as int]);
        }
        if is_backup_exec(&entries[i], prefix, &zip) {
            r.push(entries[i].duplicate());
        }
        i = i + 1;
    }
    assert(entries@.take(i as int) =~= entries@);
    r
}

/// The paths of entries taken in a given order.
pub open spec fn paths_in_order(entries: Seq<FileEntry>, order: Seq<usize>) -> Seq<Seq<char>> {
    Seq::new(order.len(), |k: int| entries[order[k] as int].path@)
}

fn paths_by_order(entries: &Vec<FileEntry>, order: &Vec<usize>, n: usize) -> (r: Vec<String>)
    requires
        n <= order@.len(),
        forall|k: int| 0 <= k < order@.len() ==> #[trigger] order@[k] < entries@.len(),
    ensures
        strings_view(r@) == paths_in_order(entries@, order@.take(n as int)),
{
    let mut r: Vec<String> = Vec::new();
    let mut k: usize = 0;
    while k < n
        invariant
            k <= n <= order@.len(),
            r@.len() == k,
            forall|j: int| 0 <= j < order@.len() ==> #[trigger] order@[j] < entries@.len(),
            strings_view(r@) == paths_in_order(entries@, order@.take(k as int)),
        decreases n - k,
    {
        let idx = order[k];
        let ghost prev = r@;
        r.push(entries[idx].path.clone());
        assert forall|j: int| 0 <= j < k + 1 implies #[trigger] strings_view(r@)[j]
            == paths_in_order(entries@, order@.take(k + 1))[j] by {
            if j < k {
                assert(r@[j] == prev[j]);
                assert(strings_view(prev)[j] == paths_in_order(
                    entries@,
                    order@.take(k as int),
                )[j]);
            }
        }
        assert(strings_view(r@) =~= paths_in_order(entries@, order@.take(k + 1)));
        k = k + 1;
    }
    r
}

/// The paths of entries, newest first (see [`time_order`]).
pub fn paths_by_order_all(entries: &Vec<FileEntry>) -> (r: Vec<String>)
    ensures
        exists|order: Seq<usize>|
            is_time_order(times_of(entries@), true, order) && strings_view(r@) == paths_in_order(
                entries@,
                order,
            ),
{
    let keys = times(entries);
    let order = time_order(&keys, true);
    let r = paths_by_order(entries, &order, order.len());
    assert(order@.take(order@.len() as int) =~= order@);
    r
}

/// What enforcing the retention count comes to.
#[derive(Clone, Debug)]
pub enum RetentionPlan {
    /// Nothing is deleted; the number of backups kept.
    KeepAll(u32),
    /// These backup files, the oldest, are deleted.
    Delete(Vec<String>),
}

/// Plans the enforcement of a retention count over the entries of a
/// profile's backup directory: the profile's backups are put in order of
/// modification time, oldest first; when there are more than
/// `retention_count`, the oldest excess ones are deleted, else all are kept.
pub fn plan_retention(entries: &Vec<FileEntry>, profile_name: &str, suffix: &str, retention_count: u32) -> (r: RetentionPlan)
    requires
        entries@.len() <= u32::MAX,
    ensures
        ({
            let backups = backups_among(entries@, backup_prefix(profile_name@, suffix@));
            &&& backups.len() <= retention_count ==> r == RetentionPlan::KeepAll(backups.len() as u32)
            &&& backups.len() > retention_count ==> exists|order: Seq<usize>|
                is_time_order(times_of(backups), false, order) && (r matches RetentionPlan::Delete(v)
                    && strings_view(v@) == paths_in_order(
                    backups,
                    order.take(backups.len() - retention_count),
                ))
        }),
{
    let prefix = prefix_chars(profile_name, suffix);
    let backups = select_backups(entries, &prefix);
    proof {
        entries@.lemma_filter_len(|e: FileEntry| is_backup_of(e, prefix@));
    }
    let n = backups.len();
    if n <= retention_count as usize {
        return RetentionPlan::KeepAll(n as u32);
    }
    let keys = times(&backups);
    let order = time_order(&keys, false);
    let excess = n - retention_count as usize;
    let doomed = paths_by_order(&backups, &order, excess);
    RetentionPlan::Delete(doomed)
}

/// Lists the backup files of a profile among the entries of its backup
/// directory, newest first (entries with the same time keeping their order).
pub fn list_backups(entries: &Vec<FileEntry>, profile_name: &str, suffix: &str) -> (r: Vec<String>)
    ensures
        ({
            let backups = backups_among(entries@, backup_prefix(profile_name@, suffix@));
            exists|order: Seq<usize>|
                is_time_order(times_of(backups), true, order) && strings_view(r@)
                    == paths_in_order(backups, order)
        }),
{
    let prefix = prefix_chars(profile_name, suffix);
    let backups = select_backups(entries, &prefix);
    paths_by_order_all(&backups)
}

// ---------------------------------------------------------------------------
// Archive contents and outcomes
// ---------------------------------------------------------------------------

/// A text with every `\\` replaced by `/`.
pub open spec fn forward_slashes(s: Seq<char>) -> Seq<char> {
    s.map_values(|c: char| if c == '\\' { '/' } else { c })
}

/// The name of a file inside the backup archive: its path relative to the
/// source directory (the whole path when it is not under it), with forward
/// slashes.
pub open spec fn archive_name(path: Seq<char>, base: Seq<char>) -> Seq<char> {
    forward_slashes(
        match spec_path_strip_prefix(path, base) {
            Some(rel) => rel,
            None => path,
        },
    )
}

/// The name under which a file goes into the backup archive (see
/// [`archive_name`]).
pub fn zip_entry_name(path: &str, base: &str) -> (name: String)
    ensures
        name@ == archive_name(path@, base@),
{
    let relative = match path_strip_prefix(path, base) {
        Some(rel) => rel,
        None => String::from_str(path),
    };
    let chars = str_chars(relative.as_str());
    let mut out: Vec<char> = Vec::new();
    let mut i: usize = 0;
    while i < chars.len()
        invariant
            i <= chars@.len(),
            out@ == forward_slashes(chars@.take(i as int)),
        decreases chars.len() - i,
    {
        let c = chars[i];
        out.push(if c == '\\' { '/' } else { c });
        assert(forward_slashes(chars@.take(i + 1)) =~= forward_slashes(chars@.take(i as int)).push(
            if c == '\\' { '/' } else { c },
        ));
        i = i + 1;
    }
    assert(chars@.take(i as int) =~= chars@);
    chars_to_string(&out)
}

/// The step of a backup that failed.
#[derive(Clone, Copy, Debug, PartialEq, Eq, Structural)]
pub enum BackupStage {
    /// Creating the backup directory.
    CreateDirectory,
    /// Creating the ZIP file.
    CreateZip,
    /// Writing the files into the ZIP file.
    WriteContents,
    /// Finishing the ZIP file.
    Finalize,
}

/// The message of a backup that failed at a step with an error.
pub open spec fn backup_failure_message(stage: BackupStage, error: Seq<char>) -> Seq<char> {
    match stage {
        BackupStage::CreateDirectory => "Failed to create backup directory: "@ + error,
        BackupStage::CreateZip => "Failed to create ZIP file: "@ + error,
        BackupStage::WriteContents => "Failed to write ZIP contents: "@ + error,
        BackupStage::Finalize => "Failed to finalize ZIP: "@ + error,
    }
}

fn failed_with(message: String) -> (r: BackupResult)
    ensures
        r.zip_path is None,
        r.message == message,
        r.backups_retained == 0,
{
    BackupResult { zip_path: None, message, backups_retained: 0 }
}

/// The result of a backup that failed at a step: no archive, nothing
/// counted, and the step's message.
pub fn backup_failed(stage: BackupStage, error: &str) -> (r: BackupResult)
    ensures
        r.zip_path is None,
        r.message@ == backup_failure_message(stage, error@),
        r.backups_retained == 0,
{
    let mut v: Vec<char> = Vec::new();
    match stage {
        BackupStage::CreateDirectory => extend_with_str(&mut v, "Failed to create backup directory: "),
        BackupStage::CreateZip => extend_with_str(&mut v, "Failed to create ZIP file: "),
        BackupStage::WriteContents => extend_with_str(&mut v, "Failed to write ZIP contents: "),
        BackupStage::Finalize => extend_with_str(&mut v, "Failed to finalize ZIP: "),
    }
    extend_with_str(&mut v, error);
    failed_with(chars_to_string(&v))
}

/// The result of a backup that was written: its archive, the number of
/// backups retained, and a message that counts the files archived.
pub fn backup_completed(zip_path: String, files_added: u64, backups_retained: u32) -> (r: BackupResult)
    ensures
        r.zip_path == Some(zip_path),
        r.message@ == "Backup created successfully ("@ + decimal(files_added as nat) + " files)"@,
        r.backups_retained == backups_retained,
{
    let mut v: Vec<char> = Vec::new();
    extend_with_str(&mut v, "Backup created successfully (");
    let digits = decimal_chars(files_added);
    extend_with_chars(&mut v, &digits);
    extend_with_str(&mut v, " files)");
    BackupResult { zip_path: Some(zip_path), message: chars_to_string(&v), backups_retained }
}

/// A path taken up `n` levels, stopping at a path that has no parent.
pub open spec fn climb(p: Seq<char>, n: nat) -> Seq<char>
    decreases n,
{
    if n == 0 {
        p
    } else {
        match spec_path_parent(p) {
            Some(q) => climb(q, (n - 1) as nat),
            None => p,
        }
    }
}

/// The root of an ARK installation for its executable, which lies in
/// `ShooterGame/Binaries/Win64` under it: four levels up (as far up as the
/// path goes when it is shorter).
pub open spec fn install_root_of(exe: Seq<char>) -> Seq<char> {
    climb(exe, 4)
}

/// The directory that a backup of an installation archives, savegames and
/// configuration included: the install root (see [`install_root_of`]).
pub fn backup_source_dir(exe_path: &str) -> (d: String)
    ensures
        d@ == install_root_of(exe_path@),
{
    let mut d = String::from_str(exe_path);
    let mut n: usize = 4;
    while n > 0
        invariant
            n <= 4,
            climb(exe_path@, 4) == climb(d@, n as nat),
        decreases n,
    {
        match path_parent(d.as_str()) {
            Some(q) => {
                d = q;
                n = n - 1;
            },
            None => {
                return d;
            },
        }
    }
    d
}

/// The result of a backup whose profile could not be loaded.
pub fn backup_profile_unavailable(profile_name: &str, error: &str) -> (r: BackupResult)
    ensures
        r.zip_path is None,
        r.message@ == "Failed to load profile '"@ + profile_name@ + "': "@ + error@,
        r.backups_retained == 0,
{
    let mut v: Vec<char> = Vec::new();
    extend_with_str(&mut v, "Failed to load profile '");
    extend_with_str(&mut v, profile_name);
    extend_with_str(&mut v, "': ");
    extend_with_str(&mut v, error);
    failed_with(chars_to_string(&v))
}

/// The result of a backup whose installation could not be resolved.
pub fn backup_install_unresolved(error: &str) -> (r: BackupResult)
    ensures
        r.zip_path is None,
        r.message@ == "Failed to resolve ARK install path: "@ + error@,
        r.backups_retained == 0,
{
    let mut v: Vec<char> = Vec::new();
    extend_with_str(&mut v, "Failed to resolve ARK install path: ");
    extend_with_str(&mut v, error);
    failed_with(chars_to_string(&v))
}

/// What a backup of a profile archives, from its resolved executable: the
/// install root of the executable (see [`install_root_of`]); when the
/// executable did not resolve, the failure result with the resolution
/// error's message (see [`backup_install_unresolved`]).
pub fn backup_source_for(resolved: Result<String, DiscoveryError>) -> (r: Result<String, BackupResult>)
    ensures
        match resolution_of(resolved) {
            Ok(exe) => r matches Ok(d) && d@ == install_root_of(exe),
            Err((guidance, missing)) => r matches Err(b) && b.zip_path is None && b.backups_retained == 0
                && b.message@ == "Failed to resolve ARK install path: "@ + ("ARK server not found. Missing: "@
                + missing + ". "@ + guidance),
        },
{
    match resolved {
        Ok(exe) => Ok(backup_source_dir(exe.as_str())),
        Err(e) => {
            let m = e.message();
            Err(backup_install_unresolved(m.as_str()))
        },
    }
}

/// The result of a backup whose installation directory does not exist.
pub fn backup_source_missing(source_dir: &str) -> (r: BackupResult)
    ensures
        r.zip_path is None,
        r.message@ == "ARK server directory does not exist: "@ + spec_path_debug(source_dir@),
        r.backups_retained == 0,
{
    let mut v: Vec<char> = Vec::new();
    extend_with_str(&mut v, "ARK server directory does not exist: ");
    let shown = path_debug(source_dir);
    extend_with_str(&mut v, shown.as_str());
    failed_with(chars_to_string(&v))
}

/// Retention deletes the oldest backups and keeps the newest: in the time
/// order it deletes by, every deleted backup (the first `len - keep`) was
/// modified no later than every kept one, and `keep` are kept.
pub proof fn law_retention_keeps_newest(keys: Seq<Option<i128>>, order: Seq<usize>, keep: nat)
    requires
        is_time_order(keys, false, order),
        keep <= keys.len(),
    ensures
        order.len() - (order.len() - keep) == keep,
        forall|a: int, b: int|
            0 <= a < keys.len() - keep <= b < keys.len() ==> !time_lt(
                keys[#[trigger] order[b] as int],
                keys[#[trigger] order[a] as int],
            ),
{
    assert forall|a: int, b: int| 0 <= a < keys.len() - keep <= b < keys.len() implies !time_lt(
        keys[#[trigger] order[b] as int],
        keys[#[trigger] order[a] as int],
    ) by {
        assert(comes_before(keys, false, order[a] as int, order[b] as int));
    }
}

/// Listing newest first puts every backup before the ones modified earlier:
/// along the order, modification times never increase.
pub proof fn law_listing_newest_first(keys: Seq<Option<i128>>, order: Seq<usize>)
    requires
        is_time_order(keys, true, order),
    ensures
        forall|a: int, b: int|
            0 <= a < b < order.len() ==> !time_lt(
                keys[#[trigger] order[a] as int],
                keys[#[trigger] order[b] as int],
            ),
{
    assert forall|a: int, b: int| 0 <= a < b < order.len() implies !time_lt(
        keys[#[trigger] order[a] as int],
        keys[#[trigger] order[b] as int],
    ) by {
        assert(comes_before(keys, true, order[a] as int, order[b] as int));
    }
}

/// Whether position `i` occurs in `order`.
pub open spec fn lists(order: Seq<usize>, i: int) -> bool {
    exists|k: int| 0 <= k < order.len() && order[k] as int == i
}

/// A time order lists every entry: each position in range occurs in it.
pub proof fn lemma_time_order_covers(keys: Seq<Option<i128>>, newest_first: bool, order: Seq<usize>)
    requires
        is_time_order(keys, newest_first, order),
    ensures
        forall|i: int| 0 <= i < keys.len() ==> #[trigger] lists(order, i),
{
    broadcast use vstd::seq_lib::seq_to_set_is_finite;
    let s = order.map_values(|x: usize| x as int);
    assert forall|a: int, b: int| 0 <= a < s.len() && 0 <= b < s.len() && a != b implies s[a] != s[b] by {
        if a < b {
            assert(comes_before(keys, newest_first, order[a] as int, order[b] as int));
        } else {
            assert(comes_before(keys, newest_first, order[b] as int, order[a] as int));
        }
    }
    assert(s.no_duplicates());
    s.unique_seq_to_set();
    let range = vstd::set_lib::set_int_range(0, keys.len() as int);
    vstd::set_lib::lemma_int_range(0, keys.len() as int);
    assert forall|x: int| s.to_set().contains(x) implies range.contains(x) by {
        assert(s.contains(x));
        let k = choose|k: int| 0 <= k < s.len() && s[k] == x;
        assert(order[k] < keys.len());
    }
    vstd::set_lib::lemma_subset_equality(s.to_set(), range);
    assert forall|i: int| 0 <= i < keys.len() implies #[trigger] lists(order, i) by {
        assert(range.contains(i));
        assert(s.to_set().contains(i));
        assert(s.contains(i));
        let k = choose|k: int| 0 <= k < s.len() && s[k] == i;
        assert(order[k] as int == i);
    }
}

/// The time order of entries is unique: two orders that both list every
/// entry once by modification time (ties in their original order) are the
/// same. So the order that the listing and retention functions use is the
/// one a stable sort by modification time gives.
pub proof fn law_time_order_unique(keys: Seq<Option<i128>>, newest_first: bool, a: Seq<usize>, b: Seq<usize>)
    requires
        is_time_order(keys, newest_first, a),
        is_time_order(keys, newest_first, b),
    ensures
        a == b,
{
    lemma_time_order_covers(keys, newest_first, a);
    lemma_time_order_covers(keys, newest_first, b);
    assert forall|k: int| 0 <= k < a.len() implies a[k] == b[k] by {
        lemma_orders_agree_at(keys, newest_first, a, b, k);
    }
    assert(a =~= b);
}

/// Two time orders agree at every position.
proof fn lemma_orders_agree_at(keys: Seq<Option<i128>>, nf: bool, a: Seq<usize>, b: Seq<usize>, k: int)
    requires
        is_time_order(keys, nf, a),
        is_time_order(keys, nf, b),
        forall|i: int| 0 <= i < keys.len() ==> #[trigger] lists(a, i),
        forall|i: int| 0 <= i < keys.len() ==> #[trigger] lists(b, i),
        0 <= k < a.len(),
    ensures
        a[k] == b[k],
    decreases k,
{
    assert forall|m: int| 0 <= m < k implies a[m] == b[m] by {
        lemma_orders_agree_at(keys, nf, a, b, m);
    }
    if a[k] != b[k] {
        let x = a[k] as int;
        let y = b[k] as int;
        // y occurs in a; not before k, where a and b agree
        assert(lists(a, y));
        let j = choose|j: int| 0 <= j < a.len() && a[j] as int == y;
        if j < k {
            assert(a[j] == b[j]);
            assert(comes_before(keys, nf, b[j] as int, b[k] as int));
            lemma_before_irreflexive(keys, nf, y);
        }
        assert(comes_before(keys, nf, x, y));
        // x occurs in b; not before k either
        assert(lists(b, x));
        let j2 = choose|j: int| 0 <= j < b.len() && b[j] as int == x;
        if j2 < k {
            assert(a[j2] == b[j2]);
            assert(comes_before(keys, nf, a[j2] as int, a[k] as int));
            lemma_before_irreflexive(keys, nf, x);
        }
        assert(comes_before(keys, nf, y, x));
        lemma_before_trans(keys, nf, x, y, x);
        lemma_before_irreflexive(keys, nf, x);
        assert(false);
    }
}

} // verus!
