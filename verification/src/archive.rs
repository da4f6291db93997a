//! Backup archives on disk: their names, which files of a backup directory
//! are archives, in which order they are listed, and which are pruned.
use vstd::prelude::*;

use vstd::multiset::Multiset;

use crate::text::{chars_of, has_prefix, has_suffix, matches_at, substring};

verus! {

/// A modification time as the file system reports it: whole seconds since the
/// Unix epoch (rounded down) and the nanoseconds past that second.
#[derive(Clone, Copy, PartialEq, Eq, Structural, Debug)]
pub struct FileTime {
    pub secs: i64,
    pub nanos: u32,
}

/// `a` is not later than `b` (the order of `std::time::SystemTime`).
pub open spec fn time_le(a: FileTime, b: FileTime) -> bool {
    a.secs < b.secs || (a.secs == b.secs && a.nanos <= b.nanos)
}

/// Compares two modification times.
pub fn time_not_after(a: FileTime, b: FileTime) -> (r: bool)
    ensures
        r == time_le(a, b),
{
    a.secs < b.secs || (a.secs == b.secs && a.nanos <= b.nanos)
}

/// A value that carries a modification time, by which it is sorted.
pub trait Timed: Sized {
    spec fn time_of(&self) -> FileTime;

    fn time(&self) -> (t: FileTime)
        ensures
            t == self.time_of(),
    ;
}

/// The index at or after `j` of the first item of `s` that is later than `x`.
pub open spec fn insert_pos_from<T>(s: Seq<T>, x: T, key: spec_fn(T) -> FileTime, j: int) -> int
    decreases s.len() - j,
{
    if j < 0 || j >= s.len() {
        s.len() as int
    } else if !time_le(key(s[j]), key(x)) {
        j
    } else {
        insert_pos_from(s, x, key, j + 1)
    }
}

/// `x` inserted into `s` after every item that is not later than it.
pub open spec fn insert_by_time<T>(s: Seq<T>, x: T, key: spec_fn(T) -> FileTime) -> Seq<T> {
    s.insert(insert_pos_from(s, x, key, 0), x)
}

/// `s` sorted by the time `key` gives, items of equal time in the order
/// they came in (what a stable `sort_by_key` gives).
pub open spec fn sort_by_time<T>(s: Seq<T>, key: spec_fn(T) -> FileTime) -> Seq<T>
    decreases s.len(),
{
    if s.len() == 0 {
        s
    } else {
        insert_by_time(sort_by_time(s.drop_last(), key), s.last(), key)
    }
}

pub open spec fn sorted_by_time<T>(s: Seq<T>, key: spec_fn(T) -> FileTime) -> bool {
    forall|i: int, j: int| 0 <= i < j < s.len() ==> time_le(key(#[trigger] s[i]), key(#[trigger] s[j]))
}

/// The time of a `Timed` value, as a key.
pub open spec fn time_key<T: Timed>() -> spec_fn(T) -> FileTime {
    |t: T| t.time_of()
}

pub proof fn lemma_insert_pos<T>(s: Seq<T>, x: T, key: spec_fn(T) -> FileTime, j: int)
    requires
        0 <= j <= s.len(),
        forall|k: int| 0 <= k < j ==> time_le(key(#[trigger] s[k]), key(x)),
    ensures
        j <= insert_pos_from(s, x, key, j) <= s.len(),
        forall|k: int| 0 <= k < insert_pos_from(s, x, key, j) ==> time_le(key(#[trigger] s[k]), key(x)),
        insert_pos_from(s, x, key, j) < s.len() ==> !time_le(key(s[insert_pos_from(s, x, key, j)]), key(x)),
    decreases s.len() - j,
{
    if j < s.len() && time_le(key(s[j]), key(x)) {
        lemma_insert_pos(s, x, key, j + 1);
    }
}

pub proof fn lemma_insert_sorted<T>(s: Seq<T>, x: T, key: spec_fn(T) -> FileTime)
    requires
        sorted_by_time(s, key),
    ensures
        sorted_by_time(insert_by_time(s, x, key), key),
        insert_by_time(s, x, key).to_multiset() =~= s.to_multiset().insert(x),
        insert_by_time(s, x, key).len() == s.len() + 1,
{
    lemma_insert_pos(s, x, key, 0);
    let p = insert_pos_from(s, x, key, 0);
    let r = insert_by_time(s, x, key);
    assert forall|i: int, j: int| 0 <= i < j < r.len() implies time_le(key(#[trigger] r[i]), key(#[trigger] r[j])) by {
        if j < p {
            assert(r[i] == s[i] && r[j] == s[j]);
        } else if j == p {
            assert(r[i] == s[i]);
        } else if i < p {
            assert(r[i] == s[i] && r[j] == s[j - 1]);
            assert(time_le(key(s[i]), key(s[j - 1])));
        } else if i == p {
            assert(r[j] == s[j - 1]);
            assert(time_le(key(s[p]), key(s[j - 1])));
        } else {
            assert(r[i] == s[i - 1] && r[j] == s[j - 1]);
        }
    }
    s.to_multiset_ensures();
    vstd::seq_lib::lemma_multiset_commutative(s.take(p), seq![x] + s.skip(p));
    vstd::seq_lib::lemma_multiset_commutative(seq![x], s.skip(p));
    vstd::seq_lib::lemma_multiset_commutative(s.take(p), s.skip(p));
    assert(r =~= s.take(p) + (seq![x] + s.skip(p)));
    assert(s =~= s.take(p) + s.skip(p));
    assert(seq![x].to_multiset() =~= Multiset::empty().insert(x)) by {
        assert(seq![x] =~= Seq::<T>::empty().push(x));
        Seq::<T>::empty().to_multiset_ensures();
    }
}

/// Sorting by time gives a sequence that is sorted by time and holds the same
/// items.
pub proof fn lemma_sort_by_time<T>(s: Seq<T>, key: spec_fn(T) -> FileTime)
    ensures
        sorted_by_time(sort_by_time(s, key), key),
        sort_by_time(s, key).to_multiset() =~= s.to_multiset(),
        sort_by_time(s, key).len() == s.len(),
    decreases s.len(),
{
    if s.len() > 0 {
        lemma_sort_by_time(s.drop_last(), key);
        lemma_insert_sorted(sort_by_time(s.drop_last(), key), s.last(), key);
        s.drop_last().to_multiset_ensures();
        assert(s =~= s.drop_last().push(s.last()));
    }
}

proof fn lemma_insert_pos_map<T, U>(
    s: Seq<T>,
    x: T,
    key: spec_fn(T) -> FileTime,
    f: spec_fn(T) -> U,
    key2: spec_fn(U) -> FileTime,
    j: int,
)
    requires
        forall|y: T| #[trigger] key2(f(y)) == key(y),
        0 <= j,
    ensures
        insert_pos_from(s.map_values(f), f(x), key2, j) == insert_pos_from(s, x, key, j),
    decreases s.len() - j,
{
    assert(key2(f(x)) == key(x));
    if j < s.len() {
        assert(s.map_values(f)[j] == f(s[j]));
        assert(key2(f(s[j])) == key(s[j]));
        lemma_insert_pos_map(s, x, key, f, key2, j + 1);
    }
}

/// Sorting commutes with a map that keeps the times.
pub proof fn lemma_sort_map<T, U>(
    s: Seq<T>,
    key: spec_fn(T) -> FileTime,
    f: spec_fn(T) -> U,
    key2: spec_fn(U) -> FileTime,
)
    requires
        forall|y: T| #[trigger] key2(f(y)) == key(y),
    ensures
        sort_by_time(s.map_values(f), key2) == sort_by_time(s, key).map_values(f),
    decreases s.len(),
{
    if s.len() > 0 {
        let sd = s.drop_last();
        lemma_sort_map(sd, key, f, key2);
        assert(s.map_values(f).drop_last() =~= sd.map_values(f));
        assert(s.map_values(f).last() == f(s.last()));
        let srt = sort_by_time(sd, key);
        lemma_insert_pos_map(srt, s.last(), key, f, key2, 0);
        lemma_sort_by_time(sd, key);
        lemma_insert_pos(srt, s.last(), key, 0);
        let p = insert_pos_from(srt, s.last(), key, 0);
        assert(srt.insert(p, s.last()).map_values(f) =~= srt.map_values(f).insert(p, f(s.last())));
    } else {
        assert(s.map_values(f) =~= Seq::<U>::empty());
        assert(sort_by_time(s, key).map_values(f) =~= Seq::<U>::empty());
    }
}

/// Inserts `x` into `out` after every item that is not later than it.
pub fn insert_by_modified<T: Timed>(out: &mut Vec<T>, x: T)
    ensures
        final(out)@ == insert_by_time(old(out)@, x, time_key::<T>()),
{
    let tx = x.time();
    let mut p: usize = 0;
    while p < out.len() && time_not_after(out[p].time(), tx)
        invariant
            p <= out@.len(),
            tx == x.time_of(),
            insert_pos_from(out@, x, time_key::<T>(), 0) == insert_pos_from(out@, x, time_key::<T>(), p as int),
        decreases out.len() - p,
    {
        p = p + 1;
    }
    out.insert(p, x);
}

/// Sorts by time; items of equal time keep their order.
pub fn sort_by_modified<T: Timed>(items: Vec<T>) -> (r: Vec<T>)
    ensures
        r@ == sort_by_time(items@, time_key::<T>()),
{
    let mut out: Vec<T> = Vec::new();
    let ghost all = items@;
    for x in it: items.into_iter()
        invariant
            it.seq() == all,
            out@ == sort_by_time(all.take(it.index() as int), time_key::<T>()),
    {
        let ghost i = it.index();
        proof {
            assert(all.take(i + 1).drop_last() =~= all.take(i as int));
            assert(all.take(i + 1).last() == x);
        }
        insert_by_modified(&mut out, x);
    }
    proof {
        assert(all.take(all.len() as int) =~= all);
    }
    out
}


/// `"archive-"`, the beginning of an archive's file name.
pub open spec fn archive_prefix() -> Seq<char> {
    seq!['a', 'r', 'c', 'h', 'i', 'v', 'e', '-']
}

/// `".tar.gz"`, the end of an archive's file name.
pub open spec fn archive_suffix() -> Seq<char> {
    seq!['.', 't', 'a', 'r', '.', 'g', 'z']
}

/// `".gz"`.
pub open spec fn gz_suffix() -> Seq<char> {
    seq!['.', 'g', 'z']
}

/// The file name of the archive with id `id`: `archive-<id>.tar.gz`.
pub open spec fn archive_name_of(id: Seq<char>) -> Seq<char> {
    archive_prefix() + id + archive_suffix()
}

/// The id of the archive that a file name names: what is left of the name
/// once `"archive-"` is stripped from its front and then `".tar.gz"` from the
/// rest's end; `None` where either is missing.
pub open spec fn archive_id_of(name: Seq<char>) -> Option<Seq<char>> {
    if has_prefix(name, archive_prefix()) && name.len() >= 15 && has_suffix(name, archive_suffix()) {
        Some(name.subrange(8, name.len() - 7))
    } else {
        None
    }
}

/// The extension of a file named `name` is `gz`: the name ends with `".gz"`
/// and is more than that (a name that is just `".gz"` has no extension).
pub open spec fn has_gz_extension(name: Seq<char>) -> bool {
    name.len() > 3 && has_suffix(name, gz_suffix())
}

/// Whether a file name has the extension `gz`.
pub fn is_gz_file(name: &str) -> (b: bool)
    ensures
        b == has_gz_extension(name@),
{
    let hay = chars_of(name);
    let gz = chars_of(".gz");
    proof {
        reveal_strlit(".gz");
        assert(gz@ =~= gz_suffix());
    }
    if hay.len() <= 3 {
        return false;
    }
    let r = matches_at(&hay, &gz, hay.len() - 3);
    assert(r == has_suffix(hay@, gz@));
    r
}

/// The id of the archive that the file `name` holds, as `archive_id_of` says.
pub fn archive_id(name: &str) -> (r: Option<String>)
    ensures
        r matches Some(id) ==> archive_id_of(name@) == Some(id@),
        r is None ==> archive_id_of(name@) is None,
{
    let hay = chars_of(name);
    let prefix = chars_of("archive-");
    let suffix = chars_of(".tar.gz");
    proof {
        reveal_strlit("archive-");
        reveal_strlit(".tar.gz");
        assert(prefix@ =~= archive_prefix());
        assert(suffix@ =~= archive_suffix());
    }
    let n = hay.len();
    if n < 15 {
        return None;
    }
    if matches_at(&hay, &prefix, 0) && matches_at(&hay, &suffix, n - 7) {
        assert(hay@.subrange(0, 8) == prefix@);
        Some(substring(name, 8, n - 7))
    } else {
        None
    }
}

/// The file name of the archive with id `id`.
pub fn archive_file_name(id: &str) -> (r: String)
    ensures
        r@ == archive_name_of(id@),
{
    let mut r = "archive-".to_owned();
    r.append(id);
    r.append(".tar.gz");
    proof {
        reveal_strlit("archive-");
        reveal_strlit(".tar.gz");
        assert(r@ =~= archive_name_of(id@));
    }
    r
}

/// A lowercase hexadecimal digit.
pub open spec fn is_lower_hex(c: char) -> bool {
    ('0' <= c && c <= '9') || ('a' <= c && c <= 'f')
}

/// The text of a random (version 4, RFC 4122 variant) UUID in its hyphenated
/// lowercase form: 36 chars, hyphens at 8, 13, 18 and 23, lowercase hex
/// digits elsewhere, the version digit `4` at 14 and one of `8 9 a b` at 19.
pub open spec fn is_v4_uuid_text(u: Seq<char>) -> bool {
    &&& u.len() == 36
    &&& forall|i: int|
        0 <= i < 36 ==> if i == 8 || i == 13 || i == 18 || i == 23 {
            #[trigger] u[i] == '-'
        } else {
            is_lower_hex(u[i])
        }
    &&& u[14] == '4'
    &&& (u[19] == '8' || u[19] == '9' || u[19] == 'a' || u[19] == 'b')
}

/// `uuid::Uuid::new_v4`, written with `to_string`. Its result is random: the
/// contract states only its form, which the crate's `new_v4` (it sets the
/// version and variant bits) and its hyphenated lowercase `Display` give.
#[verifier::external_body]
fn new_uuid_text() -> (r: String)
    ensures
        is_v4_uuid_text(r@),
{
    uuid::Uuid::new_v4().to_string()
}

/// A fresh archive file name: `archive-<uuid>.tar.gz` with a random UUID.
pub fn new_archive_file_name() -> (r: String)
    ensures
        archive_id_of(r@) matches Some(id) && is_v4_uuid_text(id) && r@ == archive_name_of(id),
        has_gz_extension(r@),
{
    let id = new_uuid_text();
    let r = archive_file_name(id.as_str());
    proof {
        law_archive_name_round_trip(id@);
    }
    r
}

/// The id of an archive is read back from the name it was written under, and
/// that name has the extension `gz`: every archive that is written is listed,
/// under the id it was given.
pub proof fn law_archive_name_round_trip(id: Seq<char>)
    ensures
        archive_id_of(archive_name_of(id)) == Some(id),
        has_gz_extension(archive_name_of(id)),
{
    let n = archive_name_of(id);
    assert(n.subrange(0, 8) =~= archive_prefix());
    assert(n.subrange(n.len() - 7, n.len() as int) =~= archive_suffix());
    assert(n.subrange(8, n.len() - 7) =~= id);
    assert(n.subrange(n.len() - 3, n.len() as int) =~= gz_suffix());
}

/// Two archives written under different ids have different names.
pub proof fn law_archive_names_distinct(a: Seq<char>, b: Seq<char>)
    requires
        a != b,
    ensures
        archive_name_of(a) != archive_name_of(b),
{
    law_archive_name_round_trip(a);
    law_archive_name_round_trip(b);
}

/// What the file system says of a file: its modification time (`None` where
/// it could not be read) and its length in bytes.
pub struct FileMetadata {
    pub modified: Option<FileTime>,
    pub len: u64,
}

/// A directory entry: the file's name and its metadata (`None` where it could
/// not be read).
pub struct DirEntryInfo {
    pub name: String,
    pub metadata: Option<FileMetadata>,
}

/// A backup archive as listed: its id, modification time and size.
pub struct ArchiveInfo {
    pub id: String,
    pub modified: FileTime,
    pub size: u64,
}

/// The abstract value of an `ArchiveInfo`.
pub struct ArchiveRecord {
    pub id: Seq<char>,
    pub modified: FileTime,
    pub size: u64,
}

impl View for ArchiveInfo {
    type V = ArchiveRecord;

    open spec fn view(&self) -> ArchiveRecord {
        ArchiveRecord { id: self.id@, modified: self.modified, size: self.size }
    }
}

impl Timed for ArchiveInfo {
    open spec fn time_of(&self) -> FileTime {
        self.modified
    }

    fn time(&self) -> (t: FileTime) {
        self.modified
    }
}

/// The archive that a directory entry holds: one whose name has the extension
/// `gz` and names an archive id, and whose metadata and modification time
/// could be read.
pub open spec fn archive_of_entry(e: DirEntryInfo) -> Option<ArchiveRecord> {
    if has_gz_extension(e.name@) {
        match e.metadata {
            Some(m) => match m.modified {
                Some(t) => match archive_id_of(e.name@) {
                    Some(id) => Some(ArchiveRecord { id, modified: t, size: m.len }),
                    None => None,
                },
                None => None,
            },
            None => None,
        }
    } else {
        None
    }
}

/// The archives of the entries, in the entries' order.
pub open spec fn archives_of_entries(entries: Seq<DirEntryInfo>) -> Seq<ArchiveRecord>
    decreases entries.len(),
{
    if entries.len() == 0 {
        Seq::empty()
    } else {
        let rest = archives_of_entries(entries.drop_last());
        match archive_of_entry(entries.last()) {
            Some(a) => rest.push(a),
            None => rest,
        }
    }
}

pub open spec fn record_time() -> spec_fn(ArchiveRecord) -> FileTime {
    |r: ArchiveRecord| r.modified
}

pub open spec fn info_view() -> spec_fn(ArchiveInfo) -> ArchiveRecord {
    |a: ArchiveInfo| a@
}

/// The listing of a backup directory: its archives, oldest first, archives of
/// equal time in directory order.
pub open spec fn archive_listing(entries: Seq<DirEntryInfo>) -> Seq<ArchiveRecord> {
    sort_by_time(archives_of_entries(entries), record_time())
}

fn archive_from_entry(e: DirEntryInfo) -> (r: Option<ArchiveInfo>)
    ensures
        r matches Some(a) ==> archive_of_entry(e) == Some(a@),
        r is None ==> archive_of_entry(e) is None,
{
    if !is_gz_file(e.name.as_str()) {
        return None;
    }
    match e.metadata {
        None => None,
        Some(m) => match m.modified {
            None => None,
            Some(t) => match archive_id(e.name.as_str()) {
                None => None,
                Some(id) => Some(ArchiveInfo { id, modified: t, size: m.len }),
            },
        },
    }
}

/// The archives of a backup directory, oldest first, as `archive_listing`
/// says.
pub fn list_archives(entries: Vec<DirEntryInfo>) -> (r: Vec<ArchiveInfo>)
    ensures
        r@.map_values(info_view()) == archive_listing(entries@),
{
    let ghost all = entries@;
    let mut found: Vec<ArchiveInfo> = Vec::new();
    for e in it: entries.into_iter()
        invariant
            it.seq() == all,
            found@.map_values(info_view()) == archives_of_entries(all.take(it.index() as int)),
    {
        let ghost i = it.index();
        let ghost before = found@;
        proof {
            assert(all.take(i + 1).drop_last() =~= all.take(i as int));
            assert(all.take(i + 1).last() == e);
        }
        match archive_from_entry(e) {
            Some(a) => {
                found.push(a);
                assert(found@.map_values(info_view()) =~= before.map_values(info_view()).push(a@));
            },
            None => {},
        }
    }
    proof {
        assert(all.take(all.len() as int) =~= all);
    }
    let sorted = sort_by_modified(found);
    proof {
        lemma_sort_map(found@, time_key::<ArchiveInfo>(), info_view(), record_time());
    }
    sorted
}

/// The listing of a backup directory is sorted oldest first and holds each of
/// its archives exactly once.
pub proof fn law_listing_sorted(entries: Seq<DirEntryInfo>)
    ensures
        sorted_by_time(archive_listing(entries), record_time()),
        archive_listing(entries).to_multiset() =~= archives_of_entries(entries).to_multiset(),
{
    lemma_sort_by_time(archives_of_entries(entries), record_time());
}


/// A file of a backup directory that pruning may remove.
pub struct PruneCandidate {
    pub name: String,
    pub modified: FileTime,
}

/// The abstract value of a `PruneCandidate`.
pub struct PruneRecord {
    pub name: Seq<char>,
    pub modified: FileTime,
}

impl View for PruneCandidate {
    type V = PruneRecord;

    open spec fn view(&self) -> PruneRecord {
        PruneRecord { name: self.name@, modified: self.modified }
    }
}

impl Timed for PruneCandidate {
    open spec fn time_of(&self) -> FileTime {
        self.modified
    }

    fn time(&self) -> (t: FileTime) {
        self.modified
    }
}

/// A directory entry that pruning counts: a file with the extension `gz`
/// whose modification time could be read.
pub open spec fn prune_candidate_of(e: DirEntryInfo) -> Option<PruneRecord> {
    if has_gz_extension(e.name@) {
        match e.metadata {
            Some(m) => match m.modified {
                Some(t) => Some(PruneRecord { name: e.name@, modified: t }),
                None => None,
            },
            None => None,
        }
    } else {
        None
    }
}

pub open spec fn prune_candidates(entries: Seq<DirEntryInfo>) -> Seq<PruneRecord>
    decreases entries.len(),
{
    if entries.len() == 0 {
        Seq::empty()
    } else {
        let rest = prune_candidates(entries.drop_last());
        match prune_candidate_of(entries.last()) {
            Some(c) => rest.push(c),
            None => rest,
        }
    }
}

pub open spec fn prune_time() -> spec_fn(PruneRecord) -> FileTime {
    |r: PruneRecord| r.modified
}

pub open spec fn candidate_view() -> spec_fn(PruneCandidate) -> PruneRecord {
    |c: PruneCandidate| c@
}

/// How many archives go when `n` are kept under `limit`: all beyond the
/// limit, none where the limit is 0 (no limit).
pub open spec fn prune_count(n: nat, limit: u16) -> nat {
    if limit == 0 || n <= limit {
        0
    } else {
        (n - limit) as nat
    }
}

/// Whether a limit calls for pruning at all: a limit of 0 keeps every
/// archive, and the directory is not even read.
pub fn prunes(limit: u16) -> (b: bool)
    ensures
        b == (limit != 0),
{
    limit != 0
}

/// The names of the files to remove so that at most `limit` archives remain:
/// the oldest ones; nothing where `limit` is 0.
pub open spec fn prune_names(entries: Seq<DirEntryInfo>, limit: u16) -> Seq<Seq<char>> {
    let sorted = sort_by_time(prune_candidates(entries), prune_time());
    sorted.take(prune_count(sorted.len(), limit) as int).map_values(|r: PruneRecord| r.name)
}

fn prune_candidate_from(e: DirEntryInfo) -> (r: Option<PruneCandidate>)
    ensures
        r matches Some(c) ==> prune_candidate_of(e) == Some(c@),
        r is None ==> prune_candidate_of(e) is None,
{
    if !is_gz_file(e.name.as_str()) {
        return None;
    }
    match e.metadata {
        None => None,
        Some(m) => match m.modified {
            None => None,
            Some(t) => Some(PruneCandidate { name: e.name, modified: t }),
        },
    }
}

/// The files of a backup directory to remove so that at most `limit`
/// archives remain, as `prune_names` says: the oldest first.
pub fn archives_to_prune(entries: Vec<DirEntryInfo>, limit: u16) -> (r: Vec<String>)
    ensures
        r@.map_values(|s: String| s@) == prune_names(entries@, limit),
{
    let ghost all = entries@;
    let mut found: Vec<PruneCandidate> = Vec::new();
    for e in it: entries.into_iter()
        invariant
            it.seq() == all,
            found@.map_values(candidate_view()) == prune_candidates(all.take(it.index() as int)),
    {
        let ghost i = it.index();
        let ghost before = found@;
        proof {
            assert(all.take(i + 1).drop_last() =~= all.take(i as int));
            assert(all.take(i + 1).last() == e);
        }
        match prune_candidate_from(e) {
            Some(c) => {
                found.push(c);
                assert(found@.map_values(candidate_view()) =~= before.map_values(candidate_view()).push(c@));
            },
            None => {},
        }
    }
    proof {
        assert(all.take(all.len() as int) =~= all);
    }
    let sorted = sort_by_modified(found);
    let ghost sorted_view = sort_by_time(prune_candidates(all), prune_time());
    proof {
        lemma_sort_map(found@, time_key::<PruneCandidate>(), candidate_view(), prune_time());
        lemma_sort_by_time(found@, time_key::<PruneCandidate>());
        assert(sorted@.map_values(candidate_view()) == sorted_view);
    }
    let n = sorted.len();
    let excess: usize = if limit == 0 || n <= limit as usize { 0 } else { n - limit as usize };
    let mut names: Vec<String> = Vec::new();
    let mut i: usize = 0;
    while i < excess
        invariant
            i <= excess <= n == sorted@.len(),
            sorted@.map_values(candidate_view()) == sorted_view,
            names@.map_values(|s: String| s@) == sorted_view.take(i as int).map_values(|r: PruneRecord| r.name),
        decreases excess - i,
    {
        let name = sorted[i].name.clone();
        let ghost prev = names@;
        proof {
            assert(sorted@.map_values(candidate_view())[i as int] == candidate_view()(sorted@[i as int]));
            assert(sorted_view[i as int].name == name@);
        }
        names.push(name);
        proof {
            let f = |s: String| s@;
            let g = |r: PruneRecord| r.name;
            assert(names@ == prev.push(name));
            assert(names@.map_values(f) =~= prev.map_values(f).push(name@));
            assert(sorted_view.take(i + 1).map_values(g) =~= sorted_view.take(i as int).map_values(g).push(sorted_view[i as int].name));
        }
        i = i + 1;
    }
    names
}

/// Pruning removes exactly the archives beyond the limit (none under a limit
/// of 0), and every archive it removes is no later than every one it keeps.
pub proof fn law_prune_keeps_newest(entries: Seq<DirEntryInfo>, limit: u16)
    ensures
        prune_names(entries, limit).len() == prune_count(prune_candidates(entries).len(), limit),
        limit == 0 ==> prune_names(entries, limit).len() == 0,
        limit > 0 ==> prune_candidates(entries).len() - prune_names(entries, limit).len() == if prune_candidates(entries).len() <= limit {
            prune_candidates(entries).len() as int
        } else {
            limit as int
        },
        ({
            let sorted = sort_by_time(prune_candidates(entries), prune_time());
            let k = prune_count(sorted.len(), limit) as int;
            forall|i: int, j: int|
                0 <= i < k <= j < sorted.len() ==> time_le(#[trigger] sorted[i].modified, #[trigger] sorted[j].modified)
        }),
{
    let sorted = sort_by_time(prune_candidates(entries), prune_time());
    lemma_sort_by_time(prune_candidates(entries), prune_time());
    let k = prune_count(sorted.len(), limit) as int;
    assert forall|i: int, j: int|
        0 <= i < k <= j < sorted.len() implies time_le(#[trigger] sorted[i].modified, #[trigger] sorted[j].modified) by {
        assert(time_le(prune_time()(sorted[i]), prune_time()(sorted[j])));
    }
}


/// `".ldb"`.
pub open spec fn ldb_suffix() -> Seq<char> {
    seq!['.', 'l', 'd', 'b']
}

/// The extension of a file named `name` is `ldb` (a world's table files,
/// which a backup adds to the files the server lists).
pub open spec fn has_ldb_extension(name: Seq<char>) -> bool {
    name.len() > 4 && has_suffix(name, ldb_suffix())
}

/// Whether a file name has the extension `ldb`.
pub fn is_ldb_file(name: &str) -> (b: bool)
    ensures
        b == has_ldb_extension(name@),
        b <==> (name@.len() > 4 && name@.subrange(name@.len() - 4, name@.len() as int)
            == seq!['.', 'l', 'd', 'b']),
{
    let hay = chars_of(name);
    let ldb = chars_of(".ldb");
    proof {
        reveal_strlit(".ldb");
        assert(ldb@ =~= ldb_suffix());
    }
    if hay.len() <= 4 {
        return false;
    }
    matches_at(&hay, &ldb, hay.len() - 4)
}

/// A file counts as one of a world's table files exactly when its name has
/// more than four characters and its last four are `.ldb`: no other
/// extension counts, so a LevelDB log (`.log`), a manifest or a lock file is
/// never added as a table file. Likewise a file is an archive exactly when its
/// name has more than three characters and ends in `.gz`.
pub proof fn law_file_extensions(name: Seq<char>)
    ensures
        has_ldb_extension(name) <==> (name.len() > 4 && name[name.len() - 4] == '.' && name[name.len()
            - 3] == 'l' && name[name.len() - 2] == 'd' && name[name.len() - 1] == 'b'),
        name.len() >= 4 && name[name.len() - 4] == '.' && name[name.len() - 3] == 'l'
            && name[name.len() - 2] == 'o' && name[name.len() - 1] == 'g' ==> !has_ldb_extension(
            name,
        ),
        has_gz_extension(name) <==> (name.len() > 3 && name[name.len() - 3] == '.' && name[name.len()
            - 2] == 'g' && name[name.len() - 1] == 'z'),
{
    let n = name.len() as int;
    if n > 4 {
        let t = name.subrange(n - 4, n);
        assert(t[0] == name[n - 4] && t[1] == name[n - 3] && t[2] == name[n - 2] && t[3] == name[n
            - 1]);
        if name[n - 4] == '.' && name[n - 3] == 'l' && name[n - 2] == 'd' && name[n - 1] == 'b' {
            assert(t =~= ldb_suffix());
        }
    }
    if n > 3 {
        let t = name.subrange(n - 3, n);
        assert(t[0] == name[n - 3] && t[1] == name[n - 2] && t[2] == name[n - 1]);
        if name[n - 3] == '.' && name[n - 2] == 'g' && name[n - 1] == 'z' {
            assert(t =~= gz_suffix());
        }
    }
}

/// `"./worlds/"`, where the server keeps its worlds.
pub open spec fn worlds_dir_prefix() -> Seq<char> {
    "./worlds/"@
}

/// The directory that holds a world's table files: `./worlds/<level>/db`.
pub fn world_db_dir(level_name: &str) -> (r: String)
    ensures
        r@ == worlds_dir_prefix() + level_name@ + "/db"@,
{
    let mut r = "./worlds/".to_owned();
    r.append(level_name);
    r.append("/db");
    r
}

/// The name under which a world file goes into an archive: its path with
/// `./worlds/` replaced by `./`.
pub open spec fn member_path_of(path: Seq<char>) -> Seq<char> {
    seq!['.', '/'] + path.subrange(9, path.len() as int)
}

/// The name under which the world file at `path` goes into an archive.
pub fn archive_member_path(path: &str) -> (r: String)
    requires
        has_prefix(path@, worlds_dir_prefix()),
    ensures
        r@ == member_path_of(path@),
{
    proof {
        reveal_strlit("./worlds/");
        assert(worlds_dir_prefix().len() == 9);
    }
    let n = path.unicode_len();
    let rest = substring(path, 9, n);
    let mut r = "./".to_owned();
    r.append(rest.as_str());
    proof {
        reveal_strlit("./");
        assert(r@ =~= member_path_of(path@));
    }
    r
}

/// Whether `path` lies under `./worlds/`.
pub fn is_world_file(path: &str) -> (b: bool)
    ensures
        b == has_prefix(path@, worlds_dir_prefix()),
{
    let hay = chars_of(path);
    let p = chars_of("./worlds/");
    let b = matches_at(&hay, &p, 0);
    proof {
        if b {
            assert(hay@.subrange(0, p@.len() as int) == p@);
        }
    }
    b
}

/// `a` is strictly earlier than `b`.
pub open spec fn time_lt(a: FileTime, b: FileTime) -> bool {
    a.secs < b.secs || (a.secs == b.secs && a.nanos < b.nanos)
}

/// The modification time of a directory entry, where it could be read.
pub open spec fn entry_time(e: DirEntryInfo) -> Option<FileTime> {
    match e.metadata {
        Some(m) => m.modified,
        None => None,
    }
}

proof fn lemma_archives_of_entries(entries: Seq<DirEntryInfo>)
    ensures
        forall|k: int|
            0 <= k < entries.len() && (#[trigger] archive_of_entry(entries[k])) is Some
                ==> archives_of_entries(entries).contains(archive_of_entry(entries[k])->0),
        forall|x: ArchiveRecord|
            archives_of_entries(entries).contains(x) ==> exists|j: int|
                0 <= j < entries.len() && #[trigger] archive_of_entry(entries[j]) == Some(x),
    decreases entries.len(),
{
    if entries.len() > 0 {
        let d = entries.drop_last();
        lemma_archives_of_entries(d);
        let rest = archives_of_entries(d);
        let n = entries.len() - 1;
        assert forall|k: int|
            0 <= k < entries.len() && (#[trigger] archive_of_entry(entries[k])) is Some
                implies archives_of_entries(entries).contains(archive_of_entry(entries[k])->0) by {
            if k < n {
                assert(entries[k] == d[k]);
                let x = archive_of_entry(d[k])->0;
                let i = choose|i: int| 0 <= i < rest.len() && rest[i] == x;
                assert(archives_of_entries(entries)[i] == x);
            } else {
                let r = archives_of_entries(entries);
                assert(r[r.len() - 1] == archive_of_entry(entries[k])->0);
            }
        }
        assert forall|x: ArchiveRecord|
            archives_of_entries(entries).contains(x) implies exists|j: int|
                0 <= j < entries.len() && #[trigger] archive_of_entry(entries[j]) == Some(x) by {
            let r = archives_of_entries(entries);
            let i = choose|i: int| 0 <= i < r.len() && r[i] == x;
            if i < rest.len() {
                assert(rest[i] == x);
                assert(rest.contains(x));
                let j = choose|j: int| 0 <= j < d.len() && #[trigger] archive_of_entry(d[j]) == Some(x);
                assert(entries[j] == d[j]);
            } else {
                assert(archive_of_entry(entries[n]) == Some(x));
            }
        }
    }
}

/// An archive written under the id `id` that is newer than every other
/// archive of its directory is the last one the listing gives, under that
/// id: the backup just taken is the last one listed.
pub proof fn law_newest_archive_listed_last(entries: Seq<DirEntryInfo>, k: int, id: Seq<char>)
    requires
        0 <= k < entries.len(),
        entries[k].name@ == archive_name_of(id),
        entry_time(entries[k]) is Some,
        forall|j: int|
            0 <= j < entries.len() && j != k && (#[trigger] archive_of_entry(entries[j])) is Some
                ==> time_lt(archive_of_entry(entries[j])->0.modified, entry_time(entries[k])->0),
    ensures
        archive_listing(entries).len() > 0,
        archive_listing(entries).last().id == id,
{
    law_archive_name_round_trip(id);
    let t = entry_time(entries[k])->0;
    let rec = archive_of_entry(entries[k])->0;
    assert(rec.id == id && rec.modified == t);
    let a = archives_of_entries(entries);
    let l = archive_listing(entries);
    lemma_archives_of_entries(entries);
    lemma_sort_by_time(a, record_time());
    a.to_multiset_ensures();
    l.to_multiset_ensures();
    assert(a.contains(rec));
    assert(a.to_multiset().count(rec) > 0);
    assert(l.to_multiset().count(rec) > 0);
    assert(l.contains(rec));
    let x = l.last();
    assert(l.contains(x)) by {
        assert(l[l.len() - 1] == x);
    }
    assert(l.to_multiset().count(x) > 0);
    assert(a.to_multiset().count(x) > 0);
    assert(a.contains(x));
    if x.id != id {
        let j = choose|j: int| 0 <= j < entries.len() && #[trigger] archive_of_entry(entries[j]) == Some(x);
        assert(j != k);
        assert(time_lt(x.modified, t));
        let i = choose|i: int| 0 <= i < l.len() && l[i] == rec;
        assert(i != l.len() - 1);
        assert(time_le(record_time()(l[i]), record_time()(l[l.len() - 1])));
        assert(false);
    }
}

} // verus!
