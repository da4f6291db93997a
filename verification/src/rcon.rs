//! The management service's answers: the status, and the listing of backups.
use vstd::prelude::*;

use crate::archive::ArchiveInfo;
use crate::config::BackupFrequency;

verus! {

/// Why a management request was refused.
pub enum RconError {
    /// The request's arguments are wrong.
    InvalidArgument(String),
    /// The service failed.
    Internal(String),
}

/// The text of the status answer.
pub fn status_text() -> (r: String)
    ensures
        r@ == "Ok"@,
{
    "Ok".to_owned()
}

/// The frequency that a request's schedule type names: 1 minute, 2 hourly,
/// 3 daily, 4 weekly (0 is the unspecified type).
pub open spec fn frequency_of_type(t: i32) -> Option<BackupFrequency> {
    if t == 1 {
        Some(BackupFrequency::Minute)
    } else if t == 2 {
        Some(BackupFrequency::Hourly)
    } else if t == 3 {
        Some(BackupFrequency::Daily)
    } else if t == 4 {
        Some(BackupFrequency::Weekly)
    } else {
        None
    }
}

/// The frequency a listing request asks for; an unspecified or unknown type
/// is an invalid argument.
pub fn frequency_from_schedule_type(schedule_type: i32) -> (r: Result<BackupFrequency, RconError>)
    ensures
        r matches Ok(f) ==> frequency_of_type(schedule_type) == Some(f),
        r is Err <==> frequency_of_type(schedule_type) is None,
        schedule_type == 1 ==> r matches Ok(BackupFrequency::Minute),
        schedule_type == 2 ==> r matches Ok(BackupFrequency::Hourly),
        schedule_type == 3 ==> r matches Ok(BackupFrequency::Daily),
        schedule_type == 4 ==> r matches Ok(BackupFrequency::Weekly),
        r is Ok <==> 1 <= schedule_type <= 4,
        r matches Err(e) ==> (e matches RconError::InvalidArgument(m) && m@ == "schedule_type must be specified"@),
{
    match schedule_type {
        1 => Ok(BackupFrequency::Minute),
        2 => Ok(BackupFrequency::Hourly),
        3 => Ok(BackupFrequency::Daily),
        4 => Ok(BackupFrequency::Weekly),
        _ => Err(RconError::InvalidArgument("schedule_type must be specified".to_owned())),
    }
}

/// The schedule types of a listing request are numbered as the service's
/// protocol numbers them: 1 minutes, 2 hours, 3 days, 4 weeks; no other
/// number names a frequency (0 is the unspecified type).
pub proof fn law_schedule_type_numbering(t: i32)
    ensures
        frequency_of_type(1) == Some(BackupFrequency::Minute),
        frequency_of_type(2) == Some(BackupFrequency::Hourly),
        frequency_of_type(3) == Some(BackupFrequency::Daily),
        frequency_of_type(4) == Some(BackupFrequency::Weekly),
        frequency_of_type(t) is Some <==> 1 <= t <= 4,
{
}

/// A backup as the management service lists it.
pub struct BackupMetadata {
    pub id: String,
    pub timestamp: String,
    pub size: i64,
}

/// A size in bytes as a signed 64-bit number: sizes beyond `i64::MAX` wrap
/// around, as `as i64` does.
pub open spec fn signed_size(size: u64) -> int {
    if size <= i64::MAX {
        size as int
    } else {
        size - 0x1_0000_0000_0000_0000
    }
}

/// `size as i64`.
pub fn size_as_i64(size: u64) -> (r: i64)
    ensures
        r == signed_size(size),
{
    if size <= 9223372036854775807u64 {
        size as i64
    } else {
        let over: u64 = size - 9223372036854775808u64;
        (over as i64) - 9223372036854775807i64 - 1
    }
}

/// The RFC 3339 text of a UTC time given as seconds since the Unix epoch and
/// nanoseconds; `None` where chrono cannot represent the time.
pub uninterp spec fn rfc3339_text(secs: i64, nanos: u32) -> Option<Seq<char>>;

/// `chrono::DateTime::<Utc>::from_timestamp(secs, nanos)` written with
/// `to_rfc3339`: named, as a function of its arguments; `None` where
/// `from_timestamp` is.
#[verifier::external_body]
fn rfc3339(secs: i64, nanos: u32) -> (r: Option<String>)
    ensures
        r is None <==> rfc3339_text(secs, nanos) is None,
        r matches Some(t) ==> rfc3339_text(secs, nanos) == Some(t@),
{
    chrono::DateTime::from_timestamp(secs, nanos).map(|d| d.to_rfc3339())
}

/// The listing entry of an archive, given the RFC 3339 text of its time.
pub fn metadata_with_timestamp(archive: ArchiveInfo, timestamp: String) -> (r: BackupMetadata)
    ensures
        r.id@ == archive.id@,
        r.timestamp@ == timestamp@,
        r.size == signed_size(archive.size),
{
    BackupMetadata { id: archive.id, timestamp, size: size_as_i64(archive.size) }
}

/// The listing entry of an archive; `None` where its time cannot be written
/// as a date.
pub fn backup_metadata(archive: ArchiveInfo) -> (r: Option<BackupMetadata>)
    ensures
        r matches Some(m) ==> m.id@ == archive.id@ && rfc3339_text(archive.modified.secs, archive.modified.nanos) == Some(m.timestamp@)
            && m.size == signed_size(archive.size),
        r is None <==> rfc3339_text(archive.modified.secs, archive.modified.nanos) is None,
{
    match rfc3339(archive.modified.secs, archive.modified.nanos) {
        Some(t) => Some(metadata_with_timestamp(archive, t)),
        None => None,
    }
}

/// The listing of archives, in order; `None` where the time of one of them
/// cannot be written as a date.
pub fn list_backups_response(archives: Vec<ArchiveInfo>) -> (r: Option<Vec<BackupMetadata>>)
    ensures
        r matches Some(v) ==> v@.len() == archives@.len() && forall|i: int| 0 <= i < v@.len() ==> {
            let a = #[trigger] archives@[i];
            &&& v@[i].id@ == a.id@
            &&& rfc3339_text(a.modified.secs, a.modified.nanos) == Some(v@[i].timestamp@)
            &&& v@[i].size == signed_size(a.size)
        },
        r is None <==> exists|i: int| 0 <= i < archives@.len() && rfc3339_text(#[trigger] archives@[i].modified.secs, archives@[i].modified.nanos) is None,
{
    let ghost all = archives@;
    let mut out: Vec<BackupMetadata> = Vec::new();
    for a in it: archives.into_iter()
        invariant
            it.seq() == all,
            out@.len() == it.index(),
            forall|i: int| 0 <= i < out@.len() ==> {
                let a = #[trigger] all[i];
                &&& out@[i].id@ == a.id@
                &&& rfc3339_text(a.modified.secs, a.modified.nanos) == Some(out@[i].timestamp@)
                &&& out@[i].size == signed_size(a.size)
            },
    {
        let ghost i = it.index();
        match backup_metadata(a) {
            Some(m) => out.push(m),
            None => {
                assert(all[i as int] == a);
                return None;
            },
        }
    }
    Some(out)
}

} // verus!
