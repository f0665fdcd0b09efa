//! The allocator's statistics and purge control.

use crate::error::JemallocError;
use vstd::prelude::*;
use vstd::string::StringExecFns;

verus! {

/// The allocator control library's error: a `mallctl` error code.
#[verifier::external_type_specification]
#[verifier::external_body]
pub struct ExCtlError(tikv_jemalloc_ctl::Error);

/// Relies on `tikv_jemalloc_ctl::epoch::advance`: refreshes the allocator's
/// cached statistics; it fails with the `mallctl` error code.
#[verifier::external_body]
fn advance_epoch() -> (r: Result<u64, tikv_jemalloc_ctl::Error>) {
    tikv_jemalloc_ctl::epoch::advance()
}

/// Relies on `tikv_jemalloc_ctl::stats::allocated::read`: bytes allocated by
/// the application, as of the last epoch.
#[verifier::external_body]
fn read_allocated() -> (r: Result<usize, tikv_jemalloc_ctl::Error>) {
    tikv_jemalloc_ctl::stats::allocated::read()
}

/// Relies on `tikv_jemalloc_ctl::stats::active::read`: bytes in active pages,
/// as of the last epoch.
#[verifier::external_body]
fn read_active() -> (r: Result<usize, tikv_jemalloc_ctl::Error>) {
    tikv_jemalloc_ctl::stats::active::read()
}

/// Relies on `tikv_jemalloc_ctl::stats::mapped::read`: bytes in mapped
/// extents, as of the last epoch.
#[verifier::external_body]
fn read_mapped() -> (r: Result<usize, tikv_jemalloc_ctl::Error>) {
    tikv_jemalloc_ctl::stats::mapped::read()
}

/// Relies on `tikv_jemalloc_ctl::stats::retained::read`: bytes retained in
/// virtual memory mappings, as of the last epoch.
#[verifier::external_body]
fn read_retained() -> (r: Result<usize, tikv_jemalloc_ctl::Error>) {
    tikv_jemalloc_ctl::stats::retained::read()
}

/// Relies on `tikv_jemalloc_ctl::background_thread::write`: switches on the
/// allocator's background threads, which purge unused pages.
#[verifier::external_body]
fn enable_background_threads() -> (r: Result<(), tikv_jemalloc_ctl::Error>) {
    tikv_jemalloc_ctl::background_thread::write(true)
}

/// Whether `e` is one of the two ways a statistics read can fail.
pub open spec fn is_read_failure(e: JemallocError) -> bool {
    e is StatsFailed || e is EpochFailed
}

/// A snapshot of the allocator's byte counters.
#[derive(Debug, Clone)]
pub struct JemallocStats {
    /// Bytes allocated by the application.
    pub allocated_bytes: u64,
    /// Bytes in active pages.
    pub active_bytes: u64,
    /// Bytes in mapped extents.
    pub mapped_bytes: u64,
    /// Bytes retained in virtual memory mappings.
    pub retained_bytes: u64,
}

/// Access to the allocator's statistics and purge control.
pub struct JemallocInterface;

/// Failure text of a `mallctl` error, prefixed with the statistic's name.
fn labelled(label: &str, e: &tikv_jemalloc_ctl::Error) -> (r: String)
    ensures
        r@.len() >= label@.len(),
        r@.subrange(0, label@.len() as int) == label@,
{
    let text = e.to_string();
    let r = String::from_str(label).concat(text.as_str());
    assert(r@.subrange(0, label@.len() as int) =~= label@);
    r
}

/// Reads one statistic after the epoch was advanced, mapping its error.
fn read_stat(read: Result<usize, tikv_jemalloc_ctl::Error>, label: &str) -> (r: Result<
    u64,
    JemallocError,
>)
    ensures
        read is Ok <==> r is Ok,
        read is Ok ==> r->Ok_0 == read->Ok_0 as u64,
        r is Err ==> r->Err_0 is StatsFailed,
{
    match read {
        Ok(bytes) => Ok(bytes as u64),
        Err(e) => Err(JemallocError::StatsFailed(labelled(label, &e))),
    }
}

impl JemallocInterface {
    /// Whether the allocator interface is linked into this build; it always
    /// is, as the crate depends on it.
    pub fn is_available() -> (r: bool)
        ensures
            r,
    {
        true
    }

    /// Bytes allocated by the application, after refreshing the statistics.
    pub fn get_allocated_bytes() -> (r: Result<u64, JemallocError>)
        ensures
            r is Err ==> is_read_failure(r->Err_0),
    {
        if let Err(e) = advance_epoch() {
            return Err(JemallocError::EpochFailed(e.to_string()));
        }
        match read_allocated() {
            Ok(bytes) => Ok(bytes as u64),
            Err(e) => Err(JemallocError::StatsFailed(e.to_string())),
        }
    }

    /// Bytes in active pages, after refreshing the statistics.
    pub fn get_active_bytes() -> (r: Result<u64, JemallocError>)
        ensures
            r is Err ==> is_read_failure(r->Err_0),
    {
        if let Err(e) = advance_epoch() {
            return Err(JemallocError::EpochFailed(e.to_string()));
        }
        match read_active() {
            Ok(bytes) => Ok(bytes as u64),
            Err(e) => Err(JemallocError::StatsFailed(e.to_string())),
        }
    }

    /// Asks the allocator to purge unused pages by enabling its background
    /// threads. Purging is advisory: a refusal by the allocator is not an
    /// error.
    pub fn purge_dirty_pages() -> (r: Result<(), JemallocError>)
        ensures
            r is Ok,
    {
        let _ = enable_background_threads();
        Ok(())
    }

    /// All four byte counters, after refreshing the statistics.
    pub fn get_stats() -> (r: Result<JemallocStats, JemallocError>)
        ensures
            r is Err ==> is_read_failure(r->Err_0),
    {
        if let Err(e) = advance_epoch() {
            return Err(JemallocError::EpochFailed(e.to_string()));
        }
        let allocated_bytes = read_stat(read_allocated(), "allocated: ")?;
        let active_bytes = read_stat(read_active(), "active: ")?;
        let mapped_bytes = read_stat(read_mapped(), "mapped: ")?;
        let retained_bytes = read_stat(read_retained(), "retained: ")?;
        Ok(JemallocStats { allocated_bytes, active_bytes, mapped_bytes, retained_bytes })
    }

    /// Checks that the statistics can be read.
    pub fn validate_config() -> (r: Result<(), JemallocError>)
        ensures
            r is Err ==> is_read_failure(r->Err_0),
    {
        if !Self::is_available() {
            return Err(JemallocError::NotAvailable);
        }
        Self::get_allocated_bytes()?;
        Ok(())
    }
}

} // verus!
