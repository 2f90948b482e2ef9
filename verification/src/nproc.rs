//! How many cores to report.

use vstd::prelude::*;

verus! {

/// The count that is reported at the least.
pub const MIN_CORES_ALLOWED: usize = 1;

/// The cores that count before any are ignored: the physical ones where
/// all are asked for; else the number of threads that the environment
/// fixes; else the logical ones, capped by the limit that the environment
/// sets.
pub open spec fn cores_counted(
    all: bool,
    omp_num_limit: Option<usize>,
    omp_num_threads: Option<usize>,
    logical: usize,
    physical: usize,
) -> usize {
    if all {
        physical
    } else if let Some(threads) = omp_num_threads {
        threads
    } else if let Some(limit) = omp_num_limit {
        if limit < logical {
            limit
        } else {
            logical
        }
    } else {
        logical
    }
}

/// The cores that are reported: those counted less those ignored, and the
/// minimum where that would leave none.
pub open spec fn cores_reported(
    all: bool,
    ignore: usize,
    omp_num_limit: Option<usize>,
    omp_num_threads: Option<usize>,
    logical: usize,
    physical: usize,
) -> usize {
    let cores = cores_counted(all, omp_num_limit, omp_num_threads, logical, physical);
    if ignore >= cores {
        MIN_CORES_ALLOWED
    } else {
        (cores - ignore) as usize
    }
}

/// Decides the count to report from what the machine has.
pub fn cores_to_report(
    all: bool,
    ignore: usize,
    omp_num_limit: Option<usize>,
    omp_num_threads: Option<usize>,
    logical: usize,
    physical: usize,
) -> (cores: usize)
    ensures
        cores == cores_reported(all, ignore, omp_num_limit, omp_num_threads, logical, physical),
        cores >= 1,
{
    let cores = if all {
        physical
    } else if let Some(threads) = omp_num_threads {
        threads
    } else if let Some(limit) = omp_num_limit {
        if limit < logical {
            limit
        } else {
            logical
        }
    } else {
        logical
    };
    if ignore >= cores {
        MIN_CORES_ALLOWED
    } else {
        cores - ignore
    }
}

/// The number of logical cores that the current process may use, from
/// `num_cpus::get`. It depends on the machine; the crate documents that it
/// is at least 1.
#[verifier::external_body]
fn logical_cores() -> (cores: usize)
    ensures
        cores >= 1,
{
    num_cpus::get()
}

/// The number of physical cores of the machine, from
/// `num_cpus::get_physical`. It depends on the machine; the crate documents
/// that it is at least 1.
#[verifier::external_body]
fn physical_cores() -> (cores: usize)
    ensures
        cores >= 1,
{
    num_cpus::get_physical()
}

/// The count to report on this machine.
pub fn nproc_count(
    all: bool,
    ignore: usize,
    omp_num_limit: Option<usize>,
    omp_num_threads: Option<usize>,
) -> (cores: usize)
    ensures
        cores >= 1,
        exists|logical: usize, physical: usize|
            logical >= 1 && physical >= 1 && cores == cores_reported(
                all,
                ignore,
                omp_num_limit,
                omp_num_threads,
                logical,
                physical,
            ),
        !all ==> (omp_num_threads matches Some(threads) ==> cores == if ignore >= threads {
            MIN_CORES_ALLOWED
        } else {
            (threads - ignore) as usize
        }),
{
    let logical = logical_cores();
    let physical = physical_cores();
    let cores = cores_to_report(all, ignore, omp_num_limit, omp_num_threads, logical, physical);
    assert(logical >= 1 && physical >= 1 && cores == cores_reported(
        all,
        ignore,
        omp_num_limit,
        omp_num_threads,
        logical,
        physical,
    ));
    cores
}

} // verus!
