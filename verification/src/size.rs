//! The size guard: one byte ceiling per request, compared the same way before
//! a download is committed to and again against the finished artifact.

use vstd::prelude::*;
use vstd::string::*;
use crate::exchange::{fault, fault_of, with_file, Ask, Reply, Report, Request};
use crate::loaderror::{Failure, LoadError};
use crate::text::{decimal, decimal_digits};

verus! {

/// Bytes in one megabyte, as every size check of this library counts them.
pub const BYTES_PER_MEGABYTE: u64 = 1_000_000;

/// The largest megabyte count whose byte count still fits in a `u64`.
pub const MAX_MEGABYTES: u64 = 18_446_744_073_709;

/// The number of bytes that `mbyte` megabytes are.
pub open spec fn megabytes_in_bytes(mbyte: nat) -> nat {
    mbyte * 1_000_000
}

/// Converts the given megabyte value to bytes.
pub fn mbyte_to_byte(mbyte: u64) -> (bytes: u64)
    requires
        mbyte <= MAX_MEGABYTES,
    ensures
        bytes == megabytes_in_bytes(mbyte as nat),
{
    (mbyte * 1000) * 1000
}

/// Whether `size_bytes` bytes are more than a budget of `max_filesize`
/// megabytes allows. A size equal to the budget is within it.
pub open spec fn over_budget(size_bytes: u64, max_filesize: u64) -> bool {
    size_bytes > megabytes_in_bytes(max_filesize as nat)
}

/// Compares a size in bytes against a budget in megabytes, byte for byte.
/// The same comparison serves before a download, on the length that a
/// stream declares, and after it, on the size of the finished file.
///
/// A budget of more megabytes than a `u64` counts in bytes is beyond every
/// size.
pub fn exceeds(size_bytes: u64, max_filesize: u64) -> (over: bool)
    ensures
        over == over_budget(size_bytes, max_filesize),
{
    max_filesize <= MAX_MEGABYTES && size_bytes > mbyte_to_byte(max_filesize)
}

/// The whole megabytes in `size_bytes` bytes.
pub fn whole_megabytes(size_bytes: u64) -> (mbyte: u64)
    ensures
        mbyte == size_bytes as nat / 1_000_000,
        mbyte <= MAX_MEGABYTES,
{
    size_bytes / BYTES_PER_MEGABYTE
}

/// What is said of a finished file of `size_bytes` bytes that is over the
/// budget of `max_filesize` megabytes.
pub open spec fn file_too_large(size_bytes: u64, max_filesize: u64) -> Seq<char> {
    "The File is "@ + decimal_digits(size_bytes as nat / 1_000_000) + "MB large, limit is "@
        + decimal_digits(max_filesize as nat) + "MB so i cant post it"@
}

/// What becomes of the finished file `file_name` when its size is reported:
/// within the budget it is delivered with its size, and the files under
/// `discard` go; over the budget the request is rejected, and the file goes
/// with them. Where no size is reported the file is not delivered either.
pub open spec fn conclusion_of(
    file_name: Seq<char>,
    discard: Seq<Seq<char>>,
    max_filesize: u64,
    report: Report,
) -> Ask {
    match report {
        Report::Size(size_bytes) => if over_budget(size_bytes, max_filesize) {
            Ask::Fail {
                error: Failure::Rejected(file_too_large(size_bytes, max_filesize)),
                discard: discard.push(file_name),
            }
        } else {
            Ask::Deliver { file_name, size_bytes, discard }
        },
        _ => Ask::Fail { error: fault_of(report), discard: discard.push(file_name) },
    }
}

/// Holds the finished file `file_name` against the budget of `max_filesize`
/// megabytes, once its size is reported.
pub fn conclude(
    file_name: String,
    discard: Vec<String>,
    max_filesize: u64,
    reply: Reply,
) -> (request: Request)
    ensures
        request@ == conclusion_of(file_name@, discard.deep_view(), max_filesize, reply@),
{
    match reply {
        Reply::Size(size_bytes) => {
            if exceeds(size_bytes, max_filesize) {
                let text = String::from_str("The File is ").concat(
                    decimal(whole_megabytes(size_bytes)).as_str(),
                ).concat("MB large, limit is ").concat(decimal(max_filesize).as_str()).concat(
                    "MB so i cant post it",
                );
                Request::Fail {
                    error: LoadError::Rejected(text),
                    discard: with_file(discard, file_name),
                }
            } else {
                Request::Deliver { file_name, size_bytes, discard }
            }
        },
        other => Request::Fail { error: fault(other), discard: with_file(discard, file_name) },
    }
}

/// A file that a request has produced in the scratch directory.
#[derive(Debug, Clone, PartialEq, Eq)]
pub struct DownloadedFile {
    pub path: String,
    pub size_bytes: u64,
}

} // verus!
