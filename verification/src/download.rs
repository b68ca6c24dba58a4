//! What a download needs besides the network: where the file goes, and how
//! far it has come.

use vstd::prelude::*;
use crate::text::joined;

verus! {

/// The smaller of two numbers.
pub open spec fn least(a: int, b: int) -> int {
    if a <= b {
        a
    } else {
        b
    }
}

/// How many bytes count as downloaded once a chunk of `chunk` bytes arrived
/// on top of `downloaded`: never more than the `total` that was announced.
pub fn download_progress(downloaded: u64, chunk: usize, total: u64) -> (r: u64)
    ensures
        r == least(downloaded + chunk, total as int),
{
    if downloaded >= total {
        return total;
    }
    let room: u64 = total - downloaded;
    let arrived: u64 = chunk as u64;
    if arrived >= room {
        total
    } else {
        downloaded + arrived
    }
}

/// Where a file named `filename` goes inside the directory `path`.
pub fn download_target(path: &str, filename: &str) -> (r: String)
    ensures
        r@ == path@ + "/"@ + filename@,
{
    let mut out = joined(path, "/");
    out.append(filename);
    out
}

} // verus!
