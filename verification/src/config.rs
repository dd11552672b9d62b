//! Fixed parameters of the distribution: retry budget, delays, and the
//! enumerated set of client years.

use vstd::prelude::*;
use vstd::string::StringExecFns;

verus! {

/// Fixed retry budget for one archive download.
pub const MAX_ATTEMPTS: u32 = 3;

/// Fixed delay, in seconds, before the second and later attempts.
pub const RETRY_DELAY_SECS: u64 = 2;

/// Number of supported client years.
pub const YEAR_COUNT: usize = 4;

/// The endpoint that answers with the latest published version token.
pub fn version_url() -> (r: String)
    ensures
        r@ == "https://setup.pekora.zip/version"@,
{
    String::from_str("https://setup.pekora.zip/version")
}

/// The URL of one year's archive:
/// `{base}/{version}-{prefix}{year}.zip`.
pub fn archive_url(version: &str, year: &str) -> (r: String)
    ensures
        r@ == "https://setup.pekora.zip/"@ + version@ + "-ProjectXApp"@ + year@ + ".zip"@,
{
    let mut r = String::from_str("https://setup.pekora.zip/");
    r.append(version);
    r.append("-ProjectXApp");
    r.append(year);
    r.append(".zip");
    r
}

/// The enumerated client years, in processing order. Each drives one archive
/// download and one extraction pass; the order is fixed so runs are
/// deterministic.
pub fn client_years() -> (r: Vec<String>)
    ensures
        r@.len() == YEAR_COUNT,
        r@[0]@ == "2017L"@,
        r@[1]@ == "2018L"@,
        r@[2]@ == "2020L"@,
        r@[3]@ == "2021M"@,
{
    let mut r: Vec<String> = Vec::new();
    r.push(String::from_str("2017L"));
    r.push(String::from_str("2018L"));
    r.push(String::from_str("2020L"));
    r.push(String::from_str("2021M"));
    r
}

} // verus!
