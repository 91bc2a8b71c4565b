//! What the Immich HTTP API sends and receives, the requests the tool makes,
//! and how a failed request is explained.

use vstd::prelude::*;
use vstd::string::StringExecFns;

use crate::civil::{displayed_datetime, iso_text, CivilDateTime};

verus! {

/// The answer to a search for assets by file name.
#[derive(Debug, Clone)]
pub struct Search {
    pub assets: Results,
}

/// One page of search results.
#[derive(Debug, Clone)]
pub struct Results {
    pub items: Vec<Asset>,
    /// The page to ask for next; `None` on the last page.
    pub next_page: Option<String>,
    /// The total number of assets that match the query.
    pub total: usize,
}

/// A photo or video on the Immich server.
#[derive(Debug, Clone)]
pub struct Asset {
    pub id: String,
    pub original_file_name: String,
    pub exif_info: Option<ExifInfo>,
}

/// The EXIF data of an asset that the tool reads and writes.
#[derive(Debug, Clone, Default, PartialEq, Eq, PartialOrd, Ord)]
pub struct ExifInfo {
    pub date_time_original: Option<String>,
}

/// A search for assets whose file name contains a text.
#[derive(Debug, Clone)]
pub struct Query {
    pub original_file_name: String,
    pub page: Option<String>,
}

/// The change that sets the original date and time of an asset.
#[derive(Debug)]
pub struct Patch {
    pub date_time_original: String,
}

impl CivilDateTime {
    /// `self` as `jiff` writes a datetime; `YYYY-MM-DDTHH:MM:SS` for a year
    /// from 0 to 9999 and no fraction of a second.
    pub fn display(&self) -> (s: String)
        requires
            self.is_valid(),
        ensures
            s@ == displayed_datetime(*self),
            self.date.year >= 0 && self.time.subsec_nanosecond == 0 ==> s@ == iso_text(*self),
    {
        crate::civil::display_datetime(self)
    }
}

/// The change that sets the original date and time of an asset to `datetime`,
/// written as `jiff` writes it.
pub fn date_patch(datetime: &CivilDateTime) -> (patch: Patch)
    requires
        datetime.is_valid(),
    ensures
        patch.date_time_original@ == displayed_datetime(*datetime),
        datetime.date.year >= 0 && datetime.time.subsec_nanosecond == 0
            ==> patch.date_time_original@ == iso_text(*datetime),
{
    Patch { date_time_original: datetime.display() }
}

/// The text that an asset holds as its original date and time, if any.
pub open spec fn recorded_text(asset: Asset) -> Option<String> {
    match asset.exif_info {
        Some(info) => info.date_time_original,
        None => None,
    }
}

impl Asset {
    /// The text that the asset holds as its original date and time, if any.
    pub fn recorded_datetime_text(&self) -> (res: Option<&String>)
        ensures
            match res {
                Some(text) => recorded_text(*self) == Some(*text),
                None => recorded_text(*self) is None,
            },
    {
        match &self.exif_info {
            Some(info) => match &info.date_time_original {
                Some(text) => Some(text),
                None => None,
            },
            None => None,
        }
    }
}

/// How a request to the Immich API failed.
#[derive(Debug, Clone, Copy, PartialEq, Eq, Structural)]
pub enum HttpFailure {
    /// The server answered with this HTTP status code.
    Status(u16),
    /// The answer was not the JSON that was expected.
    Json,
    /// Any other failure: the connection, a timeout, ...
    Other,
}

/// The hint that goes with a failure, if the failure has one.
pub open spec fn spec_hint(failure: HttpFailure) -> Option<Seq<char>> {
    match failure {
        HttpFailure::Status(401) => Some(UNAUTHORIZED@),
        HttpFailure::Status(403) => Some(FORBIDDEN@),
        HttpFailure::Status(404) => Some(NOT_FOUND@),
        HttpFailure::Json => Some(BAD_JSON@),
        _ => None,
    }
}

/// The hint for status 401.
pub const UNAUTHORIZED: &'static str = "not authorized, please verify the API key";

/// The hint for status 403.
pub const FORBIDDEN: &'static str = "the API key doesn't have correct permissions, make sure to enable the permissions asset.read and asset.update";

/// The hint for status 404.
pub const NOT_FOUND: &'static str = "are you sure the location of the Immich API is correct?";

/// The hint for an answer that is not the expected JSON.
pub const BAD_JSON: &'static str = "failed to parse the JSON received from endpoint";

/// The hint that goes with a failure, if the failure has one.
pub fn hint(failure: &HttpFailure) -> (res: Option<&'static str>)
    ensures
        match res {
            Some(h) => spec_hint(*failure) == Some(h@),
            None => spec_hint(*failure) is None,
        },
{
    match failure {
        HttpFailure::Status(401) => Some(UNAUTHORIZED),
        HttpFailure::Status(403) => Some(FORBIDDEN),
        HttpFailure::Status(404) => Some(NOT_FOUND),
        HttpFailure::Json => Some(BAD_JSON),
        _ => None,
    }
}

/// `interaction with {url} failed`, followed by `: {hint}` when the failure
/// has a hint.
pub open spec fn spec_failure_message(url: Seq<char>, failure: HttpFailure) -> Seq<char> {
    let head = "interaction with "@ + url + " failed"@;
    match spec_hint(failure) {
        Some(h) => head + ": "@ + h,
        None => head,
    }
}

/// Explains a failed interaction with `url`, as the tool reports it.
pub fn failure_message(url: &str, failure: &HttpFailure) -> (msg: String)
    ensures
        msg@ == spec_failure_message(url@, *failure),
{
    let mut msg = String::from_str("interaction with ");
    msg.append(url);
    msg.append(" failed");
    match hint(failure) {
        Some(h) => {
            msg.append(": ");
            msg.append(h);
        },
        None => {},
    }
    msg
}

} // verus!
