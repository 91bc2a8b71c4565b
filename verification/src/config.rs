//! How the tool is set up: the Immich client, what it may change, the years it
//! searches, and the command line that chooses them.

use vstd::prelude::*;
use vstd::string::StringExecFns;

use crate::civil::{current_year, parsed_span, read_span, year_as_u16, SpanUnits};

verus! {

#[verifier::external_type_specification]
#[verifier::external_body]
pub struct ExUri(ureq::http::Uri);

/// What the tool may change.
#[derive(Debug, Clone, Copy, Default)]
pub enum Mode {
    /// Change nothing; report what would change.
    #[default]
    DryRun,
    /// Set the original date and time of assets that have none.
    IfUnset,
    /// Also replace an original date and time that differs from the one in the
    /// file name by more than the given span.
    OverWrite(SpanUnits),
}

/// Clones a URI (`ureq::http::Uri`'s `Clone`); nothing is stated of the copy.
pub assume_specification[ <ureq::http::Uri as Clone>::clone ](uri: &ureq::http::Uri) -> ureq::http::Uri;

/// The host of the Immich API: a URI and the text that it writes.
#[derive(Debug, Clone)]
pub struct Host {
    uri: ureq::http::Uri,
    text: String,
}

impl View for Host {
    type V = Seq<char>;

    /// The text of the URI, as its `Display` writes it.
    closed spec fn view(&self) -> Seq<char> {
        self.text@
    }
}

/// The text that `ureq::http::Uri`'s `Display` writes for `uri`.
pub uninterp spec fn uri_text(uri: ureq::http::Uri) -> Seq<char>;

/// Pairs `uri` with the text that `ureq::http::Uri`'s `Display` writes for it.
#[verifier::external_body]
fn host_of(uri: ureq::http::Uri) -> (host: Host)
    ensures
        host.uri() == uri,
        host@ == uri_text(uri),
{
    let text = uri.to_string();
    Host { uri, text }
}

impl Host {
    /// The URI of the host.
    pub closed spec fn uri(&self) -> ureq::http::Uri {
        self.uri
    }

    /// The host `uri`.
    pub fn new(uri: ureq::http::Uri) -> (host: Host)
        ensures
            host.uri() == uri,
            host@ == uri_text(uri),
    {
        host_of(uri)
    }

    /// The URI of the host.
    pub fn as_uri(&self) -> (uri: &ureq::http::Uri)
        ensures
            *uri == self.uri(),
    {
        &self.uri
    }

    /// The text of the host's URI.
    pub fn as_str(&self) -> (text: &str)
        ensures
            text@ == self@,
    {
        self.text.as_str()
    }
}

/// How long one HTTP request may take.
#[derive(Debug, Clone, Copy, PartialEq, Eq, Structural)]
pub struct Timeout {
    pub secs: u64,
    pub subsec_nanos: u32,
}

impl Timeout {
    /// `secs` seconds.
    pub open spec fn spec_from_secs(secs: u64) -> Timeout {
        Timeout { secs, subsec_nanos: 0 }
    }

    /// The length of the timeout in nanoseconds.
    pub open spec fn nanos(self) -> int {
        self.secs * 1_000_000_000 + self.subsec_nanos
    }

    /// `secs` seconds.
    pub fn from_secs(secs: u64) -> (t: Timeout)
        ensures
            t == Timeout::spec_from_secs(secs),
            t.secs == secs,
            t.subsec_nanos == 0,
            t.nanos() == secs * 1_000_000_000,
    {
        Timeout { secs, subsec_nanos: 0 }
    }
}

/// Where and how to reach the Immich API.
#[derive(Debug, Clone)]
pub struct Client {
    pub api_key: String,
    pub host: Host,
    pub timeout: Timeout,
}

/// The URI that `str::parse::<ureq::http::Uri>` reads from the text; `None`
/// when the text is not a URI.
pub uninterp spec fn parsed_uri(text: Seq<char>) -> Option<ureq::http::Uri>;

/// Reads a URI (`str::parse::<ureq::http::Uri>`).
#[verifier::external_body]
fn parse_uri(text: &str) -> (res: Option<ureq::http::Uri>)
    ensures
        res == parsed_uri(text@),
{
    text.parse::<ureq::http::Uri>().ok()
}

impl Client {
    /// The endpoint that searches assets by their metadata: the host followed
    /// by `/search/metadata`.
    pub fn search_url(&self) -> (url: String)
        ensures
            url@ == self.host@ + "/search/metadata"@,
    {
        let mut url = String::from_str(self.host.as_str());
        url.append("/search/metadata");
        url
    }

    /// The endpoint of the asset `id`: the host followed by `/assets/{id}`.
    pub fn asset_url(&self, id: &str) -> (url: String)
        ensures
            url@ == self.host@ + "/assets/"@ + id@,
    {
        let mut url = String::from_str(self.host.as_str());
        url.append("/assets/");
        url.append(id);
        url
    }
}

/// `b` is the builder made for `host` and `api_key` with the default
/// settings: a dry run from 2000 to the current year, requests that time out
/// after 5 seconds.
pub open spec fn is_default_builder(b: Builder, host: ureq::http::Uri, api_key: String) -> bool {
    &&& b.client.host.uri() == host
    &&& b.client.host@ == uri_text(host)
    &&& b.client.timeout == Timeout::spec_from_secs(DEFAULT_TIMEOUT_SECS)
    &&& b.client.timeout.secs == 5 && b.client.timeout.subsec_nanos == 0
    &&& b.client.api_key == api_key
    &&& b.from_year == DEFAULT_FROM_YEAR
    &&& exists|now: int| -9999 <= now <= 9999 && b.until_year == year_as_u16(now)
    &&& b.mode is DryRun
}

/// Gathers the settings of an [`App`].
#[derive(Debug)]
pub struct Builder {
    pub client: Client,
    pub from_year: u16,
    pub until_year: u16,
    pub mode: Mode,
}

/// The year from which the search starts unless told otherwise.
pub const DEFAULT_FROM_YEAR: u16 = 2000;

/// The time, in seconds, that one HTTP request may take unless told otherwise.
pub const DEFAULT_TIMEOUT_SECS: u64 = 5;

impl Builder {
    /// A dry run over the years from 2000 to the current year, with requests
    /// that time out after 5 seconds.
    pub fn new(host: ureq::http::Uri, api_key: String) -> (b: Builder)
        ensures
            is_default_builder(b, host, api_key),
    {
        let until_year = current_year();
        Builder::new_until(host, api_key, until_year)
    }

    /// A dry run over the years from 2000 to `until_year`, with requests that
    /// time out after 5 seconds.
    pub fn new_until(host: ureq::http::Uri, api_key: String, until_year: u16) -> (b: Builder)
        ensures
            b.client.host.uri() == host,
            b.client.host@ == uri_text(host),
            b.client.timeout == Timeout::spec_from_secs(DEFAULT_TIMEOUT_SECS),
            b.client.timeout.secs == 5 && b.client.timeout.subsec_nanos == 0,
            b.client.api_key == api_key,
            b.from_year == DEFAULT_FROM_YEAR,
            b.until_year == until_year,
            b.mode is DryRun,
    {
        Builder {
            client: Client {
                host: Host::new(host),
                api_key,
                timeout: Timeout::from_secs(DEFAULT_TIMEOUT_SECS),
            },
            from_year: DEFAULT_FROM_YEAR,
            until_year,
            mode: Mode::DryRun,
        }
    }

    /// Change nothing.
    pub fn dry_run(self) -> (b: Builder)
        ensures
            b.mode is DryRun,
            b.client == self.client,
            b.from_year == self.from_year,
            b.until_year == self.until_year,
    {
        let mut b = self;
        b.mode = Mode::DryRun;
        b
    }

    /// Set the date of assets that have none.
    pub fn if_unset(self) -> (b: Builder)
        ensures
            b.mode is IfUnset,
            b.client == self.client,
            b.from_year == self.from_year,
            b.until_year == self.until_year,
    {
        let mut b = self;
        b.mode = Mode::IfUnset;
        b
    }

    /// Set the date of assets that have none, and replace a date that differs
    /// by more than `interval`.
    pub fn overwrite(self, interval: SpanUnits) -> (b: Builder)
        ensures
            b.mode == Mode::OverWrite(interval),
            b.client == self.client,
            b.from_year == self.from_year,
            b.until_year == self.until_year,
    {
        let mut b = self;
        b.mode = Mode::OverWrite(interval);
        b
    }

    /// The first year to search.
    pub fn from_year(self, year: u16) -> (b: Builder)
        ensures
            b.from_year == year,
            b.client == self.client,
            b.until_year == self.until_year,
            b.mode == self.mode,
    {
        let mut b = self;
        b.from_year = year;
        b
    }

    /// The last year to search.
    pub fn until_year(self, year: u16) -> (b: Builder)
        ensures
            b.until_year == year,
            b.client == self.client,
            b.from_year == self.from_year,
            b.mode == self.mode,
    {
        let mut b = self;
        b.until_year = year;
        b
    }

    /// The time that one HTTP request may take.
    pub fn http_timeout(self, timeout: Timeout) -> (b: Builder)
        ensures
            b.client.timeout == timeout,
            b.client.host == self.client.host,
            b.client.api_key == self.client.api_key,
            b.from_year == self.from_year,
            b.until_year == self.until_year,
            b.mode == self.mode,
    {
        let mut b = self;
        b.client.timeout = timeout;
        b
    }

    /// The app with these settings; it searches the years
    /// `from_year..=until_year`.
    pub fn build(self) -> (app: App)
        ensures
            app.client == self.client,
            app.mode == self.mode,
            app.first_year == self.from_year,
            app.last_year == self.until_year,
    {
        App {
            client: self.client,
            mode: self.mode,
            first_year: self.from_year,
            last_year: self.until_year,
        }
    }
}

/// Dates the assets of an Immich server from their file names.
#[derive(Debug)]
pub struct App {
    pub client: Client,
    pub mode: Mode,
    /// The years searched are `first_year..=last_year`, none when `first_year`
    /// is the larger.
    pub first_year: u16,
    pub last_year: u16,
}

impl App {
    /// A [`Builder`] for an app that talks to `host` with `api_key`.
    pub fn builder(host: ureq::http::Uri, api_key: String) -> (b: Builder)
        ensures
            is_default_builder(b, host, api_key),
    {
        Builder::new(host, api_key)
    }
}

/// The command line of the tool.
#[derive(Debug, Clone)]
pub struct Args {
    /// API key providing access to Immich's API.
    pub api_key: String,
    /// URL of the Immich API.
    pub host: String,
    /// Set the creation date of assets that have none.
    pub if_unset: bool,
    /// Also replace an existing creation date; implies `if_unset`.
    pub overwrite: bool,
    /// The largest difference, as a text that `jiff` reads as a span, that `overwrite` leaves in place.
    pub threshold: Option<String>,
    /// Explain what is being done.
    pub verbose: bool,
    /// The earliest year to search.
    pub from_year: u16,
    /// The latest year to search.
    pub until_year: u16,
    /// The time, in seconds, that one HTTP request may take.
    pub timeout: u64,
}

/// A command line that cannot be carried out.
#[derive(Debug, Clone, Copy, PartialEq, Eq, Structural)]
pub enum ArgsError {
    /// The host is not a URI.
    Host,
    /// The threshold is not a span.
    Threshold,
}

impl Args {
    /// The threshold text is given and `jiff` does not read it as a span.
    pub open spec fn bad_threshold(&self) -> bool {
        self.overwrite && self.threshold is Some && parsed_span(self.threshold->Some_0@) is None
    }

    /// The years to search, smaller first: a user who swapped `--from-year`
    /// and `--until-year` gets the years meant.
    pub fn year_bounds(&self) -> (bounds: (u16, u16))
        ensures
            bounds.0 <= bounds.1,
            (bounds.0 == self.from_year && bounds.1 == self.until_year) || (bounds.0
                == self.until_year && bounds.1 == self.from_year),
    {
        if self.from_year > self.until_year {
            (self.until_year, self.from_year)
        } else {
            (self.from_year, self.until_year)
        }
    }

    /// The builder that the command line asks for: `--overwrite` replaces dates
    /// that differ by more than the threshold (zero when none is given),
    /// `--if-unset` only sets missing dates, and otherwise nothing changes.
    pub fn configure(&self) -> (res: Result<Builder, ArgsError>)
        ensures
            res == Err::<Builder, ArgsError>(ArgsError::Host) <==> parsed_uri(self.host@) is None,
            res == Err::<Builder, ArgsError>(ArgsError::Threshold) <==> parsed_uri(self.host@) is Some
                && self.bad_threshold(),
            res matches Ok(b) ==> {
                &&& b.client.api_key == self.api_key
                &&& b.client.host.uri() == parsed_uri(self.host@)->Some_0
                &&& b.client.host@ == uri_text(parsed_uri(self.host@)->Some_0)
                &&& b.from_year <= b.until_year
                &&& (b.from_year == self.from_year && b.until_year == self.until_year) || (
                b.from_year == self.until_year && b.until_year == self.from_year)
                &&& b.client.timeout == Timeout::spec_from_secs(self.timeout)
                &&& b.client.timeout.secs == self.timeout && b.client.timeout.subsec_nanos == 0
                &&& (b.mode is OverWrite <==> self.overwrite)
                &&& self.overwrite ==> b.mode == Mode::OverWrite(
                    match self.threshold {
                        Some(text) => parsed_span(text@)->Some_0,
                        None => SpanUnits::spec_zero(),
                    },
                )
                &&& (b.mode is IfUnset <==> !self.overwrite && self.if_unset)
                &&& (b.mode is DryRun <==> !self.overwrite && !self.if_unset)
            },
    {
        let host = match parse_uri(self.host.as_str()) {
            Some(uri) => Host::new(uri),
            None => return Err(ArgsError::Host),
        };
        let mode = if self.overwrite {
            match &self.threshold {
                Some(text) => match read_span(text.as_str()) {
                    Some(span) => Mode::OverWrite(span),
                    None => return Err(ArgsError::Threshold),
                },
                None => Mode::OverWrite(SpanUnits::zero()),
            }
        } else if self.if_unset {
            Mode::IfUnset
        } else {
            Mode::DryRun
        };
        let (first, last) = self.year_bounds();
        let b = Builder {
            client: Client { host, api_key: self.api_key.clone(), timeout: Timeout::from_secs(self.timeout) },
            from_year: first,
            until_year: last,
            mode,
        };
        Ok(b)
    }
}

} // verus!
