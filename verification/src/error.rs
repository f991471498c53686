//! The failures of a crawl and how each is reported.

use vstd::prelude::*;
use vstd::string::StringExecFns;

verus! {

/// What can go wrong in a crawl.
#[derive(Debug, Clone, PartialEq, Eq)]
pub enum CrawlerError {
    /// The transport answered with a failure.
    HttpError(String),
    /// The request could not be made.
    RequestError(String),
    /// A URL did not parse.
    UrlParseError(String),
    /// No usable URL was given.
    UrlError(String),
    /// A selector or pattern was malformed.
    SelectorError(String),
    /// The crawl ran out of time.
    TimeoutError,
    /// The crawl itself failed.
    CrawlError(String),
    /// A date did not parse.
    DateParsingError(String),
    /// Anything else.
    Other(String),
}

/// The classes that failures fall into.
#[derive(Debug, Clone, Copy, PartialEq, Eq, Structural)]
pub enum ErrorKind {
    /// No parseable seed URL.
    InvalidInput,
    /// A transport or HTTP error.
    FetchFailure,
    /// A malformed selector or markup.
    ParseFailure,
    /// A budget of time ran out.
    TimeoutExceeded,
    /// The catch-all.
    Other,
}

/// The status that reports success, also used for a crawl that ran out of
/// time: what it found so far is still an answer.
pub const STATUS_OK: u16 = 200;

/// The status that reports malformed input.
pub const STATUS_BAD_REQUEST: u16 = 400;

/// Whether a status reports that a page was served.
pub open spec fn is_success(status: u16) -> bool {
    200 <= status < 300
}

/// What the status of a fetched page means for the crawl: nothing where the
/// page was served, else the failure that carries `status_text`.
pub fn fetch_failure(status: u16, status_text: String) -> (failure: Option<CrawlerError>)
    ensures
        failure is None <==> is_success(status),
        failure matches Some(e) ==> e == CrawlerError::HttpError(status_text),
{
    if 200 <= status && status < 300 {
        None
    } else {
        Some(CrawlerError::HttpError(status_text))
    }
}

impl CrawlerError {
    /// The class of this failure.
    pub open spec fn kind_of(self) -> ErrorKind {
        match self {
            CrawlerError::UrlParseError(_) | CrawlerError::UrlError(_) => ErrorKind::InvalidInput,
            CrawlerError::HttpError(_) | CrawlerError::RequestError(_) => ErrorKind::FetchFailure,
            CrawlerError::SelectorError(_) | CrawlerError::DateParsingError(_) => ErrorKind::ParseFailure,
            CrawlerError::TimeoutError => ErrorKind::TimeoutExceeded,
            CrawlerError::CrawlError(_) | CrawlerError::Other(_) => ErrorKind::Other,
        }
    }

    /// The detail that the failure carries; empty for a timeout.
    pub open spec fn detail(self) -> Seq<char> {
        match self {
            CrawlerError::HttpError(d) => d@,
            CrawlerError::RequestError(d) => d@,
            CrawlerError::UrlParseError(d) => d@,
            CrawlerError::UrlError(d) => d@,
            CrawlerError::SelectorError(d) => d@,
            CrawlerError::TimeoutError => Seq::empty(),
            CrawlerError::CrawlError(d) => d@,
            CrawlerError::DateParsingError(d) => d@,
            CrawlerError::Other(d) => d@,
        }
    }

    /// What stands before the detail in the failure's description.
    pub open spec fn label(self) -> Seq<char> {
        match self {
            CrawlerError::HttpError(_) => "HTTP request failed: "@,
            CrawlerError::RequestError(_) => "Request error: "@,
            CrawlerError::UrlParseError(_) => "URL parsing failed: "@,
            CrawlerError::UrlError(_) => "URL error: "@,
            CrawlerError::SelectorError(_) => "Selector error: "@,
            CrawlerError::TimeoutError => "Crawling timeout"@,
            CrawlerError::CrawlError(_) => "Crawling failed: "@,
            CrawlerError::DateParsingError(_) => "Date parsing failed: "@,
            CrawlerError::Other(_) => "Other error: "@,
        }
    }

    /// The description of the failure: its label, then its detail.
    pub open spec fn description(self) -> Seq<char> {
        self.label() + self.detail()
    }

    /// What stands before the detail in the text sent to a client.
    pub open spec fn response_label(self) -> Seq<char> {
        match self {
            CrawlerError::HttpError(_) => "HTTP error: "@,
            CrawlerError::RequestError(_) => "Request error: "@,
            CrawlerError::UrlParseError(_) => "URL parse error: "@,
            CrawlerError::UrlError(_) => "Invalid URL: "@,
            CrawlerError::SelectorError(_) => "Selector error: "@,
            CrawlerError::TimeoutError => "Crawling exceeded the time limit"@,
            CrawlerError::CrawlError(_) => "Crawl error: "@,
            CrawlerError::DateParsingError(_) => "Date parsing error: "@,
            CrawlerError::Other(_) => "Other error: "@,
        }
    }

    /// The status with which the failure is answered.
    pub open spec fn status_of(self) -> u16 {
        if self is TimeoutError {
            STATUS_OK
        } else {
            STATUS_BAD_REQUEST
        }
    }

    /// The class of this failure.
    pub fn kind(&self) -> (k: ErrorKind)
        ensures
            k == self.kind_of(),
    {
        match self {
            CrawlerError::UrlParseError(_) | CrawlerError::UrlError(_) => ErrorKind::InvalidInput,
            CrawlerError::HttpError(_) | CrawlerError::RequestError(_) => ErrorKind::FetchFailure,
            CrawlerError::SelectorError(_) | CrawlerError::DateParsingError(_) => ErrorKind::ParseFailure,
            CrawlerError::TimeoutError => ErrorKind::TimeoutExceeded,
            CrawlerError::CrawlError(_) | CrawlerError::Other(_) => ErrorKind::Other,
        }
    }

    /// The description of the failure: its label, then its detail.
    pub fn message(&self) -> (s: String)
        ensures
            s@ == self.description(),
    {
        let s = match self {
            CrawlerError::HttpError(d) => String::from_str("HTTP request failed: ").concat(d.as_str()),
            CrawlerError::RequestError(d) => String::from_str("Request error: ").concat(d.as_str()),
            CrawlerError::UrlParseError(d) => String::from_str("URL parsing failed: ").concat(
                d.as_str(),
            ),
            CrawlerError::UrlError(d) => String::from_str("URL error: ").concat(d.as_str()),
            CrawlerError::SelectorError(d) => String::from_str("Selector error: ").concat(d.as_str()),
            CrawlerError::TimeoutError => String::from_str("Crawling timeout"),
            CrawlerError::CrawlError(d) => String::from_str("Crawling failed: ").concat(d.as_str()),
            CrawlerError::DateParsingError(d) => String::from_str("Date parsing failed: ").concat(
                d.as_str(),
            ),
            CrawlerError::Other(d) => String::from_str("Other error: ").concat(d.as_str()),
        };
        assert(s@ =~= self.label() + self.detail());
        s
    }

    /// The text sent to a client for this failure.
    pub fn response_message(&self) -> (s: String)
        ensures
            s@ == self.response_label() + self.detail(),
    {
        let s = match self {
            CrawlerError::HttpError(d) => String::from_str("HTTP error: ").concat(d.as_str()),
            CrawlerError::RequestError(d) => String::from_str("Request error: ").concat(d.as_str()),
            CrawlerError::UrlParseError(d) => String::from_str("URL parse error: ").concat(
                d.as_str(),
            ),
            CrawlerError::UrlError(d) => String::from_str("Invalid URL: ").concat(d.as_str()),
            CrawlerError::SelectorError(d) => String::from_str("Selector error: ").concat(d.as_str()),
            CrawlerError::TimeoutError => String::from_str("Crawling exceeded the time limit"),
            CrawlerError::CrawlError(d) => String::from_str("Crawl error: ").concat(d.as_str()),
            CrawlerError::DateParsingError(d) => String::from_str("Date parsing error: ").concat(
                d.as_str(),
            ),
            CrawlerError::Other(d) => String::from_str("Other error: ").concat(d.as_str()),
        };
        assert(s@ =~= self.response_label() + self.detail());
        s
    }

    /// The status with which the failure is answered: a timeout still
    /// answers with what was found, everything else is a bad request.
    pub fn status_code(&self) -> (code: u16)
        ensures
            code == self.status_of(),
            code == STATUS_OK <==> self.kind_of() == ErrorKind::TimeoutExceeded,
    {
        match self {
            CrawlerError::TimeoutError => STATUS_OK,
            _ => STATUS_BAD_REQUEST,
        }
    }
}

} // verus!
