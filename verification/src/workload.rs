//! Resolving a workload reference.
//!
//! A reference is either path-like (it starts with `.` or `/`) and names a local
//! file as it stands, or it is a URL. A `file` URL names a local file, an `http`
//! or `https` URL a body to fetch, and every other scheme is refused. Nothing
//! here touches the file system or the network: the outcome of resolution is a
//! [`Retrieval`], which says what remains to be read.

use vstd::prelude::*;
use vstd::string::*;

verus! {

/// `url::Url`: a parsed URL, carried through unread.
#[verifier::external_type_specification]
#[verifier::external_body]
pub struct ExUrl(url::Url);

/// `url::ParseError`: why `url::Url::parse` rejected its input.
#[verifier::external_type_specification]
#[verifier::external_body]
pub struct ExUrlParseError(url::ParseError);

/// `std::path::PathBuf`: a local path, carried through unread.
#[verifier::external_type_specification]
#[verifier::external_body]
pub struct ExPathBuf(std::path::PathBuf);

/// The scheme of the URL that `url::Url::parse` makes of `input`, as
/// `url::Url::scheme` reports it; `None` where `parse` rejects `input`.
pub uninterp spec fn url_scheme(input: Seq<char>) -> Option<Seq<char>>;

/// What a URL scheme asks of the host.
#[derive(Clone, Copy, Debug, PartialEq, Eq, Structural)]
pub enum SchemeKind {
    /// `file`: the URL names a local file.
    File,
    /// `http` or `https`: the URL names a body to fetch.
    Http,
    /// Any other scheme.
    Unsupported,
}

/// A reference is path-like when its first character is `.` or `/`.
pub open spec fn path_like(reference: Seq<char>) -> bool {
    reference.len() > 0 && (reference[0] == '.' || reference[0] == '/')
}

/// The kind of a scheme: `file`, `http` and `https` are served, nothing else.
pub open spec fn scheme_kind(scheme: Seq<char>) -> SchemeKind {
    if scheme == "file"@ {
        SchemeKind::File
    } else if scheme == "http"@ || scheme == "https"@ {
        SchemeKind::Http
    } else {
        SchemeKind::Unsupported
    }
}

/// A URL together with its scheme.
#[derive(Debug)]
pub struct WorkloadUrl {
    url: url::Url,
    scheme: String,
}

impl WorkloadUrl {
    /// The scheme, lower-cased and without the `:` that follows it.
    pub closed spec fn scheme_text(&self) -> Seq<char> {
        self.scheme@
    }

    /// The scheme, lower-cased and without the `:` that follows it.
    pub fn scheme(&self) -> (scheme: &String)
        ensures
            scheme@ == self.scheme_text(),
    {
        &self.scheme
    }

    /// The parsed URL.
    pub closed spec fn location(&self) -> url::Url {
        self.url
    }

    /// The parsed URL.
    pub fn url(&self) -> (url: &url::Url)
        ensures
            *url == self.location(),
    {
        &self.url
    }

    /// Gives up the parsed URL.
    pub fn into_url(self) -> (url: url::Url)
        ensures
            url == self.location(),
    {
        self.url
    }
}

/// A workload as first obtained: bytes in hand, or a URL still to be followed.
#[derive(Debug)]
pub enum Workload {
    /// A URL that says where the bytes are.
    Url(WorkloadUrl),
    /// The bytes themselves.
    Binary(Vec<u8>),
}

/// What remains to be done to hold the workload's bytes.
#[derive(Debug)]
pub enum Retrieval {
    /// Nothing: these are the bytes.
    Ready(Vec<u8>),
    /// Read the local file that a path-like reference names, as written.
    ReadPath(String),
    /// Read the local file that a `file` URL names.
    ReadFile(std::path::PathBuf),
    /// Fetch the URL over HTTP and collect the whole body.
    Fetch(url::Url),
}

/// Why a reference cannot be resolved. Each of these stops startup.
#[derive(Debug)]
pub enum ResolveError {
    /// The reference is neither path-like nor a URL.
    InvalidUrl { reference: String, cause: url::ParseError },
    /// The `file` URL names no local path.
    NoFilePath,
    /// The URL's scheme is none of `file`, `http`, `https`.
    UnsupportedScheme { scheme: String },
}

impl ResolveError {
    /// The text of the message that reports this error.
    pub open spec fn message_text(&self) -> Seq<char> {
        match self {
            ResolveError::InvalidUrl { reference, .. } => "failed to parse Wasm URL `"@
                + reference@ + "`"@,
            ResolveError::NoFilePath => "failed to convert Wasm URL to file path"@,
            ResolveError::UnsupportedScheme { scheme } => "URL scheme `"@ + scheme@
                + "` not supported"@,
        }
    }

    /// The message that reports this error.
    pub fn message(&self) -> (message: String)
        ensures
            message@ == self.message_text(),
    {
        match self {
            ResolveError::InvalidUrl { reference, .. } => {
                let mut message = String::from_str("failed to parse Wasm URL `");
                message.append(reference.as_str());
                message.append("`");
                message
            },
            ResolveError::NoFilePath => String::from_str(
                "failed to convert Wasm URL to file path",
            ),
            ResolveError::UnsupportedScheme { scheme } => {
                let mut message = String::from_str("URL scheme `");
                message.append(scheme.as_str());
                message.append("` not supported");
                message
            },
        }
    }
}

/// Calls `url::Url::parse` on `input` and, where it succeeds, reads the scheme
/// off the result with `url::Url::scheme`. The contract names the scheme found
/// as [`url_scheme`] of the input and claims nothing else of the URL.
#[verifier::external_body]
fn parse_url(input: &str) -> (parsed: Result<WorkloadUrl, url::ParseError>)
    ensures
        match parsed {
            Ok(workload_url) => url_scheme(input@) == Some(workload_url.scheme_text()),
            Err(_) => url_scheme(input@) is None,
        },
{
    match url::Url::parse(input) {
        Ok(url) => {
            let scheme = url.scheme().to_string();
            Ok(WorkloadUrl { url, scheme })
        },
        Err(cause) => Err(cause),
    }
}

/// Calls `url::Url::to_file_path`. Whether a URL names a local path depends on
/// the platform's path rules, so nothing is claimed of the outcome.
#[verifier::external_body]
fn url_to_file_path(url: &url::Url) -> Result<std::path::PathBuf, ()> {
    url.to_file_path()
}

/// Whether `reference` is path-like: whether it starts with `.` or `/`.
pub fn is_path_like(reference: &str) -> (answer: bool)
    ensures
        answer == path_like(reference@),
{
    if reference.is_empty() {
        false
    } else {
        let first = reference.get_char(0);
        first == '.' || first == '/'
    }
}

/// The kind of `scheme`.
pub fn classify_scheme(scheme: &String) -> (kind: SchemeKind)
    ensures
        kind == scheme_kind(scheme@),
{
    if *scheme == String::from_str("file") {
        SchemeKind::File
    } else if *scheme == String::from_str("http") || *scheme == String::from_str("https") {
        SchemeKind::Http
    } else {
        SchemeKind::Unsupported
    }
}

/// Parses a reference that is not path-like as a URL.
///
/// Succeeds exactly where `url::Url::parse` accepts the reference, and then
/// holds a URL whose scheme is the one that was found.
pub fn parse_reference(reference: &str) -> (parsed: Result<Workload, ResolveError>)
    ensures
        match url_scheme(reference@) {
            Some(scheme) => parsed matches Ok(Workload::Url(workload_url))
                && workload_url.scheme_text() == scheme,
            None => parsed matches Err(ResolveError::InvalidUrl { reference: named, .. })
                && named@ == reference@,
        },
{
    match parse_url(reference) {
        Ok(workload_url) => Ok(Workload::Url(workload_url)),
        Err(cause) => Err(ResolveError::InvalidUrl { reference: String::from_str(reference), cause }),
    }
}

/// What a `file` URL comes to, given the outcome of turning it into a path.
pub fn file_retrieval(path: Result<std::path::PathBuf, ()>) -> (outcome: Result<
    Retrieval,
    ResolveError,
>)
    ensures
        match path {
            Ok(local) => outcome == Ok::<Retrieval, ResolveError>(Retrieval::ReadFile(local)),
            Err(_) => outcome == Err::<Retrieval, ResolveError>(ResolveError::NoFilePath),
        },
{
    match path {
        Ok(local) => Ok(Retrieval::ReadFile(local)),
        Err(_) => Err(ResolveError::NoFilePath),
    }
}

impl Workload {
    /// What remains to be done to hold this workload's bytes.
    ///
    /// Bytes in hand are ready. A URL is followed by its scheme: `http` and
    /// `https` are fetched, `file` is read from the path that the URL names, or
    /// refused where it names none, and any other scheme is refused by name.
    pub fn retrieval(self) -> (outcome: Result<Retrieval, ResolveError>)
        ensures
            match self {
                Workload::Binary(bytes) => outcome == Ok::<Retrieval, ResolveError>(
                    Retrieval::Ready(bytes),
                ),
                Workload::Url(workload_url) => match scheme_kind(workload_url.scheme_text()) {
                    SchemeKind::File => outcome matches Ok(Retrieval::ReadFile(_)) || outcome
                        == Err::<Retrieval, ResolveError>(ResolveError::NoFilePath),
                    SchemeKind::Http => outcome == Ok::<Retrieval, ResolveError>(
                        Retrieval::Fetch(workload_url.location()),
                    ),
                    SchemeKind::Unsupported => outcome matches Err(
                        ResolveError::UnsupportedScheme { scheme },
                    ) && scheme@ == workload_url.scheme_text(),
                },
            },
    {
        match self {
            Workload::Binary(bytes) => Ok(Retrieval::Ready(bytes)),
            Workload::Url(workload_url) => match classify_scheme(workload_url.scheme()) {
                SchemeKind::File => file_retrieval(url_to_file_path(workload_url.url())),
                SchemeKind::Http => Ok(Retrieval::Fetch(workload_url.into_url())),
                SchemeKind::Unsupported => Err(
                    ResolveError::UnsupportedScheme { scheme: workload_url.scheme().clone() },
                ),
            },
        }
    }
}

/// Whether resolution refuses `reference`, whatever the platform: it is not
/// path-like, and it is no URL or its scheme is not served.
pub open spec fn refused(reference: Seq<char>) -> bool {
    !path_like(reference) && match url_scheme(reference) {
        Some(scheme) => scheme_kind(scheme) is Unsupported,
        None => true,
    }
}

/// Resolves a workload reference.
///
/// A path-like reference is read as written. Any other reference must parse as
/// a URL and is then followed by its scheme. A reference that is no URL fails
/// with [`ResolveError::InvalidUrl`], one with a scheme other than `file`,
/// `http` and `https` with [`ResolveError::UnsupportedScheme`], and these are
/// the only references refused on every platform.
pub fn resolve(reference: &str) -> (outcome: Result<Retrieval, ResolveError>)
    ensures
        path_like(reference@) ==> (outcome matches Ok(Retrieval::ReadPath(path)) && path@
            == reference@),
        !path_like(reference@) ==> match url_scheme(reference@) {
            None => outcome matches Err(ResolveError::InvalidUrl { reference: named, .. })
                && named@ == reference@,
            Some(scheme) => match scheme_kind(scheme) {
                SchemeKind::File => outcome matches Ok(Retrieval::ReadFile(_)) || outcome
                    == Err::<Retrieval, ResolveError>(ResolveError::NoFilePath),
                SchemeKind::Http => outcome matches Ok(Retrieval::Fetch(_)),
                SchemeKind::Unsupported => outcome matches Err(
                    ResolveError::UnsupportedScheme { scheme: named },
                ) && named@ == scheme,
            },
        },
        refused(reference@) ==> outcome is Err,
{
    if is_path_like(reference) {
        Ok(Retrieval::ReadPath(String::from_str(reference)))
    } else {
        match parse_reference(reference) {
            Ok(workload) => workload.retrieval(),
            Err(error) => Err(error),
        }
    }
}

} // verus!
