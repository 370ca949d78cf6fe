//! The protocol client: which request each operation sends to the daemon's
//! control endpoint, and what each reply means.

use vstd::prelude::*;
use vstd::string::*;
use crate::config::{CREATE_REMOTE, DELETE_REMOTE, LIST_FILES, LIST_REMOTES, UPDATE_REMOTE};
use crate::error::LazyFileError;
use crate::json::{
    error_message,
    error_text,
    member,
    member_of,
    parse,
    parsed,
    string_list,
    strings_of,
    texts,
};
use crate::text::{decimal, decimal_string, join};
use crate::types::{
    ConfigCreateRequest,
    ConfigDeleteRequest,
    ConfigUpdateRequest,
    FileItem,
    ListFilesResponse,
    Parameters,
};

verus! {

/// What a request carries besides its address.
#[derive(Debug, Clone)]
pub enum RequestBody {
    /// Nothing.
    Empty,
    /// The file system to list, as `remote:path`, and the path below it.
    ListFiles { fs: String, remote: String },
    Create(ConfigCreateRequest),
    Update(ConfigUpdateRequest),
    Delete(ConfigDeleteRequest),
}

/// One request to the daemon. Every request is a POST.
#[derive(Debug, Clone)]
pub struct HttpRequest {
    pub url: String,
    pub body: RequestBody,
}

/// How one round trip ended.
#[derive(Debug, Clone)]
pub enum HttpOutcome {
    /// No reply could be had: the daemon was not reached or the exchange
    /// broke off. The text says why.
    Failed(String),
    /// The daemon replied: the status code, the status as it is shown (code
    /// and reason), and the body.
    Response { code: u16, status: String, body: String },
}

/// The message of a reply that is JSON but not of the expected shape.
pub open spec fn unexpected_format() -> Seq<char> {
    "Unexpected response format from rclone"@
}

/// Whether a status code reports success: the codes from 200 to 299.
pub open spec fn is_success(code: u16) -> bool {
    200 <= code < 300
}

/// What a reply means for an operation that returns nothing: a failed
/// exchange is an HTTP error with its text, a status outside 200 to 299 an
/// API error that holds `failure` and then the body, anything else success.
pub open spec fn command_result(
    failure: Seq<char>,
    outcome: HttpOutcome,
    r: Result<(), LazyFileError>,
) -> bool {
    match outcome {
        HttpOutcome::Failed(why) => r == Err::<(), LazyFileError>(LazyFileError::Http(why)),
        HttpOutcome::Response { code, status, body } => if is_success(code) {
            r is Ok
        } else {
            match r {
                Err(LazyFileError::RcloneApi(m)) => m@ == failure + body@,
                _ => false,
            }
        },
    }
}

/// What a listing's reply means where it is no success: a failed exchange is
/// an HTTP error with its text, a status outside 200 to 299 an API error that
/// holds `failure` and then the status. Of a successful status it says nothing.
pub open spec fn listing_failure<T>(
    failure: Seq<char>,
    outcome: HttpOutcome,
    r: Result<T, LazyFileError>,
) -> bool {
    match outcome {
        HttpOutcome::Failed(why) => r == Err::<T, LazyFileError>(LazyFileError::Http(why)),
        HttpOutcome::Response { code, status, body } => !is_success(code) ==> match r {
            Err(LazyFileError::RcloneApi(m)) => m@ == failure + status@,
            _ => false,
        },
    }
}

/// `r` is what `files_in` makes of `decoded`: the list where the reply
/// holds one, no entries where it holds none, and an API error where
/// `decoded` is `None`.
pub open spec fn files_found(
    decoded: Option<ListFilesResponse>,
    r: Result<Vec<FileItem>, LazyFileError>,
) -> bool {
    match decoded {
        Some(ListFilesResponse { list: Some(items) }) => r == Ok::<Vec<FileItem>, LazyFileError>(
            items,
        ),
        Some(ListFilesResponse { list: None }) => r is Ok && r->Ok_0@ == Seq::<FileItem>::empty(),
        None => format_failure(r),
    }
}

/// `r` is the JSON error for a body whose parse failed with `error`.
pub open spec fn json_failure<T>(error: serde_json::Error, r: Result<T, LazyFileError>) -> bool {
    match r {
        Err(LazyFileError::Json(m)) => m@ == error_message(error),
        _ => false,
    }
}

/// `r` is the API error for a reply that is JSON but not of the expected
/// shape.
pub open spec fn format_failure<T>(r: Result<T, LazyFileError>) -> bool {
    match r {
        Err(LazyFileError::RcloneApi(m)) => m@ == unexpected_format(),
        _ => false,
    }
}

/// The remotes that a body names: the strings of the list under `remotes`
/// in the document that the body parses to. `None` where the document has
/// no such member or the member is no list of strings.
pub open spec fn remotes_named(document: serde_json::Value) -> Option<Seq<Seq<char>>> {
    match member_of(document, "remotes"@) {
        Some(found) => strings_of(found),
        None => None,
    }
}

/// `r` is the result that `list_remotes` gives for `outcome`. A failed
/// exchange and a failure status are errors, as `listing_failure` says. A
/// body that does not parse is a JSON error with the parser's message. A
/// body that parses gives the remotes it names, in their order, or an API
/// error where it names none.
pub open spec fn remotes_listed(outcome: HttpOutcome, r: Result<Vec<String>, LazyFileError>) -> bool {
    &&& listing_failure("Failed to list remotes: "@, outcome, r)
    &&& match outcome {
        HttpOutcome::Response { code, status, body } if is_success(code) => match parsed(body@) {
            Err(error) => json_failure(error, r),
            Ok(document) => match remotes_named(document) {
                Some(names) => r is Ok && texts(r->Ok_0@) == names,
                None => format_failure(r),
            },
        },
        _ => true,
    }
}

/// `r` is the result that `list_files` gives for `outcome` and `decoded`. A
/// failed exchange and a failure status are errors, as `listing_failure`
/// says. A body that does not parse is a JSON error with the parser's
/// message. For a body that parses, `r` is what `files_in` makes of
/// `decoded`.
pub open spec fn files_listed(
    outcome: HttpOutcome,
    decoded: Option<ListFilesResponse>,
    r: Result<Vec<FileItem>, LazyFileError>,
) -> bool {
    &&& listing_failure("Failed to list files: "@, outcome, r)
    &&& match outcome {
        HttpOutcome::Response { code, status, body } if is_success(code) => match parsed(body@) {
            Err(error) => json_failure(error, r),
            Ok(_) => files_found(decoded, r),
        },
        _ => true,
    }
}

/// The remotes of a reply whose member `remotes` was looked up and read as a
/// list of strings: `found` holds the list, or `None` where the member is
/// missing or no list of strings, which is an API error.
pub fn remotes_in(found: Option<Vec<String>>) -> (r: Result<Vec<String>, LazyFileError>)
    ensures
        match found {
            Some(list) => r == Ok::<Vec<String>, LazyFileError>(list),
            None => format_failure(r),
        },
{
    match found {
        Some(list) => Ok(list),
        None => Err(LazyFileError::RcloneApi("Unexpected response format from rclone".to_owned())),
    }
}

/// The entries of a file listing that was read from a reply: `decoded` is
/// `None` where the reply is not of the listing's shape, which is an API
/// error. A reply without a list is an empty directory.
pub fn files_in(decoded: Option<ListFilesResponse>) -> (r: Result<Vec<FileItem>, LazyFileError>)
    ensures
        files_found(decoded, r),
{
    match decoded {
        Some(response) => match response.list {
            Some(items) => Ok(items),
            None => Ok(Vec::new()),
        },
        None => Err(LazyFileError::RcloneApi("Unexpected response format from rclone".to_owned())),
    }
}

/// The client of one daemon: it knows where the daemon listens.
#[derive(Debug, Clone)]
pub struct RcloneClient {
    base_url: String,
}

impl RcloneClient {
    /// The address that every request's address starts with.
    pub closed spec fn base(self) -> Seq<char> {
        self.base_url@
    }

    /// The address of the operation `method`.
    pub open spec fn address(self, method: Seq<char>) -> Seq<char> {
        self.base() + "/"@ + method
    }

    /// `r` is the request that lists the configured remotes.
    pub open spec fn lists_remotes(self, r: HttpRequest) -> bool {
        &&& r.url@ == self.address(LIST_REMOTES@)
        &&& r.body is Empty
    }

    /// `r` is the request that lists the files of `remote` at `path`: remote
    /// and path are joined by one colon, and nothing is named below them.
    pub open spec fn lists_files(self, remote: Seq<char>, path: Seq<char>, r: HttpRequest) -> bool {
        &&& r.url@ == self.address(LIST_FILES@)
        &&& match r.body {
            RequestBody::ListFiles { fs, remote: below } => {
                &&& fs@ == remote + ":"@ + path
                &&& below@ == Seq::<char>::empty()
            },
            _ => false,
        }
    }

    /// `r` is the request that creates the remote `name` of type
    /// `remote_type` with the parameter entries `entries`.
    pub open spec fn creates(
        self,
        name: Seq<char>,
        remote_type: Seq<char>,
        entries: Seq<(String, String)>,
        r: HttpRequest,
    ) -> bool {
        &&& r.url@ == self.address(CREATE_REMOTE@)
        &&& match r.body {
            RequestBody::Create(request) => {
                &&& request.name@ == name
                &&& request.remote_type@ == remote_type
                &&& request.parameters.entries@ == entries
            },
            _ => false,
        }
    }

    /// `r` is the request that gives the remote `name` the parameter entries
    /// `entries`.
    pub open spec fn updates(
        self,
        name: Seq<char>,
        entries: Seq<(String, String)>,
        r: HttpRequest,
    ) -> bool {
        &&& r.url@ == self.address(UPDATE_REMOTE@)
        &&& match r.body {
            RequestBody::Update(request) => {
                &&& request.name@ == name
                &&& request.parameters.entries@ == entries
            },
            _ => false,
        }
    }

    /// `r` is the request that deletes the remote `name`.
    pub open spec fn deletes(self, name: Seq<char>, r: HttpRequest) -> bool {
        &&& r.url@ == self.address(DELETE_REMOTE@)
        &&& match r.body {
            RequestBody::Delete(request) => request.name@ == name,
            _ => false,
        }
    }

    /// A client for the daemon at `host`, port `port`.
    pub fn new(host: &str, port: u16) -> (r: Self)
        ensures
            r.base() == "http://"@ + host@ + ":"@ + decimal(port as nat),
    {
        let mut base_url = join("http://", host);
        base_url.append(":");
        let digits = decimal_string(port);
        base_url.append(digits.as_str());
        RcloneClient { base_url }
    }

    /// The address that every request's address starts with.
    pub fn base_url(&self) -> (r: &str)
        ensures
            r@ == self.base(),
    {
        self.base_url.as_str()
    }

    fn url(&self, method: &str) -> (r: String)
        ensures
            r@ == self.address(method@),
    {
        let mut url = join(self.base_url.as_str(), "/");
        url.append(method);
        url
    }

    /// The request that lists the configured remotes.
    pub fn list_remotes_request(&self) -> (r: HttpRequest)
        ensures
            self.lists_remotes(r),
    {
        HttpRequest { url: self.url(LIST_REMOTES), body: RequestBody::Empty }
    }

    /// The request that lists the files of `remote` at `path`; the empty path
    /// is the remote's root. Remote and path are joined by one colon.
    pub fn list_files_request(&self, remote: &str, path: &str) -> (r: HttpRequest)
        ensures
            self.lists_files(remote@, path@, r),
    {
        let mut fs = join(remote, ":");
        fs.append(path);
        HttpRequest {
            url: self.url(LIST_FILES),
            body: RequestBody::ListFiles { fs, remote: String::new() },
        }
    }

    /// The request that creates the remote `name` of type `remote_type` with
    /// the given parameters.
    pub fn create_remote_request(
        &self,
        name: &str,
        remote_type: &str,
        parameters: Parameters,
    ) -> (r: HttpRequest)
        ensures
            self.creates(name@, remote_type@, parameters.entries@, r),
    {
        HttpRequest {
            url: self.url(CREATE_REMOTE),
            body: RequestBody::Create(
                ConfigCreateRequest {
                    name: name.to_owned(),
                    remote_type: remote_type.to_owned(),
                    parameters,
                },
            ),
        }
    }

    /// The request that gives the remote `name` the given parameters.
    pub fn update_remote_request(&self, name: &str, parameters: Parameters) -> (r: HttpRequest)
        ensures
            self.updates(name@, parameters.entries@, r),
    {
        HttpRequest {
            url: self.url(UPDATE_REMOTE),
            body: RequestBody::Update(ConfigUpdateRequest { name: name.to_owned(), parameters }),
        }
    }

    /// The request that deletes the remote `name`.
    pub fn delete_remote_request(&self, name: &str) -> (r: HttpRequest)
        ensures
            self.deletes(name@, r),
    {
        HttpRequest {
            url: self.url(DELETE_REMOTE),
            body: RequestBody::Delete(ConfigDeleteRequest { name: name.to_owned() }),
        }
    }

    /// The remotes that the reply to a listing of remotes names, in the
    /// reply's order. A body that is no JSON is a JSON error; one that is
    /// JSON gives the list of strings under `remotes`, or an API error where
    /// there is no such list.
    pub fn list_remotes(&self, outcome: HttpOutcome) -> (r: Result<Vec<String>, LazyFileError>)
        ensures
            remotes_listed(outcome, r),
    {
        match outcome {
            HttpOutcome::Failed(why) => Err(LazyFileError::Http(why)),
            HttpOutcome::Response { code, status, body } => {
                if !(200 <= code && code < 300) {
                    return Err(
                        LazyFileError::RcloneApi(join("Failed to list remotes: ", status.as_str())),
                    );
                }
                match parse(body.as_str()) {
                    Err(e) => Err(LazyFileError::Json(error_text(&e))),
                    Ok(json) => {
                        let found = match member(&json, "remotes") {
                            Some(value) => match string_list(value) {
                                Ok(list) => Some(list),
                                Err(_) => None,
                            },
                            None => None,
                        };
                        remotes_in(found)
                    },
                }
            },
        }
    }

    /// The entries that the reply to a file listing names, in the reply's
    /// order. `decoded` is the body read as a listing, `None` where it is not
    /// of that shape. A body that is no JSON is a JSON error; one that is gives
    /// what `files_in` gives for `decoded`.
    pub fn list_files(&self, outcome: HttpOutcome, decoded: Option<ListFilesResponse>) -> (r:
        Result<Vec<FileItem>, LazyFileError>)
        ensures
            files_listed(outcome, decoded, r),
    {
        match outcome {
            HttpOutcome::Failed(why) => Err(LazyFileError::Http(why)),
            HttpOutcome::Response { code, status, body } => {
                if !(200 <= code && code < 300) {
                    return Err(
                        LazyFileError::RcloneApi(join("Failed to list files: ", status.as_str())),
                    );
                }
                match parse(body.as_str()) {
                    Err(e) => Err(LazyFileError::Json(error_text(&e))),
                    Ok(_) => files_in(decoded),
                }
            },
        }
    }

    fn command(failure: &str, outcome: HttpOutcome) -> (r: Result<(), LazyFileError>)
        ensures
            command_result(failure@, outcome, r),
    {
        match outcome {
            HttpOutcome::Failed(why) => Err(LazyFileError::Http(why)),
            HttpOutcome::Response { code, status, body } => {
                if 200 <= code && code < 300 {
                    Ok(())
                } else {
                    Err(LazyFileError::RcloneApi(join(failure, body.as_str())))
                }
            },
        }
    }

    /// What the reply to a creation means.
    pub fn create_remote(&self, outcome: HttpOutcome) -> (r: Result<(), LazyFileError>)
        ensures
            command_result("Failed to create remote: "@, outcome, r),
    {
        Self::command("Failed to create remote: ", outcome)
    }

    /// What the reply to an update means.
    pub fn update_remote(&self, outcome: HttpOutcome) -> (r: Result<(), LazyFileError>)
        ensures
            command_result("Failed to update remote: "@, outcome, r),
    {
        Self::command("Failed to update remote: ", outcome)
    }

    /// What the reply to a deletion means.
    pub fn delete_remote(&self, outcome: HttpOutcome) -> (r: Result<(), LazyFileError>)
        ensures
            command_result("Failed to delete remote: "@, outcome, r),
    {
        Self::command("Failed to delete remote: ", outcome)
    }
}

} // verus!
