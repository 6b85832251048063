//! Files that are read from this machine, from a cache or from a remote.
use vstd::prelude::*;

use crate::outside::{build_get_request, get_request};
use crate::path::PathOrUrl;
use crate::xfer::cache::{CacheError, CacheStatus};

pub mod cache;
pub mod laws;

verus! {

/// Why a file could not be transferred.
#[allow(inconsistent_fields)]
#[derive(Debug)]
pub enum FileTransferError {
    /// The local file could not be read.
    IoError { source: std::io::Error },
    /// The URL holds no file name.
    FileNameError,
    /// The cache failed.
    CacheError { source: CacheError },
    /// The request could not be built, sent or answered.
    RequestError { source: reqwest::Error },
    /// The content is not the YAML that was expected.
    YamlError { source: serde_yaml::Error },
    /// The content is a template that could not be rendered.
    TemplatingError { source: tera::Error },
}

impl FileTransferError {
    /// The text that describes the error to a user.
    pub open spec fn text(self) -> Seq<char> {
        match self {
            FileTransferError::IoError { .. } => "io error"@,
            FileTransferError::FileNameError => "failed to extract file name from URL"@,
            FileTransferError::CacheError { .. } => "cache error"@,
            FileTransferError::RequestError { .. } => "request error"@,
            FileTransferError::YamlError { .. } => "failed to deserialize content into YAML"@,
            FileTransferError::TemplatingError { .. } => "templating error"@,
        }
    }

    /// Describes the error to a user.
    pub fn message(&self) -> (text: String)
        ensures
            text@ == self.text(),
            match *self {
                FileTransferError::IoError { .. } => text@ == "io error"@,
                FileTransferError::FileNameError => text@
                    == "failed to extract file name from URL"@,
                FileTransferError::CacheError { .. } => text@ == "cache error"@,
                FileTransferError::RequestError { .. } => text@ == "request error"@,
                FileTransferError::YamlError { .. } => text@
                    == "failed to deserialize content into YAML"@,
                FileTransferError::TemplatingError { .. } => text@ == "templating error"@,
            },
    {
        match self {
            FileTransferError::IoError { .. } => "io error".to_owned(),
            FileTransferError::FileNameError => "failed to extract file name from URL".to_owned(),
            FileTransferError::CacheError { .. } => "cache error".to_owned(),
            FileTransferError::RequestError { .. } => "request error".to_owned(),
            FileTransferError::YamlError { .. } => {
                "failed to deserialize content into YAML".to_owned()
            },
            FileTransferError::TemplatingError { .. } => "templating error".to_owned(),
        }
    }
}

/// A client that transfers files, with a cache of the remote ones.
#[derive(Debug)]
pub struct FileTransferClient<C> {
    client: reqwest::Client,
    cache: C,
}

impl<C> FileTransferClient<C> {
    /// The HTTP client of this client.
    pub closed spec fn http_client(&self) -> reqwest::Client {
        self.client
    }

    /// The cache of this client.
    pub closed spec fn file_cache(&self) -> C {
        self.cache
    }

    /// Creates a client with the cache that was set up, unless that failed.
    pub fn new(cache: Result<C, CacheError>, client: reqwest::Client) -> (created: Result<
        Self,
        FileTransferError,
    >)
        ensures
            match cache {
                Ok(cache) => created matches Ok(transfer) && transfer.file_cache() == cache
                    && transfer.http_client() == client,
                Err(source) => created == Err::<Self, FileTransferError>(
                    FileTransferError::CacheError { source },
                ),
            },
    {
        match cache {
            Ok(cache) => Ok(FileTransferClient::new_with(cache, client)),
            Err(source) => Err(FileTransferError::CacheError { source }),
        }
    }

    /// Creates a client with the given cache.
    pub fn new_with(cache: C, client: reqwest::Client) -> (created: Self)
        ensures
            created.file_cache() == cache,
            created.http_client() == client,
    {
        FileTransferClient { client, cache }
    }

    /// The HTTP client, which sends the requests that transfers ask for.
    pub fn client(&self) -> (client: &reqwest::Client)
        ensures
            *client == self.http_client(),
    {
        &self.client
    }

    /// The cache, which transfers ask to retrieve and to store files.
    pub fn cache(&self) -> (cache: &C)
        ensures
            *cache == self.file_cache(),
    {
        &self.cache
    }

    /// Starts to retrieve the file at `path_or_url` and to process it into an
    /// `Out`.
    pub fn get<'a, Out>(&'a self, path_or_url: &'a PathOrUrl) -> (transfer: Transfer<'a, Out>)
        ensures
            transfer@ == TransferPhase::<'a, Out>::started(path_or_url),
    {
        let phase = match path_or_url {
            PathOrUrl::Path(path) => TransferPhase::ReadFile { path },
            PathOrUrl::Url(url) => TransferPhase::QueryCache { url },
        };
        Transfer { client: &self.client, phase }
    }
}

/// Where a transfer stands: what is to be done next, or how it ended.
#[derive(Debug)]
pub enum TransferPhase<'a, Out> {
    /// The local file is to be read.
    ReadFile { path: &'a std::path::PathBuf },
    /// The cache is to be asked for the file.
    QueryCache { url: &'a url::Url },
    /// The request for the file is to be sent.
    Send { url: &'a url::Url, request: reqwest::Request },
    /// The content that the remote sent is to be stored in the cache.
    Store { url: &'a url::Url, content: String },
    /// The content is to be processed.
    Process { content: String },
    /// There is nothing left to do.
    Finished { outcome: Result<Out, FileTransferError> },
}

/// What a transfer asks its caller to do.
#[derive(Debug)]
pub enum TransferAction<'s> {
    /// Read the local file as text.
    ReadFile { path: &'s std::path::PathBuf },
    /// Retrieve the file from the cache.
    QueryCache { url: &'s url::Url },
    /// Send the request and read the response as text.
    Send { request: &'s reqwest::Request },
    /// Store the content in the cache.
    Store { url: &'s url::Url, content: &'s String },
    /// Process the content.
    Process { content: &'s String },
}

/// How an action that was asked for went.
#[derive(Debug)]
pub enum TransferEvent<Out> {
    /// The local file was read.
    FileRead(Result<String, std::io::Error>),
    /// The cache answered.
    CacheQueried(Result<CacheStatus, CacheError>),
    /// The remote answered.
    Responded(Result<String, reqwest::Error>),
    /// The content was stored.
    Stored(Result<(), CacheError>),
    /// The content was processed.
    Processed(Result<Out, FileTransferError>),
}

impl<'a, Out> TransferPhase<'a, Out> {
    /// Where a transfer of the file at `path_or_url` starts.
    pub open spec fn started(path_or_url: &'a PathOrUrl) -> Self {
        match path_or_url {
            PathOrUrl::Path(path) => TransferPhase::ReadFile { path },
            PathOrUrl::Url(url) => TransferPhase::QueryCache { url },
        }
    }

    /// The transfer ended with `error`.
    pub open spec fn failure(error: FileTransferError) -> Self {
        TransferPhase::Finished { outcome: Err(error) }
    }

    /// A file that the cache cannot provide is requested from the remote, if a
    /// request can be built for its URL.
    pub open spec fn requested(url: &'a url::Url) -> Self {
        match get_request(*url) {
            Ok(request) => TransferPhase::Send { url, request },
            Err(source) => Self::failure(FileTransferError::RequestError { source }),
        }
    }

    /// The phase that follows when `event` answers what this phase asks for. Any
    /// other event leaves the phase as it is.
    pub open spec fn successor(self, event: TransferEvent<Out>) -> Self {
        match (self, event) {
            (TransferPhase::ReadFile { .. }, TransferEvent::FileRead(read)) => match read {
                Ok(content) => TransferPhase::Process { content },
                Err(source) => Self::failure(FileTransferError::IoError { source }),
            },
            (TransferPhase::QueryCache { url }, TransferEvent::CacheQueried(status)) => {
                match status {
                    Ok(CacheStatus::Hit(content)) => TransferPhase::Process { content },
                    Ok(CacheStatus::Expired) => Self::requested(url),
                    Ok(CacheStatus::Miss) => Self::requested(url),
                    Err(source) => Self::failure(FileTransferError::CacheError { source }),
                }
            },
            (TransferPhase::Send { url, .. }, TransferEvent::Responded(response)) => {
                match response {
                    Ok(content) => TransferPhase::Store { url, content },
                    Err(source) => Self::failure(FileTransferError::RequestError { source }),
                }
            },
            (TransferPhase::Store { content, .. }, TransferEvent::Stored(stored)) => match stored {
                Ok(_) => TransferPhase::Process { content },
                Err(source) => Self::failure(FileTransferError::CacheError { source }),
            },
            (TransferPhase::Process { .. }, TransferEvent::Processed(outcome)) => {
                TransferPhase::Finished { outcome }
            },
            _ => self,
        }
    }

    /// The phase after all of `events`, in order.
    pub open spec fn run(self, events: Seq<TransferEvent<Out>>) -> Self
        decreases events.len(),
    {
        if events.len() == 0 {
            self
        } else {
            self.run(events.drop_last()).successor(events.last())
        }
    }

    /// What this phase asks for.
    pub open spec fn request(self) -> Option<TransferAction<'a>> {
        match self {
            TransferPhase::ReadFile { path } => Some(TransferAction::ReadFile { path }),
            TransferPhase::QueryCache { url } => Some(TransferAction::QueryCache { url }),
            TransferPhase::Send { request, .. } => Some(TransferAction::Send { request: &request }),
            TransferPhase::Store { url, content } => Some(
                TransferAction::Store { url, content: &content },
            ),
            TransferPhase::Process { content } => Some(
                TransferAction::Process { content: &content },
            ),
            TransferPhase::Finished { .. } => None,
        }
    }

    /// The phase that follows when `built` is the request for the file at `url`:
    /// it is sent, unless there is none.
    pub fn with_request(
        url: &'a url::Url,
        built: Result<reqwest::Request, reqwest::Error>,
    ) -> (phase: Self)
        ensures
            phase == (match built {
                Ok(request) => TransferPhase::Send { url, request },
                Err(source) => TransferPhase::<'a, Out>::failure(
                    FileTransferError::RequestError { source },
                ),
            }),
            built matches Err(source) ==> phase == (TransferPhase::Finished {
                outcome: Err::<Out, FileTransferError>(FileTransferError::RequestError { source }),
            }),
    {
        match built {
            Ok(request) => TransferPhase::Send { url, request },
            Err(source) => TransferPhase::Finished {
                outcome: Err(FileTransferError::RequestError { source }),
            },
        }
    }

    fn next(self, client: &reqwest::Client, event: TransferEvent<Out>) -> (phase: Self)
        ensures
            phase == self.successor(event),
    {
        match (self, event) {
            (TransferPhase::ReadFile { .. }, TransferEvent::FileRead(read)) => match read {
                Ok(content) => TransferPhase::Process { content },
                Err(source) => TransferPhase::Finished {
                    outcome: Err(FileTransferError::IoError { source }),
                },
            },
            (TransferPhase::QueryCache { url }, TransferEvent::CacheQueried(status)) => {
                match status {
                    Ok(CacheStatus::Hit(content)) => TransferPhase::Process { content },
                    Ok(CacheStatus::Expired) | Ok(CacheStatus::Miss) => {
                        TransferPhase::with_request(url, build_get_request(client, url))
                    },
                    Err(source) => TransferPhase::Finished {
                        outcome: Err(FileTransferError::CacheError { source }),
                    },
                }
            },
            (TransferPhase::Send { url, .. }, TransferEvent::Responded(response)) => {
                match response {
                    Ok(content) => TransferPhase::Store { url, content },
                    Err(source) => TransferPhase::Finished {
                        outcome: Err(FileTransferError::RequestError { source }),
                    },
                }
            },
            (TransferPhase::Store { content, .. }, TransferEvent::Stored(stored)) => match stored {
                Ok(_) => TransferPhase::Process { content },
                Err(source) => TransferPhase::Finished {
                    outcome: Err(FileTransferError::CacheError { source }),
                },
            },
            (TransferPhase::Process { .. }, TransferEvent::Processed(outcome)) => {
                TransferPhase::Finished { outcome }
            },
            (phase, _) => phase,
        }
    }
}

/// A transfer of one file, step by step.
///
/// [`Transfer::action`] says what to do next, and [`Transfer::handle`] takes the
/// answer.
#[derive(Debug)]
pub struct Transfer<'a, Out> {
    client: &'a reqwest::Client,
    phase: TransferPhase<'a, Out>,
}

impl<'a, Out> View for Transfer<'a, Out> {
    type V = TransferPhase<'a, Out>;

    closed spec fn view(&self) -> TransferPhase<'a, Out> {
        self.phase
    }
}

impl<'a, Out> Transfer<'a, Out> {
    /// What to do next; nothing once the transfer has ended.
    pub fn action(&self) -> (action: Option<TransferAction<'_>>)
        ensures
            action == self@.request(),
    {
        match &self.phase {
            TransferPhase::ReadFile { path } => Some(TransferAction::ReadFile { path: *path }),
            TransferPhase::QueryCache { url } => Some(TransferAction::QueryCache { url: *url }),
            TransferPhase::Send { request, .. } => Some(TransferAction::Send { request }),
            TransferPhase::Store { url, content } => Some(
                TransferAction::Store { url: *url, content },
            ),
            TransferPhase::Process { content } => Some(TransferAction::Process { content }),
            TransferPhase::Finished { .. } => None,
        }
    }

    /// Takes the answer to the action that was asked for. An event that is no
    /// answer to it changes nothing.
    pub fn handle(self, event: TransferEvent<Out>) -> (next: Self)
        ensures
            next@ == self@.successor(event),
    {
        let Transfer { client, phase } = self;
        Transfer { client, phase: phase.next(client, event) }
    }

    /// How the transfer ended, or the transfer itself while it has not.
    pub fn outcome(self) -> (outcome: Result<Result<Out, FileTransferError>, Self>)
        ensures
            match outcome {
                Ok(ended) => self@ == (TransferPhase::Finished { outcome: ended }),
                Err(ongoing) => ongoing == self && !(self@ is Finished),
            },
    {
        let Transfer { client, phase } = self;
        match phase {
            TransferPhase::Finished { outcome } => Ok(outcome),
            phase => Err(Transfer { client, phase }),
        }
    }
}

} // verus!
