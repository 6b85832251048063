//! What holds of every transfer.
use vstd::prelude::*;

use crate::outside::get_request;
use crate::path::PathOrUrl;
use crate::xfer::cache::{CacheError, CacheStatus};
use crate::xfer::{FileTransferError, TransferAction, TransferEvent, TransferPhase};

verus! {

/// Whether `event` answers what `phase` asks for.
pub open spec fn awaited<Out>(phase: TransferPhase<'_, Out>, event: TransferEvent<Out>) -> bool {
    match phase {
        TransferPhase::ReadFile { .. } => event is FileRead,
        TransferPhase::QueryCache { .. } => event is CacheQueried,
        TransferPhase::Send { .. } => event is Responded,
        TransferPhase::Store { .. } => event is Stored,
        TransferPhase::Process { .. } => event is Processed,
        TransferPhase::Finished { .. } => false,
    }
}

/// How many answers a transfer in `phase` still needs at most.
pub open spec fn answers_left<Out>(phase: TransferPhase<'_, Out>) -> nat {
    match phase {
        TransferPhase::ReadFile { .. } => 2,
        TransferPhase::QueryCache { .. } => 4,
        TransferPhase::Send { .. } => 3,
        TransferPhase::Store { .. } => 2,
        TransferPhase::Process { .. } => 1,
        TransferPhase::Finished { .. } => 0,
    }
}

/// Each answer that was asked for brings the transfer closer to its end, and any
/// other event leaves it as it is.
pub proof fn answers_make_progress<Out>(phase: TransferPhase<'_, Out>, event: TransferEvent<Out>)
    ensures
        awaited(phase, event) ==> answers_left(phase.successor(event)) < answers_left(phase),
        !awaited(phase, event) ==> phase.successor(event) == phase,
        phase.request() is None <==> answers_left(phase) == 0,
{
}

/// A transfer that has ended stays as it ended, whatever happens later.
pub proof fn ended_transfer_stays<Out>(
    phase: TransferPhase<'_, Out>,
    events: Seq<TransferEvent<Out>>,
)
    requires
        phase is Finished,
    ensures
        phase.run(events) == phase,
    decreases events.len(),
{
    if events.len() > 0 {
        ended_transfer_stays(phase, events.drop_last());
    }
}

/// A local file is read and its content processed: what the processor makes of
/// it is the outcome, unless the file could not be read.
pub proof fn local_file_is_processed<Out>(
    path: std::path::PathBuf,
    read: Result<String, std::io::Error>,
    processed: Result<Out, FileTransferError>,
)
    ensures
        ({
            let location = PathOrUrl::Path(path);
            let start = TransferPhase::<'_, Out>::started(&location);
            let after_read = start.successor(TransferEvent::FileRead(read));
            let end = after_read.successor(TransferEvent::Processed(processed));
            &&& start.request() == Some(TransferAction::ReadFile { path: &path })
            &&& match read {
                Ok(content) => {
                    &&& after_read.request() == Some(TransferAction::Process { content: &content })
                    &&& end == (TransferPhase::Finished { outcome: processed })
                },
                Err(source) => end == TransferPhase::<'_, Out>::failure(
                    FileTransferError::IoError { source },
                ),
            }
        }),
{
}

/// A remote file that the cache holds is taken from there: its content goes to
/// the processor, and nothing is sent or stored.
pub proof fn cached_file_is_not_requested<Out>(
    url: url::Url,
    content: String,
    processed: Result<Out, FileTransferError>,
)
    ensures
        ({
            let location = PathOrUrl::Url(url);
            let hit = TransferPhase::<'_, Out>::started(&location).successor(
                TransferEvent::CacheQueried(Ok(CacheStatus::Hit(content))),
            );
            &&& hit.request() == Some(TransferAction::Process { content: &content })
            &&& hit.successor(TransferEvent::Processed(processed)) == (TransferPhase::Finished {
                outcome: processed,
            })
        }),
{
}

/// The outcome of a transfer of a remote file that the cache cannot provide: the
/// error of the first step that failed, or else what the processor made of the
/// content.
pub open spec fn remote_outcome<Out>(
    url: url::Url,
    response: Result<String, reqwest::Error>,
    stored: Result<(), CacheError>,
    processed: Result<Out, FileTransferError>,
) -> Result<Out, FileTransferError> {
    if get_request(url) is Err {
        Err(FileTransferError::RequestError { source: get_request(url)->Err_0 })
    } else if response is Err {
        Err(FileTransferError::RequestError { source: response->Err_0 })
    } else if stored is Err {
        Err(FileTransferError::CacheError { source: stored->Err_0 })
    } else {
        processed
    }
}

/// A remote file that the cache does not hold, or holds no longer, is requested
/// from the remote, stored and processed, in this order.
pub proof fn remote_file_is_requested_stored_and_processed<Out>(
    url: url::Url,
    status: CacheStatus,
    response: Result<String, reqwest::Error>,
    stored: Result<(), CacheError>,
    processed: Result<Out, FileTransferError>,
)
    requires
        !(status is Hit),
    ensures
        ({
            let location = PathOrUrl::Url(url);
            TransferPhase::<'_, Out>::started(&location)
                .successor(TransferEvent::CacheQueried(Ok(status)))
                .successor(TransferEvent::Responded(response))
                .successor(TransferEvent::Stored(stored))
                .successor(TransferEvent::Processed(processed)) == (TransferPhase::Finished {
                outcome: remote_outcome(url, response, stored, processed),
            })
        }),
{
}

/// An expired file is treated as one that was never there.
pub proof fn expired_is_as_good_as_missing<Out>(url: url::Url)
    ensures
        ({
            let location = PathOrUrl::Url(url);
            let start = TransferPhase::<'_, Out>::started(&location);
            start.successor(TransferEvent::CacheQueried(Ok(CacheStatus::Expired)))
                == start.successor(TransferEvent::CacheQueried(Ok(CacheStatus::Miss)))
        }),
{
}

/// What the remote sends is what is stored, under the URL it was asked for, and
/// also what is processed; a later transfer that finds it in the cache processes
/// the same content.
pub proof fn stored_content_is_processed_again<Out, Later>(
    url: url::Url,
    status: CacheStatus,
    content: String,
)
    requires
        !(status is Hit),
    ensures
        get_request(url) is Ok ==> ({
            let location = PathOrUrl::Url(url);
            let received = TransferPhase::<'_, Out>::started(&location)
                .successor(TransferEvent::CacheQueried(Ok(status)))
                .successor(TransferEvent::Responded(Ok(content)));
            let kept = received.successor(TransferEvent::Stored(Ok(())));
            let found = TransferPhase::<'_, Later>::started(&location).successor(
                TransferEvent::CacheQueried(Ok(CacheStatus::Hit(content))),
            );
            &&& received.request() == Some(TransferAction::Store { url: &url, content: &content })
            &&& kept.request() == Some(TransferAction::Process { content: &content })
            &&& found.request() == kept.request()
        }),
{
}

/// Whether the event at `queried` says that the cache cannot provide the file.
pub open spec fn not_cached<Out>(events: Seq<TransferEvent<Out>>, queried: int) -> bool {
    &&& 0 <= queried < events.len()
    &&& events[queried] matches TransferEvent::CacheQueried(Ok(status))
    &&& !(status is Hit)
}

/// A request is sent only where the cache was asked and could not provide the
/// file, and it is the request for the URL of that file. A local file is never
/// requested.
pub proof fn requests_follow_a_cache_miss<Out>(
    location: PathOrUrl,
    events: Seq<TransferEvent<Out>>,
)
    ensures
        TransferPhase::<'_, Out>::started(&location).run(events) matches TransferPhase::Send {
            url,
            request,
        } ==> {
            &&& location == PathOrUrl::Url(*url)
            &&& get_request(*url) == Ok::<reqwest::Request, reqwest::Error>(request)
            &&& exists|queried: int| not_cached(events, queried)
        },
    decreases events.len(),
{
    let start = TransferPhase::<'_, Out>::started(&location);
    transfers_keep_their_url(location, events);
    if events.len() > 0 {
        let earlier = events.drop_last();
        requests_follow_a_cache_miss(location, earlier);
        let before = start.run(earlier);
        if start.run(events) is Send {
            if before is Send {
                let queried = choose|queried: int| not_cached(earlier, queried);
                assert(not_cached(events, queried));
            } else {
                assert(not_cached(events, events.len() - 1));
            }
        }
    }
}

proof fn transfers_keep_their_url<Out>(location: PathOrUrl, events: Seq<TransferEvent<Out>>)
    ensures
        match TransferPhase::<'_, Out>::started(&location).run(events) {
            TransferPhase::QueryCache { url } => location == PathOrUrl::Url(*url),
            TransferPhase::Send { url, .. } => location == PathOrUrl::Url(*url),
            TransferPhase::Store { url, .. } => location == PathOrUrl::Url(*url),
            _ => true,
        },
    decreases events.len(),
{
    if events.len() > 0 {
        transfers_keep_their_url(location, events.drop_last());
    }
}

/// A transfer of a local file asks for that file to be read, then for its content
/// to be processed, and ends with what came out of that. A file that cannot be
/// read ends it with that error, and nothing is processed.
pub proof fn local_transfers_step_by_step<Out>(
    path: std::path::PathBuf,
    content: String,
    unread: std::io::Error,
    processed: Result<Out, FileTransferError>,
)
    ensures
        ({
            let location = PathOrUrl::Path(path);
            let start = TransferPhase::<'_, Out>::started(&location);
            let read = start.successor(TransferEvent::FileRead(Ok(content)));
            let failed = start.successor(TransferEvent::FileRead(Err(unread)));
            let ended = read.successor(TransferEvent::Processed(processed));
            &&& start.request() == Some(TransferAction::ReadFile { path: &path })
            &&& read.request() == Some(TransferAction::Process { content: &content })
            &&& ended == (TransferPhase::Finished { outcome: processed })
            &&& ended.request() is None
            &&& failed == (TransferPhase::Finished {
                outcome: Err::<Out, FileTransferError>(
                    FileTransferError::IoError { source: unread },
                ),
            })
            &&& failed.request() is None
        }),
{
}

/// A transfer of a remote file asks the cache for it first. Content that the
/// cache holds is processed as it is; otherwise the request for the URL is sent,
/// the response stored under that URL, and then processed. Whatever fails ends
/// the transfer with the error that says so, and nothing more is asked for.
pub proof fn remote_transfers_step_by_step<Out>(
    url: url::Url,
    status: CacheStatus,
    content: String,
    processed: Result<Out, FileTransferError>,
    cache_failure: CacheError,
    request_failure: reqwest::Error,
)
    ensures
        ({
            let location = PathOrUrl::Url(url);
            let start = TransferPhase::<'_, Out>::started(&location);
            let queried = start.successor(TransferEvent::CacheQueried(Ok(status)));
            let received = queried.successor(TransferEvent::Responded(Ok(content)));
            let stored = received.successor(TransferEvent::Stored(Ok(())));
            let ended = stored.successor(TransferEvent::Processed(processed));
            let cache_error = TransferPhase::Finished {
                outcome: Err::<Out, FileTransferError>(
                    FileTransferError::CacheError { source: cache_failure },
                ),
            };
            &&& start.request() == Some(TransferAction::QueryCache { url: &url })
            &&& start.successor(TransferEvent::CacheQueried(Err(cache_failure))) == cache_error
            &&& status matches CacheStatus::Hit(held) ==> {
                &&& queried.request() == Some(TransferAction::Process { content: &held })
                &&& queried.successor(TransferEvent::Processed(processed)) == (
                TransferPhase::Finished { outcome: processed })
            }
            &&& !(status is Hit) ==> match get_request(url) {
                Ok(request) => {
                    &&& queried.request() == Some(TransferAction::Send { request: &request })
                    &&& queried.successor(TransferEvent::Responded(Err(request_failure))) == (
                    TransferPhase::Finished {
                        outcome: Err::<Out, FileTransferError>(
                            FileTransferError::RequestError { source: request_failure },
                        ),
                    })
                    &&& received.request() == Some(
                        TransferAction::Store { url: &url, content: &content },
                    )
                    &&& received.successor(TransferEvent::Stored(Err(cache_failure)))
                        == cache_error
                    &&& stored.request() == Some(TransferAction::Process { content: &content })
                    &&& ended == (TransferPhase::Finished { outcome: processed })
                },
                Err(source) => queried == (TransferPhase::Finished {
                    outcome: Err::<Out, FileTransferError>(
                        FileTransferError::RequestError { source },
                    ),
                }),
            }
            &&& cache_error.request() is None
            &&& (TransferPhase::Finished { outcome: processed }).request() is None
        }),
{
}

/// An event that is no answer to what the transfer asks for changes nothing.
pub proof fn unasked_events_change_nothing<Out>(
    phase: TransferPhase<'_, Out>,
    event: TransferEvent<Out>,
)
    requires
        match phase.request() {
            Some(TransferAction::ReadFile { .. }) => !(event is FileRead),
            Some(TransferAction::QueryCache { .. }) => !(event is CacheQueried),
            Some(TransferAction::Send { .. }) => !(event is Responded),
            Some(TransferAction::Store { .. }) => !(event is Stored),
            Some(TransferAction::Process { .. }) => !(event is Processed),
            None => true,
        },
    ensures
        phase.successor(event) == phase,
{
}

/// Each error is described in its own words.
pub proof fn errors_are_described_in_words(error: FileTransferError)
    ensures
        error is IoError ==> error.text() == "io error"@,
        error is FileNameError ==> error.text() == "failed to extract file name from URL"@,
        error is CacheError ==> error.text() == "cache error"@,
        error is RequestError ==> error.text() == "request error"@,
        error is YamlError ==> error.text() == "failed to deserialize content into YAML"@,
        error is TemplatingError ==> error.text() == "templating error"@,
{
}

} // verus!
