//! The file cache orchestrator: given an id, an optionally known URL, a peer
//! address and the two existence checks, it decides — without doing any I/O
//! itself — whether to serve the cached file, wait on an in-flight download,
//! fetch the URL, or first ask a peer to resolve the id into a URL.
use vstd::prelude::*;

use crate::b64::{b64_encode, encode};
use crate::bytes::clone_bytes;
use crate::res::{spec_path, spec_tmp_name, Res};

verus! {

/// Seconds allowed for a waited-on completion or a peer response.
pub const TIMEOUT_SECS: u64 = 5;

/// Errors of the file cache, one per failure kind it can surface.
#[derive(Clone, Copy, Debug, PartialEq, Eq, Structural)]
pub enum CacheError {
    /// A waited-on completion or a peer response missed the deadline.
    TimeoutError,
    /// A peer answered a pending image request with the wrong event shape.
    UnexpectedResponse,
    /// The underlying request/response channel failed.
    ServerError,
    /// A completion channel was dropped before delivering a path.
    RecvError,
    /// A request or response payload would not encode or decode.
    DataError,
    /// An existence check, rename, or directory creation failed.
    IoError,
    /// The external downloader failed to fetch the URL.
    HttpError,
}

/// An event of the peer image-resolution protocol.
#[derive(Debug, PartialEq, Eq)]
pub enum EventType {
    RequestImage { id: Vec<u8> },
    RespondImage { id: Vec<u8>, url: Vec<u8> },
}

/// A decoded transport packet: an event, or a payload of some other kind.
#[derive(Debug, PartialEq, Eq)]
pub enum Packet {
    Event(EventType),
    Other,
}

/// What the caller must do next to obtain the file for an id.
#[derive(Debug, PartialEq, Eq)]
pub enum FileAction {
    /// The final file is already cached at this path; serve it as is.
    UseCached { path: Vec<u8> },
    /// A download is in progress: register as a waiter under this key and
    /// await the completion event for at most this many seconds.
    AwaitDownload { key: Vec<u8>, timeout_secs: u64 },
    /// Fetch the URL into the marker path, then rename the marker onto the
    /// final path and serve it.
    FetchUrl { url: Vec<u8>, tmp: Vec<u8>, dest: Vec<u8> },
    /// Send this request to the peer at this address and await its response
    /// for at most this many seconds.
    AskPeer { address: Vec<u8>, request: EventType, timeout_secs: u64 },
}

/// The resolved id and URL of a respond-image event, if the packet is one.
pub open spec fn respond_payload(p: Packet) -> Option<(Seq<u8>, Seq<u8>)> {
    match p {
        Packet::Event(EventType::RespondImage { id, url }) => Some((id@, url@)),
        _ => None,
    }
}

/// The retrieval orchestrator. It owns no state of its own: every decision is
/// a function of the store, the arguments and the two existence checks.
pub struct Cache {}

impl Cache {
    /// Nothing to set up: the orchestrator is stateless.
    pub fn init(&self) {
    }

    /// Decide how to obtain the file for `id` from a known URL. The final
    /// path wins over the marker; only when neither exists is anything
    /// fetched.
    pub fn file_by_url(
        &self,
        res: &Res,
        id: &Vec<u8>,
        url: &Vec<u8>,
        dest_exists: bool,
        tmp_exists: bool,
    ) -> (a: FileAction)
        ensures
            dest_exists ==> (a matches FileAction::UseCached { path } && path@ == spec_path(
                res.directory@,
                b64_encode(id@),
            )),
            !dest_exists && tmp_exists ==> (a matches FileAction::AwaitDownload { key, timeout_secs }
                && key@ == b64_encode(id@) && timeout_secs == TIMEOUT_SECS),
            !dest_exists && !tmp_exists ==> (a matches FileAction::FetchUrl { url: u, tmp, dest }
                && u@ == url@ && tmp@ == spec_path(
                res.directory@,
                spec_tmp_name(b64_encode(id@)),
            ) && dest@ == spec_path(res.directory@, b64_encode(id@))),
    {
        let name = encode(id);
        if dest_exists {
            FileAction::UseCached { path: res.path(&name) }
        } else if tmp_exists {
            FileAction::AwaitDownload { key: name, timeout_secs: TIMEOUT_SECS }
        } else {
            let tmp = res.tmp_path(&name);
            let dest = res.path(&name);
            FileAction::FetchUrl { url: clone_bytes(url), tmp, dest }
        }
    }

    /// Decide how to obtain the file for `uid` with no known URL: cache and
    /// marker checks first, else ask the peer to resolve the id.
    pub fn file_by_uid(
        &self,
        res: &Res,
        uid: &Vec<u8>,
        address: &Vec<u8>,
        dest_exists: bool,
        tmp_exists: bool,
    ) -> (a: FileAction)
        ensures
            dest_exists ==> (a matches FileAction::UseCached { path } && path@ == spec_path(
                res.directory@,
                b64_encode(uid@),
            )),
            !dest_exists && tmp_exists ==> (a matches FileAction::AwaitDownload { key, timeout_secs }
                && key@ == b64_encode(uid@) && timeout_secs == TIMEOUT_SECS),
            !dest_exists && !tmp_exists ==> (a matches FileAction::AskPeer {
                address: ad,
                request,
                timeout_secs,
            } && ad@ == address@ && timeout_secs == TIMEOUT_SECS && (request
                matches EventType::RequestImage { id } && id@ == uid@)),
    {
        let name = encode(uid);
        if dest_exists {
            FileAction::UseCached { path: res.path(&name) }
        } else if tmp_exists {
            FileAction::AwaitDownload { key: name, timeout_secs: TIMEOUT_SECS }
        } else {
            FileAction::AskPeer {
                address: clone_bytes(address),
                request: EventType::RequestImage { id: clone_bytes(uid) },
                timeout_secs: TIMEOUT_SECS,
            }
        }
    }

    /// Decide how to obtain the file for `id`: by its URL when one is known,
    /// else through peer resolution at `address`.
    pub fn file(
        &self,
        res: &Res,
        id: &Vec<u8>,
        url: &Option<Vec<u8>>,
        address: &Vec<u8>,
        dest_exists: bool,
        tmp_exists: bool,
    ) -> (a: FileAction)
        ensures
            dest_exists ==> (a matches FileAction::UseCached { path } && path@ == spec_path(
                res.directory@,
                b64_encode(id@),
            )),
            !dest_exists && tmp_exists ==> (a matches FileAction::AwaitDownload { key, timeout_secs }
                && key@ == b64_encode(id@) && timeout_secs == TIMEOUT_SECS),
            !dest_exists && !tmp_exists && url is Some ==> (a matches FileAction::FetchUrl {
                url: u,
                tmp,
                dest,
            } && u@ == url->Some_0@ && tmp@ == spec_path(
                res.directory@,
                spec_tmp_name(b64_encode(id@)),
            ) && dest@ == spec_path(res.directory@, b64_encode(id@))),
            !dest_exists && !tmp_exists && url is None ==> (a matches FileAction::AskPeer {
                address: ad,
                request,
                timeout_secs,
            } && ad@ == address@ && timeout_secs == TIMEOUT_SECS && (request
                matches EventType::RequestImage { id: rid } && rid@ == id@)),
    {
        match url {
            Some(u) => self.file_by_url(res, id, u, dest_exists, tmp_exists),
            None => self.file_by_uid(res, id, address, dest_exists, tmp_exists),
        }
    }

    /// The cache path that an externally obtained, fully downloaded file for
    /// `id` is moved onto, skipping the marker stage; the caller performs the
    /// rename of the source file onto it.
    pub fn put_file(&self, res: &Res, id: &Vec<u8>) -> (dest: Vec<u8>)
        ensures
            dest@ == spec_path(res.directory@, b64_encode(id@)),
    {
        let name = encode(id);
        res.path(&name)
    }

    /// The outcome of awaiting a completion under the deadline: a delivered
    /// path is the result; expiry surfaces as a timeout error, never a path.
    pub fn wait_outcome(&self, outcome: Option<Vec<u8>>) -> (r: Result<Vec<u8>, CacheError>)
        ensures
            outcome is Some ==> (r matches Ok(q) && q@ == outcome->Some_0@),
            outcome is None ==> r == Err::<Vec<u8>, CacheError>(CacheError::TimeoutError),
    {
        match outcome {
            Some(p) => Ok(p),
            None => Err(CacheError::TimeoutError),
        }
    }

    /// The decision on a peer's answer to a pending image request: only a
    /// respond-image event carries the resolved id and URL; a packet of any
    /// other shape is a protocol violation reported as an error, never an
    /// abort.
    pub fn handle_peer_response(&self, packet: Packet) -> (r: Result<(Vec<u8>, Vec<u8>), CacheError>)
        ensures
            respond_payload(packet) is Some ==> (r matches Ok(p) && p.0@ == respond_payload(
                packet,
            )->Some_0.0 && p.1@ == respond_payload(packet)->Some_0.1),
            respond_payload(packet) is None ==> r == Err::<(Vec<u8>, Vec<u8>), CacheError>(
                CacheError::UnexpectedResponse,
            ),
    {
        match packet {
            Packet::Event(EventType::RespondImage { id, url }) => Ok((id, url)),
            _ => Err(CacheError::UnexpectedResponse),
        }
    }
}

/// Law (idempotent placement): the destination that `put_file` moves an
/// externally obtained file onto is the id's one deterministic cache path, so
/// any later retrieval that finds the file — by URL or by peer resolution —
/// serves exactly the placed path, as the two contracts pin both results to
/// the same path of the same store.
pub proof fn lemma_put_file_idempotent(
    dir: Seq<u8>,
    id: Seq<u8>,
    placed: Seq<u8>,
    served: Seq<u8>,
)
    requires
        placed == spec_path(dir, b64_encode(id)),
        served == spec_path(dir, b64_encode(id)),
    ensures
        placed == served,
{
}

} // verus!
