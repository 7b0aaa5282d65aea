//! The API request that configures an fs device.

use vstd::prelude::*;

use crate::config::FsDeviceConfig;
use crate::error::{Fault, RequestError, StatusCode};
use crate::outside::is_alphanumeric;

verus! {

/// What the microVM is asked to do.
#[derive(Debug, PartialEq, Eq)]
pub enum VmmAction {
    /// Insert an fs device.
    InsertFsDevice(FsDeviceConfig),
}

/// A request that has been understood.
#[derive(Debug, PartialEq, Eq)]
pub struct ParsedRequest {
    /// The action that is waited for before the request is answered.
    pub sync: VmmAction,
}

impl ParsedRequest {
    pub fn new_sync(action: VmmAction) -> (request: ParsedRequest)
        ensures
            request.sync == action,
    {
        ParsedRequest { sync: action }
    }
}

/// The metrics of PUT requests for fs devices. Both counters wrap around.
#[derive(Clone, Copy, Debug, PartialEq, Eq, Structural)]
pub struct PutRequestsMetrics {
    /// How many there were.
    pub fs_count: u64,
    /// How many of them failed.
    pub fs_fails: u64,
}

impl PutRequestsMetrics {
    /// One more request.
    pub open spec fn counted(self) -> PutRequestsMetrics {
        PutRequestsMetrics { fs_count: self.fs_count.wrapping_add(1), ..self }
    }

    /// One more failure.
    pub open spec fn failed(self) -> PutRequestsMetrics {
        PutRequestsMetrics { fs_fails: self.fs_fails.wrapping_add(1), ..self }
    }
}

/// Whether a character may stand in an id.
pub open spec fn id_char(c: char) -> bool {
    if c <= '\x7f' {
        c == '_' || crate::outside::ascii_alphanumeric(c)
    } else {
        crate::outside::alphanumeric(c)
    }
}

/// What is wrong with an id: it must not be empty, and hold only underscores
/// and alphanumeric characters.
pub open spec fn id_error(id: Seq<char>) -> Option<RequestError> {
    if id.len() == 0 {
        Some(RequestError::EmptyID)
    } else if exists|i: int| 0 <= i < id.len() && !id_char(#[trigger] id[i]) {
        Some(RequestError::InvalidID)
    } else {
        None
    }
}

/// Checks an id that was given in a path.
pub fn checked_id(id: &str) -> (checked: Result<&str, RequestError>)
    ensures
        match id_error(id@) {
            Some(error) => checked == Err::<&str, _>(error),
            None => checked == Ok::<_, RequestError>(id),
        },
{
    if id.is_empty() {
        return Err(RequestError::EmptyID);
    }
    for c in chars: id.chars()
        invariant
            chars.seq() == id@,
            forall|i: int| 0 <= i < chars.index() ==> id_char(#[trigger] id@[i]),
    {
        if c != '_' && !is_alphanumeric(c) {
            assert(!id_char(id@[chars.index() as int]));
            return Err(RequestError::InvalidID);
        }
    }
    Ok(id)
}

/// What a PUT request for an fs device amounts to.
pub enum PutFs {
    /// The path names no device.
    NoId,
    /// The path names something that is no id.
    BadId(RequestError),
    /// The body is not a configuration.
    Undecodable(Fault),
    /// Path and body name different devices.
    OtherId,
    Accepted(FsDeviceConfig),
}

/// What a PUT request amounts to, by what its body was decoded to and by the
/// id in its path.
pub open spec fn put_fs(
    decoded: Result<FsDeviceConfig, Fault>,
    id_from_path: Option<Seq<char>>,
) -> PutFs {
    match id_from_path {
        None => PutFs::NoId,
        Some(id) => match id_error(id) {
            Some(error) => PutFs::BadId(error),
            None => match decoded {
                Err(fault) => PutFs::Undecodable(fault),
                Ok(config) => if id != config.fs_id@ {
                    PutFs::OtherId
                } else {
                    PutFs::Accepted(config)
                },
            },
        },
    }
}

impl PutRequestsMetrics {
    /// The metrics after a request: it is counted, and so is its failure unless
    /// it was accepted or its path was malformed.
    pub open spec fn after(self, put: PutFs) -> PutRequestsMetrics {
        match put {
            PutFs::BadId(_) | PutFs::Accepted(_) => self.counted(),
            _ => self.counted().failed(),
        }
    }
}

/// The view of an optional string.
pub open spec fn id_view(id: Option<&str>) -> Option<Seq<char>> {
    match id {
        Some(id) => Some(id@),
        None => None,
    }
}

/// Understands a PUT request for an fs device, and counts it. A malformed id
/// in the path is not counted as a failure, every other refusal is.
pub fn parse_put_fs(
    metrics: &mut PutRequestsMetrics,
    decoded: Result<FsDeviceConfig, Fault>,
    id_from_path: Option<&str>,
) -> (parsed: Result<ParsedRequest, RequestError>)
    ensures
        match put_fs(decoded, id_view(id_from_path)) {
            PutFs::NoId => parsed == Err::<ParsedRequest, _>(RequestError::EmptyID),
            PutFs::BadId(error) => parsed == Err::<ParsedRequest, _>(error),
            PutFs::Undecodable(fault) => parsed == Err::<ParsedRequest, _>(
                RequestError::SerdeJson(fault),
            ),
            PutFs::OtherId => parsed matches Err(
                RequestError::Generic(StatusCode::BadRequest, text),
            ) && text@ == "The id from the path does not match the id from the body!"@,
            PutFs::Accepted(config) => parsed == Ok::<_, RequestError>(
                ParsedRequest { sync: VmmAction::InsertFsDevice(config) },
            ),
        },
        *final(metrics) == old(metrics).after(put_fs(decoded, id_view(id_from_path))),
{
    metrics.fs_count = metrics.fs_count.wrapping_add(1);
    let id = match id_from_path {
        Some(id) => match checked_id(id) {
            Ok(id) => id,
            Err(error) => {
                return Err(error);
            },
        },
        None => {
            metrics.fs_fails = metrics.fs_fails.wrapping_add(1);
            return Err(RequestError::EmptyID);
        },
    };
    let device_cfg = match decoded {
        Ok(device_cfg) => device_cfg,
        Err(fault) => {
            metrics.fs_fails = metrics.fs_fails.wrapping_add(1);
            return Err(RequestError::SerdeJson(fault));
        },
    };
    if !(id.to_owned() == device_cfg.fs_id) {
        metrics.fs_fails = metrics.fs_fails.wrapping_add(1);
        return Err(
            RequestError::Generic(
                StatusCode::BadRequest,
                "The id from the path does not match the id from the body!".to_owned(),
            ),
        );
    }
    Ok(ParsedRequest::new_sync(VmmAction::InsertFsDevice(device_cfg)))
}

/// A request that is accepted inserts a device under the id in the path, and
/// that id is well-formed.
pub proof fn law_accepted_id_is_the_paths(
    decoded: Result<FsDeviceConfig, Fault>,
    id_from_path: Option<Seq<char>>,
    config: FsDeviceConfig,
)
    requires
        put_fs(decoded, id_from_path) == PutFs::Accepted(config),
    ensures
        decoded == Ok::<_, Fault>(config),
        id_from_path == Some(config.fs_id@),
        id_error(config.fs_id@) is None,
{
}

/// Whether a character is an underscore, a letter or a digit of ASCII.
pub open spec fn plain_id_char(c: char) -> bool {
    c == '_' || 'a' <= c <= 'z' || 'A' <= c <= 'Z' || '0' <= c <= '9'
}

/// An id in ASCII is accepted exactly if it is not empty and made of
/// underscores, letters and digits. One bad character anywhere spoils it,
/// and so does having no character at all.
pub proof fn law_ascii_ids(id: Seq<char>)
    requires
        forall|i: int| 0 <= i < id.len() ==> #[trigger] id[i] <= '\x7f',
    ensures
        id_error(id) is None <==> id.len() > 0 && forall|i: int|
            0 <= i < id.len() ==> plain_id_char(#[trigger] id[i]),
        id_error(id) == Some(RequestError::EmptyID) <==> id.len() == 0,
        id_error(id) == Some(RequestError::InvalidID) <==> exists|i: int|
            0 <= i < id.len() && !plain_id_char(#[trigger] id[i]),
{
    assert forall|i: int| 0 <= i < id.len() implies id_char(#[trigger] id[i]) == plain_id_char(
        id[i],
    ) by {}
    if exists|i: int| 0 <= i < id.len() && !plain_id_char(#[trigger] id[i]) {
        let i = choose|i: int| 0 <= i < id.len() && !plain_id_char(#[trigger] id[i]);
        assert(!id_char(id[i]));
    }
}

/// Whether an id is accepted is decided character by character: two ids that
/// are both accepted make one when written one after the other, and the parts
/// of an accepted id are accepted unless they are empty. A character outside
/// ASCII is accepted exactly if Unicode calls it alphanumeric.
pub proof fn law_ids_are_checked_by_character(id1: Seq<char>, id2: Seq<char>)
    requires
        id1.len() > 0,
        id2.len() > 0,
    ensures
        id_error(id1 + id2) is None <==> id_error(id1) is None && id_error(id2) is None,
        id1.len() == 1 && id1[0] > '\x7f' ==> (id_error(id1) is None
            <==> crate::outside::alphanumeric(id1[0])),
{
    let id = id1 + id2;
    assert forall|i: int| 0 <= i < id1.len() implies id[i] == #[trigger] id1[i] by {}
    assert forall|i: int| 0 <= i < id2.len() implies id[id1.len() + i] == #[trigger] id2[i] by {}
    if id_error(id1) is Some {
        let i = choose|i: int| 0 <= i < id1.len() && !id_char(#[trigger] id1[i]);
        assert(!id_char(id[i]));
    }
    if id_error(id2) is Some {
        let i = choose|i: int| 0 <= i < id2.len() && !id_char(#[trigger] id2[i]);
        assert(!id_char(id[id1.len() + i]));
    }
    if id_error(id) is Some {
        let i = choose|i: int| 0 <= i < id.len() && !id_char(#[trigger] id[i]);
        if i < id1.len() {
            assert(!id_char(id1[i]));
        } else {
            assert(!id_char(id2[i - id1.len()]));
        }
    }
    if id1.len() == 1 {
        assert(id_error(id1) is None <==> id_char(id1[0]));
    }
}

/// A request is accepted exactly if its path holds a well-formed id and its
/// body is a configuration with that id, and then it is the configuration of
/// the body that is taken over. Otherwise the first thing that is wrong
/// decides: the path, then the body, then the two together.
pub proof fn law_put_is_decided_in_order(
    decoded: Result<FsDeviceConfig, Fault>,
    id_from_path: Option<Seq<char>>,
)
    ensures
        ({
            let put = put_fs(decoded, id_from_path);
            let named = id_from_path is Some;
            let well_formed = named && id_error(id_from_path->0) is None;
            let same = decoded is Ok && id_from_path == Some(decoded->Ok_0.fs_id@);
            &&& put is NoId <==> !named
            &&& put is BadId <==> named && !well_formed
            &&& put is Undecodable <==> well_formed && decoded is Err
            &&& put is OtherId <==> well_formed && decoded is Ok && !same
            &&& put is Accepted <==> well_formed && decoded is Ok && same
            &&& put matches PutFs::BadId(error) ==> id_error(id_from_path->0) == Some(error)
            &&& put matches PutFs::Undecodable(fault) ==> decoded == Err::<FsDeviceConfig, _>(fault)
            &&& put matches PutFs::Accepted(config) ==> decoded == Ok::<_, Fault>(config)
        }),
{
}

/// Counting adds one to the requests and leaves the failures alone, failing the
/// other way round; after the largest number comes 0.
pub proof fn law_counters_go_up_by_one(metrics: PutRequestsMetrics)
    ensures
        metrics.counted().fs_fails == metrics.fs_fails,
        metrics.failed().fs_count == metrics.fs_count,
        metrics.fs_count < u64::MAX ==> metrics.counted().fs_count == metrics.fs_count + 1,
        metrics.fs_fails < u64::MAX ==> metrics.failed().fs_fails == metrics.fs_fails + 1,
        metrics.fs_count == u64::MAX ==> metrics.counted().fs_count == 0,
        metrics.fs_fails == u64::MAX ==> metrics.failed().fs_fails == 0,
{
}

/// The id in a path is taken as it is written.
pub proof fn law_path_id_is_taken_as_written(id: Option<&str>)
    ensures
        id_view(id) is Some <==> id is Some,
        id matches Some(text) ==> id_view(id) == Some(text@),
{
}

/// Every request counts as one. It counts as one failure as well exactly if it
/// names no device, if its body cannot be decoded or if it names two devices.
pub proof fn law_requests_are_counted(metrics: PutRequestsMetrics, put: PutFs)
    ensures
        metrics.fs_count < u64::MAX ==> metrics.after(put).fs_count == metrics.fs_count + 1,
        metrics.fs_fails < u64::MAX ==> metrics.after(put).fs_fails - metrics.fs_fails == if put
            is NoId || put is Undecodable || put is OtherId {
            1int
        } else {
            0
        },
{
}

} // verus!
