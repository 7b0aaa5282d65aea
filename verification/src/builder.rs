//! The fs devices of a microVM that is being set up.

use vstd::prelude::*;
use vstd::std_specs::convert::FromSpec;

use crate::config::{FsDeviceConfig, VhostUserFsConfig, DEFAULT_NUM_REQUEST_QUEUES};
use crate::device::{DeviceView, VhostUserFs};
use crate::error::{Fault, FsConfigError};
use crate::opening::{Opening, OpeningPhase, OpeningView};
use crate::request::{Call, Request};

verus! {

/// Wrapper for the collection that holds all the Fs Devices.
#[derive(PartialEq, Eq)]
pub struct FsBuilder {
    /// The list of fs devices.
    pub devices: Vec<VhostUserFs>,
}

impl View for FsBuilder {
    type V = Seq<DeviceView>;

    open spec fn view(&self) -> Seq<DeviceView> {
        Seq::new(self.devices@.len(), |i: int| self.devices@[i]@)
    }
}

/// Whether no two devices have the same id.
pub open spec fn unique_ids(devices: Seq<DeviceView>) -> bool {
    forall|i: int, j: int|
        #![trigger devices[i], devices[j]]
        0 <= i < j < devices.len() ==> devices[i].id != devices[j].id
}

/// Whether some device has the given id.
pub open spec fn has_id(devices: Seq<DeviceView>, id: Seq<char>) -> bool {
    exists|i: int| 0 <= i < devices.len() && #[trigger] devices[i].id == id
}

/// The first device with the given id is at this place, if it is anywhere.
pub open spec fn is_index_of(devices: Seq<DeviceView>, id: Seq<char>, index: Option<int>) -> bool {
    match index {
        Some(index) => {
            &&& 0 <= index < devices.len()
            &&& devices[index].id == id
            &&& forall|i: int| 0 <= i < index ==> (#[trigger] devices[i]).id != id
        },
        None => !has_id(devices, id),
    }
}

/// The devices after a new one has come: it takes the place of the one with
/// the same id, or comes last.
pub open spec fn inserted(
    devices: Seq<DeviceView>,
    position: Option<usize>,
    device: DeviceView,
) -> Seq<DeviceView> {
    match position {
        Some(index) => devices.update(index as int, device),
        None => devices.push(device),
    }
}

/// The devices after a new one has come, without regard to places: it stands
/// where its id stood, or comes last.
pub open spec fn put(devices: Seq<DeviceView>, device: DeviceView) -> Seq<DeviceView> {
    if has_id(devices, device.id) {
        Seq::new(
            devices.len(),
            |i: int|
                if devices[i].id == device.id {
                    device
                } else {
                    devices[i]
                },
        )
    } else {
        devices.push(device)
    }
}

/// The ids of devices, in their order.
pub open spec fn ids_of(devices: Seq<DeviceView>) -> Seq<Seq<char>> {
    Seq::new(devices.len(), |i: int| devices[i].id)
}

/// The ids of configurations, in their order.
pub open spec fn config_ids(configs: Seq<FsDeviceConfig>) -> Seq<Seq<char>> {
    Seq::new(configs.len(), |i: int| configs[i].fs_id@)
}

/// The devices after the given ones have come in turn.
pub open spec fn put_all(created: Seq<DeviceView>) -> Seq<DeviceView>
    decreases created.len(),
{
    if created.len() == 0 {
        Seq::empty()
    } else {
        put(put_all(created.drop_last()), created.last())
    }
}

impl Default for FsBuilder {
    fn default() -> (builder: Self)
        ensures
            builder@ == Seq::<DeviceView>::empty(),
    {
        let builder = FsBuilder { devices: Vec::new() };
        assert(builder@ =~= Seq::empty());
        builder
    }
}

/// The insertion of a device.
#[derive(PartialEq, Eq)]
pub struct Insertion {
    pub builder: FsBuilder,
    /// Where the device with the same id is.
    pub position: Option<usize>,
    pub opening: Opening,
}

/// The insertion of a device as a mathematical value.
pub struct InsertionView {
    pub devices: Seq<DeviceView>,
    pub position: Option<usize>,
    pub opening: OpeningView,
}

impl View for Insertion {
    type V = InsertionView;

    open spec fn view(&self) -> InsertionView {
        InsertionView {
            devices: self.builder@,
            position: self.position,
            opening: self.opening@,
        }
    }
}

impl InsertionView {
    /// Whether this is the start of the insertion of a device.
    pub open spec fn starts(self, devices: Seq<DeviceView>, config: FsDeviceConfig) -> bool {
        &&& self.devices == devices
        &&& self.opening == OpeningView::start(VhostUserFsConfig::from_spec(&config))
        &&& is_index_of(
            devices,
            config.fs_id@,
            match self.position {
                Some(index) => Some(index as int),
                None => None,
            },
        )
    }

    pub open spec fn wf(self) -> bool {
        &&& self.opening.wf()
        &&& self.position matches Some(index) ==> index < self.devices.len()
    }

    /// The call that is next, if any.
    pub open spec fn pending(self) -> Option<Call> {
        self.opening.pending()
    }

    /// At most so many calls are still to be made.
    pub open spec fn remaining(self) -> nat {
        self.opening.remaining()
    }

    /// What the answer to the pending call makes of it.
    pub open spec fn step(self, reply: Result<u64, Fault>) -> InsertionView {
        InsertionView { opening: self.opening.step(reply), ..self }
    }

    /// What becomes of the insertion when its calls are answered in turn.
    pub open spec fn run(self, replies: Seq<Result<u64, Fault>>) -> InsertionView
        decreases replies.len(),
    {
        if replies.len() == 0 || self.pending() is None {
            self
        } else {
            self.step(replies[0]).run(replies.drop_first())
        }
    }

    /// The device whose place a new one takes.
    pub open spec fn replaced(self) -> Option<DeviceView> {
        match (self.opening.phase, self.position) {
            (OpeningPhase::Failed(_), _) => None,
            (_, Some(index)) => Some(self.devices[index as int]),
            (_, None) => None,
        }
    }

    /// The devices and the outcome: a device that cannot be created changes
    /// nothing.
    pub open spec fn outcome(self) -> (Seq<DeviceView>, Result<(), FsConfigError>) {
        match self.opening.phase {
            OpeningPhase::Failed(error) => (
                self.devices,
                Err(FsConfigError::CreateFsDevice(error)),
            ),
            _ => (inserted(self.devices, self.position, self.opening.device()), Ok(())),
        }
    }
}

impl FsBuilder {
    /// Gets the index of the device with the specified `fs_id` if it exists in the list.
    pub fn get_index_of_fs_id(&self, fs_id: &str) -> (index: Option<usize>)
        ensures
            is_index_of(
                self@,
                fs_id@,
                match index {
                    Some(index) => Some(index as int),
                    None => None,
                },
            ),
    {
        let wanted: String = fs_id.to_owned();
        let n: usize = self.devices.len();
        for i in 0..n
            invariant
                n == self.devices@.len(),
                wanted@ == fs_id@,
                forall|j: int| 0 <= j < i ==> (#[trigger] self@[j]).id != fs_id@,
        {
            assert(self@[i as int].id == self.devices@[i as int].id@);
            if self.devices[i].id == wanted {
                return Some(i);
            }
        }
        None
    }

    /// Starts to insert a `VhostUserFs` in the fs devices list using the specified
    /// configuration. If a device with the same id already exists, it will be
    /// overwritten. The vhost-user backend socket is connected here, so an
    /// unreachable backend fails this operation.
    pub fn insert(self, config: FsDeviceConfig) -> (insertion: Insertion)
        ensures
            insertion@.starts(self@, config),
            insertion@.wf(),
    {
        let position: Option<usize> = self.get_index_of_fs_id(config.fs_id.as_str());
        let opening = VhostUserFs::new(VhostUserFsConfig::from(&config));
        Insertion { builder: self, position, opening }
    }

    /// Returns a vec with the structures used to configure the devices.
    pub fn configs(&self) -> (configs: Vec<FsDeviceConfig>)
        ensures
            configs@.len() == self@.len(),
            forall|i: int|
                #![trigger configs@[i]]
                0 <= i < self@.len() ==> self@[i].described_by(configs@[i]),
    {
        let n: usize = self.devices.len();
        let mut configs: Vec<FsDeviceConfig> = Vec::new();
        for i in 0..n
            invariant
                n == self.devices@.len(),
                configs@.len() == i,
                forall|j: int|
                    #![trigger configs@[j]]
                    0 <= j < i ==> self@[j].described_by(configs@[j]),
        {
            configs.push(self.devices[i].config());
        }
        configs
    }
}

impl Insertion {
    /// The call that is next, if any.
    pub fn pending(&self) -> (request: Option<Request>)
        ensures
            match request {
                Some(request) => self@.pending() == Some(request@),
                None => self@.pending() is None,
            },
    {
        self.opening.pending()
    }

    /// Takes the answer to the pending call.
    pub fn complete(self, reply: Result<u64, Fault>) -> (next: Insertion)
        requires
            self@.wf(),
            self@.pending() is Some,
        ensures
            next@ == self@.step(reply),
            next@.wf(),
            next@.remaining() < self@.remaining(),
    {
        Insertion {
            builder: self.builder,
            position: self.position,
            opening: self.opening.complete(reply),
        }
    }

    /// The devices and the outcome, once no call is pending. A device that had
    /// to make room is handed back, so that the host can stop its thread and
    /// give its window back.
    pub fn finish(self) -> (outcome: (
        FsBuilder,
        Option<VhostUserFs>,
        Result<(), FsConfigError>,
    ))
        requires
            self@.wf(),
            self@.pending() is None,
        ensures
            (outcome.0@, outcome.2) == self@.outcome(),
            match outcome.1 {
                Some(replaced) => self@.replaced() == Some(replaced@),
                None => self@.replaced() is None,
            },
    {
        let ghost before = self@;
        let mut builder = self.builder;
        match self.opening.finish() {
            Err(error) => (builder, None, Err(FsConfigError::CreateFsDevice(error))),
            Ok(fs) => {
                let ghost created = fs@;
                let replaced = match self.position {
                    // New fs device.
                    None => {
                        builder.devices.push(fs);
                        None
                    },
                    // Update existing fs device.
                    Some(index) => {
                        let mut other = fs;
                        assert(before.devices[index as int] == builder.devices@[index as int]@);
                        builder.devices.set_and_swap(index, &mut other);
                        Some(other)
                    },
                };
                assert(builder@ =~= inserted(before.devices, before.position, created));
                (builder, replaced, Ok(()))
            },
        }
    }
}

impl InsertionView {
    proof fn lemma_run_keeps_place(self, replies: Seq<Result<u64, Fault>>)
        ensures
            self.run(replies).devices == self.devices,
            self.run(replies).position == self.position,
            self.run(replies).opening.config == self.opening.config,
        decreases replies.len(),
    {
        if replies.len() > 0 && self.pending() is Some {
            self.step(replies[0]).lemma_run_keeps_place(replies.drop_first());
        }
    }
}

/// Whatever the host answers, ids stay unique. A failed insertion changes
/// nothing. A successful one leaves the devices with other ids where they are
/// and as they are, and there is then exactly one device with the id: in the
/// place of the one that had it, or as a new last one.
pub proof fn law_insertion(
    devices: Seq<DeviceView>,
    config: FsDeviceConfig,
    start: InsertionView,
    replies: Seq<Result<u64, Fault>>,
)
    requires
        unique_ids(devices),
        start.starts(devices, config),
    ensures
        ({
            let (after, result) = start.run(replies).outcome();
            &&& unique_ids(after)
            &&& result is Err ==> after == devices
            &&& result is Ok ==> {
                let device = start.run(replies).opening.device();
                &&& device.created_from(VhostUserFsConfig::from_spec(&config))
                &&& after == put(devices, device)
                &&& has_id(after, config.fs_id@)
                &&& after.len() == if has_id(devices, config.fs_id@) {
                    devices.len()
                } else {
                    devices.len() + 1
                }
                &&& forall|i: int|
                    0 <= i < devices.len() && (#[trigger] devices[i]).id != config.fs_id@
                        ==> after[i] == devices[i]
            }
        }),
{
    start.lemma_run_keeps_place(replies);
    let end = start.run(replies);
    let (after, result) = end.outcome();
    if result is Ok {
        let device = end.opening.device();
        assert(device.id == config.fs_id@);
        match start.position {
            Some(index) => {
                assert(after[index as int].id == config.fs_id@);
                assert(devices[index as int].id == config.fs_id@);
            },
            None => {
                assert(after[devices.len() as int].id == config.fs_id@);
                assert forall|i: int| 0 <= i < devices.len() implies (#[trigger] devices[i]).id
                    != config.fs_id@ by {}
            },
        }
        assert(after =~= put(devices, device));
    }
}

impl InsertionView {
    proof fn lemma_run_opening(self, replies: Seq<Result<u64, Fault>>)
        ensures
            self.run(replies).opening == self.opening.run(replies),
        decreases replies.len(),
    {
        if replies.len() > 0 && self.pending() is Some {
            self.step(replies[0]).lemma_run_opening(replies.drop_first());
        }
    }
}

/// An insertion makes the calls of the creation of its device, one by one, and
/// fails exactly if that creation does, with its error. If it succeeds, the
/// device that the creation gave stands in the list, in the place of the first
/// one that had its id before, which is handed back, or last if there was none;
/// if it fails, the list stays and none is handed back.
pub proof fn law_insertion_is_a_creation(
    devices: Seq<DeviceView>,
    config: FsDeviceConfig,
    start: InsertionView,
    replies: Seq<Result<u64, Fault>>,
)
    requires
        start.starts(devices, config),
    ensures
        ({
            let creation = OpeningView::start(VhostUserFsConfig::from_spec(&config)).run(replies);
            let end = start.run(replies);
            let (after, result) = end.outcome();
            &&& end.pending() == creation.pending()
            &&& match creation.phase {
                OpeningPhase::Failed(error) => {
                    &&& result == Err::<(), _>(FsConfigError::CreateFsDevice(error))
                    &&& end.replaced() is None
                    &&& after == devices
                },
                _ => {
                    &&& result is Ok
                    &&& after.contains(creation.device())
                    &&& end.replaced() is Some <==> has_id(devices, config.fs_id@)
                    &&& end.replaced() matches Some(replaced) ==> {
                        &&& replaced.id == config.fs_id@
                        &&& exists|i: int|
                            {
                                &&& 0 <= i < devices.len()
                                &&& #[trigger] devices[i] == replaced
                                &&& after == devices.update(i, creation.device())
                                &&& forall|j: int|
                                    0 <= j < i ==> (#[trigger] devices[j]).id != config.fs_id@
                            }
                    }
                    &&& end.replaced() is None ==> after == devices.push(creation.device())
                },
            }
        }),
{
    start.lemma_run_keeps_place(replies);
    start.lemma_run_opening(replies);
    let end = start.run(replies);
    let (after, result) = end.outcome();
    if result is Ok {
        match start.position {
            Some(index) => {
                assert(devices[index as int].id == config.fs_id@);
                assert(after[index as int] == end.opening.device());
            },
            None => {
                assert(after[devices.len() as int] == end.opening.device());
            },
        }
    }
}

proof fn lemma_last_of_push(ids: Seq<Seq<char>>, last: Seq<char>, id: Seq<char>)
    ensures
        ids.push(last).index_of_last(id) == if last == id {
            Some(ids.len() as int)
        } else {
            ids.index_of_last(id)
        },
{
    let all = ids.push(last);
    all.index_of_last_ensures(id);
    ids.index_of_last_ensures(id);
    assert(all[ids.len() as int] == last);
    assert(forall|i: int| 0 <= i < ids.len() ==> all[i] == ids[i]);
    if last != id && ids.contains(id) {
        assert(all[ids.index_of_last(id)->0] == id);
    }
}

proof fn lemma_first_of_push(ids: Seq<Seq<char>>, last: Seq<char>, id: Seq<char>)
    ensures
        ids.push(last).index_of_first(id) == if ids.contains(id) {
            ids.index_of_first(id)
        } else if last == id {
            Some(ids.len() as int)
        } else {
            None
        },
{
    let all = ids.push(last);
    all.index_of_first_ensures(id);
    ids.index_of_first_ensures(id);
    assert(all[ids.len() as int] == last);
    assert(forall|i: int| 0 <= i < ids.len() ==> all[i] == ids[i]);
    if ids.contains(id) {
        assert(all[ids.index_of_first(id)->0] == id);
    }
}

/// What holds of the devices after the given ones have come in turn.
proof fn lemma_put_all(created: Seq<DeviceView>)
    ensures
        ids_of(put_all(created)).no_duplicates(),
        forall|id: Seq<char>| #[trigger]
            ids_of(put_all(created)).contains(id) <==> ids_of(created).contains(id),
        forall|k: int|
            0 <= k < put_all(created).len() ==> #[trigger] put_all(created)[k]
                == created[ids_of(created).index_of_last(put_all(created)[k].id)->0],
        forall|k1: int, k2: int|
            #![trigger put_all(created)[k1], put_all(created)[k2]]
            0 <= k1 < k2 < put_all(created).len() ==> ids_of(created).index_of_first(
                put_all(created)[k1].id,
            )->0 < ids_of(created).index_of_first(put_all(created)[k2].id)->0,
    decreases created.len(),
{
    let ids = ids_of(created);
    let devices = put_all(created);
    if created.len() == 0 {
        assert(ids =~= Seq::empty());
        assert(ids_of(devices) =~= Seq::empty());
    } else {
        let rest = created.drop_last();
        let before = put_all(rest);
        let device = created.last();
        let n = rest.len() as int;
        lemma_put_all(rest);
        assert(ids =~= ids_of(rest).push(device.id));
        lemma_has_id(before, device.id);
        if has_id(before, device.id) {
            assert(ids_of(devices) =~= ids_of(before));
        } else {
            assert(ids_of(devices) =~= ids_of(before).push(device.id));
        }
        assert forall|id: Seq<char>| #[trigger] ids_of(devices).contains(id) <==> ids.contains(
            id,
        ) by {
            assert(ids_of(before).contains(id) <==> ids_of(rest).contains(id));
            lemma_contains_push(ids_of(rest), device.id, id);
            lemma_contains_push(ids_of(before), device.id, id);
        }
        assert forall|k: int| 0 <= k < devices.len() implies #[trigger] devices[k]
            == created[ids.index_of_last(devices[k].id)->0] by {
            lemma_last_of_push(ids_of(rest), device.id, devices[k].id);
            if devices[k].id != device.id {
                assert(devices[k] == before[k]);
                assert(ids_of(before)[k] == before[k].id);
                assert(ids_of(before).contains(before[k].id));
                ids_of(rest).index_of_last_ensures(before[k].id);
            }
        }
        assert forall|k1: int, k2: int|
            #![trigger devices[k1], devices[k2]]
            0 <= k1 < k2 < devices.len() implies ids.index_of_first(devices[k1].id)->0
            < ids.index_of_first(devices[k2].id)->0 by {
            lemma_first_of_push(ids_of(rest), device.id, devices[k1].id);
            lemma_first_of_push(ids_of(rest), device.id, devices[k2].id);
            assert(devices[k1].id == before[k1].id);
            assert(ids_of(before)[k1] == before[k1].id);
            assert(ids_of(before).contains(before[k1].id));
            ids_of(rest).index_of_first_ensures(before[k1].id);
            if k2 < before.len() {
                assert(devices[k2].id == before[k2].id);
                assert(ids_of(before)[k2] == before[k2].id);
                assert(ids_of(before).contains(before[k2].id));
            } else {
                assert(!ids_of(before).contains(device.id));
            }
        }
    }
}

proof fn lemma_has_id(devices: Seq<DeviceView>, id: Seq<char>)
    ensures
        has_id(devices, id) <==> ids_of(devices).contains(id),
{
    if has_id(devices, id) {
        let i = choose|i: int| 0 <= i < devices.len() && #[trigger] devices[i].id == id;
        assert(ids_of(devices)[i] == id);
    }
}

proof fn lemma_contains_push(ids: Seq<Seq<char>>, last: Seq<char>, id: Seq<char>)
    ensures
        ids.push(last).contains(id) <==> ids.contains(id) || last == id,
{
    let all = ids.push(last);
    assert(all[ids.len() as int] == last);
    if ids.contains(id) {
        let i = choose|i: int| 0 <= i < ids.len() && ids[i] == id;
        assert(all[i] == id);
    }
}

/// Whether a reported configuration is the given one, with every option
/// spelled out: the tag is the id unless it was given, the number of request
/// queues is the default one unless it was given.
pub open spec fn spelled_out(reported: FsDeviceConfig, given: FsDeviceConfig) -> bool {
    &&& reported.fs_id@ == given.fs_id@
    &&& reported.socket@ == given.socket@
    &&& reported.tag matches Some(tag) && tag@ == match given.tag {
        Some(tag) => tag@,
        None => given.fs_id@,
    }
    &&& reported.num_request_queues == Some(
        match given.num_request_queues {
            Some(n) => n,
            None => DEFAULT_NUM_REQUEST_QUEUES,
        },
    )
    &&& reported.dax_window_size_mib == given.dax_window_size_mib
}

proof fn lemma_configs_of_put_all(
    given: Seq<FsDeviceConfig>,
    created: Seq<DeviceView>,
    reported: Seq<FsDeviceConfig>,
)
    requires
        given.len() == created.len(),
        forall|j: int|
            0 <= j < given.len() ==> (#[trigger] created[j]).created_from(
                VhostUserFsConfig::from_spec(&given[j]),
            ),
        reported.len() == put_all(created).len(),
        forall|k: int|
            0 <= k < reported.len() ==> put_all(created)[k].described_by(#[trigger] reported[k]),
    ensures
        config_ids(reported).no_duplicates(),
        forall|id: Seq<char>| #[trigger]
            config_ids(reported).contains(id) <==> config_ids(given).contains(id),
        forall|k: int|
            0 <= k < reported.len() ==> spelled_out(
                #[trigger] reported[k],
                given[config_ids(given).index_of_last(reported[k].fs_id@)->0],
            ),
        forall|k1: int, k2: int|
            #![trigger reported[k1], reported[k2]]
            0 <= k1 < k2 < reported.len() ==> config_ids(given).index_of_first(
                reported[k1].fs_id@,
            )->0 < config_ids(given).index_of_first(reported[k2].fs_id@)->0,
{
    let devices = put_all(created);
    let ids = ids_of(created);
    lemma_put_all(created);
    assert forall|j: int| 0 <= j < given.len() implies ids[j] == config_ids(given)[j] by {
        assert(created[j].created_from(VhostUserFsConfig::from_spec(&given[j])));
    }
    assert(ids =~= config_ids(given));
    assert forall|k: int| 0 <= k < reported.len() implies config_ids(reported)[k] == ids_of(
        devices,
    )[k] by {
        assert(devices[k].described_by(reported[k]));
    }
    assert(config_ids(reported) =~= ids_of(devices));
    assert forall|k: int| 0 <= k < reported.len() implies spelled_out(
        #[trigger] reported[k],
        given[ids.index_of_last(reported[k].fs_id@)->0],
    ) by {
        let id = reported[k].fs_id@;
        assert(devices[k].described_by(reported[k]));
        assert(ids_of(devices)[k] == id);
        assert(ids_of(devices).contains(id));
        ids.index_of_last_ensures(id);
        let l = ids.index_of_last(id)->0;
        assert(devices[k] == created[l]);
        assert(created[l].created_from(VhostUserFsConfig::from_spec(&given[l])));
    }
    assert forall|k1: int, k2: int|
        #![trigger reported[k1], reported[k2]]
        0 <= k1 < k2 < reported.len() implies ids.index_of_first(reported[k1].fs_id@)->0
        < ids.index_of_first(reported[k2].fs_id@)->0 by {
        assert(devices[k1].described_by(reported[k1]));
        assert(devices[k2].described_by(reported[k2]));
    }
}

/// Insertions that follow one another from an empty list and all succeed:
/// `lists` are the devices before, between and after them, `starts` the
/// insertions and `replies` what their calls are answered.
pub open spec fn successful_insertions(
    given: Seq<FsDeviceConfig>,
    lists: Seq<Seq<DeviceView>>,
    starts: Seq<InsertionView>,
    replies: Seq<Seq<Result<u64, Fault>>>,
) -> bool {
    &&& lists.len() == given.len() + 1
    &&& starts.len() == given.len()
    &&& replies.len() == given.len()
    &&& lists[0] == Seq::<DeviceView>::empty()
    &&& forall|j: int|
        0 <= j < given.len() ==> {
            &&& (#[trigger] starts[j]).starts(lists[j], given[j])
            &&& starts[j].run(replies[j]).pending() is None
            &&& starts[j].run(replies[j]).outcome() == (
                lists[j + 1],
                Ok::<(), FsConfigError>(()),
            )
        }
}

/// The devices that the insertions create.
pub open spec fn created_by(
    starts: Seq<InsertionView>,
    replies: Seq<Seq<Result<u64, Fault>>>,
) -> Seq<DeviceView> {
    Seq::new(starts.len(), |j: int| starts[j].run(replies[j]).opening.device())
}

proof fn lemma_insertions_put_all(
    given: Seq<FsDeviceConfig>,
    lists: Seq<Seq<DeviceView>>,
    starts: Seq<InsertionView>,
    replies: Seq<Seq<Result<u64, Fault>>>,
    n: int,
)
    requires
        successful_insertions(given, lists, starts, replies),
        0 <= n <= given.len(),
    ensures
        unique_ids(lists[n]),
        lists[n] == put_all(created_by(starts, replies).take(n)),
        forall|j: int|
            0 <= j < n ==> (#[trigger] created_by(starts, replies)[j]).created_from(
                VhostUserFsConfig::from_spec(&given[j]),
            ),
    decreases n,
{
    let created = created_by(starts, replies);
    if n == 0 {
        assert(created.take(0) =~= Seq::empty());
    } else {
        let m = n - 1;
        lemma_insertions_put_all(given, lists, starts, replies, m);
        assert(starts[m].starts(lists[m], given[m]));
        law_insertion(lists[m], given[m], starts[m], replies[m]);
        assert(created.take(n).drop_last() =~= created.take(m));
        assert(created.take(n).last() == created[m]);
    }
}

/// After a sequence of successful insertions into an empty list, the reported
/// configurations are one for each id, in the order in which the ids first
/// came, and each is the last one that was given with its id, with every
/// option spelled out.
pub proof fn law_configs_after_insertions(
    given: Seq<FsDeviceConfig>,
    lists: Seq<Seq<DeviceView>>,
    starts: Seq<InsertionView>,
    replies: Seq<Seq<Result<u64, Fault>>>,
    reported: Seq<FsDeviceConfig>,
)
    requires
        successful_insertions(given, lists, starts, replies),
        reported.len() == lists.last().len(),
        forall|k: int|
            0 <= k < reported.len() ==> lists.last()[k].described_by(#[trigger] reported[k]),
    ensures
        config_ids(reported).no_duplicates(),
        forall|id: Seq<char>| #[trigger]
            config_ids(reported).contains(id) <==> config_ids(given).contains(id),
        forall|k: int|
            0 <= k < reported.len() ==> spelled_out(
                #[trigger] reported[k],
                given[config_ids(given).index_of_last(reported[k].fs_id@)->0],
            ),
        forall|k1: int, k2: int|
            #![trigger reported[k1], reported[k2]]
            0 <= k1 < k2 < reported.len() ==> config_ids(given).index_of_first(
                reported[k1].fs_id@,
            )->0 < config_ids(given).index_of_first(reported[k2].fs_id@)->0,
{
    let created = created_by(starts, replies);
    let n = given.len() as int;
    lemma_insertions_put_all(given, lists, starts, replies, n);
    assert(created.take(n) =~= created);
    lemma_configs_of_put_all(given, created, reported);
}

/// What is told of a builder and of an insertion is what they hold, each device
/// at its place.
pub proof fn law_view_is_the_builder(insertion: Insertion)
    ensures
        insertion.builder@.len() == insertion.builder.devices@.len(),
        forall|i: int|
            0 <= i < insertion.builder.devices@.len() ==> #[trigger] insertion.builder@[i]
                == insertion.builder.devices@[i]@,
        insertion@.devices == insertion.builder@,
        insertion@.position == insertion.position,
        insertion@.opening == insertion.opening@,
{
}

/// A configuration describes a device exactly if it names its id, its socket,
/// its tag, its number of request queues and the size of its window.
pub proof fn law_description(device: DeviceView, config: FsDeviceConfig)
    ensures
        device.described_by(config) <==> {
            &&& config.fs_id@ == device.id
            &&& config.socket@ == device.socket_path
            &&& config.tag is Some && config.tag->0@ == device.tag
            &&& config.num_request_queues is Some && config.num_request_queues->0
                == device.num_request_queues
            &&& config.dax_window_size_mib == device.dax_window_size_mib
        },
{
}

/// The index of an id is that of the first device that has it, and there is one
/// exactly if some device does.
pub proof fn law_index_is_the_first(
    devices: Seq<DeviceView>,
    id: Seq<char>,
    index: Option<int>,
    i: int,
)
    requires
        is_index_of(devices, id, index),
        0 <= i < devices.len(),
    ensures
        devices[i].id == id ==> index is Some && 0 <= index->0 <= i,
        index is Some ==> index->0 < devices.len() && devices[index->0].id == id,
{
}

} // verus!
