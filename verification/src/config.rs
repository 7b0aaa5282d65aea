//! What a user asks of an fs device.

use vstd::prelude::*;
use vstd::std_specs::convert::{FromSpec, FromSpecImpl};
use vstd::string::StringExecFns;

use crate::queue::NUM_HIPRIO_QUEUES;

verus! {

/// Default number of request queues of the fs device, in addition to the
/// hiprio queue.
pub const DEFAULT_NUM_REQUEST_QUEUES: u16 = 1;

/// Use this structure to set up an Fs Device before booting the kernel.
#[derive(Debug, PartialEq, Eq)]
pub struct FsDeviceConfig {
    /// Unique identifier of the fs device.
    pub fs_id: String,
    /// Path to the vhost-user backend socket.
    pub socket: String,
    /// Mount tag presented to the guest. Defaults to `fs_id`.
    pub tag: Option<String>,
    /// Number of request queues, in addition to the hiprio queue. Defaults to 1.
    pub num_request_queues: Option<u16>,
    /// Size of the DAX cache window in MiB. If unset, DAX is disabled.
    pub dax_window_size_mib: Option<u64>,
}

impl Clone for FsDeviceConfig {
    fn clone(&self) -> (copy: Self)
        ensures
            copy == *self,
    {
        FsDeviceConfig {
            fs_id: self.fs_id.clone(),
            socket: self.socket.clone(),
            tag: match &self.tag {
                Some(tag) => Some(tag.clone()),
                None => None,
            },
            num_request_queues: self.num_request_queues,
            dax_window_size_mib: self.dax_window_size_mib,
        }
    }
}

impl Default for FsDeviceConfig {
    fn default() -> (config: Self)
        ensures
            config.fs_id@ == Seq::<char>::empty(),
            config.socket@ == Seq::<char>::empty(),
            config.tag is None,
            config.num_request_queues is None,
            config.dax_window_size_mib is None,
    {
        FsDeviceConfig {
            fs_id: String::new(),
            socket: String::new(),
            tag: None,
            num_request_queues: None,
            dax_window_size_mib: None,
        }
    }
}

/// The configuration of an fs device with every default filled in.
#[derive(Debug, PartialEq, Eq)]
pub struct VhostUserFsConfig {
    /// Unique identifier of the fs device.
    pub fs_id: String,
    /// Socket path of the vhost-user process.
    pub socket: String,
    /// Mount tag presented to the guest in the device config space.
    pub tag: String,
    /// Number of request queues, in addition to the hiprio queue.
    pub num_request_queues: u16,
    /// Size of the DAX cache window in MiB. If unset, DAX is disabled.
    pub dax_window_size_mib: Option<u64>,
}

/// The name under which the metrics of the device with the given id are kept.
pub open spec fn metrics_name_of(id: Seq<char>) -> Seq<char> {
    "fs_"@ + id
}

impl VhostUserFsConfig {
    /// The name under which the metrics of the device are kept.
    pub fn metrics_name(&self) -> (name: String)
        ensures
            name@ == metrics_name_of(self.fs_id@),
    {
        let mut name = "fs_".to_owned();
        name.append(self.fs_id.as_str());
        name
    }

    /// All queues of the device: the hiprio queue and the request queues.
    pub fn num_queues(&self) -> (n: u64)
        ensures
            n == crate::queue::queue_count(self.num_request_queues),
    {
        NUM_HIPRIO_QUEUES + self.num_request_queues as u64
    }
}

impl FromSpecImpl<&FsDeviceConfig> for VhostUserFsConfig {
    open spec fn obeys_from_spec() -> bool {
        true
    }

    /// Every field is kept; a missing tag is the device id, a missing number
    /// of request queues is the default one.
    open spec fn from_spec(value: &FsDeviceConfig) -> Self {
        VhostUserFsConfig {
            fs_id: value.fs_id,
            socket: value.socket,
            tag: match value.tag {
                Some(tag) => tag,
                None => value.fs_id,
            },
            num_request_queues: match value.num_request_queues {
                Some(n) => n,
                None => DEFAULT_NUM_REQUEST_QUEUES,
            },
            dax_window_size_mib: value.dax_window_size_mib,
        }
    }
}

impl From<&FsDeviceConfig> for VhostUserFsConfig {
    fn from(value: &FsDeviceConfig) -> (config: Self) {
        VhostUserFsConfig {
            fs_id: value.fs_id.clone(),
            socket: value.socket.clone(),
            tag: match &value.tag {
                Some(tag) => tag.clone(),
                None => value.fs_id.clone(),
            },
            num_request_queues: match value.num_request_queues {
                Some(n) => n,
                None => DEFAULT_NUM_REQUEST_QUEUES,
            },
            dax_window_size_mib: value.dax_window_size_mib,
        }
    }
}

/// Filling the defaults in keeps everything that was given: without a tag the
/// id is the tag, without a number of request queues there is one.
pub proof fn law_defaults(value: FsDeviceConfig)
    ensures
        ({
            let config = <VhostUserFsConfig as FromSpec<&FsDeviceConfig>>::from_spec(&value);
            &&& config.fs_id@ == value.fs_id@
            &&& config.socket@ == value.socket@
            &&& value.tag matches Some(tag) ==> config.tag@ == tag@
            &&& value.tag is None ==> config.tag@ == value.fs_id@
            &&& value.num_request_queues matches Some(n) ==> config.num_request_queues == n
            &&& value.num_request_queues is None ==> config.num_request_queues == 1
            &&& config.dax_window_size_mib == value.dax_window_size_mib
            &&& crate::queue::queue_count(config.num_request_queues) == 1
                + config.num_request_queues
        }),
{
}

/// Metrics are kept under the id of their device, behind three characters, so
/// that devices with different ids have different metrics.
pub proof fn law_metrics_names(id1: Seq<char>, id2: Seq<char>)
    ensures
        metrics_name_of(id1).take(3) == seq!['f', 's', '_'],
        metrics_name_of(id1).skip(3) == id1,
        metrics_name_of(id1) == metrics_name_of(id2) <==> id1 == id2,
{
    reveal_strlit("fs_");
    assert(metrics_name_of(id1).skip(3) =~= id1);
    assert(metrics_name_of(id2).skip(3) =~= id2);
    assert(metrics_name_of(id1).take(3) =~= seq!['f', 's', '_']);
}

} // verus!
