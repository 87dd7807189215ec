use vstd::prelude::*;
use crate::config::ConfigRange;

verus! {

/// An input device as enumerated on the host: its position in the host's
/// enumeration, its display name and the configurations it supports.
pub struct AudioDevice {
    pub index: usize,
    pub name: String,
    pub supported_configurations: Vec<ConfigRange>,
}

/// What the host answered for one input device. A `None` is a query that
/// failed for that device.
pub struct DeviceProbe {
    pub name: Option<String>,
    pub supported_configurations: Option<Vec<ConfigRange>>,
}

/// An enumerated device as plain values: index, name, configurations.
pub type DeviceView = (nat, Seq<char>, Seq<ConfigRange>);

impl AudioDevice {
    pub open spec fn view(&self) -> DeviceView {
        (self.index as nat, self.name@, self.supported_configurations@)
    }
}

/// The device list built from the probes of the first `probes.len()`
/// devices: every device whose name and configurations could be read, in
/// enumeration order, keeping its enumeration position as its index.
pub open spec fn listed_devices(probes: Seq<DeviceProbe>) -> Seq<DeviceView>
    decreases probes.len(),
{
    if probes.len() == 0 {
        Seq::empty()
    } else {
        let last = probes.last();
        let earlier = listed_devices(probes.drop_last());
        match (last.name, last.supported_configurations) {
            (Some(name), Some(configs)) => earlier.push(
                ((probes.len() - 1) as nat, name@, configs@),
            ),
            _ => earlier,
        }
    }
}

/// Which device a stream is opened on.
#[derive(Clone, Copy, Debug, PartialEq, Eq, Structural)]
pub enum DeviceChoice {
    /// The host's default input device, whose position is not known.
    HostDefault,
    /// The device at this position of the host's enumeration.
    Enumerated(usize),
}

impl DeviceChoice {
    /// The index reported for this choice; the host default reports 0.
    pub open spec fn index_spec(&self) -> usize {
        match self {
            DeviceChoice::HostDefault => 0,
            DeviceChoice::Enumerated(i) => *i,
        }
    }

    /// The index reported for this choice; the host default reports 0.
    #[verifier::when_used_as_spec(index_spec)]
    pub fn index(&self) -> (r: usize)
        ensures
            r == self.index_spec(),
    {
        match self {
            DeviceChoice::HostDefault => 0,
            DeviceChoice::Enumerated(i) => *i,
        }
    }
}

/// The device a request resolves to among `device_count` enumerated devices.
pub open spec fn resolved_device(requested: Option<usize>, device_count: nat) -> Option<DeviceChoice> {
    match requested {
        None => Some(DeviceChoice::HostDefault),
        Some(i) => if (i as nat) < device_count {
            Some(DeviceChoice::Enumerated(i))
        } else if device_count > 0 {
            Some(DeviceChoice::Enumerated(0))
        } else {
            None
        },
    }
}

/// Resolves a device request: no request means the host default; an index
/// past the end of the enumeration falls back to the first device. `None`
/// only when an index was requested and the host lists no input device.
pub fn resolve_device(requested: Option<usize>, device_count: usize) -> (r: Option<DeviceChoice>)
    ensures
        r == resolved_device(requested, device_count as nat),
{
    match requested {
        None => Some(DeviceChoice::HostDefault),
        Some(i) => {
            if i < device_count {
                Some(DeviceChoice::Enumerated(i))
            } else if device_count > 0 {
                Some(DeviceChoice::Enumerated(0))
            } else {
                None
            }
        },
    }
}

fn copy_configs(configs: &Vec<ConfigRange>) -> (r: Vec<ConfigRange>)
    ensures
        r@ == configs@,
{
    let mut r: Vec<ConfigRange> = Vec::new();
    let mut i: usize = 0;
    while i < configs.len()
        invariant
            i <= configs.len(),
            r@ == configs@.take(i as int),
        decreases configs.len() - i,
    {
        r.push(configs[i]);
        i = i + 1;
        assert(r@ =~= configs@.take(i as int));
    }
    assert(configs@.take(i as int) =~= configs@);
    r
}

/// Builds the device list from the host's answers for each input device,
/// given in enumeration order. A device whose name or configurations could
/// not be read is left out; the others keep their enumeration position.
pub fn fetch_devices(probes: &Vec<DeviceProbe>) -> (r: Vec<AudioDevice>)
    ensures
        r@.map_values(|d: AudioDevice| d.view()) == listed_devices(probes@),
{
    let mut r: Vec<AudioDevice> = Vec::new();
    let mut i: usize = 0;
    while i < probes.len()
        invariant
            i <= probes.len(),
            r@.map_values(|d: AudioDevice| d.view()) == listed_devices(probes@.take(i as int)),
        decreases probes.len() - i,
    {
        let probe = &probes[i];
        proof {
            assert(probes@.take(i + 1).drop_last() =~= probes@.take(i as int));
        }
        match (&probe.name, &probe.supported_configurations) {
            (Some(name), Some(configs)) => {
                let device = AudioDevice {
                    index: i,
                    name: name.clone(),
                    supported_configurations: copy_configs(configs),
                };
                r.push(device);
            },
            _ => {},
        }
        i = i + 1;
        assert(r@.map_values(|d: AudioDevice| d.view()) =~= listed_devices(probes@.take(i as int)));
    }
    assert(probes@.take(i as int) =~= probes@);
    r
}

} // verus!
