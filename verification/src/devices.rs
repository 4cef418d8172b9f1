//! The device registry: enumerated capture and playback devices, the
//! current selection, and the configuration negotiated for it.

use vstd::prelude::*;
use crate::config::StreamConfig;
use crate::errors::AudioError;

verus! {

/// One enumerated device: its display name and the default stream
/// configuration negotiated from it.
#[derive(Clone, Debug)]
pub struct DeviceInfo {
    pub name: String,
    pub config: StreamConfig,
}

/// A device presented to the command boundary: its identifier and its
/// display label (both the device name).
#[derive(Clone, Debug)]
pub struct ValueLabel {
    pub value: String,
    pub label: String,
}

/// The registry of host audio devices: the enumerated capture and
/// playback devices, the selected one on each side, and the
/// configuration negotiated from the selected device.
///
/// Invariant: each selected index lies in its list, and each stored
/// configuration is exactly the one negotiated from the selected
/// device, so no observer can see a device paired with another
/// device's configuration.
#[derive(Clone, Debug)]
pub struct AudioDevices {
    pub inputs: Vec<DeviceInfo>,
    pub outputs: Vec<DeviceInfo>,
    pub selected_input: usize,
    pub selected_output: usize,
    pub input_config: StreamConfig,
    pub output_config: StreamConfig,
}

/// Every enumerated device carries a valid configuration.
pub open spec fn all_configs_valid(devs: Seq<DeviceInfo>) -> bool {
    forall|k: int| 0 <= k < devs.len() ==> (#[trigger] devs[k]).config.valid()
}

/// No device in `devs` bears the name `name`.
pub open spec fn no_device_named(devs: Seq<DeviceInfo>, name: Seq<char>) -> bool {
    forall|k: int| 0 <= k < devs.len() ==> (#[trigger] devs[k]).name@ != name
}

impl AudioDevices {
    /// Well-formedness: selections are in range and each stored config
    /// is the one negotiated from its selected device.
    pub open spec fn wf(self) -> bool {
        &&& self.selected_input < self.inputs@.len()
        &&& self.selected_output < self.outputs@.len()
        &&& self.input_config == self.inputs@[self.selected_input as int].config
        &&& self.output_config == self.outputs@[self.selected_output as int].config
        &&& all_configs_valid(self.inputs@)
        &&& all_configs_valid(self.outputs@)
    }

    /// Builds the registry from the enumerated devices and the host's
    /// default selections, negotiating the default configurations.
    /// A missing default on either side is the startup-fatal
    /// `NoDefaultDevice` condition.
    pub fn new(
        inputs: Vec<DeviceInfo>,
        outputs: Vec<DeviceInfo>,
        default_input: Option<usize>,
        default_output: Option<usize>,
    ) -> (r: Result<AudioDevices, AudioError>)
        requires
            default_input matches Some(i) ==> i < inputs@.len(),
            default_output matches Some(j) ==> j < outputs@.len(),
            all_configs_valid(inputs@),
            all_configs_valid(outputs@),
        ensures
            match (default_input, default_output) {
                (Some(i), Some(j)) => r matches Ok(d)
                    && d.wf()
                    && d.inputs == inputs
                    && d.outputs == outputs
                    && d.selected_input == i
                    && d.selected_output == j
                    && d.input_config == inputs@[i as int].config
                    && d.output_config == outputs@[j as int].config,
                _ => r == Err::<AudioDevices, AudioError>(AudioError::NoDefaultDevice),
            },
    {
        match (default_input, default_output) {
            (Some(i), Some(j)) => {
                let input_config: StreamConfig = inputs[i].config;
                let output_config: StreamConfig = outputs[j].config;
                Ok(AudioDevices {
                    inputs,
                    outputs,
                    selected_input: i,
                    selected_output: j,
                    input_config,
                    output_config,
                })
            },
            _ => Err(AudioError::NoDefaultDevice),
        }
    }

    /// Selects the capture device bearing `name`, re-negotiating the
    /// stored input configuration from it in the same step. When no
    /// enumerated capture device bears the name, fails with
    /// `DeviceNotFound` and leaves the whole registry untouched.
    pub fn select_input_device(&mut self, name: &String) -> (r: Result<(), AudioError>)
        requires
            old(self).wf(),
        ensures
            final(self).wf(),
            final(self).outputs == old(self).outputs,
            final(self).inputs == old(self).inputs,
            final(self).selected_output == old(self).selected_output,
            final(self).output_config == old(self).output_config,
            match r {
                Ok(()) => {
                    &&& final(self).selected_input < old(self).inputs@.len()
                    &&& old(self).inputs@[final(self).selected_input as int].name@ == name@
                    &&& no_device_named(old(self).inputs@.take(final(self).selected_input as int), name@)
                    &&& final(self).input_config
                        == old(self).inputs@[final(self).selected_input as int].config
                },
                Err(e) => e == AudioError::DeviceNotFound
                    && no_device_named(old(self).inputs@, name@)
                    && *final(self) == *old(self),
            },
    {
        let n: usize = self.inputs.len();
        let mut k: usize = 0;
        while k < n
            invariant
                old(self).wf(),
                n == self.inputs@.len(),
                k <= n,
                no_device_named(self.inputs@.take(k as int), name@),
                self == old(self),
            decreases n - k,
        {
            if self.inputs[k].name == *name {
                proof {
                    assert(self.inputs@.take(k as int) =~= old(self).inputs@.take(k as int));
                }
                self.input_config = self.inputs[k].config;
                self.selected_input = k;
                return Ok(());
            }
            proof {
                assert(self.inputs@.take(k + 1).drop_last() =~= self.inputs@.take(k as int));
                assert(self.inputs@.take(k + 1).last() == self.inputs@[k as int]);
            }
            k = k + 1;
        }
        proof {
            assert(self.inputs@.take(n as int) =~= self.inputs@);
        }
        Err(AudioError::DeviceNotFound)
    }

    /// Selects the playback device bearing `name`, re-negotiating the
    /// stored output configuration from it in the same step. When no
    /// enumerated playback device bears the name, fails with
    /// `DeviceNotFound` and leaves the whole registry untouched.
    pub fn select_output_device(&mut self, name: &String) -> (r: Result<(), AudioError>)
        requires
            old(self).wf(),
        ensures
            final(self).wf(),
            final(self).outputs == old(self).outputs,
            final(self).inputs == old(self).inputs,
            final(self).selected_input == old(self).selected_input,
            final(self).input_config == old(self).input_config,
            match r {
                Ok(()) => {
                    &&& final(self).selected_output < old(self).outputs@.len()
                    &&& old(self).outputs@[final(self).selected_output as int].name@ == name@
                    &&& no_device_named(old(self).outputs@.take(final(self).selected_output as int), name@)
                    &&& final(self).output_config
                        == old(self).outputs@[final(self).selected_output as int].config
                },
                Err(e) => e == AudioError::DeviceNotFound
                    && no_device_named(old(self).outputs@, name@)
                    && *final(self) == *old(self),
            },
    {
        let n: usize = self.outputs.len();
        let mut k: usize = 0;
        while k < n
            invariant
                old(self).wf(),
                n == self.outputs@.len(),
                k <= n,
                no_device_named(self.outputs@.take(k as int), name@),
                self == old(self),
            decreases n - k,
        {
            if self.outputs[k].name == *name {
                proof {
                    assert(self.outputs@.take(k as int) =~= old(self).outputs@.take(k as int));
                }
                self.output_config = self.outputs[k].config;
                self.selected_output = k;
                return Ok(());
            }
            proof {
                assert(self.outputs@.take(k + 1).drop_last() =~= self.outputs@.take(k as int));
                assert(self.outputs@.take(k + 1).last() == self.outputs@[k as int]);
            }
            k = k + 1;
        }
        proof {
            assert(self.outputs@.take(n as int) =~= self.outputs@);
        }
        Err(AudioError::DeviceNotFound)
    }
}

/// Lists every enumerated capture device as an identifier/label pair,
/// both the device name, in enumeration order.
pub fn get_input_devices(audio_devices: &AudioDevices) -> (r: Vec<ValueLabel>)
    ensures
        r@.len() == audio_devices.inputs@.len(),
        forall|k: int| 0 <= k < r@.len() ==> (#[trigger] r@[k]).value@ == audio_devices.inputs@[k].name@
            && r@[k].label@ == audio_devices.inputs@[k].name@,
{
    labels_of(&audio_devices.inputs)
}

/// Lists every enumerated playback device as an identifier/label pair,
/// both the device name, in enumeration order.
pub fn get_output_devices(audio_devices: &AudioDevices) -> (r: Vec<ValueLabel>)
    ensures
        r@.len() == audio_devices.outputs@.len(),
        forall|k: int| 0 <= k < r@.len() ==> (#[trigger] r@[k]).value@ == audio_devices.outputs@[k].name@
            && r@[k].label@ == audio_devices.outputs@[k].name@,
{
    labels_of(&audio_devices.outputs)
}

/// Reads the presently selected playback device as an identifier/label
/// pair, both the device name.
pub fn get_current_output_device(audio_devices: &AudioDevices) -> (r: ValueLabel)
    requires
        audio_devices.wf(),
    ensures
        r.value@ == audio_devices.outputs@[audio_devices.selected_output as int].name@,
        r.label@ == audio_devices.outputs@[audio_devices.selected_output as int].name@,
{
    let name: &String = &audio_devices.outputs[audio_devices.selected_output].name;
    ValueLabel { value: name.clone(), label: name.clone() }
}

/// Maps each device to its identifier/label pair, keeping order.
fn labels_of(devs: &Vec<DeviceInfo>) -> (r: Vec<ValueLabel>)
    ensures
        r@.len() == devs@.len(),
        forall|k: int| 0 <= k < r@.len() ==> (#[trigger] r@[k]).value@ == devs@[k].name@
            && r@[k].label@ == devs@[k].name@,
{
    let mut r: Vec<ValueLabel> = Vec::new();
    let n: usize = devs.len();
    let mut k: usize = 0;
    while k < n
        invariant
            n == devs@.len(),
            k <= n,
            r@.len() == k,
            forall|j: int| 0 <= j < k ==> (#[trigger] r@[j]).value@ == devs@[j].name@
                && r@[j].label@ == devs@[j].name@,
        decreases n - k,
    {
        let name: &String = &devs[k].name;
        r.push(ValueLabel { value: name.clone(), label: name.clone() });
        k = k + 1;
    }
    r
}

/// Law: a well-formed registry never exposes a device paired with
/// another device's configuration — what each side stores is exactly
/// the configuration negotiated from its selected device, and it is
/// valid.
pub proof fn lemma_selection_config_paired(d: AudioDevices)
    requires
        d.wf(),
    ensures
        d.input_config == d.inputs@[d.selected_input as int].config,
        d.output_config == d.outputs@[d.selected_output as int].config,
        d.input_config.valid(),
        d.output_config.valid(),
{
    assert(d.inputs@[d.selected_input as int].config.valid());
    assert(d.outputs@[d.selected_output as int].config.valid());
}

} // verus!
