use vstd::prelude::*;

verus! {

/// Sample encodings a capture device can deliver.
#[derive(Clone, Copy, Debug, PartialEq, Eq, Structural)]
pub enum SampleFormat {
    I16,
    U16,
    F32,
}

/// One family of input configurations that a device supports: a channel
/// count, an encoding, and every sample rate between the two bounds.
#[derive(Clone, Copy, Debug, PartialEq, Eq, Structural)]
pub struct ConfigRange {
    pub channels: u16,
    pub min_sample_rate: u32,
    pub max_sample_rate: u32,
    pub sample_format: SampleFormat,
}

/// The configuration a capture stream is opened with. It is fixed for the
/// lifetime of the stream.
#[derive(Clone, Copy, Debug, PartialEq, Eq, Structural)]
pub struct StreamConfig {
    pub channels: u16,
    pub sample_rate: u32,
}

impl StreamConfig {
    /// A stream needs at least one channel and a positive sample rate.
    pub open spec fn is_valid(&self) -> bool {
        self.channels >= 1 && self.sample_rate >= 1
    }

    /// The number of channel slots a snapshot of this stream fills with
    /// distinct data: channels beyond the second are not analysed.
    pub open spec fn analysed_channels(&self) -> nat {
        if self.channels >= 2 {
            2
        } else {
            1
        }
    }
}

/// Why no stream configuration could be settled on.
#[derive(Clone, Copy, Debug, PartialEq, Eq, Structural)]
pub enum ConfigError {
    /// The device reported no supported input configuration.
    NoSupportedConfig,
    /// The configuration has no channel or a zero sample rate.
    Unusable,
}

/// The configuration picked when the caller asks for none: the device's
/// first supported range, at its maximum sample rate.
pub open spec fn default_config(supported: Seq<ConfigRange>) -> StreamConfig
    recommends
        supported.len() > 0,
{
    StreamConfig { channels: supported[0].channels, sample_rate: supported[0].max_sample_rate }
}

/// The outcome of settling on a configuration.
pub open spec fn chosen_config(requested: Option<StreamConfig>, supported: Seq<ConfigRange>) -> Result<
    StreamConfig,
    ConfigError,
> {
    match requested {
        Some(c) => if c.is_valid() {
            Ok(c)
        } else {
            Err(ConfigError::Unusable)
        },
        None => if supported.len() == 0 {
            Err(ConfigError::NoSupportedConfig)
        } else if default_config(supported).is_valid() {
            Ok(default_config(supported))
        } else {
            Err(ConfigError::Unusable)
        },
    }
}

/// Settles the configuration of a new stream: the requested one, or else
/// the default of the device's supported ranges.
pub fn choose_config(requested: Option<StreamConfig>, supported: &Vec<ConfigRange>) -> (r: Result<
    StreamConfig,
    ConfigError,
>)
    ensures
        r == chosen_config(requested, supported@),
{
    let config = match requested {
        Some(c) => c,
        None => {
            if supported.len() == 0 {
                return Err(ConfigError::NoSupportedConfig);
            }
            let first = supported[0];
            StreamConfig { channels: first.channels, sample_rate: first.max_sample_rate }
        },
    };
    if config.channels >= 1 && config.sample_rate >= 1 {
        Ok(config)
    } else {
        Err(ConfigError::Unusable)
    }
}

} // verus!
