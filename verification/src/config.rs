//! Static receiver configuration: the talkgroup name this instance serves,
//! the address it listens on, and the directory flushed audio is written to.

use vstd::prelude::*;

verus! {

/// The view of a [`Config`]: the three settings as character sequences.
#[verifier::ext_equal]
pub ghost struct ConfigView {
    pub group: Seq<char>,
    pub rx_host_port: Seq<char>,
    pub audio_write_path: Seq<char>,
}

/// Read-once process configuration; constructed before the receive loop
/// starts and never mutated afterwards.
pub struct Config {
    pub group: String,
    pub rx_host_port: String,
    pub audio_write_path: String,
}

impl View for Config {
    type V = ConfigView;

    open spec fn view(&self) -> ConfigView {
        ConfigView {
            group: self.group@,
            rx_host_port: self.rx_host_port@,
            audio_write_path: self.audio_write_path@,
        }
    }
}

impl Config {
    /// Builds a configuration value from its three settings.
    pub fn _new(group: &str, rx_host_port: &str, audio_write_path: &str) -> (c: Config)
        ensures
            c@.group == group@,
            c@.rx_host_port == rx_host_port@,
            c@.audio_write_path == audio_write_path@,
    {
        Config {
            group: group.to_owned(),
            rx_host_port: rx_host_port.to_owned(),
            audio_write_path: audio_write_path.to_owned(),
        }
    }

    /// Copies the configuration, field by field.
    pub fn duplicate(&self) -> (c: Config)
        ensures
            c@ == self@,
    {
        let c = Config {
            group: self.group.clone(),
            rx_host_port: self.rx_host_port.clone(),
            audio_write_path: self.audio_write_path.clone(),
        };
        assert(c@ =~= self@);
        c
    }
}

} // verus!
