use vstd::prelude::*;

verus! {

/// Settings fixed when the device is built: the network to join, the broker
/// account, and the channel that readings go to.
#[derive(Clone, Debug)]
pub struct Config {
    pub wifi_ssid: String,
    pub wifi_pass: String,
    pub client_id: String,
    pub username: String,
    pub password: String,
    pub channel_id: String,
}

impl Default for Config {
    /// Every field empty.
    fn default() -> (r: Config)
        ensures
            r.wifi_ssid@.len() == 0,
            r.wifi_pass@.len() == 0,
            r.client_id@.len() == 0,
            r.username@.len() == 0,
            r.password@.len() == 0,
            r.channel_id@.len() == 0,
    {
        Config {
            wifi_ssid: String::new(),
            wifi_pass: String::new(),
            client_id: String::new(),
            username: String::new(),
            password: String::new(),
            channel_id: String::new(),
        }
    }
}

} // verus!
