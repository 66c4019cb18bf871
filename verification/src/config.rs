use vstd::prelude::*;

verus! {

/// A backend for reading the controller.
#[derive(Debug, Clone, Copy, PartialEq, Eq, Structural)]
pub enum InputMethod {
    XInput,
    DirectInput,
}

impl Default for InputMethod {
    fn default() -> (m: InputMethod)
        ensures
            m == InputMethod::DirectInput,
    {
        InputMethod::DirectInput
    }
}

/// The configuration as a value.
pub struct ConfigModel {
    pub target_controller_index: u32,
    pub input_method: InputMethod,
    pub chatter_threshold_ms: u64,
    pub polling_rate_ms_connected: u64,
    pub polling_rate_ms_disconnected: u64,
    pub target_process_name: Seq<char>,
    pub obs_enabled: bool,
    pub obs_port: u16,
    pub obs_poll_interval_ms: u64,
}

impl ConfigModel {
    /// The configuration of a new profile.
    pub open spec fn initial() -> ConfigModel {
        ConfigModel {
            target_controller_index: 0,
            input_method: InputMethod::DirectInput,
            chatter_threshold_ms: 15,
            polling_rate_ms_connected: 1,
            polling_rate_ms_disconnected: 1000,
            target_process_name: "bm2dx.exe"@,
            obs_enabled: false,
            obs_port: 36000,
            obs_poll_interval_ms: 100,
        }
    }
}

/// What the monitor is told to watch and how often.
#[derive(Debug)]
pub struct AppConfig {
    pub target_controller_index: u32,
    pub input_method: InputMethod,
    pub chatter_threshold_ms: u64,
    pub polling_rate_ms_connected: u64,
    pub polling_rate_ms_disconnected: u64,
    pub target_process_name: String,
    pub obs_enabled: bool,
    pub obs_port: u16,
    pub obs_poll_interval_ms: u64,
}

impl View for AppConfig {
    type V = ConfigModel;

    open spec fn view(&self) -> ConfigModel {
        ConfigModel {
            target_controller_index: self.target_controller_index,
            input_method: self.input_method,
            chatter_threshold_ms: self.chatter_threshold_ms,
            polling_rate_ms_connected: self.polling_rate_ms_connected,
            polling_rate_ms_disconnected: self.polling_rate_ms_disconnected,
            target_process_name: self.target_process_name@,
            obs_enabled: self.obs_enabled,
            obs_port: self.obs_port,
            obs_poll_interval_ms: self.obs_poll_interval_ms,
        }
    }
}

impl Default for AppConfig {
    fn default() -> (c: AppConfig)
        ensures
            c@ == ConfigModel::initial(),
    {
        AppConfig {
            target_controller_index: 0,
            input_method: InputMethod::DirectInput,
            chatter_threshold_ms: 15,
            polling_rate_ms_connected: 1,
            polling_rate_ms_disconnected: 1000,
            target_process_name: "bm2dx.exe".to_owned(),
            obs_enabled: false,
            obs_port: 36000,
            obs_poll_interval_ms: 100,
        }
    }
}

impl Clone for AppConfig {
    fn clone(&self) -> (c: AppConfig)
        ensures
            c == *self,
    {
        AppConfig {
            target_controller_index: self.target_controller_index,
            input_method: self.input_method,
            chatter_threshold_ms: self.chatter_threshold_ms,
            polling_rate_ms_connected: self.polling_rate_ms_connected,
            polling_rate_ms_disconnected: self.polling_rate_ms_disconnected,
            target_process_name: self.target_process_name.clone(),
            obs_enabled: self.obs_enabled,
            obs_port: self.obs_port,
            obs_poll_interval_ms: self.obs_poll_interval_ms,
        }
    }
}

} // verus!
