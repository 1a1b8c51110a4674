use vstd::prelude::*;

verus! {

/// The client's settings. Durations are in milliseconds.
#[derive(Debug, Clone)]
pub struct Configuration {
    verbose: bool,
    sampling_rate: usize,
    max_age: u64,
    retry_delay: u64,
    retry_attempts: usize,
}

/// Names one setting of a `Configuration`.
#[derive(Debug, Clone, Copy, PartialEq, Eq)]
pub enum ConfigKey {
    Verbose,
    SamplingRate,
    MaxAge,
    RetryDelay,
    RetryAttempts,
}

/// The value of one setting, tagged by its primitive type.
#[derive(Debug, Clone, Copy, PartialEq, Eq)]
pub enum ConfigValue {
    Bool(bool),
    Usize(usize),
    U64(u64),
}

/// Settings to lay over the defaults; `None` keeps the default.
#[derive(Debug, Clone)]
pub struct PartialConfigs {
    pub verbose: Option<bool>,
    pub sampling_rate: Option<usize>,
    pub max_age: Option<u64>,
    pub retry_delay: Option<u64>,
    pub retry_attempts: Option<usize>,
}

/// The value that `key` holds in a fresh default configuration.
pub open spec fn default_setting(key: ConfigKey) -> ConfigValue {
    match key {
        ConfigKey::Verbose => ConfigValue::Bool(false),
        ConfigKey::SamplingRate => ConfigValue::Usize(2),
        ConfigKey::MaxAge => ConfigValue::U64(20000),
        ConfigKey::RetryDelay => ConfigValue::U64(3000),
        ConfigKey::RetryAttempts => ConfigValue::Usize(3),
    }
}

/// A value may be stored under a key when its type is the key's type and,
/// for the numeric settings, it is positive.
pub open spec fn accepts(key: ConfigKey, value: ConfigValue) -> bool {
    match (key, value) {
        (ConfigKey::Verbose, ConfigValue::Bool(_)) => true,
        (ConfigKey::SamplingRate, ConfigValue::Usize(v)) => v > 0,
        (ConfigKey::MaxAge, ConfigValue::U64(v)) => v > 0,
        (ConfigKey::RetryDelay, ConfigValue::U64(v)) => v > 0,
        (ConfigKey::RetryAttempts, ConfigValue::Usize(v)) => v > 0,
        _ => false,
    }
}

/// Every override that is present is positive where it must be.
pub open spec fn partial_valid(p: PartialConfigs) -> bool {
    &&& (p.sampling_rate matches Some(v) ==> v > 0)
    &&& (p.max_age matches Some(v) ==> v > 0)
    &&& (p.retry_delay matches Some(v) ==> v > 0)
    &&& (p.retry_attempts matches Some(v) ==> v > 0)
}

/// The value of `key` after laying `p` over the defaults.
pub open spec fn overridden_setting(p: Option<PartialConfigs>, key: ConfigKey) -> ConfigValue {
    match p {
        None => default_setting(key),
        Some(p) => match key {
            ConfigKey::Verbose => match p.verbose {
                Some(v) => ConfigValue::Bool(v),
                None => default_setting(key),
            },
            ConfigKey::SamplingRate => match p.sampling_rate {
                Some(v) => ConfigValue::Usize(v),
                None => default_setting(key),
            },
            ConfigKey::MaxAge => match p.max_age {
                Some(v) => ConfigValue::U64(v),
                None => default_setting(key),
            },
            ConfigKey::RetryDelay => match p.retry_delay {
                Some(v) => ConfigValue::U64(v),
                None => default_setting(key),
            },
            ConfigKey::RetryAttempts => match p.retry_attempts {
                Some(v) => ConfigValue::Usize(v),
                None => default_setting(key),
            },
        },
    }
}

impl Configuration {
    /// The value stored under `key`.
    pub closed spec fn setting(&self, key: ConfigKey) -> ConfigValue {
        match key {
            ConfigKey::Verbose => ConfigValue::Bool(self.verbose),
            ConfigKey::SamplingRate => ConfigValue::Usize(self.sampling_rate),
            ConfigKey::MaxAge => ConfigValue::U64(self.max_age),
            ConfigKey::RetryDelay => ConfigValue::U64(self.retry_delay),
            ConfigKey::RetryAttempts => ConfigValue::Usize(self.retry_attempts),
        }
    }

    /// Every setting holds a value that its key accepts.
    pub open spec fn wf(&self) -> bool {
        &&& accepts(ConfigKey::Verbose, self.setting(ConfigKey::Verbose))
        &&& accepts(ConfigKey::SamplingRate, self.setting(ConfigKey::SamplingRate))
        &&& accepts(ConfigKey::MaxAge, self.setting(ConfigKey::MaxAge))
        &&& accepts(ConfigKey::RetryDelay, self.setting(ConfigKey::RetryDelay))
        &&& accepts(ConfigKey::RetryAttempts, self.setting(ConfigKey::RetryAttempts))
    }

    /// The defaults with the present fields of `configs` laid over them.
    pub fn new(configs: Option<PartialConfigs>) -> (r: Self)
        requires
            configs matches Some(p) ==> partial_valid(p),
        ensures
            r.wf(),
            forall|k: ConfigKey| #[trigger] r.setting(k) == overridden_setting(configs, k),
    {
        let mut config = Configuration::default();
        if let Some(overrides) = configs {
            if let Some(verbose) = overrides.verbose {
                config.verbose = verbose;
            }
            if let Some(sampling_rate) = overrides.sampling_rate {
                config.sampling_rate = sampling_rate;
            }
            if let Some(max_age) = overrides.max_age {
                config.max_age = max_age;
            }
            if let Some(retry_delay) = overrides.retry_delay {
                config.retry_delay = retry_delay;
            }
            if let Some(retry_attempts) = overrides.retry_attempts {
                config.retry_attempts = retry_attempts;
            }
        }
        assert forall|k: ConfigKey| #[trigger] config.setting(k) == overridden_setting(configs, k) by {
            match k {
                ConfigKey::Verbose => {},
                ConfigKey::SamplingRate => {},
                ConfigKey::MaxAge => {},
                ConfigKey::RetryDelay => {},
                ConfigKey::RetryAttempts => {},
            }
        }
        config
    }

    /// The value stored under `key`.
    pub fn get_config(&self, key: ConfigKey) -> (r: ConfigValue)
        ensures
            r == self.setting(key),
    {
        match key {
            ConfigKey::Verbose => ConfigValue::Bool(self.verbose),
            ConfigKey::SamplingRate => ConfigValue::Usize(self.sampling_rate),
            ConfigKey::MaxAge => ConfigValue::U64(self.max_age),
            ConfigKey::RetryDelay => ConfigValue::U64(self.retry_delay),
            ConfigKey::RetryAttempts => ConfigValue::Usize(self.retry_attempts),
        }
    }

    /// Stores `value` under `key` and leaves every other setting as it was.
    /// A value of the wrong type, or a non-positive number, is a caller error.
    pub fn set_config(&mut self, key: ConfigKey, value: ConfigValue)
        requires
            accepts(key, value),
        ensures
            final(self).setting(key) == value,
            forall|k: ConfigKey| k != key ==> #[trigger] final(self).setting(k) == old(self).setting(k),
            old(self).wf() ==> final(self).wf(),
    {
        match (key, value) {
            (ConfigKey::Verbose, ConfigValue::Bool(val)) => self.verbose = val,
            (ConfigKey::SamplingRate, ConfigValue::Usize(val)) => self.sampling_rate = val,
            (ConfigKey::MaxAge, ConfigValue::U64(val)) => self.max_age = val,
            (ConfigKey::RetryDelay, ConfigValue::U64(val)) => self.retry_delay = val,
            (ConfigKey::RetryAttempts, ConfigValue::Usize(val)) => self.retry_attempts = val,
            _ => {},
        }
    }
}

impl Default for Configuration {
    /// Quiet, sampling rate 2, a 20 s dedup age, 3 attempts 3 s apart.
    fn default() -> (r: Self)
        ensures
            r.wf(),
            forall|k: ConfigKey| #[trigger] r.setting(k) == default_setting(k),
    {
        Configuration {
            verbose: false,
            sampling_rate: 2,
            max_age: 20000,
            retry_delay: 3000,
            retry_attempts: 3,
        }
    }
}

} // verus!
