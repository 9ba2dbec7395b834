//! The configuration of a client's downlinks: defaults, and the settings
//! given for hosts and for single lanes.

use vstd::prelude::*;

verus! {

/// Whether a downlink propagates back-pressure.
#[derive(Clone, Copy, PartialEq, Eq, Debug, Structural)]
pub enum BackpressureMode {
    /// Propagate back-pressure through the downlink.
    Propagate,
    /// Attempt to relieve back-pressure through the downlink as much as possible.
    Release {
        /// Input queue size for the back-pressure relief component.
        input_buffer_size: usize,
        /// Queue size for control messages between different components of the pressure
        /// relief component. This only applies to map downlinks.
        bridge_buffer_size: usize,
        /// Maximum number of active keys in the pressure relief component for map downlinks.
        max_active_keys: usize,
        /// Number of values to process before yielding to the runtime.
        yield_after: usize,
    },
}

impl BackpressureMode {
    /// Back-pressure is propagated by default.
    pub fn default_mode() -> (res: BackpressureMode)
        ensures
            res == BackpressureMode::Propagate,
    {
        BackpressureMode::Propagate
    }
}

/// What a downlink does on receipt of an invalid message.
#[derive(Clone, Copy, PartialEq, Eq, Debug, Structural)]
pub enum OnInvalidMessage {
    /// Disregard the message and continue.
    Ignore,
    /// Terminate the downlink.
    Terminate,
}

impl OnInvalidMessage {
    /// Downlinks terminate by default.
    pub fn default_mode() -> (res: OnInvalidMessage)
        ensures
            res == OnInvalidMessage::Terminate,
    {
        OnInvalidMessage::Terminate
    }
}

/// The default idle timeout, in milliseconds (60000 seconds).
pub const DEFAULT_IDLE_TIMEOUT_MILLIS: u64 = 60_000_000;
/// The default buffer size of a downlink.
pub const DEFAULT_DOWNLINK_BUFFER_SIZE: usize = 32;
/// The default number of operations after which a downlink yields.
pub const DEFAULT_YIELD_AFTER: usize = 256;

/// The configuration of a downlink.
#[derive(Clone, Copy, PartialEq, Eq, Debug, Structural)]
pub struct DownlinkConfig {
    /// Whether the downlink propagates back-pressure.
    pub back_pressure: BackpressureMode,
    /// Timeout after which an idle downlink will be closed, in milliseconds.
    pub idle_timeout_millis: u64,
    /// Buffer size for local actions performed on the downlink.
    pub buffer_size: usize,
    /// What do do on receipt of an invalid message.
    pub on_invalid: OnInvalidMessage,
    /// Number of operations after which a downlink will yield to the runtime.
    pub yield_after: usize,
}

impl DownlinkConfig {
    /// A configuration with the given settings.
    pub fn new(
        back_pressure: BackpressureMode,
        idle_timeout_millis: u64,
        buffer_size: usize,
        on_invalid: OnInvalidMessage,
        yield_after: usize,
    ) -> (res: DownlinkConfig)
        ensures
            res == (DownlinkConfig { back_pressure, idle_timeout_millis, buffer_size, on_invalid, yield_after }),
    {
        DownlinkConfig { back_pressure, idle_timeout_millis, buffer_size, on_invalid, yield_after }
    }

    /// The default configuration.
    pub fn default_config() -> (res: DownlinkConfig)
        ensures
            res == spec_default_config(),
    {
        DownlinkConfig::new(
            BackpressureMode::default_mode(),
            DEFAULT_IDLE_TIMEOUT_MILLIS,
            DEFAULT_DOWNLINK_BUFFER_SIZE,
            OnInvalidMessage::default_mode(),
            DEFAULT_YIELD_AFTER,
        )
    }
}

/// The default configuration of a downlink.
pub open spec fn spec_default_config() -> DownlinkConfig {
    DownlinkConfig {
        back_pressure: BackpressureMode::Propagate,
        idle_timeout_millis: DEFAULT_IDLE_TIMEOUT_MILLIS,
        buffer_size: DEFAULT_DOWNLINK_BUFFER_SIZE,
        on_invalid: OnInvalidMessage::Terminate,
        yield_after: DEFAULT_YIELD_AFTER,
    }
}

/// The default buffer size for requests for new downlinks.
pub const DEFAULT_DL_REQUEST_BUFFER_SIZE: usize = 8;
/// The default size of the internal buffers of the downlink connections task.
pub const DEFAULT_BUFFER_SIZE: usize = 128;

/// The configuration of the task that serves a client's downlink connections.
#[derive(Clone, Copy, PartialEq, Eq, Debug)]
pub struct DownlinkConnectionsConfig<R> {
    /// Buffer size for servicing requests for new downlinks (positive).
    pub dl_req_buffer_size: usize,
    /// Size of the internal buffers of the downlinks connections task (positive).
    pub buffer_size: usize,
    /// Number of values to process before yielding to the runtime (positive).
    pub yield_after: usize,
    /// The retry strategy that will be used when attempting to make a request to a Web Agent.
    pub retry_strategy: R,
}

impl<R> DownlinkConnectionsConfig<R> {
    /// A configuration with the given settings; the sizes must be positive.
    pub fn new(dl_req_buffer_size: usize, buffer_size: usize, yield_after: usize, retry_strategy: R) -> (res: Self)
        requires
            dl_req_buffer_size > 0,
            buffer_size > 0,
            yield_after > 0,
        ensures
            res == (DownlinkConnectionsConfig { dl_req_buffer_size, buffer_size, yield_after, retry_strategy }),
    {
        DownlinkConnectionsConfig { dl_req_buffer_size, buffer_size, yield_after, retry_strategy }
    }

    /// The default sizes, with the given retry strategy (the default one of
    /// the retry crate, where the defaults are wanted).
    pub fn with_default_sizes(retry_strategy: R) -> (res: Self)
        ensures
            res == (DownlinkConnectionsConfig {
                dl_req_buffer_size: DEFAULT_DL_REQUEST_BUFFER_SIZE,
                buffer_size: DEFAULT_BUFFER_SIZE,
                yield_after: DEFAULT_YIELD_AFTER,
                retry_strategy,
            }),
    {
        DownlinkConnectionsConfig {
            dl_req_buffer_size: DEFAULT_DL_REQUEST_BUFFER_SIZE,
            buffer_size: DEFAULT_BUFFER_SIZE,
            yield_after: DEFAULT_YIELD_AFTER,
            retry_strategy,
        }
    }
}

/// The absolute path of a lane: its host, node and lane. The host is the
/// serialization of its URL, so that two hosts are the same exactly when
/// their URLs are.
#[derive(Clone, Debug, PartialEq, Eq)]
pub struct AbsolutePath {
    pub host: String,
    pub node: String,
    pub lane: String,
}

/// The text of a path.
pub open spec fn path_view(p: AbsolutePath) -> (Seq<char>, Seq<char>, Seq<char>) {
    (p.host@, p.node@, p.lane@)
}

/// The latest setting for a host in a list of settings.
pub open spec fn host_setting(s: Seq<(String, DownlinkConfig)>, host: Seq<char>) -> Option<DownlinkConfig>
    decreases s.len(),
{
    if s.len() == 0 {
        None
    } else if s.last().0@ == host {
        Some(s.last().1)
    } else {
        host_setting(s.drop_last(), host)
    }
}

/// The latest setting for a lane in a list of settings.
pub open spec fn lane_setting(
    s: Seq<(AbsolutePath, DownlinkConfig)>,
    path: (Seq<char>, Seq<char>, Seq<char>),
) -> Option<DownlinkConfig>
    decreases s.len(),
{
    if s.len() == 0 {
        None
    } else if path_view(s.last().0) == path {
        Some(s.last().1)
    } else {
        lane_setting(s.drop_last(), path)
    }
}

/// The configurations of a client's downlinks: a default, settings for hosts
/// and settings for single lanes. The latest setting given for a host or a
/// lane is the one that counts.
#[derive(Clone, Debug)]
pub struct ClientDownlinksConfig {
    pub default: DownlinkConfig,
    pub by_host: Vec<(String, DownlinkConfig)>,
    pub by_lane: Vec<(AbsolutePath, DownlinkConfig)>,
}

/// The configuration for a lane: its own setting, else that of its host,
/// else the default.
pub open spec fn spec_config_for(c: ClientDownlinksConfig, path: AbsolutePath) -> DownlinkConfig {
    match lane_setting(c.by_lane@, path_view(path)) {
        Some(conf) => conf,
        None => match host_setting(c.by_host@, path.host@) {
            Some(conf) => conf,
            None => c.default,
        },
    }
}

fn strings_equal(a: &String, b: &String) -> (res: bool)
    ensures
        res == (a@ == b@),
{
    a.eq(b)
}

impl ClientDownlinksConfig {
    /// A configuration with a default and no other settings.
    pub fn new(default: DownlinkConfig) -> (res: ClientDownlinksConfig)
        ensures
            res.default == default,
            res.by_host@.len() == 0,
            res.by_lane@.len() == 0,
    {
        ClientDownlinksConfig { default, by_host: Vec::new(), by_lane: Vec::new() }
    }

    /// The configuration for a downlink to a lane.
    pub fn config_for(&self, path: &AbsolutePath) -> (res: DownlinkConfig)
        ensures
            res == spec_config_for(*self, *path),
    {
        let mut i = self.by_lane.len();
        proof {
            assert(self.by_lane@.take(i as int) =~= self.by_lane@);
        }
        while i > 0
            invariant
                i <= self.by_lane@.len(),
                lane_setting(self.by_lane@, path_view(*path)) == lane_setting(self.by_lane@.take(i as int), path_view(*path)),
            decreases i,
        {
            let entry = &self.by_lane[i - 1];
            proof {
                assert(self.by_lane@.take(i as int).drop_last() =~= self.by_lane@.take(i - 1));
            }
            if strings_equal(&entry.0.host, &path.host) && strings_equal(&entry.0.node, &path.node)
                && strings_equal(&entry.0.lane, &path.lane) {
                return entry.1;
            }
            i -= 1;
        }
        let mut j = self.by_host.len();
        proof {
            assert(self.by_host@.take(j as int) =~= self.by_host@);
        }
        while j > 0
            invariant
                j <= self.by_host@.len(),
                lane_setting(self.by_lane@, path_view(*path)) is None,
                host_setting(self.by_host@, path.host@) == host_setting(self.by_host@.take(j as int), path.host@),
            decreases j,
        {
            let entry = &self.by_host[j - 1];
            proof {
                assert(self.by_host@.take(j as int).drop_last() =~= self.by_host@.take(j - 1));
            }
            if strings_equal(&entry.0, &path.host) {
                return entry.1;
            }
            j -= 1;
        }
        self.default
    }

    /// Gives the setting for a host.
    pub fn for_host(&mut self, host: String, params: DownlinkConfig)
        ensures
            final(self).default == old(self).default,
            final(self).by_lane@ == old(self).by_lane@,
            final(self).by_host@ == old(self).by_host@.push((host, params)),
    {
        self.by_host.push((host, params));
    }

    /// Gives the setting for a lane (it overrides that of its host).
    pub fn for_lane(&mut self, lane: &AbsolutePath, params: DownlinkConfig)
        ensures
            final(self).default == old(self).default,
            final(self).by_host@ == old(self).by_host@,
            final(self).by_lane@.len() == old(self).by_lane@.len() + 1,
            final(self).by_lane@.drop_last() == old(self).by_lane@,
            path_view(final(self).by_lane@.last().0) == path_view(*lane),
            final(self).by_lane@.last().1 == params,
    {
        let path = AbsolutePath { host: lane.host.clone(), node: lane.node.clone(), lane: lane.lane.clone() };
        self.by_lane.push((path, params));
        proof {
            assert(self.by_lane@.drop_last() =~= old(self).by_lane@);
        }
    }
}

/// The setting given last for a lane is the one its downlinks get, whatever
/// the settings of its host.
pub proof fn lane_setting_counts(
    before: ClientDownlinksConfig,
    after: ClientDownlinksConfig,
    lane: AbsolutePath,
    params: DownlinkConfig,
)
    requires
        after.by_lane@.len() == before.by_lane@.len() + 1,
        after.by_lane@.drop_last() == before.by_lane@,
        path_view(after.by_lane@.last().0) == path_view(lane),
        after.by_lane@.last().1 == params,
    ensures
        spec_config_for(after, lane) == params,
{
}

/// The setting given last for a host is the one that the downlinks to its
/// lanes get, unless a lane has a setting of its own.
pub proof fn host_setting_counts(
    before: ClientDownlinksConfig,
    after: ClientDownlinksConfig,
    host: String,
    lane: AbsolutePath,
    params: DownlinkConfig,
)
    requires
        after.by_lane@ == before.by_lane@,
        after.by_host@ == before.by_host@.push((host, params)),
        host@ == lane.host@,
        lane_setting(before.by_lane@, path_view(lane)) is None,
    ensures
        spec_config_for(after, lane) == params,
{
    assert(after.by_host@.drop_last() =~= before.by_host@);
}

/// A lane with no setting of its own and none for its host gets the default.
pub proof fn default_applies(c: ClientDownlinksConfig, lane: AbsolutePath)
    requires
        lane_setting(c.by_lane@, path_view(lane)) is None,
        host_setting(c.by_host@, lane.host@) is None,
    ensures
        spec_config_for(c, lane) == c.default,
{
}

/// A setting for one lane changes nothing for the others.
pub proof fn other_lanes_unaffected(
    before: ClientDownlinksConfig,
    after: ClientDownlinksConfig,
    lane: AbsolutePath,
    other: AbsolutePath,
    params: DownlinkConfig,
)
    requires
        after.default == before.default,
        after.by_host@ == before.by_host@,
        after.by_lane@.len() == before.by_lane@.len() + 1,
        after.by_lane@.drop_last() == before.by_lane@,
        path_view(after.by_lane@.last().0) == path_view(other),
        path_view(other) != path_view(lane),
    ensures
        spec_config_for(after, lane) == spec_config_for(before, lane),
{
}

/// Why a client configuration could not be processed: the file could not be
/// read, could not be parsed, or did not describe a configuration. Each
/// variant holds the description of the underlying error.
#[derive(Debug, Clone, PartialEq, Eq)]
pub enum ConfigError {
    File(String),
    Parse(String),
    Recognizer(String),
}

} // verus!
