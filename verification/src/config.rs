//! Task configuration: the kinds of task, their execution modes, API
//! versions and network requirements, and the configuration a task is built
//! from.

use std::collections::HashMap;
use std::collections::HashSet;

use vstd::prelude::*;

use crate::reason::Reason;

verus! {

/// Specifies the type of network task to perform.
#[derive(Clone, Copy, PartialEq, Eq, Structural, Debug)]
pub enum Action {
    /// Download action for retrieving data from a server.
    Download,
    /// Upload action for sending data to a server.
    Upload,
    /// Wildcard action that matches any operation type.
    Any,
}

/// Determines the execution context for a task.
#[derive(Clone, Copy, PartialEq, Eq, Structural, Debug, Hash)]
pub enum Mode {
    /// Task runs in the background with lower priority.
    BackGround,
    /// Task runs in the foreground with higher priority.
    FrontEnd,
    /// Wildcard mode that matches any execution context.
    Any,
}

/// The API version used by the request system.
#[derive(Clone, Copy, PartialEq, Eq, Structural, Debug)]
pub enum Version {
    /// First API version.
    API9,
    /// Second API version with additional features.
    API10,
}

/// The network type required for task execution.
#[derive(Clone, Copy, PartialEq, Eq, Structural, Debug)]
pub enum NetworkConfig {
    /// Task can run on any available network type.
    Any,
    /// Task requires a Wi-Fi connection.
    Wifi,
    /// Task requires a cellular network connection.
    Cellular,
}

/// The numeric code of an action on the wire.
pub open spec fn action_code(a: Action) -> u8 {
    match a {
        Action::Download => 0,
        Action::Upload => 1,
        Action::Any => 2,
    }
}

/// The action that a wire code stands for; unknown codes mean `Any`.
pub open spec fn action_of_code(v: u8) -> Action {
    if v == 0 {
        Action::Download
    } else if v == 1 {
        Action::Upload
    } else {
        Action::Any
    }
}

/// The numeric code of a mode on the wire.
pub open spec fn mode_code(m: Mode) -> u8 {
    match m {
        Mode::BackGround => 0,
        Mode::FrontEnd => 1,
        Mode::Any => 2,
    }
}

/// The mode that a wire code stands for; unknown codes mean `Any`.
pub open spec fn mode_of_code(v: u8) -> Mode {
    if v == 0 {
        Mode::BackGround
    } else if v == 1 {
        Mode::FrontEnd
    } else {
        Mode::Any
    }
}

/// The numeric code of a version on the wire.
pub open spec fn version_code(v: Version) -> u8 {
    match v {
        Version::API9 => 1,
        Version::API10 => 2,
    }
}

/// The version that a wire code stands for; anything but 2 means API9.
pub open spec fn version_of_code(v: u8) -> Version {
    if v == 2 {
        Version::API10
    } else {
        Version::API9
    }
}

/// The numeric code of a network requirement on the wire.
pub open spec fn network_code(n: NetworkConfig) -> u8 {
    match n {
        NetworkConfig::Any => 0,
        NetworkConfig::Wifi => 1,
        NetworkConfig::Cellular => 2,
    }
}

/// The network requirement that a wire code stands for; unknown codes mean Wi-Fi.
pub open spec fn network_of_code(v: u8) -> NetworkConfig {
    if v == 0 {
        NetworkConfig::Any
    } else if v == 2 {
        NetworkConfig::Cellular
    } else {
        NetworkConfig::Wifi
    }
}

/// The scheduling rank of a mode: a lower rank runs first.
pub open spec fn mode_rank(m: Mode) -> nat {
    match m {
        Mode::FrontEnd => 0,
        Mode::Any => 1,
        Mode::BackGround => 2,
    }
}

impl Action {
    /// The wire code of this action.
    pub fn repr(self) -> (r: u8)
        ensures
            r == action_code(self),
    {
        match self {
            Action::Download => 0,
            Action::Upload => 1,
            Action::Any => 2,
        }
    }
}

impl Mode {
    /// The wire code of this mode.
    pub fn repr(self) -> (r: u8)
        ensures
            r == mode_code(self),
    {
        match self {
            Mode::BackGround => 0,
            Mode::FrontEnd => 1,
            Mode::Any => 2,
        }
    }

    /// Converts a mode to its scheduling rank: foreground first, then any,
    /// then background.
    pub fn to_usize(self) -> (r: usize)
        ensures
            r == mode_rank(self),
    {
        match self {
            Mode::FrontEnd => 0,
            Mode::Any => 1,
            Mode::BackGround => 2,
        }
    }

    /// Compares two modes by their scheduling rank.
    pub fn priority_cmp(&self, other: &Self) -> (r: core::cmp::Ordering)
        ensures
            (r == core::cmp::Ordering::Less) == (mode_rank(*self) < mode_rank(*other)),
            (r == core::cmp::Ordering::Equal) == (mode_rank(*self) == mode_rank(*other)),
            (r == core::cmp::Ordering::Greater) == (mode_rank(*self) > mode_rank(*other)),
    {
        let a = self.to_usize();
        let b = other.to_usize();
        if a < b {
            core::cmp::Ordering::Less
        } else if a == b {
            core::cmp::Ordering::Equal
        } else {
            core::cmp::Ordering::Greater
        }
    }
}

impl Version {
    /// The wire code of this version.
    pub fn repr(self) -> (r: u8)
        ensures
            r == version_code(self),
    {
        match self {
            Version::API9 => 1,
            Version::API10 => 2,
        }
    }
}

impl NetworkConfig {
    /// The wire code of this network requirement.
    pub fn repr(self) -> (r: u8)
        ensures
            r == network_code(self),
    {
        match self {
            NetworkConfig::Any => 0,
            NetworkConfig::Wifi => 1,
            NetworkConfig::Cellular => 2,
        }
    }
}

impl From<u8> for Action {
    fn from(value: u8) -> (r: Self) {
        if value == 0 {
            Action::Download
        } else if value == 1 {
            Action::Upload
        } else {
            Action::Any
        }
    }
}

impl vstd::std_specs::convert::FromSpecImpl<u8> for Action {
    open spec fn obeys_from_spec() -> bool {
        true
    }

    open spec fn from_spec(v: u8) -> Self {
        action_of_code(v)
    }
}

impl From<u8> for Mode {
    fn from(value: u8) -> (r: Self) {
        if value == 0 {
            Mode::BackGround
        } else if value == 1 {
            Mode::FrontEnd
        } else {
            Mode::Any
        }
    }
}

impl vstd::std_specs::convert::FromSpecImpl<u8> for Mode {
    open spec fn obeys_from_spec() -> bool {
        true
    }

    open spec fn from_spec(v: u8) -> Self {
        mode_of_code(v)
    }
}

impl From<u8> for Version {
    fn from(value: u8) -> (r: Self) {
        if value == 2 {
            Version::API10
        } else {
            Version::API9
        }
    }
}

impl vstd::std_specs::convert::FromSpecImpl<u8> for Version {
    open spec fn obeys_from_spec() -> bool {
        true
    }

    open spec fn from_spec(v: u8) -> Self {
        version_of_code(v)
    }
}

impl From<u8> for NetworkConfig {
    fn from(value: u8) -> (r: Self) {
        if value == 0 {
            NetworkConfig::Any
        } else if value == 2 {
            NetworkConfig::Cellular
        } else {
            NetworkConfig::Wifi
        }
    }
}

impl vstd::std_specs::convert::FromSpecImpl<u8> for NetworkConfig {
    open spec fn obeys_from_spec() -> bool {
        true
    }

    open spec fn from_spec(v: u8) -> Self {
        network_of_code(v)
    }
}


/// Minimum speed requirements for a network task.
///
/// If the transfer stays below `speed` bytes per second for `duration`, the
/// transfer is given up.
#[derive(Copy, Clone, Debug, Default)]
pub struct MinSpeed {
    /// Minimum acceptable speed in bytes per second.
    pub speed: i64,
    /// How long the speed may stay below the threshold.
    pub duration: i64,
}

/// Timeout configuration for network operations.
#[derive(Copy, Clone, Debug, Default)]
pub struct Timeout {
    /// Seconds to wait for a connection to be established (0: the default).
    pub connection_timeout: u64,
    /// Seconds the whole task may take (0: the default).
    pub total_timeout: u64,
}

/// A file that a task reads from or writes to.
#[derive(Debug)]
pub struct FileSpec {
    /// The form field name associated with this file.
    pub name: String,
    /// The full path to the file on disk.
    pub path: String,
    /// The name of the file without directory information.
    pub file_name: String,
    /// The MIME type of the file.
    pub mime_type: String,
    /// Whether the caller handed the file in as an open descriptor.
    pub is_user_file: bool,
    /// The caller's descriptor, present for user files.
    pub fd: Option<i32>,
}

impl Clone for FileSpec {
    fn clone(&self) -> (r: Self)
        ensures
            r == *self,
    {
        FileSpec {
            name: self.name.clone(),
            path: self.path.clone(),
            file_name: self.file_name.clone(),
            mime_type: self.mime_type.clone(),
            is_user_file: self.is_user_file,
            fd: self.fd,
        }
    }
}

impl FileSpec {
    /// A file specification for a file the caller opened itself: empty
    /// metadata, marked as a user file, holding the descriptor.
    pub fn user_file(fd: i32) -> (r: Self)
        ensures
            r.name@ == Seq::<char>::empty(),
            r.path@ == Seq::<char>::empty(),
            r.file_name@ == Seq::<char>::empty(),
            r.mime_type@ == Seq::<char>::empty(),
            r.is_user_file,
            r.fd == Some(fd),
    {
        FileSpec {
            name: String::new(),
            path: String::new(),
            file_name: String::new(),
            mime_type: String::new(),
            is_user_file: true,
            fd: Some(fd),
        }
    }
}

/// A key-value pair in a form submission.
#[derive(Debug)]
pub struct FormItem {
    /// The name of the form field.
    pub name: String,
    /// The value of the form field.
    pub value: String,
}

impl Clone for FormItem {
    fn clone(&self) -> (r: Self)
        ensures
            r == *self,
    {
        FormItem { name: self.name.clone(), value: self.value.clone() }
    }
}

/// Core configuration shared by all types of network tasks.
#[derive(Copy, Clone, Debug)]
pub struct CommonTaskConfig {
    /// Unique identifier for the task.
    pub task_id: u32,
    /// User ID associated with the task.
    pub uid: u64,
    /// Token ID for security verification.
    pub token_id: u64,
    /// Type of operation.
    pub action: Action,
    /// Execution context.
    pub mode: Mode,
    /// Whether to overwrite existing files.
    pub cover: bool,
    /// Network type requirements.
    pub network_config: NetworkConfig,
    /// Whether the task may run on metered networks.
    pub metered: bool,
    /// Whether the task may run while roaming.
    pub roaming: bool,
    /// Whether to retry failed operations.
    pub retry: bool,
    /// Whether to follow HTTP redirects.
    pub redirect: bool,
    /// Index of the file the range applies to.
    pub index: u32,
    /// First byte of the range.
    pub begins: u64,
    /// Last byte of the range (-1: to the end).
    pub ends: i64,
    /// Whether progress notifications are wanted.
    pub gauge: bool,
    /// Whether the size must be known exactly.
    pub precise: bool,
    /// Priority level for task scheduling.
    pub priority: u32,
    /// Whether the task keeps running in the background.
    pub background: bool,
    /// Whether to send all files in one multipart request.
    pub multipart: bool,
    /// Minimum speed requirements.
    pub min_speed: MinSpeed,
    /// Timeout settings for the task.
    pub timeout: Timeout,
}

/// Complete configuration for a network task.
#[derive(Debug)]
pub struct TaskConfig {
    /// Bundle name of the requesting application.
    pub bundle: String,
    /// Type identifier for the bundle.
    pub bundle_type: u32,
    /// Atomic account associated with the task.
    pub atomic_account: String,
    /// Target URL for the network operation.
    pub url: String,
    /// Human-readable title for the task.
    pub title: String,
    /// Detailed description of the task.
    pub description: String,
    /// HTTP method to use.
    pub method: String,
    /// HTTP headers to include in the request.
    pub headers: HashMap<String, String>,
    /// Request body data.
    pub data: String,
    /// Authentication token.
    pub token: String,
    /// Proxy server configuration.
    pub proxy: String,
    /// Certificate pins for secure connections.
    pub certificate_pins: String,
    /// Additional custom parameters.
    pub extras: HashMap<String, String>,
    /// API version.
    pub version: Version,
    /// Form data items for upload requests.
    pub form_items: Vec<FormItem>,
    /// File specifications.
    pub file_specs: Vec<FileSpec>,
    /// Paths to body files.
    pub body_file_paths: Vec<String>,
    /// Paths to custom certificates.
    pub certs_path: Vec<String>,
    /// Core configuration shared across task types.
    pub common_data: CommonTaskConfig,
}

impl TaskConfig {
    /// Two configurations agree field by field (the maps by their contents).
    pub open spec fn same_as(self, other: TaskConfig) -> bool {
        &&& self.bundle == other.bundle
        &&& self.bundle_type == other.bundle_type
        &&& self.atomic_account == other.atomic_account
        &&& self.url == other.url
        &&& self.title == other.title
        &&& self.description == other.description
        &&& self.method == other.method
        &&& self.headers@ == other.headers@
        &&& self.data == other.data
        &&& self.token == other.token
        &&& self.proxy == other.proxy
        &&& self.certificate_pins == other.certificate_pins
        &&& self.extras@ == other.extras@
        &&& self.version == other.version
        &&& self.form_items@ == other.form_items@
        &&& self.file_specs@ == other.file_specs@
        &&& self.body_file_paths@ == other.body_file_paths@
        &&& self.certs_path@ == other.certs_path@
        &&& self.common_data == other.common_data
    }

    /// Copies the configuration.
    pub fn duplicate(&self) -> (r: TaskConfig)
        ensures
            r.same_as(*self),
    {
        let form_items = clone_form_items(&self.form_items);
        let file_specs = clone_file_specs(&self.file_specs);
        let body_file_paths = clone_strings(&self.body_file_paths);
        let certs_path = clone_strings(&self.certs_path);
        TaskConfig {
            bundle: self.bundle.clone(),
            bundle_type: self.bundle_type,
            atomic_account: self.atomic_account.clone(),
            url: self.url.clone(),
            title: self.title.clone(),
            description: self.description.clone(),
            method: self.method.clone(),
            headers: self.headers.clone(),
            data: self.data.clone(),
            token: self.token.clone(),
            proxy: self.proxy.clone(),
            certificate_pins: self.certificate_pins.clone(),
            extras: self.extras.clone(),
            version: self.version,
            form_items,
            file_specs,
            body_file_paths,
            certs_path,
            common_data: self.common_data,
        }
    }

    /// Whether a network lets the task run.
    ///
    /// Offline never does. `Any` accepts every online network; a Wi-Fi-only
    /// task refuses cellular networks; otherwise the network is accepted
    /// unless it roams while roaming is not allowed, or is metered while
    /// metered networks are not allowed.
    pub fn satisfy_network(&self, network: &NetworkState) -> (r: Result<(), Reason>)
        ensures
            r == network_verdict(self.common_data, *network),
    {
        match network {
            NetworkState::Offline => Err(Reason::NetworkOffline),
            NetworkState::Online(info) => match self.common_data.network_config {
                NetworkConfig::Any => Ok(()),
                NetworkConfig::Wifi if info.network_type == NetworkType::Cellular => {
                    Err(Reason::UnsupportedNetworkType)
                },
                _ => {
                    if (self.common_data.roaming || !info.is_roaming) && (self.common_data.metered
                        || !info.is_metered) {
                        Ok(())
                    } else {
                        Err(Reason::UnsupportedNetworkType)
                    }
                },
            },
        }
    }

    /// Whether the task may run now: background tasks always may, others
    /// only while their application is in the foreground.
    pub fn satisfy_foreground(&self, foreground_abilities: &HashSet<u64>) -> (r: bool)
        ensures
            r == (self.common_data.mode == Mode::BackGround || foreground_abilities@.contains(
                self.common_data.uid,
            )),
    {
        broadcast use vstd::std_specs::hash::group_hash_axioms;

        self.common_data.mode == Mode::BackGround || foreground_abilities.contains(
            &self.common_data.uid,
        )
    }

    /// Whether any file of the task was handed in by the caller.
    pub fn contains_user_file(&self) -> (r: bool)
        ensures
            r == exists|i: int| 0 <= i < self.file_specs@.len() && #[trigger] self.file_specs@[i].is_user_file,
    {
        let mut i: usize = 0;
        while i < self.file_specs.len()
            invariant
                i <= self.file_specs@.len(),
                forall|j: int| 0 <= j < i ==> !(#[trigger] self.file_specs@[j]).is_user_file,
            decreases self.file_specs@.len() - i,
        {
            if self.file_specs[i].is_user_file {
                return true;
            }
            i = i + 1;
        }
        false
    }
}

fn clone_form_items(v: &Vec<FormItem>) -> (r: Vec<FormItem>)
    ensures
        r@ == v@,
{
    let mut r: Vec<FormItem> = Vec::new();
    let mut i: usize = 0;
    while i < v.len()
        invariant
            i <= v@.len(),
            r@ == v@.take(i as int),
        decreases v@.len() - i,
    {
        r.push(v[i].clone());
        assert(v@.take(i + 1) == v@.take(i as int).push(v@[i as int]));
        i = i + 1;
    }
    assert(v@.take(v@.len() as int) == v@);
    r
}

fn clone_file_specs(v: &Vec<FileSpec>) -> (r: Vec<FileSpec>)
    ensures
        r@ == v@,
{
    let mut r: Vec<FileSpec> = Vec::new();
    let mut i: usize = 0;
    while i < v.len()
        invariant
            i <= v@.len(),
            r@ == v@.take(i as int),
        decreases v@.len() - i,
    {
        r.push(v[i].clone());
        assert(v@.take(i + 1) == v@.take(i as int).push(v@[i as int]));
        i = i + 1;
    }
    assert(v@.take(v@.len() as int) == v@);
    r
}

fn clone_strings(v: &Vec<String>) -> (r: Vec<String>)
    ensures
        r@ == v@,
{
    let mut r: Vec<String> = Vec::new();
    let mut i: usize = 0;
    while i < v.len()
        invariant
            i <= v@.len(),
            r@ == v@.take(i as int),
        decreases v@.len() - i,
    {
        r.push(v[i].clone());
        assert(v@.take(i + 1) == v@.take(i as int).push(v@[i as int]));
        i = i + 1;
    }
    assert(v@.take(v@.len() as int) == v@);
    r
}

impl Default for TaskConfig {
    /// A download configuration with the service's defaults.
    fn default() -> (r: Self)
        ensures
            r.is_default(),
    {
        TaskConfig {
            bundle_type: 0,
            atomic_account: String::from_str("ohosAnonymousUid"),
            bundle: String::from_str("xxx"),
            url: String::new(),
            title: String::from_str("xxx"),
            description: String::from_str("xxx"),
            method: String::from_str("GET"),
            headers: HashMap::new(),
            data: String::new(),
            token: String::from_str("xxx"),
            proxy: String::new(),
            extras: HashMap::new(),
            version: Version::API10,
            form_items: Vec::new(),
            file_specs: Vec::new(),
            body_file_paths: Vec::new(),
            certs_path: Vec::new(),
            certificate_pins: String::new(),
            common_data: CommonTaskConfig {
                task_id: 0,
                uid: 0,
                token_id: 0,
                action: Action::Download,
                mode: Mode::BackGround,
                cover: false,
                network_config: NetworkConfig::Any,
                metered: false,
                roaming: false,
                retry: false,
                redirect: true,
                index: 0,
                begins: 0,
                ends: -1,
                gauge: false,
                precise: false,
                priority: 0,
                background: false,
                multipart: false,
                min_speed: MinSpeed { speed: 0, duration: 0 },
                timeout: Timeout { connection_timeout: 0, total_timeout: 0 },
            },
        }
    }
}

impl TaskConfig {
    /// The service's default configuration: an API10 background download
    /// of nothing yet, redirects followed, no range, any network.
    pub open spec fn is_default(self) -> bool {
        &&& self.bundle_type == 0
        &&& self.atomic_account@ == "ohosAnonymousUid"@
        &&& self.bundle@ == "xxx"@
        &&& self.url@ == Seq::<char>::empty()
        &&& self.title@ == "xxx"@
        &&& self.description@ == "xxx"@
        &&& self.method@ == "GET"@
        &&& self.headers@ == Map::<String, String>::empty()
        &&& self.data@ == Seq::<char>::empty()
        &&& self.token@ == "xxx"@
        &&& self.proxy@ == Seq::<char>::empty()
        &&& self.extras@ == Map::<String, String>::empty()
        &&& self.version == Version::API10
        &&& self.form_items@.len() == 0
        &&& self.file_specs@.len() == 0
        &&& self.body_file_paths@.len() == 0
        &&& self.certs_path@.len() == 0
        &&& self.certificate_pins@ == Seq::<char>::empty()
        &&& self.common_data == CommonTaskConfig {
            task_id: 0,
            uid: 0,
            token_id: 0,
            action: Action::Download,
            mode: Mode::BackGround,
            cover: false,
            network_config: NetworkConfig::Any,
            metered: false,
            roaming: false,
            retry: false,
            redirect: true,
            index: 0,
            begins: 0,
            ends: -1i64,
            gauge: false,
            precise: false,
            priority: 0,
            background: false,
            multipart: false,
            min_speed: MinSpeed { speed: 0, duration: 0 },
            timeout: Timeout { connection_timeout: 0, total_timeout: 0 },
        }
    }
}

/// Builder for task configurations, starting from the service's defaults.
pub struct ConfigBuilder {
    inner: TaskConfig,
}

impl ConfigBuilder {
    /// The configuration built so far.
    pub closed spec fn config(self) -> TaskConfig {
        self.inner
    }

    /// Creates a new builder with the default task configuration.
    pub fn new() -> (r: Self)
        ensures
            r.config().is_default(),
    {
        ConfigBuilder { inner: TaskConfig::default() }
    }

    /// Sets the target URL.
    pub fn url(&mut self, url: &str) -> (r: &mut Self)
        ensures
            r.config().url@ == url@,
            r.config() == (TaskConfig { url: r.config().url, ..old(self).config() }),
            *final(self) == *final(r),
    {
        self.inner.url = String::from_str(url);
        self
    }

    /// Sets the API version from its wire code.
    pub fn version(&mut self, version: u8) -> (r: &mut Self)
        ensures
            r.config() == (TaskConfig { version: version_of_code(version), ..old(self).config() }),
            *final(self) == *final(r),
    {
        self.inner.version = Version::from(version);
        self
    }

    /// Sets the operation type.
    pub fn action(&mut self, action: Action) -> (r: &mut Self)
        ensures
            r.config() == (TaskConfig { common_data: CommonTaskConfig { action: action, ..old(self).config().common_data }, ..old(self).config() }),
            *final(self) == *final(r),
    {
        self.inner.common_data.action = action;
        self
    }

    /// Sets the execution context.
    pub fn mode(&mut self, mode: Mode) -> (r: &mut Self)
        ensures
            r.config() == (TaskConfig { common_data: CommonTaskConfig { mode: mode, ..old(self).config().common_data }, ..old(self).config() }),
            *final(self) == *final(r),
    {
        self.inner.common_data.mode = mode;
        self
    }

    /// Sets the user ID associated with the task.
    pub fn uid(&mut self, uid: u64) -> (r: &mut Self)
        ensures
            r.config() == (TaskConfig { common_data: CommonTaskConfig { uid: uid, ..old(self).config().common_data }, ..old(self).config() }),
            *final(self) == *final(r),
    {
        self.inner.common_data.uid = uid;
        self
    }

    /// Sets the network type requirements.
    pub fn network(&mut self, network: NetworkConfig) -> (r: &mut Self)
        ensures
            r.config() == (TaskConfig { common_data: CommonTaskConfig { network_config: network, ..old(self).config().common_data }, ..old(self).config() }),
            *final(self) == *final(r),
    {
        self.inner.common_data.network_config = network;
        self
    }

    /// Sets whether the task may run while roaming.
    pub fn roaming(&mut self, roaming: bool) -> (r: &mut Self)
        ensures
            r.config() == (TaskConfig { common_data: CommonTaskConfig { roaming: roaming, ..old(self).config().common_data }, ..old(self).config() }),
            *final(self) == *final(r),
    {
        self.inner.common_data.roaming = roaming;
        self
    }

    /// Sets whether the task may run on metered networks.
    pub fn metered(&mut self, metered: bool) -> (r: &mut Self)
        ensures
            r.config() == (TaskConfig { common_data: CommonTaskConfig { metered: metered, ..old(self).config().common_data }, ..old(self).config() }),
            *final(self) == *final(r),
    {
        self.inner.common_data.metered = metered;
        self
    }

    /// Sets whether HTTP redirects are followed.
    pub fn redirect(&mut self, redirect: bool) -> (r: &mut Self)
        ensures
            r.config() == (TaskConfig { common_data: CommonTaskConfig { redirect: redirect, ..old(self).config().common_data }, ..old(self).config() }),
            *final(self) == *final(r),
    {
        self.inner.common_data.redirect = redirect;
        self
    }

    /// Sets the first byte of the range.
    pub fn begins(&mut self, begins: u64) -> (r: &mut Self)
        ensures
            r.config() == (TaskConfig { common_data: CommonTaskConfig { begins: begins, ..old(self).config().common_data }, ..old(self).config() }),
            *final(self) == *final(r),
    {
        self.inner.common_data.begins = begins;
        self
    }

    /// Sets the last byte of the range; the value is stored as a signed number, so values above `i64::MAX` wrap.
    pub fn ends(&mut self, ends: u64) -> (r: &mut Self)
        ensures
            r.config() == (TaskConfig { common_data: CommonTaskConfig { ends: ends as i64, ..old(self).config().common_data }, ..old(self).config() }),
            *final(self) == *final(r),
    {
        self.inner.common_data.ends = ends as i64;
        self
    }

    /// Sets whether failed operations are retried.
    pub fn retry(&mut self, retry: bool) -> (r: &mut Self)
        ensures
            r.config() == (TaskConfig { common_data: CommonTaskConfig { retry: retry, ..old(self).config().common_data }, ..old(self).config() }),
            *final(self) == *final(r),
    {
        self.inner.common_data.retry = retry;
        self
    }

    /// Sets the name of the bundle requesting the task.
    pub fn bundle_name(&mut self, bundle_name: &str) -> (r: &mut Self)
        ensures
            r.config().bundle@ == bundle_name@,
            r.config() == (TaskConfig { bundle: r.config().bundle, ..old(self).config() }),
            *final(self) == *final(r),
    {
        self.inner.bundle = String::from_str(bundle_name);
        self
    }

    /// Sets the HTTP method.
    pub fn method(&mut self, method: &str) -> (r: &mut Self)
        ensures
            r.config().method@ == method@,
            r.config() == (TaskConfig { method: r.config().method, ..old(self).config() }),
            *final(self) == *final(r),
    {
        self.inner.method = String::from_str(method);
        self
    }

    /// Adds a file the caller opened itself, given by its descriptor.
    pub fn file_spec(&mut self, fd: i32) -> (r: &mut Self)
        ensures
            r.config().file_specs@.len() == old(self).config().file_specs@.len() + 1,
            r.config().file_specs@.drop_last() == old(self).config().file_specs@,
            r.config().file_specs@.last().is_user_file,
            r.config().file_specs@.last().fd == Some(fd),
            r.config().file_specs@.last().path@ == Seq::<char>::empty(),
            r.config().file_specs@.last().name@ == Seq::<char>::empty(),
            r.config().file_specs@.last().file_name@ == Seq::<char>::empty(),
            r.config().file_specs@.last().mime_type@ == Seq::<char>::empty(),
            r.config() == (TaskConfig { file_specs: r.config().file_specs, ..old(self).config() }),
            *final(self) == *final(r),
    {
        self.inner.file_specs.push(FileSpec::user_file(fd));
        self
    }

    /// The configuration built so far, as a separate value.
    pub fn build(&mut self) -> (r: TaskConfig)
        ensures
            r.same_as(old(self).config()),
            *final(self) == *old(self),
    {
        self.inner.duplicate()
    }

}

/// The kind of network a device is connected to.
#[derive(Clone, Copy, PartialEq, Eq, Structural, Debug)]
pub enum NetworkType {
    /// Any other kind of network.
    Other,
    /// A Wi-Fi network.
    Wifi,
    /// A cellular network.
    Cellular,
}

/// What is known of the current network connection.
#[derive(Clone, Copy, PartialEq, Eq, Structural, Debug)]
pub struct NetworkInfo {
    /// The kind of the network.
    pub network_type: NetworkType,
    /// Whether the network is metered.
    pub is_metered: bool,
    /// Whether the device is roaming.
    pub is_roaming: bool,
}

/// Whether the device is online, and on which network.
#[derive(Clone, Copy, PartialEq, Eq, Structural, Debug)]
pub enum NetworkState {
    /// No connection.
    Offline,
    /// Connected to the described network.
    Online(NetworkInfo),
}

/// Whether a task with the given configuration may run on the given network.
pub open spec fn network_verdict(c: CommonTaskConfig, n: NetworkState) -> Result<(), Reason> {
    match n {
        NetworkState::Offline => Err(Reason::NetworkOffline),
        NetworkState::Online(info) => {
            if c.network_config == NetworkConfig::Any {
                Ok(())
            } else if c.network_config == NetworkConfig::Wifi && info.network_type
                == NetworkType::Cellular {
                Err(Reason::UnsupportedNetworkType)
            } else if (c.roaming || !info.is_roaming) && (c.metered || !info.is_metered) {
                Ok(())
            } else {
                Err(Reason::UnsupportedNetworkType)
            }
        },
    }
}

/// When a network lets a task run. Offline never does. Online, a task that
/// takes any network always may; a Wi-Fi-only task is refused a cellular
/// network; and besides that a task is refused only when the network roams
/// and it does not allow roaming, or is metered and it does not allow
/// metered networks. Every refusal online is for an unsupported network
/// type. So a cellular task may run on an unmetered Wi-Fi network at home.
pub proof fn lemma_network_verdict(c: CommonTaskConfig, n: NetworkState)
    ensures
        n == NetworkState::Offline ==> network_verdict(c, n) == Err::<(), Reason>(
            Reason::NetworkOffline,
        ),
        n matches NetworkState::Online(info) ==> (network_verdict(c, n) is Err <==> ((
        c.network_config == NetworkConfig::Wifi && info.network_type == NetworkType::Cellular) || (
        c.network_config != NetworkConfig::Any && ((info.is_roaming && !c.roaming) || (
        info.is_metered && !c.metered))))),
        n is Online && network_verdict(c, n) is Err ==> network_verdict(c, n) == Err::<(), Reason>(
            Reason::UnsupportedNetworkType,
        ),
        n matches NetworkState::Online(info) && c.network_config == NetworkConfig::Cellular
            && !info.is_roaming && !info.is_metered ==> network_verdict(c, n) == Ok::<(), Reason>(
            (),
        ),
{
}

/// The bundle type of an atomic service, whose tasks carry the account of
/// the device's user.
pub const ATOMIC_SERVICE: u32 = 1;

/// Whether a count read from a message can be believed: it may not exceed
/// what is left to read, itself read as a 32-bit count as a cast does.
pub fn count_fits(count: u32, readable: usize) -> (r: bool)
    ensures
        r == (count <= readable as u32),
{
    count <= readable as u32
}

/// The descriptor of a file handed in open, when it is one: a negative
/// number is refused.
pub fn received_fd(raw_fd: i32) -> (r: Option<i32>)
    ensures
        r == if raw_fd < 0 {
            None
        } else {
            Some(raw_fd)
        },
{
    if raw_fd < 0 {
        None
    } else {
        Some(raw_fd)
    }
}

/// The account a new task carries: the device user's for an atomic
/// service, none for anything else.
pub fn atomic_account_of(bundle_type: u32, account: String) -> (r: String)
    ensures
        r@ == if bundle_type == ATOMIC_SERVICE {
            account@
        } else {
            Seq::<char>::empty()
        },
{
    if bundle_type == ATOMIC_SERVICE {
        account
    } else {
        String::new()
    }
}

} // verus!
