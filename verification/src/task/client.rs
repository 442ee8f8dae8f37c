//! How the HTTP client of a task is set up: its time-outs, redirects,
//! lowest speed, proxy, pinned keys and the domain policy of atomic
//! services. The client itself is built from these settings by the caller.

use vstd::prelude::*;

use crate::config::{Action, TaskConfig, ATOMIC_SERVICE};
use crate::text::{push_char, push_str, to_owned_string};

verus! {

/// Seconds a connection may take when the task set no limit.
pub const DEFAULT_CONNECTION_TIMEOUT: u64 = 60;

/// How a client follows redirects.
#[derive(Clone, Copy, Debug, PartialEq, Eq, Structural)]
pub enum RedirectPolicy {
    /// Follows up to this many redirects.
    Limited(usize),
    /// Follows none.
    NoRedirect,
}

/// The settings of a task's HTTP client.
pub struct ClientSettings {
    /// Seconds a connection may take.
    pub connect_timeout: u64,
    /// Seconds the whole request may take.
    pub total_timeout: u64,
    /// The user the sockets belong to.
    pub sockets_owner: u32,
    /// How redirects are followed.
    pub redirect: RedirectPolicy,
    /// The lowest speed in bytes per second and how many seconds it may
    /// last before the transfer is cut, when the task set both.
    pub min_speed: Option<(u64, u64)>,
    /// The task's own proxy, when it set one.
    pub task_proxy: Option<String>,
    /// The public keys pinned for the task's URL, when it set any.
    pub certificate_pins: Option<String>,
    /// The domain type the policy checks, for an atomic service.
    pub domain_type: Option<String>,
}

/// The domain type the policy knows an action by.
pub open spec fn domain_type_of(action: Action) -> Seq<char> {
    match action {
        Action::Download => "download"@,
        Action::Upload => "upload"@,
        Action::Any => ""@,
    }
}

/// Names the domain type of an action.
pub fn action_to_domain_type(action: Action) -> (r: String)
    ensures
        r@ == domain_type_of(action),
{
    proof {
        reveal_strlit("download");
        reveal_strlit("upload");
        reveal_strlit("");
    }
    match action {
        Action::Download => to_owned_string("download"),
        Action::Upload => to_owned_string("upload"),
        Action::Any => String::new(),
    }
}

/// Seconds a task's connection may take: its own limit, or the default.
pub open spec fn connection_timeout_of(configured: u64) -> u64 {
    if configured == 0 {
        DEFAULT_CONNECTION_TIMEOUT
    } else {
        configured
    }
}

/// A text, or nothing when it is empty.
pub open spec fn unless_empty(s: Seq<char>) -> Option<Seq<char>> {
    if s.len() == 0 {
        None
    } else {
        Some(s)
    }
}

/// A copy of a text, or nothing when it is empty.
fn non_empty(s: &String) -> (r: Option<String>)
    ensures
        r matches Some(t) ==> t@ == s@,
        r is Some <==> s@.len() > 0,
{
    if s.as_str().unicode_len() == 0 {
        None
    } else {
        Some(to_owned_string(s.as_str()))
    }
}

/// Sets up the client of a task that may run for `total_timeout` seconds:
/// the connection time-out defaults to a minute; the sockets belong to the
/// task's user; redirects are followed without limit when the task allows
/// them; the lowest speed applies when both its speed and duration are
/// positive; an atomic service gets the domain check of its action.
pub fn client_settings(config: &TaskConfig, total_timeout: u64) -> (r: ClientSettings)
    ensures
        r.connect_timeout == connection_timeout_of(config.common_data.timeout.connection_timeout),
        r.total_timeout == total_timeout,
        r.sockets_owner == config.common_data.uid as u32,
        r.redirect == if config.common_data.redirect {
            RedirectPolicy::Limited(usize::MAX)
        } else {
            RedirectPolicy::NoRedirect
        },
        r.min_speed == if config.common_data.min_speed.speed > 0
            && config.common_data.min_speed.duration > 0 {
            Some(
                (
                    config.common_data.min_speed.speed as u64,
                    config.common_data.min_speed.duration as u64,
                ),
            )
        } else {
            None
        },
        (match r.task_proxy {
            Some(p) => Some(p@),
            None => None,
        }) == unless_empty(config.proxy@),
        (match r.certificate_pins {
            Some(p) => Some(p@),
            None => None,
        }) == unless_empty(config.certificate_pins@),
        (match r.domain_type {
            Some(d) => Some(d@),
            None => None,
        }) == if config.bundle_type == ATOMIC_SERVICE {
            Some(domain_type_of(config.common_data.action))
        } else {
            None
        },
{
    let configured = config.common_data.timeout.connection_timeout;
    let connect_timeout = if configured == 0 {
        DEFAULT_CONNECTION_TIMEOUT
    } else {
        configured
    };
    let redirect = if config.common_data.redirect {
        RedirectPolicy::Limited(usize::MAX)
    } else {
        RedirectPolicy::NoRedirect
    };
    let speed = config.common_data.min_speed.speed;
    let duration = config.common_data.min_speed.duration;
    let min_speed = if speed > 0 && duration > 0 {
        Some((speed as u64, duration as u64))
    } else {
        None
    };
    let domain_type = if config.bundle_type == ATOMIC_SERVICE {
        Some(action_to_domain_type(config.common_data.action))
    } else {
        None
    };
    ClientSettings {
        connect_timeout,
        total_timeout,
        sockets_owner: config.common_data.uid as u32,
        redirect,
        min_speed,
        task_proxy: non_empty(&config.proxy),
        certificate_pins: non_empty(&config.certificate_pins),
        domain_type,
    }
}

/// The address of the system proxy: none without a host; the host alone
/// without a port; else `host:port`.
pub open spec fn system_proxy_of(host: Seq<char>, port: Seq<char>) -> Option<Seq<char>> {
    if host.len() == 0 {
        None
    } else if port.len() == 0 {
        Some(host)
    } else {
        Some(host + seq![':'] + port)
    }
}

/// Writes the address of the system proxy.
pub fn system_proxy_url(host: &str, port: &str) -> (r: Option<String>)
    ensures
        (match r {
            Some(u) => Some(u@),
            None => None,
        }) == system_proxy_of(host@, port@),
{
    if host.unicode_len() == 0 {
        return None;
    }
    let mut url = to_owned_string(host);
    if port.unicode_len() > 0 {
        push_char(&mut url, ':');
        push_str(&mut url, port);
    }
    Some(url)
}

/// What the domain policy answered, from its code: 0 allows, 1 denies,
/// anything else means the check failed.
pub fn url_policy_answer(code: i32) -> (r: Option<bool>)
    ensures
        r == if code == 0 {
            Some(true)
        } else if code == 1 {
            Some(false)
        } else {
            None
        },
{
    if code == 0 {
        Some(true)
    } else if code == 1 {
        Some(false)
    } else {
        None
    }
}

/// Whether a request passes the domain policy: only an explicit denial
/// stops it; a failed check lets it through.
pub fn domain_check_passes(answer: Option<bool>) -> (r: bool)
    ensures
        r == (answer != Some(false)),
{
    match answer {
        Some(false) => false,
        _ => true,
    }
}

/// Checks the redirects of an atomic service against the domain policy.
pub struct DomainInterceptor {
    /// The application whose requests are checked.
    pub app_id: String,
    /// The domain type they are checked under.
    pub domain_type: String,
}

impl DomainInterceptor {
    /// An interceptor for an application and a domain type.
    pub fn new(app_id: String, domain_type: String) -> (r: Self)
        ensures
            r.app_id == app_id,
            r.domain_type == domain_type,
    {
        DomainInterceptor { app_id, domain_type }
    }
}

} // verus!
