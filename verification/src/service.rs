use vstd::prelude::*;
use crate::text::{decimal, decimal_text, has_char, joined, owned, strip_prefix};

verus! {

/// The kind of service under which the avatar runtime announces its parameter tree.
pub const SERVICE_TYPE: &'static str = "_oscjson._tcp.local.";

/// What the full name of a service of the avatar runtime begins with.
pub const SERVICE_NAME_PREFIX: &'static str = "VRChat-Client-";

/// Time between two looks at what was announced, in milliseconds.
pub const POLL_INTERVAL_MS: u64 = 15_000;

/// Time to let the avatar runtime settle before its parameter tree is asked for, in milliseconds.
pub const SETTLE_DELAY_MS: u64 = 250;

/// File name under which the last parameter tree is kept.
pub const AVATAR_FILE_NAME: &'static str = "oscavmgr-avatar.json";

/// One address of an announced service, as text.
#[derive(Clone, Debug, PartialEq, Eq)]
pub struct ServiceAddress {
    pub text: String,
    pub ipv4: bool,
}

/// Where the parameter tree can be asked for, and when to look again.
#[derive(Clone, Debug, PartialEq, Eq)]
pub struct ExtOscJson {
    pub oscjson_addr: Option<String>,
    /// Next time to look, in milliseconds since the start.
    pub next_run: u64,
}

/// Position of the address to use: the first one of the older protocol
/// version, else the first one.
pub open spec fn preferred(addresses: Seq<ServiceAddress>, from: int) -> Option<int>
    decreases addresses.len() - from,
{
    if from < 0 || from >= addresses.len() {
        if addresses.len() > 0 {
            Some(0)
        } else {
            None
        }
    } else if addresses[from].ipv4 {
        Some(from)
    } else {
        preferred(addresses, from + 1)
    }
}

/// The address as it stands in a URL: in brackets where it holds a colon.
pub open spec fn host_of(text: Seq<char>) -> Seq<char> {
    if text.contains(':') {
        "["@ + text + "]"@
    } else {
        text
    }
}

/// The URL of the parameter tree at `host` and `port`.
pub open spec fn url_of(host: Seq<char>, port: u16) -> Seq<char> {
    "http://"@ + host + ":"@ + decimal(port as nat) + "/avatar"@
}

/// The URL of the parameter tree of an announced service: none where the
/// service is not one of the avatar runtime, or has no address.
pub open spec fn service_url(fullname: Seq<char>, addresses: Seq<ServiceAddress>, port: u16) -> Option<
    Seq<char>,
> {
    if SERVICE_NAME_PREFIX@.is_prefix_of(fullname) {
        match preferred(addresses, 0) {
            Some(i) => Some(url_of(host_of(addresses[i].text@), port)),
            None => None,
        }
    } else {
        None
    }
}

/// Position of the address to use.
pub fn preferred_index(addresses: &Vec<ServiceAddress>) -> (r: Option<usize>)
    ensures
        match r {
            Some(i) => preferred(addresses@, 0) == Some(i as int) && i < addresses@.len(),
            None => preferred(addresses@, 0) is None,
        },
{
    let mut i: usize = 0;
    while i < addresses.len()
        invariant
            i <= addresses@.len(),
            preferred(addresses@, 0) == preferred(addresses@, i as int),
        decreases addresses@.len() - i,
    {
        if addresses[i].ipv4 {
            return Some(i);
        }
        i += 1;
    }
    if addresses.len() > 0 {
        Some(0)
    } else {
        None
    }
}

/// The URL of the parameter tree of an announced service.
pub fn avatar_url(fullname: &str, addresses: &Vec<ServiceAddress>, port: u16) -> (r: Option<String>)
    ensures
        crate::encoder::text_view(r) == service_url(fullname@, addresses@, port),
{
    if strip_prefix(fullname, SERVICE_NAME_PREFIX).is_none() {
        return None;
    }
    let pick: usize = match preferred_index(addresses) {
        Some(i) => i,
        None => {
            return None;
        },
    };
    let text = addresses[pick].text.as_str();
    let host = if has_char(text, ':') {
        let mut h = joined("[", text);
        h.append("]");
        h
    } else {
        owned(text)
    };
    let mut url = joined("http://", host.as_str());
    url.append(":");
    url.append(decimal_text(port as u64).as_str());
    url.append("/avatar");
    Some(url)
}

impl ExtOscJson {
    /// Nothing found yet; the first look is due at once.
    pub fn new(now: u64) -> (me: ExtOscJson)
        ensures
            me.oscjson_addr is None,
            me.next_run == now,
    {
        ExtOscJson { oscjson_addr: None, next_run: now }
    }

    /// Whether it is time to look at what was announced; if so, the next
    /// look is due a quarter of a minute later.
    pub fn step(&mut self, now: u64) -> (due: bool)
        ensures
            due == (old(self).next_run <= now),
            final(self).oscjson_addr == old(self).oscjson_addr,
            final(self).next_run == if due {
                if now <= u64::MAX - POLL_INTERVAL_MS {
                    (now + POLL_INTERVAL_MS) as u64
                } else {
                    u64::MAX
                }
            } else {
                old(self).next_run
            },
    {
        if self.next_run > now {
            return false;
        }
        self.next_run = now.saturating_add(POLL_INTERVAL_MS);
        true
    }

    /// Takes note of an announced service. Says whether this is the first
    /// service of the avatar runtime that was found, so that the parameter
    /// tree has to be asked for.
    pub fn resolved(&mut self, fullname: &str, addresses: &Vec<ServiceAddress>, port: u16) -> (notify:
        bool)
        ensures
            final(self).next_run == old(self).next_run,
            match service_url(fullname@, addresses@, port) {
                Some(url) => crate::encoder::text_view(final(self).oscjson_addr) == Some(url)
                    && notify == (old(self).oscjson_addr is None),
                None => final(self).oscjson_addr == old(self).oscjson_addr && !notify,
            },
    {
        match avatar_url(fullname, addresses, port) {
            Some(url) => {
                let first = self.oscjson_addr.is_none();
                self.oscjson_addr = Some(url);
                first
            },
            None => false,
        }
    }
}

} // verus!
