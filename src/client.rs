//! Client of the display service's webhook: where to send, how data is
//! merged, and how the service's answers are read.

use reqwest::Client as HttpClient;
use vstd::prelude::*;

verus! {

/// Base address of the display service's plugin webhooks.
pub const API_BASE_URL: &'static str = "https://usetrmnl.com/api/custom_plugins";

/// Seconds after which a request to the service is abandoned.
pub const DEFAULT_TIMEOUT_SECS: u64 = 10;

/// How pushed data is combined with what the service already holds.
#[derive(Clone, Copy, Debug, PartialEq, Eq, Structural)]
pub enum MergeStrategy {
    /// The new data replaces what was held.
    Replace,
    /// Objects are merged key by key, recursively; other values replaced.
    DeepMerge,
    /// Arrays are appended to, oldest items dropped past a limit.
    Stream,
}

/// How an answer of the service is to be read.
#[derive(Clone, Copy, Debug, PartialEq, Eq, Structural)]
pub enum StatusClass {
    /// A 2xx answer.
    Success,
    /// Too many requests (429).
    RateLimited,
    /// Any other answer; its body describes the failure.
    Failure,
}

#[verifier::external_type_specification]
#[verifier::external_body]
pub struct ExHttpClient(HttpClient);

/// A client for one plugin of the display service.
#[derive(Debug)]
pub struct Client {
    http: HttpClient,
    plugin_uuid: String,
    base_url: String,
}

/// Relies on `reqwest::ClientBuilder::timeout` and `build`, falling back to
/// `reqwest::Client::new` where building fails (which panics only where no
/// TLS backend or resolver can start).
#[verifier::external_body]
fn http_client_with_timeout(secs: u64) -> (r: HttpClient) {
    HttpClient::builder().timeout(std::time::Duration::from_secs(secs)).build().unwrap_or_else(
        |_| HttpClient::new(),
    )
}

pub open spec fn merge_strategy_name(m: MergeStrategy) -> Seq<char> {
    match m {
        MergeStrategy::Replace => "replace"@,
        MergeStrategy::DeepMerge => "deep_merge"@,
        MergeStrategy::Stream => "stream"@,
    }
}

pub open spec fn is_success(status: u16) -> bool {
    200 <= status <= 299
}

impl MergeStrategy {
    /// The name of the strategy on the wire.
    pub fn as_str(&self) -> (r: &'static str)
        ensures
            r@ == merge_strategy_name(*self),
    {
        match self {
            MergeStrategy::Replace => "replace",
            MergeStrategy::DeepMerge => "deep_merge",
            MergeStrategy::Stream => "stream",
        }
    }
}

/// Reads the status of an answer to a push.
pub fn classify_push_status(status: u16) -> (r: StatusClass)
    ensures
        r == (if status == 429 {
            StatusClass::RateLimited
        } else if is_success(status) {
            StatusClass::Success
        } else {
            StatusClass::Failure
        }),
{
    if status == 429 {
        StatusClass::RateLimited
    } else if 200 <= status && status <= 299 {
        StatusClass::Success
    } else {
        StatusClass::Failure
    }
}

/// Reads the status of an answer to a fetch; a 429 is a failure like any
/// other.
pub fn classify_fetch_status(status: u16) -> (r: StatusClass)
    ensures
        r == (if is_success(status) {
            StatusClass::Success
        } else {
            StatusClass::Failure
        }),
{
    if 200 <= status && status <= 299 {
        StatusClass::Success
    } else {
        StatusClass::Failure
    }
}

impl Client {
    /// The plugin that the client pushes to.
    pub closed spec fn plugin_id(self) -> Seq<char> {
        self.plugin_uuid@
    }

    /// The address that webhook paths are appended to.
    pub closed spec fn base_address(self) -> Seq<char> {
        self.base_url@
    }

    /// The HTTP client that carries the requests.
    pub closed spec fn transport(self) -> HttpClient {
        self.http
    }

    /// A client for the plugin `plugin_uuid` at the service's address,
    /// whose requests time out after `DEFAULT_TIMEOUT_SECS`.
    pub fn new(plugin_uuid: &str) -> (r: Self)
        ensures
            r.plugin_id() == plugin_uuid@,
            r.base_address() == API_BASE_URL@,
    {
        Client {
            http: http_client_with_timeout(DEFAULT_TIMEOUT_SECS),
            plugin_uuid: String::from_str(plugin_uuid),
            base_url: String::from_str(API_BASE_URL),
        }
    }

    /// The same client, sending to another base address.
    pub fn with_base_url(self, base_url: &str) -> (r: Self)
        ensures
            r.base_address() == base_url@,
            r.plugin_id() == self.plugin_id(),
    {
        Client { base_url: String::from_str(base_url), ..self }
    }

    /// The same client, sending through `http`.
    pub fn with_http_client(self, http: HttpClient) -> (r: Self)
        ensures
            r.transport() == http,
            r.plugin_id() == self.plugin_id(),
            r.base_address() == self.base_address(),
    {
        Client { http, ..self }
    }

    pub fn plugin_uuid(&self) -> (r: &str)
        ensures
            r@ == self.plugin_id(),
    {
        self.plugin_uuid.as_str()
    }

    pub fn base_url(&self) -> (r: &str)
        ensures
            r@ == self.base_address(),
    {
        self.base_url.as_str()
    }

    pub fn http(&self) -> (r: &HttpClient)
        ensures
            *r == self.transport(),
    {
        &self.http
    }

    /// The plugin's webhook address: base address, "/", plugin id.
    pub fn webhook_url(&self) -> (r: String)
        ensures
            r@ == self.base_address() + "/"@ + self.plugin_id(),
    {
        self.base_url.clone().concat("/").concat(self.plugin_uuid.as_str())
    }
}

} // verus!
