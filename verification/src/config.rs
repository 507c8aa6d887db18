//! Daemon configuration: the security policy, the control socket, logging,
//! which agents are enabled, and the language-model endpoint, each with the
//! defaults that apply when a setting is absent.

use vstd::prelude::*;
use vstd::string::*;

verus! {

/// How an operation is treated: run at once, held for approval, or refused.
#[derive(Debug, Clone, Copy, PartialEq, Eq, Structural)]
pub enum SecurityLevel {
    Auto,
    Confirm,
    Deny,
}

/// The policy that rates operations.
#[derive(Debug, Clone)]
pub struct SecurityConfig {
    /// The level of every operation that no rule refuses.
    pub default_level: SecurityLevel,
    /// Path prefixes that file operations may touch.
    pub allowed_paths: Vec<String>,
    /// Patterns that refuse a shell command line that contains one.
    pub denied_commands: Vec<String>,
}

/// Where the daemon listens.
#[derive(Debug, Clone)]
pub struct SocketConfig {
    pub path: String,
    pub permissions: u32,
}

/// Log verbosity and the optional audit log file.
#[derive(Debug, Clone)]
pub struct LoggingConfig {
    pub level: String,
    pub audit_log: Option<String>,
}

/// Which agents the daemon offers.
#[derive(Debug, Clone)]
pub struct AgentConfig {
    pub shell_enabled: bool,
    pub file_enabled: bool,
    pub git_enabled: bool,
}

/// The hosted or local language-model service.
#[derive(Debug, Clone, Copy, PartialEq, Eq, Structural)]
pub enum LlmProvider {
    Deepseek,
    OpenAI,
    Ollama,
    Custom,
}

/// Settings of the language-model client.
#[derive(Clone)]
pub struct LlmConfig {
    pub provider: LlmProvider,
    pub model: String,
    pub base_url: Option<String>,
    pub api_key: Option<String>,
    /// The sampling temperature, held as the bit pattern of an IEEE-754
    /// single-precision number.
    pub temperature_bits: u32,
    pub max_tokens: Option<u32>,
    pub enabled: bool,
}

/// The whole configuration.
#[derive(Clone)]
pub struct Config {
    pub security: SecurityConfig,
    pub socket: SocketConfig,
    pub logging: LoggingConfig,
    pub agent: AgentConfig,
    pub llm: LlmConfig,
}

/// The level given to operations when the configuration names none.
pub fn default_level() -> (l: SecurityLevel)
    ensures
        l == SecurityLevel::Confirm,
{
    SecurityLevel::Confirm
}

/// The socket path used when the configuration names none.
pub fn default_socket_path() -> (s: String)
    ensures
        s@ == "/run/opagentd/opagentd.sock"@,
{
    String::from_str("/run/opagentd/opagentd.sock")
}

/// The socket permission bits used when the configuration names none.
pub fn default_socket_perms() -> (p: u32)
    ensures
        p == 0o660,
{
    0o660
}

/// The log level used when the configuration names none.
pub fn default_log_level() -> (s: String)
    ensures
        s@ == "info"@,
{
    String::from_str("info")
}

/// The path prefixes open to file operations by default.
pub open spec fn default_allowed_path_list() -> Seq<Seq<char>> {
    seq!["/home"@, "/tmp"@, "/var/tmp"@]
}

/// The path prefixes open to file operations when the configuration names none.
pub fn default_allowed_paths() -> (v: Vec<String>)
    ensures
        v.deep_view() == default_allowed_path_list(),
{
    let mut v: Vec<String> = Vec::new();
    v.push(String::from_str("/home"));
    v.push(String::from_str("/tmp"));
    v.push(String::from_str("/var/tmp"));
    assert(v.deep_view() =~= default_allowed_path_list());
    v
}

/// The value of a switch that the configuration leaves out.
pub fn default_true() -> (b: bool)
    ensures
        b,
{
    true
}

/// The provider used when the configuration names none.
pub fn default_llm_provider() -> (p: LlmProvider)
    ensures
        p == LlmProvider::Deepseek,
{
    LlmProvider::Deepseek
}

/// The model used when the configuration names none.
pub fn default_model() -> (s: String)
    ensures
        s@ == "deepseek-chat"@,
{
    String::from_str("deepseek-chat")
}

/// The bit pattern of the single-precision number nearest to 0.7, the
/// default sampling temperature.
pub fn default_temperature_bits() -> (b: u32)
    ensures
        b == 0x3f33_3333,
{
    0x3f33_3333
}

/// The endpoint each provider is reached at unless the configuration says otherwise.
pub open spec fn provider_base_url(p: LlmProvider) -> Seq<char> {
    match p {
        LlmProvider::Deepseek => "https://api.deepseek.com"@,
        LlmProvider::OpenAI => "https://api.openai.com/v1"@,
        LlmProvider::Ollama => "http://localhost:11434"@,
        LlmProvider::Custom => ""@,
    }
}

/// The environment variable that may hold each provider's key.
pub open spec fn provider_key_variable(p: LlmProvider) -> Option<Seq<char>> {
    match p {
        LlmProvider::Deepseek => Some("DEEPSEEK_API_KEY"@),
        LlmProvider::OpenAI => Some("OPENAI_API_KEY"@),
        LlmProvider::Ollama => None,
        LlmProvider::Custom => Some("OPAGENTD_API_KEY"@),
    }
}

impl LlmProvider {
    /// The provider's standard endpoint (empty for a custom provider).
    pub fn default_base_url(&self) -> (s: &'static str)
        ensures
            s@ == provider_base_url(*self),
    {
        match self {
            LlmProvider::Deepseek => "https://api.deepseek.com",
            LlmProvider::OpenAI => "https://api.openai.com/v1",
            LlmProvider::Ollama => "http://localhost:11434",
            LlmProvider::Custom => "",
        }
    }

    /// The environment variable consulted for the key when the configuration
    /// holds none; a local Ollama service needs no key.
    pub fn api_key_variable(&self) -> (v: Option<&'static str>)
        ensures
            match (v, provider_key_variable(*self)) {
                (Some(s), Some(t)) => s@ == t,
                (None, None) => true,
                _ => false,
            },
    {
        match self {
            LlmProvider::Deepseek => Some("DEEPSEEK_API_KEY"),
            LlmProvider::OpenAI => Some("OPENAI_API_KEY"),
            LlmProvider::Ollama => None,
            LlmProvider::Custom => Some("OPAGENTD_API_KEY"),
        }
    }
}

/// The endpoint a configuration leads to: its own, else its provider's.
pub open spec fn effective_base_url(c: LlmConfig) -> Seq<char> {
    match c.base_url {
        Some(u) => u@,
        None => provider_base_url(c.provider),
    }
}

/// The key a configuration leads to, given what the provider's environment
/// variable holds: a non-empty configured key wins; otherwise the
/// environment's value, for providers that have a variable.
pub open spec fn effective_api_key(c: LlmConfig, from_env: Option<Seq<char>>) -> Option<Seq<char>> {
    match c.api_key {
        Some(k) if k@.len() > 0 => Some(k@),
        _ => match provider_key_variable(c.provider) {
            Some(_) => from_env,
            None => None,
        },
    }
}

/// The text shown in place of the key in diagnostic output.
pub open spec fn key_mask() -> Seq<char> {
    "***"@
}

impl LlmConfig {
    /// The endpoint to use: the configured one, else the provider's standard one.
    pub fn base_url_or_default(&self) -> (s: String)
        ensures
            s@ == effective_base_url(*self),
    {
        match &self.base_url {
            Some(u) => u.clone(),
            None => String::from_str(self.provider.default_base_url()),
        }
    }

    /// The key to use. `from_env` is what the provider's variable
    /// (`LlmProvider::api_key_variable`) holds in the environment, if anything.
    pub fn resolve_api_key(&self, from_env: Option<String>) -> (k: Option<String>)
        ensures
            match (k, effective_api_key(*self, match from_env { Some(e) => Some(e@), None => None })) {
                (Some(a), Some(b)) => a@ == b,
                (None, None) => true,
                _ => false,
            },
    {
        if let Some(key) = &self.api_key {
            if key.unicode_len() > 0 {
                return Some(key.clone());
            }
        }
        match self.provider.api_key_variable() {
            Some(_) => from_env,
            None => None,
        }
    }

    /// What diagnostic output shows for the key: a mask when one is set,
    /// nothing otherwise. The key itself is never shown.
    pub fn redacted_api_key(&self) -> (m: Option<&'static str>)
        ensures
            m is Some <==> self.api_key is Some,
            m matches Some(s) ==> s@ == key_mask(),
    {
        match &self.api_key {
            Some(_) => Some("***"),
            None => None,
        }
    }
}

/// The default security policy.
pub open spec fn is_default_security(s: SecurityConfig) -> bool {
    &&& s.default_level == SecurityLevel::Confirm
    &&& s.allowed_paths.deep_view() == default_allowed_path_list()
    &&& s.denied_commands@.len() == 0
}

/// The default socket settings.
pub open spec fn is_default_socket(s: SocketConfig) -> bool {
    s.path@ == "/run/opagentd/opagentd.sock"@ && s.permissions == 0o660
}

/// The default logging settings.
pub open spec fn is_default_logging(l: LoggingConfig) -> bool {
    l.level@ == "info"@ && l.audit_log is None
}

/// The default agent switches: every agent enabled.
pub open spec fn is_default_agents(a: AgentConfig) -> bool {
    a.shell_enabled && a.file_enabled && a.git_enabled
}

/// The default language-model settings.
pub open spec fn is_default_llm(l: LlmConfig) -> bool {
    &&& l.provider == LlmProvider::Deepseek
    &&& l.model@ == "deepseek-chat"@
    &&& l.base_url is None
    &&& l.api_key is None
    &&& l.temperature_bits == 0x3f33_3333
    &&& l.max_tokens is None
    &&& l.enabled
}

/// The configuration used when no file supplies one.
pub open spec fn is_default_config(c: Config) -> bool {
    &&& is_default_security(c.security)
    &&& is_default_socket(c.socket)
    &&& is_default_logging(c.logging)
    &&& is_default_agents(c.agent)
    &&& is_default_llm(c.llm)
}

impl Default for SecurityConfig {
    fn default() -> (s: Self)
        ensures
            is_default_security(s),
    {
        SecurityConfig {
            default_level: default_level(),
            allowed_paths: default_allowed_paths(),
            denied_commands: Vec::new(),
        }
    }
}

impl Default for SocketConfig {
    fn default() -> (s: Self)
        ensures
            is_default_socket(s),
    {
        SocketConfig { path: default_socket_path(), permissions: default_socket_perms() }
    }
}

impl Default for LoggingConfig {
    fn default() -> (l: Self)
        ensures
            is_default_logging(l),
    {
        LoggingConfig { level: default_log_level(), audit_log: None }
    }
}

impl Default for AgentConfig {
    fn default() -> (a: Self)
        ensures
            is_default_agents(a),
    {
        AgentConfig { shell_enabled: true, file_enabled: true, git_enabled: true }
    }
}

impl Default for LlmConfig {
    fn default() -> (l: Self)
        ensures
            is_default_llm(l),
    {
        LlmConfig {
            provider: default_llm_provider(),
            model: default_model(),
            base_url: None,
            api_key: None,
            temperature_bits: default_temperature_bits(),
            max_tokens: None,
            enabled: true,
        }
    }
}

impl Default for Config {
    fn default() -> (c: Self)
        ensures
            is_default_config(c),
    {
        Config {
            security: SecurityConfig::default(),
            socket: SocketConfig::default(),
            logging: LoggingConfig::default(),
            agent: AgentConfig::default(),
            llm: LlmConfig::default(),
        }
    }
}

/// Whether some entry of `loaded` holds a configuration.
pub open spec fn any_loaded(loaded: Seq<Option<Config>>) -> bool {
    exists|i: int| 0 <= i < loaded.len() && #[trigger] loaded[i] is Some
}

/// Index of the first entry of `loaded` that holds a configuration.
pub open spec fn first_loaded(loaded: Seq<Option<Config>>, i: int) -> bool {
    &&& 0 <= i < loaded.len()
    &&& loaded[i] is Some
    &&& forall|j: int| 0 <= j < i ==> #[trigger] loaded[j] is None
}

impl Config {
    /// The files searched for a configuration, in order.
    pub fn default_paths() -> (v: Vec<String>)
        ensures
            v.deep_view() == seq!["/etc/opagentd/config.toml"@, "./config/opagentd.toml"@],
    {
        let mut v: Vec<String> = Vec::new();
        v.push(String::from_str("/etc/opagentd/config.toml"));
        v.push(String::from_str("./config/opagentd.toml"));
        assert(v.deep_view() =~= seq!["/etc/opagentd/config.toml"@, "./config/opagentd.toml"@]);
        v
    }

    /// Picks the configuration to run with from the results of trying the
    /// candidate files in order (`None` where a file was absent or did not
    /// load): the first that loaded, or the defaults when none did.
    pub fn load_or_default(loaded: Vec<Option<Config>>) -> (c: Config)
        ensures
            forall|i: int| first_loaded(loaded@, i) ==> loaded@[i] == Some(c),
            !any_loaded(loaded@) ==> is_default_config(c),
    {
        let n = loaded.len();
        let mut i: usize = 0;
        while i < n
            invariant
                n == loaded@.len(),
                i <= n,
                forall|j: int| 0 <= j < i ==> #[trigger] loaded@[j] is None,
            decreases n - i,
        {
            if loaded[i].is_some() {
                let mut rest = loaded;
                let found = rest.remove(i);
                match found {
                    Some(c) => {
                        return c;
                    },
                    None => {
                        return Config::default();
                    },
                }
            }
            i += 1;
        }
        Config::default()
    }
}

/// A non-empty key in the configuration is the one used, whatever the
/// environment holds.
pub proof fn lemma_configured_key_wins(c: LlmConfig, env: Option<Seq<char>>)
    requires
        c.api_key matches Some(k) && k@.len() > 0,
    ensures
        effective_api_key(c, env) == Some(c.api_key.unwrap()@),
{
}

/// A local Ollama service without a configured key uses no key, whatever
/// the environment holds.
pub proof fn lemma_ollama_needs_no_key(c: LlmConfig, env: Option<Seq<char>>)
    requires
        c.provider == LlmProvider::Ollama,
        !(c.api_key matches Some(k) && k@.len() > 0),
    ensures
        effective_api_key(c, env) is None,
{
}

/// A configured endpoint is the one used, whatever the provider.
pub proof fn lemma_configured_endpoint_wins(c: LlmConfig)
    requires
        c.base_url is Some,
    ensures
        effective_base_url(c) == c.base_url.unwrap()@,
{
}

/// Without a configured endpoint each provider is reached at its own
/// standard endpoint: DeepSeek's API, OpenAI's v1 API, a local Ollama
/// service on port 11434, and nothing for a custom provider. Two
/// configurations without an endpoint but with different providers other
/// than the custom one are thus sent to different places.
pub proof fn lemma_unconfigured_endpoint_is_providers(c: LlmConfig)
    requires
        c.base_url is None,
    ensures
        effective_base_url(c) == match c.provider {
            LlmProvider::Deepseek => "https://api.deepseek.com"@,
            LlmProvider::OpenAI => "https://api.openai.com/v1"@,
            LlmProvider::Ollama => "http://localhost:11434"@,
            LlmProvider::Custom => ""@,
        },
{
}

/// Without a non-empty configured key, every provider that reads a key from
/// the environment (DeepSeek, OpenAI and a custom provider) uses exactly what
/// its variable holds, and a local Ollama service uses no key.
pub proof fn lemma_unconfigured_key_comes_from_environment(c: LlmConfig, env: Option<Seq<char>>)
    requires
        !(c.api_key matches Some(k) && k@.len() > 0),
    ensures
        c.provider != LlmProvider::Ollama ==> effective_api_key(c, env) == env,
        c.provider == LlmProvider::Ollama ==> effective_api_key(c, env) is None,
{
}

/// The variable each provider's key is read from: DeepSeek's, OpenAI's and
/// this daemon's own for a custom provider; Ollama reads none.
pub proof fn lemma_key_variables(p: LlmProvider)
    ensures
        provider_key_variable(p) == match p {
            LlmProvider::Deepseek => Some("DEEPSEEK_API_KEY"@),
            LlmProvider::OpenAI => Some("OPENAI_API_KEY"@),
            LlmProvider::Ollama => None::<Seq<char>>,
            LlmProvider::Custom => Some("OPAGENTD_API_KEY"@),
        },
{
}

} // verus!
