//! Configuration shared by every task of a batch: service host, user
//! agent, API key and client version. A batch builds one configuration
//! up front and all tasks read it; nothing here is mutated afterwards.

use vstd::prelude::*;

verus! {

/// An API key used for authenticating with the service.
///
/// The key may carry an optional prefix (the part before the first
/// `:` of the textual form); only the bare `key` is ever sent in the
/// authentication header.
#[derive(Clone, Debug)]
pub struct ApiKey {
    /// Optional prefix, not included in request headers.
    pub prefix: Option<String>,
    /// The key itself, sent raw (no scheme prefix) in the header.
    pub key: String,
}

/// Where the textual form of an API key splits: at the first `:` the
/// part before it is the prefix and the rest is the key; with no `:`
/// the whole text is the key and there is no prefix.
pub open spec fn spec_split_api_key(s: Seq<char>) -> (Option<Seq<char>>, Seq<char>)
    decreases s.len(),
{
    if s.len() == 0 {
        (None, s)
    } else if s[0] == ':' {
        (Some(Seq::empty()), s.subrange(1, s.len() as int))
    } else {
        let rest = spec_split_api_key(s.subrange(1, s.len() as int));
        match rest.0 {
            Some(p) => (Some(seq![s[0]] + p), rest.1),
            None => (None, s),
        }
    }
}

/// When the first `:` of `s` stands at `i`, the split yields the text
/// before `i` as prefix and the text after `i` as key.
proof fn lemma_split_at_colon(s: Seq<char>, i: int)
    requires
        0 <= i < s.len(),
        s[i] == ':',
        forall|j: int| 0 <= j < i ==> s[j] != ':',
    ensures
        spec_split_api_key(s) == (Some(s.subrange(0, i)), s.subrange(i + 1, s.len() as int)),
    decreases i,
{
    if i == 0 {
        assert(s.subrange(0, 0) =~= Seq::<char>::empty());
    } else {
        let t = s.subrange(1, s.len() as int);
        lemma_split_at_colon(t, i - 1);
        assert(t.subrange(i - 1, t.len() as int) =~= s.subrange(i, s.len() as int));
        assert(t.subrange(i, t.len() as int) =~= s.subrange(i + 1, s.len() as int));
        assert(seq![s[0]] + t.subrange(0, i - 1) =~= s.subrange(0, i));
    }
}

/// When `s` holds no `:`, the split yields no prefix and `s` itself.
proof fn lemma_split_no_colon(s: Seq<char>)
    requires
        forall|j: int| 0 <= j < s.len() ==> s[j] != ':',
    ensures
        spec_split_api_key(s) == (Option::<Seq<char>>::None, s),
    decreases s.len(),
{
    if s.len() > 0 {
        lemma_split_no_colon(s.subrange(1, s.len() as int));
    }
}

impl ApiKey {
    /// Reads an API key from its textual form: an optional prefix
    /// before the first `:`, then the key; with no `:` the whole text
    /// is the key.
    pub fn parse(s: &str) -> (k: ApiKey)
        ensures
            ({
                let (prefix, key) = spec_split_api_key(s@);
                &&& k.key@ == key
                &&& match k.prefix {
                    Some(p) => prefix == Some(p@),
                    None => prefix is None,
                }
            }),
    {
        let len = s.unicode_len();
        let mut i: usize = 0;
        while i < len
            invariant
                0 <= i <= len,
                len == s@.len(),
                forall|j: int| 0 <= j < i ==> s@[j] != ':',
            decreases len - i,
        {
            if s.get_char(i) == ':' {
                let prefix = s.substring_char(0, i).to_owned();
                let key = s.substring_char(i + 1, len).to_owned();
                proof {
                    lemma_split_at_colon(s@, i as int);
                }
                return ApiKey { prefix: Some(prefix), key };
            }
            i = i + 1;
        }
        proof {
            lemma_split_no_colon(s@);
        }
        ApiKey { prefix: None, key: s.to_owned() }
    }

    /// The value placed in the authentication header: the bare key,
    /// with no prefix and no scheme.
    pub fn header_value(&self) -> (v: String)
        ensures
            v@ == self.key@,
    {
        self.key.clone()
    }
}

/// Configuration for the upload service.
///
/// Holds everything a batch needs to address the service: the host
/// URL and the optional user agent, API key and client version placed
/// on every request.
#[derive(Clone, Debug)]
pub struct UploadthingConfig {
    /// The host URL of the service.
    pub host: String,
    /// Optional user agent sent with each request.
    pub user_agent: Option<String>,
    /// Optional API key for authentication.
    pub api_key: Option<ApiKey>,
    /// Optional client version sent with each request.
    pub version: Option<String>,
}

impl UploadthingConfig {
    /// A configuration with the stock host, user agent and version,
    /// and no API key.
    pub fn new() -> (c: UploadthingConfig)
        ensures
            UploadthingConfig::spec_is_default(c),
    {
        UploadthingConfig::default()
    }

    /// Starts a builder preloaded with the default configuration.
    pub fn builder() -> (b: UploadthingConfigBuilder)
        ensures
            UploadthingConfig::spec_is_default(b.config),
    {
        UploadthingConfigBuilder::new()
    }

    /// What the stock configuration looks like: service host, a user
    /// agent naming this client, the client version, and no API key.
    pub open spec fn spec_is_default(c: UploadthingConfig) -> bool {
        &&& c.host@ == "https://uploadthing.com"@
        &&& c.user_agent matches Some(ua) && ua@ == "utapi-rs/0.1.0/rust"@
        &&& c.api_key is None
        &&& c.version matches Some(v) && v@ == "0.1.0"@
    }
}

impl Default for UploadthingConfig {
    /// The stock configuration: service host, a user agent naming
    /// this client, the client version, and no API key.
    fn default() -> (c: UploadthingConfig)
        ensures
            UploadthingConfig::spec_is_default(c),
            c.host@ == "https://uploadthing.com"@,
            c.user_agent matches Some(ua) && ua@ == "utapi-rs/0.1.0/rust"@,
            c.api_key is None,
            c.version matches Some(v) && v@ == "0.1.0"@,
    {
        UploadthingConfig {
            host: "https://uploadthing.com".to_owned(),
            user_agent: Some("utapi-rs/0.1.0/rust".to_owned()),
            api_key: None,
            version: Some("0.1.0".to_owned()),
        }
    }
}

/// A fluent builder for [`UploadthingConfig`], starting from the
/// default configuration.
pub struct UploadthingConfigBuilder {
    /// The configuration assembled so far.
    pub config: UploadthingConfig,
}

impl UploadthingConfigBuilder {
    /// A builder holding the default configuration.
    pub fn new() -> (b: UploadthingConfigBuilder)
        ensures
            UploadthingConfig::spec_is_default(b.config),
    {
        UploadthingConfigBuilder { config: UploadthingConfig::default() }
    }

    /// Sets the host URL; everything else is kept.
    pub fn host(self, host: &str) -> (b: UploadthingConfigBuilder)
        ensures
            b.config.host@ == host@,
            b.config.user_agent == self.config.user_agent,
            b.config.api_key == self.config.api_key,
            b.config.version == self.config.version,
    {
        let mut config = self.config;
        config.host = host.to_owned();
        UploadthingConfigBuilder { config }
    }

    /// Sets the user agent; everything else is kept.
    pub fn user_agent(self, user_agent: &str) -> (b: UploadthingConfigBuilder)
        ensures
            b.config.user_agent matches Some(ua) && ua@ == user_agent@,
            b.config.host == self.config.host,
            b.config.api_key == self.config.api_key,
            b.config.version == self.config.version,
    {
        let mut config = self.config;
        config.user_agent = Some(user_agent.to_owned());
        UploadthingConfigBuilder { config }
    }

    /// Sets the API key, read from its textual form; everything else
    /// is kept.
    pub fn api_key(self, api_key: &str) -> (b: UploadthingConfigBuilder)
        ensures
            b.config.api_key matches Some(k) && {
                let (prefix, key) = spec_split_api_key(api_key@);
                &&& k.key@ == key
                &&& match k.prefix {
                    Some(p) => prefix == Some(p@),
                    None => prefix is None,
                }
            },
            b.config.host == self.config.host,
            b.config.user_agent == self.config.user_agent,
            b.config.version == self.config.version,
    {
        let mut config = self.config;
        config.api_key = Some(ApiKey::parse(api_key));
        UploadthingConfigBuilder { config }
    }

    /// Sets the client version; everything else is kept.
    pub fn version(self, version: &str) -> (b: UploadthingConfigBuilder)
        ensures
            b.config.version matches Some(v) && v@ == version@,
            b.config.host == self.config.host,
            b.config.user_agent == self.config.user_agent,
            b.config.api_key == self.config.api_key,
    {
        let mut config = self.config;
        config.version = Some(version.to_owned());
        UploadthingConfigBuilder { config }
    }

    /// Hands out the assembled configuration.
    pub fn build(self) -> (c: UploadthingConfig)
        ensures
            c == self.config,
    {
        self.config
    }
}

impl Default for UploadthingConfigBuilder {
    /// Same as [`UploadthingConfigBuilder::new`].
    fn default() -> (b: UploadthingConfigBuilder)
        ensures
            UploadthingConfig::spec_is_default(b.config),
    {
        UploadthingConfigBuilder::new()
    }
}

} // verus!
