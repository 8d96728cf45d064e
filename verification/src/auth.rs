//! The options that say where the service is and how to authenticate.

use vstd::prelude::*;
use vstd::string::*;
use crate::text::opt_chars;

verus! {

/// Options for authentication
#[derive(Debug, Clone)]
pub struct AuthOptions {
    /// Endpoint of the service
    pub(crate) endpoint: String,
    /// Authentication token
    pub(crate) token: Option<String>,
    /// Azure Subscription Key for authentication.
    pub(crate) key: Option<String>,
    /// Additional headers, each a name and a value
    pub(crate) headers: Vec<(String, String)>,
    /// Proxy server to use. Only http and socks5 proxy are supported by now.
    pub(crate) proxy: Option<String>,
}

/// The mathematical value of [`AuthOptions`].
#[verifier::ext_equal]
pub ghost struct AuthOptionsView {
    pub endpoint: Seq<char>,
    pub token: Option<Seq<char>>,
    pub key: Option<Seq<char>>,
    pub headers: Seq<(Seq<char>, Seq<char>)>,
    pub proxy: Option<Seq<char>>,
}

/// The names and values of a list of headers.
pub open spec fn header_pairs(headers: Seq<(String, String)>) -> Seq<(Seq<char>, Seq<char>)> {
    Seq::new(headers.len(), |i: int| (headers[i].0@, headers[i].1@))
}

impl View for AuthOptions {
    type V = AuthOptionsView;

    closed spec fn view(&self) -> AuthOptionsView {
        AuthOptionsView {
            endpoint: self.endpoint@,
            token: opt_chars(self.token),
            key: opt_chars(self.key),
            headers: header_pairs(self.headers@),
            proxy: opt_chars(self.proxy),
        }
    }
}

/// The text of an optional string, borrowed.
pub fn as_deref(text: &Option<String>) -> (borrowed: Option<&str>)
    ensures
        match borrowed {
            Some(t) => opt_chars(*text) == Some(t@),
            None => text is None,
        },
{
    match text {
        Some(t) => Some(t.as_str()),
        None => None,
    }
}

/// An owned copy of an optional text.
pub fn to_owned_opt(text: Option<&str>) -> (owned: Option<String>)
    ensures
        match text {
            Some(t) => opt_chars(owned) == Some(t@),
            None => owned is None,
        },
{
    match text {
        Some(t) => Some(t.to_owned()),
        None => None,
    }
}

impl AuthOptions {
    /// Endpoint of the service, typically a URL with `wss` protocol
    pub fn endpoint(&self) -> (endpoint: &str)
        ensures
            endpoint@ == self@.endpoint,
    {
        self.endpoint.as_str()
    }

    /// Endpoint of the service, typically a URL with `wss` protocol
    pub fn endpoint_mut(&mut self) -> (endpoint: &mut String)
        ensures
            (*endpoint)@ == old(self)@.endpoint,
            final(self)@ == (AuthOptionsView { endpoint: (*final(endpoint))@, ..old(self)@ }),
    {
        &mut self.endpoint
    }

    /// Authentication token
    pub fn token(&self) -> (token: Option<&str>)
        ensures
            match token {
                Some(t) => self@.token == Some(t@),
                None => self@.token is None,
            },
    {
        as_deref(&self.token)
    }

    /// Authentication token
    pub fn token_mut(&mut self) -> (token: &mut Option<String>)
        ensures
            opt_chars(*token) == old(self)@.token,
            final(self)@ == (AuthOptionsView { token: opt_chars(*final(token)), ..old(self)@ }),
    {
        &mut self.token
    }

    /// Azure Subscription Key for authentication.
    pub fn key(&self) -> (key: Option<&str>)
        ensures
            match key {
                Some(k) => self@.key == Some(k@),
                None => self@.key is None,
            },
    {
        as_deref(&self.key)
    }

    /// Azure Subscription Key for authentication.
    pub fn key_mut(&mut self) -> (key: &mut Option<String>)
        ensures
            opt_chars(*key) == old(self)@.key,
            final(self)@ == (AuthOptionsView { key: opt_chars(*final(key)), ..old(self)@ }),
    {
        &mut self.key
    }

    /// Additional request headers
    pub fn headers(&self) -> (headers: &[(String, String)])
        ensures
            header_pairs(headers@) == self@.headers,
    {
        self.headers.as_slice()
    }

    /// Additional request headers
    pub fn headers_mut(&mut self) -> (headers: &mut Vec<(String, String)>)
        ensures
            header_pairs((*headers)@) == old(self)@.headers,
            final(self)@ == (AuthOptionsView {
                headers: header_pairs((*final(headers))@),
                ..old(self)@
            }),
    {
        &mut self.headers
    }

    /// Proxy server to use. Only http and socks5 proxy are supported by now.
    pub fn proxy(&self) -> (proxy: Option<&str>)
        ensures
            match proxy {
                Some(p) => self@.proxy == Some(p@),
                None => self@.proxy is None,
            },
    {
        as_deref(&self.proxy)
    }

    /// Proxy server to use. Only http and socks5 proxy are supported by now.
    pub fn proxy_mut(&mut self) -> (proxy: &mut Option<String>)
        ensures
            opt_chars(*proxy) == old(self)@.proxy,
            final(self)@ == (AuthOptionsView { proxy: opt_chars(*final(proxy)), ..old(self)@ }),
    {
        &mut self.proxy
    }

    /// Create a builder for `AuthOptions`
    pub fn builder(endpoint: &str) -> (builder: AuthOptionsBuilder)
        ensures
            builder@ == AuthOptionsBuilder::initial(endpoint@),
    {
        AuthOptionsBuilder::new(endpoint)
    }
}

/// Builder for `AuthOptions`
pub struct AuthOptionsBuilder {
    endpoint: String,
    token: Option<String>,
    key: Option<String>,
    headers: Vec<(String, String)>,
    proxy: Option<String>,
}

impl View for AuthOptionsBuilder {
    type V = AuthOptionsView;

    closed spec fn view(&self) -> AuthOptionsView {
        AuthOptionsView {
            endpoint: self.endpoint@,
            token: opt_chars(self.token),
            key: opt_chars(self.key),
            headers: header_pairs(self.headers@),
            proxy: opt_chars(self.proxy),
        }
    }
}

impl AuthOptionsBuilder {
    /// The options of a builder that was given only its endpoint.
    pub open spec fn initial(endpoint: Seq<char>) -> AuthOptionsView {
        AuthOptionsView {
            endpoint,
            token: None,
            key: None,
            headers: Seq::empty(),
            proxy: None,
        }
    }

    /// Create a new builder
    ///
    /// # Arguments
    ///
    /// * `endpoint` - Endpoint of the service, typically a URL with `wss` protocol
    pub fn new(endpoint: &str) -> (builder: Self)
        ensures
            builder@ == Self::initial(endpoint@),
    {
        let builder = AuthOptionsBuilder {
            endpoint: endpoint.to_owned(),
            token: None,
            key: None,
            headers: Vec::new(),
            proxy: None,
        };
        assert(header_pairs(builder.headers@) =~= Seq::empty());
        builder
    }

    /// Authentication token
    pub fn token(self, token: &str) -> (builder: Self)
        ensures
            builder@ == (AuthOptionsView { token: Some(token@), ..self@ }),
    {
        let mut builder = self;
        builder.token = Some(token.to_owned());
        builder
    }

    /// Authentication token
    pub fn optional_token(self, token: Option<&str>) -> (builder: Self)
        ensures
            builder@ == (AuthOptionsView {
                token: match token {
                    Some(t) => Some(t@),
                    None => None,
                },
                ..self@
            }),
    {
        let mut builder = self;
        builder.token = to_owned_opt(token);
        builder
    }

    /// Azure Subscription Key for authentication.
    pub fn key(self, key: &str) -> (builder: Self)
        ensures
            builder@ == (AuthOptionsView { key: Some(key@), ..self@ }),
    {
        let mut builder = self;
        builder.key = Some(key.to_owned());
        builder
    }

    /// Azure Subscription Key for authentication.
    pub fn optional_key(self, key: Option<&str>) -> (builder: Self)
        ensures
            builder@ == (AuthOptionsView {
                key: match key {
                    Some(k) => Some(k@),
                    None => None,
                },
                ..self@
            }),
    {
        let mut builder = self;
        builder.key = to_owned_opt(key);
        builder
    }

    /// Additional request headers
    pub fn headers(self, headers: Vec<(String, String)>) -> (builder: Self)
        ensures
            builder@ == (AuthOptionsView { headers: header_pairs(headers@), ..self@ }),
    {
        let mut builder = self;
        builder.headers = headers;
        builder
    }

    /// Proxy server to use. Only http and socks5 proxy are supported by now.
    pub fn proxy(self, proxy: &str) -> (builder: Self)
        ensures
            builder@ == (AuthOptionsView { proxy: Some(proxy@), ..self@ }),
    {
        let mut builder = self;
        builder.proxy = Some(proxy.to_owned());
        builder
    }

    /// Proxy server to use. Only http and socks5 proxy are supported by now.
    pub fn optional_proxy(self, proxy: Option<&str>) -> (builder: Self)
        ensures
            builder@ == (AuthOptionsView {
                proxy: match proxy {
                    Some(p) => Some(p@),
                    None => None,
                },
                ..self@
            }),
    {
        let mut builder = self;
        builder.proxy = to_owned_opt(proxy);
        builder
    }

    /// Build `AuthOptions`
    pub fn build(self) -> (options: AuthOptions)
        ensures
            options@ == self@,
    {
        AuthOptions {
            endpoint: self.endpoint,
            token: self.token,
            key: self.key,
            headers: self.headers,
            proxy: self.proxy,
        }
    }
}

} // verus!
