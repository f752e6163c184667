//! What it takes to open a channel to the service: the endpoint, the server name
//! that its certificate must carry, and the certificate authority to trust.
use vstd::prelude::*;
use vstd::string::{StrSliceExecFns, StringSliceAdditionalSpecFns};

verus! {

/// The certificate authority, as a file to read, as PEM text, or as PEM bytes.
#[derive(Clone, Debug)]
pub enum TinkCert<'a> {
    File(&'a str),
    Str(&'a str),
    Vec(Vec<u8>),
}

/// Where the PEM bytes of a certificate authority come from.
#[derive(Clone, Debug)]
pub enum PemSource<'a> {
    /// The file at this path is to be read.
    ReadFile(&'a str),
    /// The bytes are at hand.
    Bytes(Vec<u8>),
}

/// The PEM bytes of a certificate authority given in place, or nothing for a file.
pub open spec fn inline_pem(cert: TinkCert) -> Option<Seq<u8>> {
    match cert {
        TinkCert::File(_) => None,
        TinkCert::Str(s) => Some(s.spec_bytes()),
        TinkCert::Vec(v) => Some(v@),
    }
}

impl<'a> TinkCert<'a> {
    /// Says whether the PEM bytes must be read from a file, or gives them.
    pub fn into_pem_source(self) -> (r: PemSource<'a>)
        ensures
            match self {
                TinkCert::File(p) => r == PemSource::ReadFile(p),
                _ => r matches PemSource::Bytes(b) && Some(b@) == inline_pem(self),
            },
    {
        match self {
            TinkCert::File(p) => PemSource::ReadFile(p),
            TinkCert::Str(s) => PemSource::Bytes(s.as_bytes_vec()),
            TinkCert::Vec(v) => PemSource::Bytes(v),
        }
    }
}

/// A complete connection configuration.
#[derive(Clone, Debug)]
pub struct TinkConfig<'a> {
    endpoint: &'a str,
    domain: &'a str,
    cert: TinkCert<'a>,
}

/// A field that was not set before `build`.
#[derive(Clone, Copy, Debug, PartialEq, Eq, Structural)]
pub enum ConfigError {
    MissingEndpoint,
    MissingDomain,
    MissingCert,
}

/// Gathers the fields of a `TinkConfig`; each must be set once before `build`.
#[derive(Clone, Debug)]
pub struct TinkConfigBuilder<'a> {
    endpoint: Option<&'a str>,
    domain: Option<&'a str>,
    cert: Option<TinkCert<'a>>,
}

impl<'a> TinkConfig<'a> {
    pub closed spec fn spec_endpoint(&self) -> &'a str {
        self.endpoint
    }

    pub closed spec fn spec_domain(&self) -> &'a str {
        self.domain
    }

    pub closed spec fn spec_cert(&self) -> TinkCert<'a> {
        self.cert
    }

    pub fn endpoint(&self) -> (r: &'a str)
        ensures
            r == self.spec_endpoint(),
    {
        self.endpoint
    }

    pub fn domain(&self) -> (r: &'a str)
        ensures
            r == self.spec_domain(),
    {
        self.domain
    }

    /// Hands over the certificate authority.
    pub fn into_cert(self) -> (r: TinkCert<'a>)
        ensures
            r == self.spec_cert(),
    {
        self.cert
    }
}

impl<'a> TinkConfigBuilder<'a> {
    pub closed spec fn spec_endpoint(&self) -> Option<&'a str> {
        self.endpoint
    }

    pub closed spec fn spec_domain(&self) -> Option<&'a str> {
        self.domain
    }

    pub closed spec fn spec_cert(&self) -> Option<TinkCert<'a>> {
        self.cert
    }

    /// A builder with no field set.
    pub fn default() -> (r: Self)
        ensures
            r.spec_endpoint() is None,
            r.spec_domain() is None,
            r.spec_cert() is None,
    {
        TinkConfigBuilder { endpoint: None, domain: None, cert: None }
    }

    pub fn endpoint(self, endpoint: &'a str) -> (r: Self)
        ensures
            r.spec_endpoint() == Some(endpoint),
            r.spec_domain() == self.spec_domain(),
            r.spec_cert() == self.spec_cert(),
    {
        TinkConfigBuilder { endpoint: Some(endpoint), ..self }
    }

    pub fn domain(self, domain: &'a str) -> (r: Self)
        ensures
            r.spec_endpoint() == self.spec_endpoint(),
            r.spec_domain() == Some(domain),
            r.spec_cert() == self.spec_cert(),
    {
        TinkConfigBuilder { domain: Some(domain), ..self }
    }

    pub fn cert(self, cert: TinkCert<'a>) -> (r: Self)
        ensures
            r.spec_endpoint() == self.spec_endpoint(),
            r.spec_domain() == self.spec_domain(),
            r.spec_cert() == Some(cert),
    {
        TinkConfigBuilder { cert: Some(cert), ..self }
    }

    /// The configuration, or the first unset field in the order endpoint, domain,
    /// certificate authority.
    pub fn build(self) -> (r: Result<TinkConfig<'a>, ConfigError>)
        ensures
            self.spec_endpoint() is None ==> r == Err::<TinkConfig<'a>, ConfigError>(
                ConfigError::MissingEndpoint,
            ),
            self.spec_endpoint() is Some && self.spec_domain() is None ==> r == Err::<
                TinkConfig<'a>,
                ConfigError,
            >(ConfigError::MissingDomain),
            self.spec_endpoint() is Some && self.spec_domain() is Some && self.spec_cert() is None
                ==> r == Err::<TinkConfig<'a>, ConfigError>(ConfigError::MissingCert),
            r matches Ok(c) ==> Some(c.spec_endpoint()) == self.spec_endpoint() && Some(
                c.spec_domain(),
            ) == self.spec_domain() && Some(c.spec_cert()) == self.spec_cert(),
            (self.spec_endpoint() is Some && self.spec_domain() is Some && self.spec_cert() is Some)
                ==> r is Ok,
    {
        let endpoint = match self.endpoint {
            Some(e) => e,
            None => return Err(ConfigError::MissingEndpoint),
        };
        let domain = match self.domain {
            Some(d) => d,
            None => return Err(ConfigError::MissingDomain),
        };
        match self.cert {
            Some(cert) => Ok(TinkConfig { endpoint, domain, cert }),
            None => Err(ConfigError::MissingCert),
        }
    }
}

} // verus!
