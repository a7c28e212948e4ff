//! Configuration model of the engine: endpoints, auth material, mounts and
//! prefixes, with the defaulting and validation rules the engine trusts
//! before it starts.
use vstd::prelude::*;
use vstd::string::StringExecFns;

verus! {

/// How the engine authenticates against one endpoint: a fixed token, or a
/// role/secret pair that can be exchanged for fresh tokens.
#[derive(Debug, Clone)]
pub enum VaultAuthMethod {
    TokenAuth { token: String },
    AppRoleAuth { role_id: String, secret_id: String },
}

/// The path convention of a secret engine: v1 (`mount/path`) or v2
/// (`mount/data/path`).
#[derive(Debug, Clone, Copy, PartialEq, Eq, Structural)]
pub enum EngineVersion {
    V1,
    V2,
}

impl Default for EngineVersion {
    fn default() -> (r: Self)
        ensures
            r == EngineVersion::V2,
    {
        EngineVersion::V2
    }
}

/// One endpoint: its base URL, auth material and optional ceilings on the
/// credential's time-to-live values, in seconds.
#[derive(Debug, Clone)]
pub struct VaultHost {
    pub url: String,
    pub auth: Option<VaultAuthMethod>,
    pub token_ttl: Option<u64>,
    pub token_max_ttl: Option<u64>,
}

/// The mounts one side of the sync covers: a single mount or a list.
#[derive(Debug, Clone)]
pub enum Backend {
    Backend(String),
    Backends(Vec<String>),
}

/// The source side: endpoint, path prefix, mounts, engine version.
#[derive(Debug, Clone)]
pub struct VaultSource {
    pub host: VaultHost,
    pub prefix: String,
    pub backend: Option<Backend>,
    pub version: EngineVersion,
    pub namespace: Option<String>,
}

/// The destination side: endpoint, path prefix, mounts, engine version.
#[derive(Debug, Clone)]
pub struct VaultDestination {
    pub host: VaultHost,
    pub prefix: String,
    pub backend: Option<Backend>,
    pub version: EngineVersion,
    pub namespace: Option<String>,
}

/// The whole engine configuration, already decoded.
#[derive(Debug, Clone)]
pub struct VaultSyncConfig {
    pub id: String,
    pub full_sync_interval: u64,
    pub bind: Option<String>,
    pub src: VaultSource,
    pub dst: VaultDestination,
}

/// A fatal startup fault in the configuration.
#[derive(Debug, Clone, Copy, PartialEq, Eq, Structural)]
pub enum ConfigError {
    AuthRequired,
    OneToManyNotSupported,
    ManyToOneNotSupported,
    DifferentNumberOfBackends,
}

impl ConfigError {
    /// Human-readable description of the startup fault.
    pub fn message(&self) -> (r: String)
        ensures
            match self {
                ConfigError::AuthRequired => r@
                    == "Vault token or both app role id and secret id are required"@,
                ConfigError::OneToManyNotSupported => r@
                    == "Syncing one backend to many not supported"@,
                ConfigError::ManyToOneNotSupported => r@
                    == "Syncing many backends to one not supported"@,
                ConfigError::DifferentNumberOfBackends => r@
                    == "Different number of backends for source and destination"@,
            },
    {
        match self {
            ConfigError::AuthRequired => String::from_str(
                "Vault token or both app role id and secret id are required",
            ),
            ConfigError::OneToManyNotSupported => String::from_str(
                "Syncing one backend to many not supported",
            ),
            ConfigError::ManyToOneNotSupported => String::from_str(
                "Syncing many backends to one not supported",
            ),
            ConfigError::DifferentNumberOfBackends => String::from_str(
                "Different number of backends for source and destination",
            ),
        }
    }
}

/// Deep copy of a mount list, equal element by element.
pub fn clone_strings(v: &Vec<String>) -> (r: Vec<String>)
    ensures
        r@.len() == v@.len(),
        forall|i: int| 0 <= i < v@.len() ==> r@[i]@ == #[trigger] v@[i]@,
{
    let mut r: Vec<String> = Vec::new();
    let mut i: usize = 0;
    while i < v.len()
        invariant
            i <= v@.len(),
            r@.len() == i,
            forall|k: int| 0 <= k < i ==> r@[k]@ == #[trigger] v@[k]@,
        decreases v@.len() - i,
    {
        r.push(String::from_str(v[i].as_str()));
        i += 1;
    }
    r
}

/// The configured mount or mounts as a list, in configuration order.
pub fn get_backends(backend: &Option<Backend>) -> (r: Vec<String>)
    requires
        backend is Some,
    ensures
        match backend {
            Option::Some(Backend::Backend(b)) => r@.len() == 1 && r@[0]@ == b@,
            Option::Some(Backend::Backends(bs)) => r@.len() == bs@.len() && forall|i: int|
                0 <= i < bs@.len() ==> r@[i]@ == #[trigger] bs@[i]@,
            Option::None => false,
        },
{
    match backend {
        Option::Some(Backend::Backend(b)) => {
            let mut v: Vec<String> = Vec::new();
            v.push(String::from_str(b.as_str()));
            v
        },
        Option::Some(Backend::Backends(bs)) => clone_strings(bs),
        Option::None => vstd::pervasive::unreached(),
    }
}

/// True iff the two optional mount configurations hold the same mounts, as
/// character sequences, in the same shape.
pub open spec fn backend_like(a: Option<Backend>, b: Option<Backend>) -> bool {
    match (a, b) {
        (Option::None, Option::None) => true,
        (Option::Some(Backend::Backend(x)), Option::Some(Backend::Backend(y))) => x@ == y@,
        (Option::Some(Backend::Backends(xs)), Option::Some(Backend::Backends(ys))) => xs@.len()
            == ys@.len() && forall|i: int| 0 <= i < xs@.len() ==> #[trigger] xs@[i]@ == ys@[i]@,
        _ => false,
    }
}

/// Deep copy of a mount configuration.
pub fn clone_backend(b: &Backend) -> (r: Backend)
    ensures
        backend_like(Option::Some(r), Option::Some(*b)),
{
    match b {
        Backend::Backend(m) => Backend::Backend(String::from_str(m.as_str())),
        Backend::Backends(ms) => Backend::Backends(clone_strings(ms)),
    }
}

impl VaultSyncConfig {
    /// Fill in the source's default mount and mirror the source mounts to a
    /// destination that configures none.
    pub fn defaults(&mut self)
        ensures
            match old(self).src.backend {
                Option::None => final(self).src.backend matches Option::Some(
                    Backend::Backend(b),
                ) && b@ == "secret"@,
                Option::Some(_) => final(self).src.backend == old(self).src.backend,
            },
            match old(self).dst.backend {
                Option::None => backend_like(final(self).dst.backend, final(self).src.backend),
                Option::Some(_) => final(self).dst.backend == old(self).dst.backend,
            },
            final(self).src.backend is Some,
            final(self).dst.backend is Some,
            final(self).id == old(self).id,
            final(self).full_sync_interval == old(self).full_sync_interval,
            final(self).bind == old(self).bind,
            final(self).src.host == old(self).src.host,
            final(self).src.prefix == old(self).src.prefix,
            final(self).src.version == old(self).src.version,
            final(self).src.namespace == old(self).src.namespace,
            final(self).dst.host == old(self).dst.host,
            final(self).dst.prefix == old(self).dst.prefix,
            final(self).dst.version == old(self).dst.version,
            final(self).dst.namespace == old(self).dst.namespace,
    {
        if self.src.backend.is_none() {
            self.src.backend = Some(Backend::Backend(String::from_str("secret")));
        }
        if self.dst.backend.is_none() {
            let src_backend = match &self.src.backend {
                Option::Some(b) => clone_backend(b),
                Option::None => vstd::pervasive::unreached(),
            };
            self.dst.backend = Some(src_backend);
        }
    }

    /// Reject a mount configuration whose shape the engine does not support:
    /// the correspondence must be one-to-one, list to equally long list.
    pub fn validate(&self) -> (r: Result<(), ConfigError>)
        requires
            self.src.backend is Some,
            self.dst.backend is Some,
        ensures
            match (self.src.backend, self.dst.backend) {
                (
                    Option::Some(Backend::Backend(_)),
                    Option::Some(Backend::Backends(_)),
                ) => r == Result::<(), ConfigError>::Err(ConfigError::OneToManyNotSupported),
                (
                    Option::Some(Backend::Backends(_)),
                    Option::Some(Backend::Backend(_)),
                ) => r == Result::<(), ConfigError>::Err(ConfigError::ManyToOneNotSupported),
                (
                    Option::Some(Backend::Backends(a)),
                    Option::Some(Backend::Backends(b)),
                ) => if a@.len() != b@.len() {
                    r == Result::<(), ConfigError>::Err(ConfigError::DifferentNumberOfBackends)
                } else {
                    r is Ok
                },
                (Option::Some(Backend::Backend(_)), Option::Some(Backend::Backend(_))) => r is Ok,
                _ => false,
            },
    {
        match (&self.src.backend, &self.dst.backend) {
            (Option::Some(Backend::Backend(_)), Option::Some(Backend::Backends(_))) => Err(
                ConfigError::OneToManyNotSupported,
            ),
            (Option::Some(Backend::Backends(_)), Option::Some(Backend::Backend(_))) => Err(
                ConfigError::ManyToOneNotSupported,
            ),
            (Option::Some(Backend::Backends(a)), Option::Some(Backend::Backends(b))) => {
                if a.len() != b.len() {
                    Err(ConfigError::DifferentNumberOfBackends)
                } else {
                    Ok(())
                }
            },
            (Option::Some(Backend::Backend(_)), Option::Some(Backend::Backend(_))) => Ok(()),
            _ => vstd::pervasive::unreached(),
        }
    }
}

} // verus!
