//! Machine configuration: the image reference, guest sizing presets and
//! the nested service/check/mount records of a machine spec.

use vstd::prelude::*;

use crate::duration::FlyctlDuration;
use crate::strmap::StringMap;
use crate::strutil::{spec_dec_signed, spec_opt_str, spec_starts_with, i32_to_string, str_eq, str_starts_with};

verus! {

/// Reference to a container image: registry, repository and an optional
/// tag and digest, plus free-form labels.
#[derive(Debug, Clone)]
pub struct ImageRef {
    pub registry: String,
    pub repository: String,
    pub tag: Option<String>,
    pub digest: Option<String>,
    pub labels: StringMap,
}

/// The full reference text: `registry/repository[:tag][@digest]`.
pub open spec fn spec_full_ref(r: ImageRef) -> Seq<char> {
    let base = r.registry@ + "/"@ + r.repository@;
    let with_tag = match r.tag {
        Some(t) => base + ":"@ + t@,
        None => base,
    };
    match r.digest {
        Some(d) => with_tag + "@"@ + d@,
        None => with_tag,
    }
}

/// The short display text: `repository:tag`, then the `fly.version`
/// label in parentheses when present.
pub open spec fn spec_str_with_version(r: ImageRef) -> Seq<char> {
    let base = r.repository@ + ":"@ + (match r.tag {
        Some(t) => t@,
        None => Seq::<char>::empty(),
    });
    match r.labels.spec_get("fly.version"@) {
        Some(v) => base + " ("@ + v + ")"@,
        None => base,
    }
}

/// What remains of `s` after `p`, when `p` is a prefix.
pub open spec fn spec_strip_prefix(s: Seq<char>, p: Seq<char>) -> Option<Seq<char>> {
    if spec_starts_with(s, p) {
        Some(s.skip(p.len() as int))
    } else {
        None
    }
}

/// Whether the text `s` denotes this image: it must spell the repository
/// (optionally preceded by the registry), then the tag after `:` and the
/// digest after `@`, each only when this reference carries one.
pub open spec fn spec_matches_str(r: ImageRef, s: Seq<char>) -> bool {
    let after_name: Option<Seq<char>> = if spec_starts_with(s, r.repository@) {
        Some(s.skip(r.repository@.len() as int))
    } else if spec_starts_with(s, r.registry@) {
        let t = s.skip(r.registry@.len() as int);
        let t2 = if t.len() > 0 && t[0] == '/' {
            t.skip(1)
        } else {
            t
        };
        if t2 == r.repository@ {
            Some(Seq::<char>::empty())
        } else {
            None
        }
    } else {
        None
    };
    match after_name {
        None => false,
        Some(rest) => {
            let after_tag: Option<Seq<char>> = if rest.len() > 0 && rest[0] == ':' {
                match r.tag {
                    Some(t) => spec_strip_prefix(rest.skip(1), t@),
                    None => None,
                }
            } else {
                Some(rest)
            };
            match after_tag {
                None => false,
                Some(rest2) => {
                    let after_digest: Option<Seq<char>> = if rest2.len() > 0 && rest2[0] == '@' {
                        match r.digest {
                            Some(d) => spec_strip_prefix(rest2.skip(1), d@),
                            None => None,
                        }
                    } else {
                        Some(rest2)
                    };
                    match after_digest {
                        None => false,
                        Some(rest3) => rest3.len() == 0,
                    }
                },
            }
        },
    }
}

impl ImageRef {
    /// The full reference text: `registry/repository[:tag][@digest]`.
    pub fn full_ref(&self) -> (r: String)
        ensures
            r@ == spec_full_ref(*self),
    {
        proof {
            reveal_strlit("/");
            reveal_strlit(":");
            reveal_strlit("@");
        }
        let mut img_ref = self.registry.clone();
        img_ref.append("/");
        img_ref.append(self.repository.as_str());
        if let Some(tag) = &self.tag {
            img_ref.append(":");
            img_ref.append(tag.as_str());
        }
        if let Some(digest) = &self.digest {
            img_ref.append("@");
            img_ref.append(digest.as_str());
        }
        img_ref
    }

    /// The short display text: `repository:tag`, then ` (v)` for the
    /// `fly.version` label `v` when present.
    pub fn str_with_version(&self) -> (r: String)
        ensures
            r@ == spec_str_with_version(*self),
    {
        proof {
            reveal_strlit(":");
            reveal_strlit(" (");
            reveal_strlit(")");
        }
        let mut img_ref = self.repository.clone();
        img_ref.append(":");
        if let Some(tag) = &self.tag {
            img_ref.append(tag.as_str());
        }
        if let Some(ver) = self.labels.get("fly.version") {
            img_ref.append(" (");
            img_ref.append(ver.as_str());
            img_ref.append(")");
        }
        img_ref
    }

    /// Whether the text `s` denotes this image.
    pub fn matches_str(&self, s: &str) -> (r: bool)
        ensures
            r == spec_matches_str(*self, s@),
    {
        let s_len = s.unicode_len();
        let rep_len = self.repository.as_str().unicode_len();
        let rest: &str = if str_starts_with(s, self.repository.as_str()) {
            s.substring_char(rep_len, s_len)
        } else if str_starts_with(s, self.registry.as_str()) {
            let reg_len = self.registry.as_str().unicode_len();
            let mut t = s.substring_char(reg_len, s_len);
            let mut t_len = s_len - reg_len;
            if t_len > 0 && t.get_char(0) == '/' {
                t = t.substring_char(1, t_len);
                t_len = t_len - 1;
            }
            if str_eq(t, self.repository.as_str()) {
                t.substring_char(t_len, t_len)
            } else {
                return false;
            }
        } else {
            return false;
        };

        let rest_len = rest.unicode_len();
        let (rest2, rest2_len): (&str, usize) = if rest_len > 0 && rest.get_char(0) == ':' {
            match &self.tag {
                Some(tag) => {
                    let after = rest.substring_char(1, rest_len);
                    if str_starts_with(after, tag.as_str()) {
                        let tag_len = tag.as_str().unicode_len();
                        (after.substring_char(tag_len, rest_len - 1), rest_len - 1 - tag_len)
                    } else {
                        return false;
                    }
                },
                None => {
                    return false;
                },
            }
        } else {
            (rest, rest_len)
        };

        let rest3_len: usize = if rest2_len > 0 && rest2.get_char(0) == '@' {
            match &self.digest {
                Some(digest) => {
                    let after = rest2.substring_char(1, rest2_len);
                    if str_starts_with(after, digest.as_str()) {
                        let digest_len = digest.as_str().unicode_len();
                        rest2_len - 1 - digest_len
                    } else {
                        return false;
                    }
                },
                None => {
                    return false;
                },
            }
        } else {
            rest2_len
        };

        rest3_len == 0
    }
}

/// Sizing of the virtual machine: CPU kind and count, memory, and extra
/// kernel arguments.
#[derive(Debug, Clone, Hash)]
pub struct Guest {
    pub cpu_kind: String,
    pub cpus: i32,
    pub memory_mb: i32,
    pub kernel_args: Vec<String>,
}

/// Rejected guest-size requests.
#[derive(Debug, Clone)]
pub enum SetSizeError {
    /// The requested name starts with neither `shared` nor `performance`.
    InvalidPreset { size: String },
    /// The requested name has a known kind but is not a preset;
    /// `valid_sizes` lists the presets of that kind.
    InvalidSize { size: String, valid_sizes: String },
}

/// The sizing preset registered under `name`: CPU kind, CPU count and
/// memory in MiB. Shared presets grant 256 MiB per CPU, performance
/// presets 2048 MiB per CPU.
pub open spec fn spec_preset(name: Seq<char>) -> Option<(Seq<char>, i32, i32)> {
    if name == "shared-cpu-1x"@ {
        Some(("shared"@, 1int as i32, 256int as i32))
    } else if name == "shared-cpu-2x"@ {
        Some(("shared"@, 2int as i32, 512int as i32))
    } else if name == "shared-cpu-4x"@ {
        Some(("shared"@, 4int as i32, 1024int as i32))
    } else if name == "shared-cpu-8x"@ {
        Some(("shared"@, 8int as i32, 2048int as i32))
    } else if name == "performance-1x"@ {
        Some(("performance"@, 1int as i32, 2048int as i32))
    } else if name == "performance-2x"@ {
        Some(("performance"@, 2int as i32, 4096int as i32))
    } else if name == "performance-4x"@ {
        Some(("performance"@, 4int as i32, 8192int as i32))
    } else if name == "performance-8x"@ {
        Some(("performance"@, 8int as i32, 16384int as i32))
    } else if name == "performance-16x"@ {
        Some(("performance"@, 16int as i32, 32768int as i32))
    } else {
        None
    }
}

fn preset_lookup(size: &str) -> (r: Option<(String, i32, i32)>)
    ensures
        match r {
            Some(p) => spec_preset(size@) == Some((p.0@, p.1, p.2)),
            None => spec_preset(size@) is None,
        },
{
    let kind_shared = || -> (k: String)
        ensures
            k@ == "shared"@,
        { String::from_str("shared") };
    let kind_perf = || -> (k: String)
        ensures
            k@ == "performance"@,
        { String::from_str("performance") };
    if str_eq(size, "shared-cpu-1x") {
        Some((kind_shared(), 1, 256))
    } else if str_eq(size, "shared-cpu-2x") {
        Some((kind_shared(), 2, 512))
    } else if str_eq(size, "shared-cpu-4x") {
        Some((kind_shared(), 4, 1024))
    } else if str_eq(size, "shared-cpu-8x") {
        Some((kind_shared(), 8, 2048))
    } else if str_eq(size, "performance-1x") {
        Some((kind_perf(), 1, 2048))
    } else if str_eq(size, "performance-2x") {
        Some((kind_perf(), 2, 4096))
    } else if str_eq(size, "performance-4x") {
        Some((kind_perf(), 4, 8192))
    } else if str_eq(size, "performance-8x") {
        Some((kind_perf(), 8, 16384))
    } else if str_eq(size, "performance-16x") {
        Some((kind_perf(), 16, 32768))
    } else {
        None
    }
}

/// What `set_size` leaves in the guest and reports, for a requested
/// `size` applied to the prior value `before`.
pub open spec fn spec_set_size_outcome(before: Guest, size: Seq<char>, after: Guest, r: Result<
    (),
    SetSizeError,
>) -> bool {
    match spec_preset(size) {
        Some(p) => r is Ok && after.cpu_kind@ == p.0 && after.cpus == p.1 && after.memory_mb == p.2
            && after.kernel_args == before.kernel_args,
        None => after == before && match r {
            Ok(_) => false,
            Err(SetSizeError::InvalidSize { size: s, valid_sizes: v }) => s@ == size && (
            (spec_starts_with(size, "shared"@) && v@
                == "shared-cpu-1x, shared-cpu-2x, shared-cpu-4x, shared-cpu-8x"@) || (
            !spec_starts_with(size, "shared"@) && spec_starts_with(size, "performance"@) && v@
                == "performance-16x, performance-1x, performance-2x, performance-4x, performance-8x"@)),
            Err(SetSizeError::InvalidPreset { size: s }) => s@ == size && !spec_starts_with(
                size,
                "shared"@,
            ) && !spec_starts_with(size, "performance"@),
        },
    }
}

impl Guest {
    /// Sets this guest to the preset registered under `size`. A name of
    /// a known kind that is no preset reports the valid names of that
    /// kind; any other name is rejected outright. On error the guest is
    /// unchanged.
    pub fn set_size(&mut self, size: &str) -> (r: Result<(), SetSizeError>)
        ensures
            spec_set_size_outcome(*old(self), size@, *final(self), r),
    {
        if let Some((kind, cpus, memory_mb)) = preset_lookup(size) {
            self.cpu_kind = kind;
            self.cpus = cpus;
            self.memory_mb = memory_mb;
            return Ok(());
        }
        if str_starts_with(size, "shared") {
            Err(SetSizeError::InvalidSize {
                size: String::from_str(size),
                valid_sizes: String::from_str(
                    "shared-cpu-1x, shared-cpu-2x, shared-cpu-4x, shared-cpu-8x",
                ),
            })
        } else if str_starts_with(size, "performance") {
            Err(SetSizeError::InvalidSize {
                size: String::from_str(size),
                valid_sizes: String::from_str(
                    "performance-16x, performance-1x, performance-2x, performance-4x, performance-8x",
                ),
            })
        } else {
            Err(SetSizeError::InvalidPreset { size: String::from_str(size) })
        }
    }

    /// The guest sized to the preset registered under `size`, with no
    /// kernel arguments.
    pub fn from_size(size: &str) -> (r: Result<Guest, SetSizeError>)
        ensures
            match r {
                Ok(g) => match spec_preset(size@) {
                    Some(p) => g.cpu_kind@ == p.0 && g.cpus == p.1 && g.memory_mb == p.2
                        && g.kernel_args@.len() == 0,
                    None => false,
                },
                Err(e) => spec_preset(size@) is None,
            },
    {
        let mut guest = Guest {
            cpu_kind: String::new(),
            cpus: 0,
            memory_mb: 0,
            kernel_args: Vec::new(),
        };
        match guest.set_size(size) {
            Ok(_) => Ok(guest),
            Err(e) => Err(e),
        }
    }

    /// The preset-style name of this sizing: `shared-cpu-<n>x` or
    /// `dedicated-cpu-<n>x` by CPU kind, else `unknown`.
    pub fn to_size_type(&self) -> (r: String)
        ensures
            self.cpu_kind@ == "shared"@ ==> r@ == "shared-cpu-"@ + spec_dec_signed(
                self.cpus as int,
            ) + "x"@,
            self.cpu_kind@ == "dedicated"@ ==> r@ == "dedicated-cpu-"@ + spec_dec_signed(
                self.cpus as int,
            ) + "x"@,
            self.cpu_kind@ != "shared"@ && self.cpu_kind@ != "dedicated"@ ==> r@ == "unknown"@,
    {
        proof {
            reveal_strlit("x");
            reveal_strlit("shared");
            reveal_strlit("dedicated");
            assert("shared"@.len() != "dedicated"@.len());
        }
        if str_eq(self.cpu_kind.as_str(), "shared") {
            let mut s = String::from_str("shared-cpu-");
            s.append(i32_to_string(self.cpus).as_str());
            s.append("x");
            assert(s@ =~= "shared-cpu-"@ + spec_dec_signed(self.cpus as int) + "x"@);
            s
        } else if str_eq(self.cpu_kind.as_str(), "dedicated") {
            let mut s = String::from_str("dedicated-cpu-");
            s.append(i32_to_string(self.cpus).as_str());
            s.append("x");
            assert(s@ =~= "dedicated-cpu-"@ + spec_dec_signed(self.cpus as int) + "x"@);
            s
        } else {
            String::from_str("unknown")
        }
    }
}

impl Default for Guest {
    /// The empty sizing: no CPU kind, zero CPUs and memory.
    fn default() -> (r: Guest)
        ensures
            r.cpu_kind@ == Seq::<char>::empty(),
            r.cpus == 0,
            r.memory_mb == 0,
            r.kernel_args@.len() == 0,
    {
        Guest { cpu_kind: String::new(), cpus: 0, memory_mb: 0, kernel_args: Vec::new() }
    }
}

/// The init process of the machine.
#[derive(Debug, Clone, Hash)]
pub struct Init {
    pub exec_args: Vec<String>,
    pub entrypoint: Vec<String>,
    pub cmd: Vec<String>,
    pub tty: bool,
}

/// A volume attached to the machine, named either by volume id or by
/// volume name.
#[derive(Debug, Clone, Hash)]
pub struct Mount {
    pub encrypted: Option<bool>,
    pub path: String,
    pub size_gb: Option<i32>,
    pub volume: Option<String>,
    pub name: Option<String>,
}

impl Mount {
    /// The volume id this mount was built from, if any.
    pub open spec fn spec_vol_id(&self) -> Option<Seq<char>> {
        spec_opt_str(self.volume)
    }

    /// The volume name this mount was built from, if any.
    pub open spec fn spec_vol_name(&self) -> Option<Seq<char>> {
        spec_opt_str(self.name)
    }

    /// A mount of the volume with id `vol_id` at `path`.
    pub fn from_vol_id(vol_id: String, path: String) -> (r: Mount)
        ensures
            r.spec_vol_id() == Some(vol_id@),
            r.spec_vol_name() is None,
            r.path == path,
            r.encrypted is None,
            r.size_gb is None,
    {
        Mount { encrypted: None, path, size_gb: None, volume: Some(vol_id), name: None }
    }

    /// A mount of the volume named `vol_name` at `path`.
    pub fn from_vol_name(vol_name: String, path: String) -> (r: Mount)
        ensures
            r.spec_vol_name() == Some(vol_name@),
            r.spec_vol_id() is None,
            r.path == path,
            r.encrypted is None,
            r.size_gb is None,
    {
        Mount { encrypted: None, path, size_gb: None, volume: None, name: Some(vol_name) }
    }

    pub fn vol_id(&self) -> (r: Option<&String>)
        ensures
            match r {
                Some(v) => self.spec_vol_id() == Some(v@),
                None => self.spec_vol_id() is None,
            },
    {
        self.volume.as_ref()
    }

    pub fn vol_name(&self) -> (r: Option<&String>)
        ensures
            match r {
                Some(v) => self.spec_vol_name() == Some(v@),
                None => self.spec_vol_name() is None,
            },
    {
        self.name.as_ref()
    }
}

/// Restart behaviour of the machine.
#[derive(Debug, Clone, Copy, PartialEq, Eq, Structural, Hash)]
pub enum RestartPolicy {
    No,
    OnFailure,
    Always,
}

#[derive(Debug, Clone, Hash)]
pub struct Restart {
    pub policy: Option<RestartPolicy>,
    pub max_retries: i32,
}

/// A health check against the machine.
#[derive(Debug, Clone, Hash)]
pub struct Check {
    pub port: Option<i32>,
    pub type_: Option<String>,
    pub interval: Option<FlyctlDuration>,
    pub timeout: Option<FlyctlDuration>,
    pub grace_period: Option<FlyctlDuration>,
    pub http_method: Option<String>,
    pub http_path: Option<String>,
    pub http_protocol: Option<String>,
    pub http_skip_tls_verify: Option<bool>,
    pub http_headers: Vec<HttpHeader>,
}

#[derive(Debug, Clone, Hash)]
pub struct HttpHeader {
    pub name: String,
    pub value: Vec<String>,
}

#[derive(Debug, Clone, Hash)]
pub struct Metrics {
    pub port: i32,
    pub path: String,
}

#[derive(Debug, Clone, Hash)]
pub struct Static {
    pub guest_path: String,
    pub url_prefix: String,
}

#[derive(Debug, Clone, Hash)]
pub struct DNSConfig {
    pub skip_registration: bool,
}

/// A process run in the machine besides the init defaults.
#[derive(Debug, Clone, Hash)]
pub struct Process {
    pub exec_override: Vec<String>,
    pub entrypoint_override: Vec<String>,
    pub cmd_override: Vec<String>,
    pub user_override: String,
    pub extra_env: StringMap,
}

#[derive(Debug, Clone, Hash)]
pub struct StopConfig {
    pub timeout: Option<FlyctlDuration>,
    pub signal: Option<String>,
}

#[derive(Debug, Clone, Hash)]
pub struct TlsOptions {
    pub alpn: Vec<String>,
    pub versions: Vec<String>,
    pub default_self_signed: Option<bool>,
}

/// Extra response headers; each value is carried as its raw JSON text.
#[derive(Debug, Clone, Hash)]
pub struct HttpResponseOptions {
    pub headers: StringMap,
}

#[derive(Debug, Clone, Hash)]
pub struct HttpOptions {
    pub compress: Option<bool>,
    pub response: Option<HttpResponseOptions>,
}

#[derive(Debug, Clone, Hash)]
pub struct ProxyProtoOptions {
    pub version: String,
}

/// A port exposed by a service.
#[derive(Debug, Clone, Hash)]
pub struct Port {
    pub port: Option<u16>,
    pub start_port: Option<u16>,
    pub end_port: Option<u16>,
    pub handlers: Vec<String>,
    pub force_https: bool,
    pub tls_options: Option<TlsOptions>,
    pub http_options: Option<HttpOptions>,
    pub proxy_proto_options: Option<ProxyProtoOptions>,
}

#[derive(Debug, Clone, Hash)]
pub struct ServiceConcurrency {
    pub type_: String,
    pub hard_limit: i32,
    pub soft_limit: i32,
}

/// A network service exposed by the machine.
#[derive(Debug, Clone, Hash)]
pub struct Service {
    pub protocol: String,
    pub internal_port: i32,
    pub autostop: Option<bool>,
    pub autostart: Option<bool>,
    pub min_machines_running: Option<i32>,
    pub ports: Vec<Port>,
    pub checks: Vec<Check>,
    pub concurrency: Option<ServiceConcurrency>,
}

/// The full specification of a machine.
#[derive(Debug, Clone, Hash)]
pub struct Config {
    pub env: Option<StringMap>,
    pub init: Option<Init>,
    pub metadata: Option<StringMap>,
    pub mounts: Vec<Mount>,
    pub services: Vec<Service>,
    pub metrics: Option<Metrics>,
    pub checks: Option<Vec<(String, Check)>>,
    pub statics: Vec<Static>,
    pub image: String,
    pub schedule: Option<String>,
    pub auto_destroy: bool,
    pub restart: Restart,
    pub guest: Option<Guest>,
    pub dns: Option<DNSConfig>,
    pub processes: Vec<Process>,
    pub standbys: Vec<String>,
    pub stop_config: Option<StopConfig>,
}

} // verus!
