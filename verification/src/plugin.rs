//! Plugin declarations: metadata, sources, lifecycle events and actions,
//! errors, the backends built from a definition, and the reading of a
//! plugin's output.

use vstd::prelude::*;
use vstd::utf8::{decode_utf8, valid_utf8};
use crate::text::{concat_str, decimal_string, decimal_seq, ends_with_char, is_blank, starts_with, trim, trim_seq};

verus! {

/// Result alias for plugin operations.
pub type PluginResult<T> = Result<T, PluginError>;

/// Supported plugin execution backends.
#[derive(Clone, Copy, Debug, PartialEq, Eq, Structural)]
pub enum PluginBackendKind {
    /// Native plugin run as an executable.
    Rust,
    /// WASM module run by a runtime binary.
    Wasm,
    /// HTTP endpoint plugin.
    Http,
}

/// Plugin metadata.
#[derive(Debug, PartialEq, Eq)]
pub struct PluginMetadata {
    /// Plugin unique name.
    pub name: String,
    /// Plugin version.
    pub version: String,
    /// Optional short description.
    pub description: Option<String>,
    /// Optional maintainer contact.
    pub author: Option<String>,
}

fn clone_opt_string(s: &Option<String>) -> (r: Option<String>)
    ensures
        r == *s,
{
    match s {
        Some(v) => Some(v.clone()),
        None => None,
    }
}

impl Clone for PluginMetadata {
    fn clone(&self) -> (r: Self)
        ensures
            r == *self,
    {
        PluginMetadata {
            name: self.name.clone(),
            version: self.version.clone(),
            description: clone_opt_string(&self.description),
            author: clone_opt_string(&self.author),
        }
    }
}

impl PluginMetadata {
    /// Metadata with a name and version and nothing else.
    pub fn new(name: &str, version: &str) -> (r: Self)
        ensures
            r.name@ == name@,
            r.version@ == version@,
            r.description is None,
            r.author is None,
    {
        PluginMetadata {
            name: String::from_str(name),
            version: String::from_str(version),
            description: None,
            author: None,
        }
    }
}

/// Plugin lifecycle events handed to backends.
#[derive(Clone, Debug, PartialEq, Eq)]
pub enum PluginEvent {
    /// The plugin is loading.
    Load,
    /// The plugin is unloading.
    Unload,
    /// A message from the protocol layer.
    Message {
        /// Event payload, as JSON text.
        payload: String,
        /// Optional message source.
        source: Option<String>,
    },
    /// Health check.
    HealthCheck,
}

/// Actions a plugin can answer with.
#[derive(Clone, Debug, PartialEq, Eq)]
pub enum PluginAction {
    /// Handled; nothing to emit.
    Continue,
    /// Emit a payload.
    Emit {
        /// Plugin-generated payload, as JSON text.
        payload: String,
    },
    /// The plugin asks to stop.
    Stop,
}

/// Where a plugin comes from.
#[derive(Clone, Debug, PartialEq, Eq)]
pub enum PluginSource {
    /// Native adapter process.
    Rust {
        /// Executable path.
        executable: String,
        /// Extra arguments for each invocation.
        args: Vec<String>,
        /// Timeout in milliseconds.
        timeout_ms: u64,
    },
    /// WASM module executed by a runtime.
    Wasm {
        /// Module path.
        module: String,
        /// Exported entry point.
        entrypoint: String,
        /// Timeout in milliseconds.
        timeout_ms: u64,
    },
    /// Remote HTTP endpoint.
    Http {
        /// Endpoint base URL.
        endpoint: String,
        /// Timeout in milliseconds.
        timeout_ms: u64,
    },
}

/// The backend kind a source gives.
pub open spec fn source_kind(s: PluginSource) -> PluginBackendKind {
    match s {
        PluginSource::Rust { .. } => PluginBackendKind::Rust,
        PluginSource::Wasm { .. } => PluginBackendKind::Wasm,
        PluginSource::Http { .. } => PluginBackendKind::Http,
    }
}

impl PluginSource {
    /// The entry point a WASM source uses when none is given.
    pub fn default_wasm_entrypoint() -> (r: String)
        ensures
            r@ == "handle_event"@,
    {
        String::from_str("handle_event")
    }

    /// The backend kind this source gives.
    pub fn kind(&self) -> (r: PluginBackendKind)
        ensures
            r == source_kind(*self),
    {
        match self {
            PluginSource::Rust { .. } => PluginBackendKind::Rust,
            PluginSource::Wasm { .. } => PluginBackendKind::Wasm,
            PluginSource::Http { .. } => PluginBackendKind::Http,
        }
    }
}

/// A plugin registration.
#[derive(Clone, Debug, PartialEq, Eq)]
pub struct PluginDefinition {
    /// Plugin metadata.
    pub metadata: PluginMetadata,
    /// Backend source.
    pub source: PluginSource,
    /// Whether the plugin may be loaded.
    pub enabled: bool,
}

impl PluginDefinition {
    /// An enabled definition.
    pub fn new(metadata: PluginMetadata, source: PluginSource) -> (r: Self)
        ensures
            r.metadata == metadata,
            r.source == source,
            r.enabled,
    {
        PluginDefinition { metadata, source, enabled: true }
    }

    /// Whether a definition that does not say is enabled.
    pub fn default_enabled() -> (r: bool)
        ensures
            r,
    {
        true
    }
}

/// Plugin loading and dispatch errors.
#[derive(Clone, Debug, PartialEq, Eq)]
pub enum PluginError {
    /// A plugin of that name is loaded.
    AlreadyLoaded { name: String },
    /// The metadata name is blank.
    EmptyName,
    /// The definition is disabled.
    Disabled { name: String },
    /// I/O failure.
    Io(String),
    /// JSON encoding failure.
    Serialize(String),
    /// JSON decoding failure.
    Deserialize(String),
    /// Output was not UTF-8.
    InvalidUtf8(String),
    /// The runtime or executable is unavailable.
    RuntimeUnavailable(String),
    /// The plugin did not answer in time.
    Timeout { timeout_ms: u64 },
    /// No plugin of that name is loaded.
    NotFound { name: String },
    /// Transport failure.
    Transport(String),
}

/// The human-readable text of a plugin error.
pub open spec fn plugin_error_text(e: PluginError) -> Seq<char> {
    match e {
        PluginError::AlreadyLoaded { name } => "plugin already loaded: "@ + name@,
        PluginError::EmptyName => "plugin name cannot be empty"@,
        PluginError::Disabled { name } => "plugin disabled: "@ + name@,
        PluginError::Io(m) => "io failure: "@ + m@,
        PluginError::Serialize(m) => "json failure: "@ + m@,
        PluginError::Deserialize(m) => "json decode failure: "@ + m@,
        PluginError::InvalidUtf8(m) => "invalid utf-8: "@ + m@,
        PluginError::RuntimeUnavailable(m) => "plugin runtime unavailable: "@ + m@,
        PluginError::Timeout { timeout_ms } => "plugin action timeout after "@ + decimal_seq(
            timeout_ms as nat,
        ) + "ms"@,
        PluginError::NotFound { name } => "plugin not found: "@ + name@,
        PluginError::Transport(m) => "plugin transport failure: "@ + m@,
    }
}

impl PluginError {
    /// The human-readable text of this error.
    pub fn to_message_string(&self) -> (r: String)
        ensures
            r@ == plugin_error_text(*self),
    {
        match self {
            PluginError::AlreadyLoaded { name } => concat_str(
                "plugin already loaded: ",
                name.as_str(),
            ),
            PluginError::EmptyName => String::from_str("plugin name cannot be empty"),
            PluginError::Disabled { name } => concat_str("plugin disabled: ", name.as_str()),
            PluginError::Io(m) => concat_str("io failure: ", m.as_str()),
            PluginError::Serialize(m) => concat_str("json failure: ", m.as_str()),
            PluginError::Deserialize(m) => concat_str("json decode failure: ", m.as_str()),
            PluginError::InvalidUtf8(m) => concat_str("invalid utf-8: ", m.as_str()),
            PluginError::RuntimeUnavailable(m) => concat_str(
                "plugin runtime unavailable: ",
                m.as_str(),
            ),
            PluginError::Timeout { timeout_ms } => {
                let mut r = String::from_str("plugin action timeout after ");
                r.append(decimal_string(*timeout_ms).as_str());
                r.append("ms");
                r
            },
            PluginError::NotFound { name } => concat_str("plugin not found: ", name.as_str()),
            PluginError::Transport(m) => concat_str("plugin transport failure: ", m.as_str()),
        }
    }
}

/// Whether a file-system path names an existing entry (`Path::exists`).
/// The answer depends on the disk, so nothing is stated of it.
#[verifier::external_body]
fn path_exists(path: &str) -> bool {
    std::path::Path::new(path).exists()
}

/// Decodes bytes as UTF-8 (`std::str::from_utf8`).  It succeeds exactly on
/// valid UTF-8 and then gives the decoded characters; on failure it gives
/// the decoder's message, of which nothing is stated.
#[verifier::external_body]
fn utf8_to_string(bytes: &[u8]) -> (r: Result<String, String>)
    ensures
        r is Ok <==> valid_utf8(bytes@),
        r matches Ok(s) ==> s@ == decode_utf8(bytes@),
{
    std::str::from_utf8(bytes).map(|s| s.to_string()).map_err(|e| e.to_string())
}

/// `r` is `Ok`, or the runtime-unavailable error with text `msg`.
pub open spec fn ok_or_unavailable(r: PluginResult<()>, msg: Seq<char>) -> bool {
    r is Ok || (r matches Err(PluginError::RuntimeUnavailable(m)) && m@ == msg)
}

/// A native plugin: an executable run once per lifecycle step.
#[derive(Clone, Debug, PartialEq, Eq)]
pub struct RustPlugin {
    /// Metadata.
    pub metadata: PluginMetadata,
    /// Executable path.
    pub executable: String,
    /// Arguments for each run.
    pub args: Vec<String>,
    /// Timeout in milliseconds.
    pub timeout_ms: u64,
}

impl RustPlugin {
    /// The executable check, given whether the path exists: it passes
    /// exactly when the path exists.
    pub fn path_check(path: &str, exists: bool) -> (r: PluginResult<()>)
        ensures
            exists ==> r is Ok,
            !exists ==> (r matches Err(PluginError::RuntimeUnavailable(m)) && m@
                == "rust plugin executable missing: "@ + path@),
    {
        if exists {
            Ok(())
        } else {
            Err(PluginError::RuntimeUnavailable(concat_str("rust plugin executable missing: ", path)))
        }
    }

    /// Checks that the executable exists.
    pub fn validate_path(path: &str) -> (r: PluginResult<()>)
        ensures
            ok_or_unavailable(r, "rust plugin executable missing: "@ + path@),
    {
        Self::path_check(path, path_exists(path))
    }
}

/// A WASM plugin: a module invoked through the `wasmtime` runtime.
#[derive(Clone, Debug, PartialEq, Eq)]
pub struct WasmPlugin {
    /// Metadata.
    pub metadata: PluginMetadata,
    /// Module path.
    pub module: String,
    /// Exported entry point.
    pub entrypoint: String,
    /// Timeout in milliseconds.
    pub timeout_ms: u64,
}

impl WasmPlugin {
    /// The module check, given whether the path exists: it passes exactly
    /// when the path exists.
    pub fn path_check(path: &str, exists: bool) -> (r: PluginResult<()>)
        ensures
            exists ==> r is Ok,
            !exists ==> (r matches Err(PluginError::RuntimeUnavailable(m)) && m@
                == "wasm module missing: "@ + path@),
    {
        if exists {
            Ok(())
        } else {
            Err(PluginError::RuntimeUnavailable(concat_str("wasm module missing: ", path)))
        }
    }

    /// Checks that the module exists.
    pub fn validate_path(path: &str) -> (r: PluginResult<()>)
        ensures
            ok_or_unavailable(r, "wasm module missing: "@ + path@),
    {
        Self::path_check(path, path_exists(path))
    }
}

/// The URL of a lifecycle step under an endpoint, joined by a `/` unless
/// the endpoint already ends with one.
pub open spec fn http_target(endpoint: Seq<char>, path: Seq<char>) -> Seq<char> {
    if endpoint.len() > 0 && endpoint.last() == '/' {
        endpoint + path
    } else {
        endpoint + "/"@ + path
    }
}

/// A step URL is the endpoint, then one `/`, then the step name: it starts
/// with the endpoint and ends with the step, the character just before the
/// step is `/`, and it adds a `/` to the endpoint exactly when the endpoint
/// does not end with one.
pub proof fn law_http_target_joins_with_one_slash(endpoint: Seq<char>, path: Seq<char>)
    ensures
        ({
            let t = http_target(endpoint, path);
            &&& endpoint.is_prefix_of(t) || endpoint.drop_last().is_prefix_of(t)
            &&& path.is_suffix_of(t)
            &&& t[t.len() - path.len() - 1] == '/'
            &&& (endpoint.len() == 0 || endpoint.last() != '/') ==> t == endpoint + "/"@ + path
            &&& (endpoint.len() > 0 && endpoint.last() == '/') ==> t == endpoint + path
            &&& t.len() == path.len() + (if endpoint.len() > 0 && endpoint.last() == '/' {
                endpoint.len()
            } else {
                endpoint.len() + 1
            })
        }),
{
    reveal_strlit("/");
    let t = http_target(endpoint, path);
    assert(endpoint.is_prefix_of(t)) by {
        assert(t.subrange(0, endpoint.len() as int) =~= endpoint);
    }
    assert(path.is_suffix_of(t)) by {
        assert(t.subrange(t.len() - path.len(), t.len() as int) =~= path);
    }
}

/// An HTTP plugin: each lifecycle step is a POST under its endpoint.
#[derive(Clone, Debug, PartialEq, Eq)]
pub struct HttpPlugin {
    /// Metadata.
    pub metadata: PluginMetadata,
    /// Endpoint base URL.
    pub endpoint: String,
    /// Timeout in milliseconds.
    pub timeout_ms: u64,
}

impl HttpPlugin {
    /// The URL of the `path` step (`load`, `unload` or `event`).
    pub fn target_url(&self, path: &str) -> (r: String)
        ensures
            r@ == http_target(self.endpoint@, path@),
    {
        let mut target = self.endpoint.clone();
        if !ends_with_char(self.endpoint.as_str(), '/') {
            target.append("/");
        }
        target.append(path);
        target
    }
}

/// A plugin ready to run, by backend.
#[derive(Clone, Debug, PartialEq, Eq)]
pub enum PluginBackend {
    /// Native executable.
    Rust(RustPlugin),
    /// WASM module.
    Wasm(WasmPlugin),
    /// HTTP endpoint.
    Http(HttpPlugin),
}

/// The metadata of a backend.
pub open spec fn backend_metadata(b: PluginBackend) -> PluginMetadata {
    match b {
        PluginBackend::Rust(p) => p.metadata,
        PluginBackend::Wasm(p) => p.metadata,
        PluginBackend::Http(p) => p.metadata,
    }
}

/// The name a backend is registered under.
pub open spec fn backend_name(b: PluginBackend) -> Seq<char> {
    backend_metadata(b).name@
}

/// The kind of a backend.
pub open spec fn backend_kind(b: PluginBackend) -> PluginBackendKind {
    match b {
        PluginBackend::Rust(_) => PluginBackendKind::Rust,
        PluginBackend::Wasm(_) => PluginBackendKind::Wasm,
        PluginBackend::Http(_) => PluginBackendKind::Http,
    }
}

/// The backend a definition gives, with its paths still to be checked.
pub open spec fn backend_of(d: PluginDefinition) -> PluginBackend {
    match d.source {
        PluginSource::Rust { executable, args, timeout_ms } => PluginBackend::Rust(
            RustPlugin { metadata: d.metadata, executable, args, timeout_ms },
        ),
        PluginSource::Wasm { module, entrypoint, timeout_ms } => PluginBackend::Wasm(
            WasmPlugin { metadata: d.metadata, module, entrypoint, timeout_ms },
        ),
        PluginSource::Http { endpoint, timeout_ms } => PluginBackend::Http(
            HttpPlugin { metadata: d.metadata, endpoint, timeout_ms },
        ),
    }
}

/// An HTTP plugin endpoint uses `http://` or `https://`.
pub open spec fn http_scheme(endpoint: Seq<char>) -> bool {
    "http://"@.is_prefix_of(endpoint) || "https://"@.is_prefix_of(endpoint)
}

/// What building a definition gives, given whether its executable or
/// module path exists: the backend it describes, unless the path is missing
/// or the HTTP endpoint uses another scheme.
pub open spec fn built_from(d: PluginDefinition, path_exists: bool, r: PluginResult<PluginBackend>) -> bool {
    match d.source {
        PluginSource::Rust { executable, .. } => if path_exists {
            r == Ok::<PluginBackend, PluginError>(backend_of(d))
        } else {
            r matches Err(PluginError::RuntimeUnavailable(m)) && m@
                == "rust plugin executable missing: "@ + executable@
        },
        PluginSource::Wasm { module, .. } => if path_exists {
            r == Ok::<PluginBackend, PluginError>(backend_of(d))
        } else {
            r matches Err(PluginError::RuntimeUnavailable(m)) && m@ == "wasm module missing: "@
                + module@
        },
        PluginSource::Http { endpoint, .. } => if http_scheme(endpoint@) {
            r == Ok::<PluginBackend, PluginError>(backend_of(d))
        } else {
            r matches Err(PluginError::RuntimeUnavailable(m)) && m@
                == "http plugin endpoint must use http:// or https://: "@ + endpoint@
        },
    }
}

impl PluginBackend {
    /// The metadata of this backend.
    pub fn metadata(&self) -> (r: &PluginMetadata)
        ensures
            *r == backend_metadata(*self),
    {
        match self {
            PluginBackend::Rust(p) => &p.metadata,
            PluginBackend::Wasm(p) => &p.metadata,
            PluginBackend::Http(p) => &p.metadata,
        }
    }

    /// The kind of this backend.
    pub fn kind(&self) -> (r: PluginBackendKind)
        ensures
            r == backend_kind(*self),
    {
        match self {
            PluginBackend::Rust(_) => PluginBackendKind::Rust,
            PluginBackend::Wasm(_) => PluginBackendKind::Wasm,
            PluginBackend::Http(_) => PluginBackendKind::Http,
        }
    }

    /// Builds the backend a definition describes, given whether its
    /// executable or module path exists (unused for an HTTP source): a
    /// missing path is reported, and an HTTP endpoint must use `http://` or
    /// `https://`.
    pub fn build(definition: PluginDefinition, path_exists: bool) -> (r: PluginResult<PluginBackend>)
        ensures
            built_from(definition, path_exists, r),
    {
        let metadata = definition.metadata;
        match definition.source {
            PluginSource::Rust { executable, args, timeout_ms } => {
                match RustPlugin::path_check(executable.as_str(), path_exists) {
                    Ok(()) => {},
                    Err(e) => {
                        return Err(e);
                    },
                }
                Ok(PluginBackend::Rust(RustPlugin { metadata, executable, args, timeout_ms }))
            },
            PluginSource::Wasm { module, entrypoint, timeout_ms } => {
                match WasmPlugin::path_check(module.as_str(), path_exists) {
                    Ok(()) => {},
                    Err(e) => {
                        return Err(e);
                    },
                }
                Ok(PluginBackend::Wasm(WasmPlugin { metadata, module, entrypoint, timeout_ms }))
            },
            PluginSource::Http { endpoint, timeout_ms } => {
                if !starts_with(endpoint.as_str(), "http://") && !starts_with(
                    endpoint.as_str(),
                    "https://",
                ) {
                    return Err(
                        PluginError::RuntimeUnavailable(
                            concat_str(
                                "http plugin endpoint must use http:// or https://: ",
                                endpoint.as_str(),
                            ),
                        ),
                    );
                }
                Ok(PluginBackend::Http(HttpPlugin { metadata, endpoint, timeout_ms }))
            },
        }
    }

    /// Builds the backend a definition describes, checking on disk that its
    /// executable or module exists.
    pub fn from_definition(definition: PluginDefinition) -> (r: PluginResult<PluginBackend>)
        ensures
            exists|present: bool| built_from(definition, present, r),
            definition.source is Http ==> built_from(definition, true, r),
    {
        let present = match &definition.source {
            PluginSource::Rust { executable, .. } => path_exists(executable.as_str()),
            PluginSource::Wasm { module, .. } => path_exists(module.as_str()),
            PluginSource::Http { .. } => true,
        };
        let r = Self::build(definition, present);
        assert(built_from(definition, present, r));
        r
    }
}

/// Takes one plugin's answer to a dispatched event: an action is collected
/// under the plugin's name, no action adds nothing, and a failure ends the
/// dispatch with that failure, the actions collected so far kept as they were.
pub fn collect_action(
    actions: &mut Vec<(String, PluginAction)>,
    name: String,
    answer: PluginResult<Option<PluginAction>>,
) -> (r: PluginResult<()>)
    ensures
        answer matches Ok(Some(a)) ==> r is Ok && final(actions)@ == old(actions)@.push((name, a)),
        answer matches Ok(None) ==> r is Ok && final(actions)@ == old(actions)@,
        answer matches Err(e) ==> r == Err::<(), PluginError>(e) && final(actions)@ == old(
            actions,
        )@,
{
    match answer {
        Ok(Some(a)) => {
            actions.push((name, a));
            Ok(())
        },
        Ok(None) => Ok(()),
        Err(e) => Err(e),
    }
}

/// Reads a plugin's output: it must be UTF-8; blank output means no action,
/// otherwise the trimmed text is the action's JSON to decode.
pub fn plugin_output_text(bytes: &[u8]) -> (r: PluginResult<Option<String>>)
    ensures
        !valid_utf8(bytes@) ==> (r matches Err(PluginError::InvalidUtf8(m))
            && "invalid utf8 payload: "@.is_prefix_of(m@)),
        valid_utf8(bytes@) && trim_seq(decode_utf8(bytes@)).len() == 0 ==> r matches Ok(None),
        valid_utf8(bytes@) && trim_seq(decode_utf8(bytes@)).len() != 0 ==> (r matches Ok(Some(t))
            && t@ == trim_seq(decode_utf8(bytes@))),
{
    match utf8_to_string(bytes) {
        Err(e) => {
            let m = concat_str("invalid utf8 payload: ", e.as_str());
            assert("invalid utf8 payload: "@.is_prefix_of(m@)) by {
                assert(m@.subrange(0, "invalid utf8 payload: "@.len() as int) =~= "invalid utf8 payload: "@);
            }
            Err(PluginError::InvalidUtf8(m))
        },
        Ok(body) => {
            let t = trim(body.as_str());
            if t.as_str().unicode_len() == 0 {
                Ok(None)
            } else {
                Ok(Some(t))
            }
        },
    }
}

} // verus!
