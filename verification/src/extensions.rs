//! Extensions: manifests, which runtime runs them, the sandbox policy, and
//! the registry of loaded extensions.

use vstd::prelude::*;
use vstd::string::*;
use crate::env::{spec_env_bool, spec_env_number, spec_env_string, env_bool_or, env_number_or, env_string_or, Env};
use crate::json::{members_view, Json, JsonValue};
use crate::text::{chars_of, ends_with, is_suffix, split_chars, split_on, str_eq, string_of, trim, trim_str, views};
use crate::search::{last_where, lemma_last_where_found, lemma_last_where_none, lemma_last_where_push};

verus! {

/// Errors of loading or running an extension.
#[derive(Debug, Clone)]
pub enum ExtensionError {
    NotFound(String),
    LoadFailed(String),
    ExecutionFailed(String),
    InvalidManifest(String),
    SandboxViolation(String),
    RuntimeError(String),
}

/// The message of an extension error.
pub open spec fn spec_extension_error_message(e: ExtensionError) -> Seq<char> {
    match e {
        ExtensionError::NotFound(m) => "Extension not found: "@ + m@,
        ExtensionError::LoadFailed(m) => "Failed to load extension: "@ + m@,
        ExtensionError::ExecutionFailed(m) => "Extension execution failed: "@ + m@,
        ExtensionError::InvalidManifest(m) => "Invalid extension manifest: "@ + m@,
        ExtensionError::SandboxViolation(m) => "Sandbox violation: "@ + m@,
        ExtensionError::RuntimeError(m) => "Runtime error: "@ + m@,
    }
}

impl ExtensionError {
    /// The message of this error.
    pub fn message(&self) -> (r: String)
        ensures
            r@ == spec_extension_error_message(*self),
    {
        let (prefix, m) = match self {
            ExtensionError::NotFound(m) => ("Extension not found: ", m),
            ExtensionError::LoadFailed(m) => ("Failed to load extension: ", m),
            ExtensionError::ExecutionFailed(m) => ("Extension execution failed: ", m),
            ExtensionError::InvalidManifest(m) => ("Invalid extension manifest: ", m),
            ExtensionError::SandboxViolation(m) => ("Sandbox violation: ", m),
            ExtensionError::RuntimeError(m) => ("Runtime error: ", m),
        };
        let mut r = String::from_str(prefix);
        r.append(m.as_str());
        r
    }
}

/// The kinds of extension.
#[derive(Debug, Clone, Copy, PartialEq, Eq, Structural)]
pub enum ExtensionType {
    Hook,
    Endpoint,
    Display,
    Interface,
    Layout,
    Module,
    Panel,
    Operation,
    Bundle,
}

/// The language an extension is written in.
#[derive(Debug, Clone, Copy, PartialEq, Eq, Structural)]
pub enum ExtensionLanguage {
    Javascript,
    Typescript,
    Rust,
    Go,
    Python,
    Java,
}

/// How an extension is run.
#[derive(Debug, Clone, Copy, PartialEq, Eq, Structural)]
pub enum RuntimeType {
    /// A WebAssembly module (compiled from Rust, Go, Python, Java).
    Wasm,
    /// JavaScript or TypeScript run by Bun.
    Bun,
}

/// An extension's manifest.
#[derive(Debug)]
pub struct ExtensionManifest {
    pub name: String,
    pub extension_type: ExtensionType,
    pub version: String,
    pub description: String,
    pub icon: String,
    pub entrypoint: Option<String>,
    pub language: Option<ExtensionLanguage>,
    pub options: Option<JsonValue>,
    pub path: Option<String>,
    pub enabled: bool,
    pub entries: Vec<ExtensionManifest>,
}

/// The value of `enabled` when a manifest leaves it out.
pub fn default_true() -> (r: bool)
    ensures
        r,
{
    true
}

/// The runtime of an extension: by language when given (WASM for Rust, Go,
/// Python and Java; Bun for JavaScript and TypeScript), else WASM exactly
/// when the entry point ends in `.wasm`.
pub open spec fn spec_runtime(language: Option<ExtensionLanguage>, entrypoint: Option<Seq<char>>) -> RuntimeType {
    match language {
        Some(ExtensionLanguage::Javascript) | Some(ExtensionLanguage::Typescript) => RuntimeType::Bun,
        Some(_) => RuntimeType::Wasm,
        None => match entrypoint {
            Some(e) => if is_suffix(".wasm"@, e) { RuntimeType::Wasm } else { RuntimeType::Bun },
            None => RuntimeType::Bun,
        },
    }
}

/// Decides how an extension is run.
pub fn determine_runtime(manifest: &ExtensionManifest) -> (r: RuntimeType)
    ensures
        r == spec_runtime(manifest.language, match manifest.entrypoint {
            Some(e) => Some(e@),
            None => None,
        }),
{
    match manifest.language {
        Some(ExtensionLanguage::Javascript) | Some(ExtensionLanguage::Typescript) => RuntimeType::Bun,
        Some(_) => RuntimeType::Wasm,
        None => match &manifest.entrypoint {
            Some(e) => {
                let cs = chars_of(e.as_str());
                let ext = chars_of(".wasm");
                if ends_with(&cs, &ext) {
                    RuntimeType::Wasm
                } else {
                    RuntimeType::Bun
                }
            },
            None => RuntimeType::Bun,
        },
    }
}

/// The entry point used when a manifest names none.
pub open spec fn spec_default_entrypoint(runtime: RuntimeType) -> Seq<char> {
    match runtime {
        RuntimeType::Wasm => "extension.wasm"@,
        RuntimeType::Bun => "dist/index.js"@,
    }
}

/// The entry point used when a manifest names none.
pub fn default_entrypoint(runtime: &RuntimeType) -> (r: &'static str)
    ensures
        r@ == spec_default_entrypoint(*runtime),
{
    match runtime {
        RuntimeType::Wasm => "extension.wasm",
        RuntimeType::Bun => "dist/index.js",
    }
}

/// What a hook or endpoint extension is handed: the event, the collection
/// it concerns, the payload, and who caused it.
#[derive(Debug)]
pub struct ExtensionContext {
    pub event: String,
    pub collection: Option<String>,
    pub payload: JsonValue,
    pub accountability: Option<JsonValue>,
}

/// An extension ready to run: its manifest, runtime, directory and the
/// bytes of its entry point (empty when the file is missing).
#[derive(Debug)]
pub struct LoadedExtension {
    pub manifest: ExtensionManifest,
    pub runtime: RuntimeType,
    pub path: String,
    pub source: Vec<u8>,
}

/// The entry point of an extension: the manifest's, else the runtime's default.
pub open spec fn spec_entrypoint(manifest_entry: Option<Seq<char>>, runtime: RuntimeType) -> Seq<char> {
    match manifest_entry {
        Some(e) => e,
        None => spec_default_entrypoint(runtime),
    }
}

/// The entry point file of an extension, relative to its directory.
pub fn entrypoint_of(manifest: &ExtensionManifest, runtime: &RuntimeType) -> (r: String)
    ensures
        r@ == spec_entrypoint(match manifest.entrypoint {
            Some(e) => Some(e@),
            None => None,
        }, *runtime),
{
    match &manifest.entrypoint {
        Some(e) => e.clone(),
        None => String::from_str(default_entrypoint(runtime)),
    }
}

/// The sandbox an extension runs in.
#[derive(Debug)]
pub struct SandboxConfig {
    pub max_execution_time_ms: u64,
    pub max_memory_bytes: u64,
    pub allowed_hosts: Vec<String>,
    pub allow_fs: bool,
    pub allow_env: bool,
    pub max_subprocesses: u32,
}

impl SandboxConfig {
    /// The strict sandbox: 30 s, 128 MiB, no network, files, environment or
    /// subprocesses.
    pub fn default() -> (r: SandboxConfig)
        ensures
            r.max_execution_time_ms == 30000,
            r.max_memory_bytes == 128 * 1024 * 1024,
            r.allowed_hosts@.len() == 0,
            !r.allow_fs,
            !r.allow_env,
            r.max_subprocesses == 0,
    {
        SandboxConfig {
            max_execution_time_ms: 30_000,
            max_memory_bytes: 128 * 1024 * 1024,
            allowed_hosts: Vec::new(),
            allow_fs: false,
            allow_env: false,
            max_subprocesses: 0,
        }
    }

    /// The sandbox for trusted extensions: 120 s, 512 MiB, files,
    /// environment and five subprocesses, still no network.
    pub fn permissive() -> (r: SandboxConfig)
        ensures
            r.max_execution_time_ms == 120000,
            r.max_memory_bytes == 512 * 1024 * 1024,
            r.allowed_hosts@.len() == 0,
            r.allow_fs,
            r.allow_env,
            r.max_subprocesses == 5,
    {
        SandboxConfig {
            max_execution_time_ms: 120_000,
            max_memory_bytes: 512 * 1024 * 1024,
            allowed_hosts: Vec::new(),
            allow_fs: true,
            allow_env: true,
            max_subprocesses: 5,
        }
    }

    /// The sandbox configured by `EXTENSIONS_SANDBOX_*`: timeout, memory,
    /// comma-separated allowed hosts (trimmed, empty ones dropped), file and
    /// environment access, and subprocess count; defaults as the strict one.
    pub fn from_env(env: &Env) -> (r: SandboxConfig)
        ensures
            r.max_execution_time_ms == match spec_env_number(env@, "EXTENSIONS_SANDBOX_TIMEOUT"@) {
                Some(n) => n,
                None => 30000,
            } as u64,
            r.max_memory_bytes == match spec_env_number(env@, "EXTENSIONS_SANDBOX_MEMORY"@) {
                Some(n) => n,
                None => 134217728,
            } as u64,
            views(r.allowed_hosts@) == host_list(match spec_env_string(env@, "EXTENSIONS_SANDBOX_ALLOWED_HOSTS"@) {
                Some(s) => s,
                None => ""@,
            }),
            r.allow_fs == match spec_env_bool(env@, "EXTENSIONS_SANDBOX_ALLOW_FS"@) {
                Some(b) => b,
                None => false,
            },
            r.allow_env == match spec_env_bool(env@, "EXTENSIONS_SANDBOX_ALLOW_ENV"@) {
                Some(b) => b,
                None => false,
            },
            r.max_subprocesses == match spec_env_number(env@, "EXTENSIONS_SANDBOX_MAX_SUBPROCESSES"@) {
                Some(n) => n,
                None => 0,
            } as u32,
    {
        let timeout = env_number_or(env, "EXTENSIONS_SANDBOX_TIMEOUT", 30_000);
        let memory = env_number_or(env, "EXTENSIONS_SANDBOX_MEMORY", 134_217_728);
        let hosts = env_string_or(env, "EXTENSIONS_SANDBOX_ALLOWED_HOSTS", "");
        let allowed = parse_host_list(hosts.as_str());
        let fs = env_bool_or(env, "EXTENSIONS_SANDBOX_ALLOW_FS", false);
        let env_access = env_bool_or(env, "EXTENSIONS_SANDBOX_ALLOW_ENV", false);
        let subprocesses = env_number_or(env, "EXTENSIONS_SANDBOX_MAX_SUBPROCESSES", 0);
        SandboxConfig {
            max_execution_time_ms: timeout as u64,
            max_memory_bytes: memory as u64,
            allowed_hosts: allowed,
            allow_fs: fs,
            allow_env: env_access,
            max_subprocesses: subprocesses as u32,
        }
    }

    /// Allows a network request to `host` only when some host is allowed and
    /// `host` (or `*`) is among them.
    pub fn check_network(&self, host: &str) -> (r: Result<(), ExtensionError>)
        ensures
            views(self.allowed_hosts@).len() == 0 ==> (r matches Err(ExtensionError::SandboxViolation(m)) && m@ == "Network access is not allowed"@),
            views(self.allowed_hosts@).len() > 0 && !views(self.allowed_hosts@).contains(host@) && !views(self.allowed_hosts@).contains("*"@)
                ==> (r matches Err(ExtensionError::SandboxViolation(m)) && m@ == "Host '"@ + host@ + "' is not in the allowed list"@),
            views(self.allowed_hosts@).len() > 0 && (views(self.allowed_hosts@).contains(host@) || views(self.allowed_hosts@).contains("*"@)) ==> r is Ok,
    {
        if self.allowed_hosts.len() == 0 {
            return Err(ExtensionError::SandboxViolation(String::from_str("Network access is not allowed")));
        }
        if !contains_string(&self.allowed_hosts, host) && !contains_string(&self.allowed_hosts, "*") {
            let mut m = String::from_str("Host '");
            m.append(host);
            m.append("' is not in the allowed list");
            return Err(ExtensionError::SandboxViolation(m));
        }
        Ok(())
    }
}

/// Whether `s` is one of `v`.
fn contains_string(v: &Vec<String>, s: &str) -> (r: bool)
    ensures
        r == views(v@).contains(s@),
{
    let ghost vv = views(v@);
    let mut i: usize = 0;
    while i < v.len()
        invariant
            vv == views(v@),
            i <= v@.len(),
            forall|j: int| 0 <= j < i ==> #[trigger] vv[j] != s@,
        decreases v@.len() - i,
    {
        if str_eq(v[i].as_str(), s) {
            assert(vv[i as int] == s@);
            return true;
        }
        i = i + 1;
    }
    false
}

/// The non-empty trimmed pieces of a list of words.
pub open spec fn nonempty_pieces(pieces: Seq<Seq<char>>) -> Seq<Seq<char>>
    decreases pieces.len(),
{
    if pieces.len() == 0 {
        seq![]
    } else {
        let r = nonempty_pieces(pieces.drop_last());
        let t = trim(pieces.last());
        if t.len() > 0 { r.push(t) } else { r }
    }
}

/// The hosts of a comma-separated list: trimmed, empty ones dropped.
pub open spec fn host_list(s: Seq<char>) -> Seq<Seq<char>> {
    nonempty_pieces(split_on(s, ','))
}

/// Reads a comma-separated host list.
pub fn parse_host_list(s: &str) -> (r: Vec<String>)
    ensures
        views(r@) == host_list(s@),
{
    let cs = chars_of(s);
    let pieces = split_chars(&cs, ',');
    let ghost pv = split_on(s@, ',');
    let mut r: Vec<String> = Vec::new();
    let mut i: usize = 0;
    assert(pv.take(0) =~= Seq::<Seq<char>>::empty());
    assert(views(r@) =~= Seq::<Seq<char>>::empty());
    while i < pieces.len()
        invariant
            pv == split_on(s@, ','),
            pieces@.len() == pv.len(),
            forall|k: int| 0 <= k < pieces@.len() ==> #[trigger] pieces@[k]@ == pv[k],
            i <= pieces@.len(),
            views(r@) == nonempty_pieces(pv.take(i as int)),
        decreases pieces@.len() - i,
    {
        proof {
            assert(pv.take(i as int + 1).drop_last() =~= pv.take(i as int));
            assert(pv.take(i as int + 1).last() == pv[i as int]);
        }
        let piece = string_of(&pieces[i]);
        let t = trim_str(piece.as_str());
        if !t.is_empty() {
            let st = String::from_str(t);
            proof {
                assert(views(r@.push(st)) =~= views(r@).push(st@));
            }
            r.push(st);
        }
        i = i + 1;
    }
    assert(pv.take(pieces@.len() as int) =~= pv);
    r
}

/// Runs JavaScript and TypeScript extensions with Bun.
#[derive(Debug)]
pub struct BunRuntime {
    pub bun_path: String,
}

impl BunRuntime {
    /// A runtime using the Bun executable configured as
    /// `EXTENSIONS_BUN_PATH` (`bun` by default).
    pub fn new(env: &Env) -> (r: BunRuntime)
        ensures
            r.bun_path@ == match spec_env_string(env@, "EXTENSIONS_BUN_PATH"@) {
                Some(s) => s,
                None => "bun"@,
            },
    {
        BunRuntime { bun_path: env_string_or(env, "EXTENSIONS_BUN_PATH", "bun") }
    }

    /// The script Bun evaluates: it imports the extension, reads the context
    /// from standard input, calls the handler and prints its JSON result.
    pub fn wrapper_script(&self, script_path: &str) -> (r: String)
        ensures
            r@ == "\n            const ext = await import(\""@ + script_path@ + "\");\n            const context = JSON.parse(await Bun.stdin.text());\n            const handler = ext.default || ext.handler || ext;\n            let result;\n            if (typeof handler === 'function') {\n                result = await handler(context);\n            } else if (typeof handler.handle === 'function') {\n                result = await handler.handle(context);\n            } else {\n                result = context.payload;\n            }\n            console.log(JSON.stringify(result ?? context.payload));\n            "@,
    {
        let mut s = String::from_str("\n            const ext = await import(\"");
        s.append(script_path);
        s.append("\");\n            const context = JSON.parse(await Bun.stdin.text());\n            const handler = ext.default || ext.handler || ext;\n            let result;\n            if (typeof handler === 'function') {\n                result = await handler(context);\n            } else if (typeof handler.handle === 'function') {\n                result = await handler.handle(context);\n            } else {\n                result = context.payload;\n            }\n            console.log(JSON.stringify(result ?? context.payload));\n            ");
        s
    }
}

/// Mathematical view of a manifest.
pub struct ManifestSpec {
    pub name: Seq<char>,
    pub extension_type: ExtensionType,
    pub version: Seq<char>,
    pub description: Seq<char>,
    pub icon: Seq<char>,
    pub entrypoint: Option<Seq<char>>,
    pub language: Option<ExtensionLanguage>,
    pub options: Option<Json>,
    pub path: Option<Seq<char>>,
    pub enabled: bool,
    pub entries: Seq<ManifestSpec>,
}

impl ExtensionManifest {
    pub open spec fn view(&self) -> ManifestSpec
        decreases self,
    {
        ManifestSpec {
            name: self.name@,
            extension_type: self.extension_type,
            version: self.version@,
            description: self.description@,
            icon: self.icon@,
            entrypoint: opt_str_view(self.entrypoint),
            language: self.language,
            options: match self.options {
                Some(v) => Some(v@),
                None => None,
            },
            path: opt_str_view(self.path),
            enabled: self.enabled,
            entries: Seq::new(self.entries.len() as nat, |i: int| if 0 <= i < self.entries.len() { self.entries[i].view() } else { arbitrary() }),
        }
    }

    /// A deep copy of this manifest.
    pub fn copy(&self) -> (r: ExtensionManifest)
        ensures
            r.view() == self.view(),
        decreases self,
    {
        let mut entries: Vec<ExtensionManifest> = Vec::new();
        let mut i: usize = 0;
        while i < self.entries.len()
            invariant
                i <= self.entries@.len(),
                entries@.len() == i,
                forall|k: int| 0 <= k < i ==> #[trigger] entries@[k].view() == self.entries@[k].view(),
                forall|k: int| 0 <= k < self.entries@.len() ==> decreases_to!(*self => self.entries@[k]),
            decreases self.entries@.len() - i,
        {
            entries.push(self.entries[i].copy());
            i = i + 1;
        }
        let r = ExtensionManifest {
            name: self.name.clone(),
            extension_type: self.extension_type,
            version: self.version.clone(),
            description: self.description.clone(),
            icon: self.icon.clone(),
            entrypoint: match &self.entrypoint {
                Some(e) => Some(e.clone()),
                None => None,
            },
            language: self.language,
            options: match &self.options {
                Some(v) => Some(v.copy()),
                None => None,
            },
            path: match &self.path {
                Some(x) => Some(x.clone()),
                None => None,
            },
            enabled: self.enabled,
            entries: entries,
        };
        assert forall|k: int| 0 <= k < self.entries@.len() implies r.view().entries[k] == self.view().entries[k] by {
            assert(entries@[k].view() == self.entries@[k].view());
        }
        assert(r.view().entries =~= self.view().entries);
        r
    }
}

/// View of an optional string.
pub open spec fn opt_str_view(o: Option<String>) -> Option<Seq<char>> {
    match o {
        Some(s) => Some(s@),
        None => None,
    }
}

/// Views of a list of manifests.
pub open spec fn manifest_views(v: Seq<ExtensionManifest>) -> Seq<ManifestSpec> {
    Seq::new(v.len(), |i: int| v[i].view())
}

/// What the registry keeps of a loaded extension: its manifest and runtime.
pub open spec fn entry_of(e: LoadedExtension) -> (ManifestSpec, RuntimeType) {
    (e.manifest.view(), e.runtime)
}

/// Whether no name occurs twice.
pub open spec fn distinct_names(n: Seq<Seq<char>>) -> bool {
    forall|i: int, j: int| 0 <= i < j < n.len() ==> n[i] != n[j]
}

/// The names held after loading `ls` into a registry holding `ns`: a new
/// name is added at the end, a name already held keeps its place.
pub open spec fn load_names(ns: Seq<Seq<char>>, ls: Seq<Seq<char>>) -> Seq<Seq<char>>
    decreases ls.len(),
{
    if ls.len() == 0 {
        ns
    } else {
        let p = load_names(ns, ls.drop_last());
        if p.contains(ls.last()) { p } else { p.push(ls.last()) }
    }
}

/// The names of a list of loaded extensions.
pub open spec fn loaded_names(v: Seq<LoadedExtension>) -> Seq<Seq<char>> {
    Seq::new(v.len(), |i: int| v[i].manifest.name@)
}

/// The loaded extensions, one per name: loading an extension under a name
/// already held replaces the one held.
pub struct ExtensionManager {
    extensions: Vec<LoadedExtension>,
}

/// The extension is named `name`.
pub open spec fn ext_name_pred(name: Seq<char>) -> spec_fn(Seq<char>) -> bool {
    |n: Seq<char>| n == name
}

impl ExtensionManager {
    /// Names of the loaded extensions, in the order they were first loaded.
    pub closed spec fn names(&self) -> Seq<Seq<char>> {
        loaded_names(self.extensions@)
    }

    /// What is held under each name, in the same order.
    pub closed spec fn entries(&self) -> Seq<(ManifestSpec, RuntimeType)> {
        Seq::new(self.extensions@.len(), |i: int| entry_of(self.extensions@[i]))
    }

    /// No name is held twice.
    pub closed spec fn wf(&self) -> bool {
        distinct_names(self.names())
    }

    /// A manager with nothing loaded.
    pub fn new() -> (r: ExtensionManager)
        ensures
            r.wf(),
            r.names().len() == 0,
    {
        let r = ExtensionManager { extensions: Vec::new() };
        assert(r.names() =~= Seq::<Seq<char>>::empty());
        r
    }

    /// Adds discovered extensions and returns their names, in order. An
    /// extension whose name is already held replaces the one held (the last
    /// of several with one name stays).
    pub fn load_all(&mut self, loaded: Vec<LoadedExtension>) -> (r: Vec<String>)
        requires
            old(self).wf(),
        ensures
            final(self).wf(),
            views(r@) == loaded_names(loaded@),
            final(self).names() == load_names(old(self).names(), loaded_names(loaded@)),
            final(self).entries().len() == final(self).names().len(),
            forall|k: int| 0 <= k < final(self).names().len() ==> #[trigger] final(self).entries()[k] == (
                match last_where(loaded_names(loaded@), ext_name_pred(final(self).names()[k])) {
                    Some(j) => entry_of(loaded@[j]),
                    None => old(self).entries()[k],
                }),
    {
        let ghost old_names = self.names();
        let ghost old_entries = self.entries();
        let ghost ln = loaded_names(loaded@);
        let ghost all = loaded@;
        let mut names: Vec<String> = Vec::new();
        let mut rest = loaded;
        let n = rest.len();
        let mut i: usize = 0;
        assert(rest@ =~= all.skip(0));
        assert(views(names@) =~= ln.take(0));
        assert(ln.take(0) =~= Seq::<Seq<char>>::empty());
        while i < n
            invariant
                n == all.len(),
                ln == loaded_names(all),
                i <= n,
                rest@ == all.skip(i as int),
                views(names@) == ln.take(i as int),
                distinct_names(self.names()),
                self.names() == load_names(old_names, ln.take(i as int)),
                old_names.len() <= self.names().len(),
                old_entries.len() == old_names.len(),
                forall|k: int| 0 <= k < self.names().len() ==> #[trigger] self.entries()[k] == (
                    match last_where(ln.take(i as int), ext_name_pred(self.names()[k])) {
                        Some(j) => entry_of(all[j]),
                        None => old_entries[k],
                    }),
            decreases n - i,
        {
            let ext = rest.remove(0);
            proof {
                assert(ext == all[i as int]);
                assert(rest@ =~= all.skip(i as int + 1));
                assert(ln.take(i as int + 1).drop_last() =~= ln.take(i as int));
                assert(ln.take(i as int + 1).last() == ext.manifest.name@);
            }
            let ghost t0 = ln.take(i as int);
            let ghost t1 = ln.take(i as int + 1);
            let ghost nm = ext.manifest.name@;
            let ghost ev = entry_of(ext);
            let ghost names0 = self.names();
            let ghost entries0 = self.entries();
            proof {
                assert forall|x: Seq<char>| #[trigger] last_where(t1, ext_name_pred(x)) == (if x == nm { Some(i as int) } else { last_where(t0, ext_name_pred(x)) }) by {
                    lemma_last_where_push(t0, nm, ext_name_pred(x));
                    assert(t0.push(nm) =~= t1);
                }
            }
            names.push(ext.manifest.name.clone());
            let mut p: usize = 0;
            while p < self.extensions.len()
                invariant
                    names0 == self.names(),
                    names0 == loaded_names(self.extensions@),
                    nm == ext.manifest.name@,
                    p <= self.extensions@.len(),
                    forall|q: int| 0 <= q < p ==> #[trigger] names0[q] != nm,
                ensures
                    p <= self.extensions@.len(),
                    forall|q: int| 0 <= q < p ==> #[trigger] names0[q] != nm,
                    p < self.extensions@.len() ==> names0[p as int] == nm,
                decreases self.extensions@.len() - p,
            {
                assert(names0[p as int] == self.extensions@[p as int].manifest.name@);
                if str_eq(self.extensions[p].manifest.name.as_str(), ext.manifest.name.as_str()) {
                    break;
                }
                p = p + 1;
            }
            if p < self.extensions.len() {
                self.extensions.set(p, ext);
                proof {
                    assert(self.names() =~= names0);
                    assert(!names0.contains(nm) == false) by {
                        assert(names0[p as int] == nm);
                    }
                    assert forall|k: int| 0 <= k < self.names().len() implies #[trigger] self.entries()[k] == (
                        match last_where(t1, ext_name_pred(self.names()[k])) {
                            Some(j) => entry_of(all[j]),
                            None => old_entries[k],
                        }) by {
                        if k == p as int {
                            assert(self.entries()[k] == ev);
                        } else {
                            assert(self.entries()[k] == entries0[k]);
                            assert(names0[k] != nm);
                        }
                    }
                }
            } else {
                self.extensions.push(ext);
                proof {
                    assert(!names0.contains(nm)) by {
                        if names0.contains(nm) {
                            let q = choose|q: int| 0 <= q < names0.len() && names0[q] == nm;
                            assert(names0[q] != nm);
                        }
                    }
                    assert(self.names() =~= names0.push(nm));
                    assert forall|k: int| 0 <= k < self.names().len() implies #[trigger] self.entries()[k] == (
                        match last_where(t1, ext_name_pred(self.names()[k])) {
                            Some(j) => entry_of(all[j]),
                            None => old_entries[k],
                        }) by {
                        if k == names0.len() as int {
                            assert(self.entries()[k] == ev);
                        } else {
                            assert(self.entries()[k] == entries0[k]);
                            assert(names0[k] != nm);
                        }
                    }
                }
            }
            proof {
                assert(views(names@) =~= t1);
            }
            i = i + 1;
        }
        assert(ln.take(n as int) =~= ln);
        assert(all.skip(0) =~= all);
        names
    }

    /// The loaded extension named `name`, if one is held.
    pub fn get(&self, name: &str) -> (r: Option<&LoadedExtension>)
        ensures
            match r {
                Some(e) => last_where(self.names(), ext_name_pred(name@)) matches Some(k) && e.manifest.name@ == name@
                    && entry_of(*e) == self.entries()[k],
                None => last_where(self.names(), ext_name_pred(name@)) is None,
            },
    {
        let ghost nv = self.names();
        let mut i: usize = self.extensions.len();
        while i > 0
            invariant
                nv == self.names(),
                i <= self.extensions@.len(),
                forall|j: int| i <= j < nv.len() ==> !ext_name_pred(name@)(#[trigger] nv[j]),
            decreases i,
        {
            i = i - 1;
            if str_eq(self.extensions[i].manifest.name.as_str(), name) {
                proof {
                    lemma_last_where_found(nv, ext_name_pred(name@), i as int);
                }
                return Some(&self.extensions[i]);
            }
        }
        proof {
            lemma_last_where_none(nv, ext_name_pred(name@));
        }
        None
    }

    /// The manifests of the loaded extensions, in the order their names
    /// were first loaded.
    pub fn list(&self) -> (r: Vec<ExtensionManifest>)
        ensures
            r@.len() == self.entries().len(),
            forall|k: int| 0 <= k < r@.len() ==> #[trigger] r@[k].view() == self.entries()[k].0,
    {
        let mut r: Vec<ExtensionManifest> = Vec::new();
        let mut i: usize = 0;
        while i < self.extensions.len()
            invariant
                i <= self.extensions@.len(),
                r@.len() == i,
                forall|k: int| 0 <= k < i ==> #[trigger] r@[k].view() == self.entries()[k].0,
            decreases self.extensions@.len() - i,
        {
            r.push(self.extensions[i].manifest.copy());
            i = i + 1;
        }
        r
    }

    /// The runtime that runs hook `name`; an unknown extension is `NotFound`.
    pub fn hook_runtime(&self, name: &str) -> (r: Result<RuntimeType, ExtensionError>)
        ensures
            match last_where(self.names(), ext_name_pred(name@)) {
                Some(k) => r == Ok::<RuntimeType, ExtensionError>(self.entries()[k].1),
                None => r matches Err(ExtensionError::NotFound(m)) && m@ == name@,
            },
    {
        match self.get(name) {
            Some(e) => Ok(e.runtime),
            None => Err(ExtensionError::NotFound(String::from_str(name))),
        }
    }

    /// Names of the loaded endpoint extensions (those that add API routes), in order.
    pub fn get_api_extensions(&self) -> (r: Vec<String>)
        ensures
            views(r@) == endpoint_names(self.names(), Seq::new(self.entries().len(), |i: int| self.entries()[i].0.extension_type)),
    {
        let ghost nv = self.names();
        let ghost tv = Seq::new(self.entries().len(), |i: int| self.entries()[i].0.extension_type);
        let mut r: Vec<String> = Vec::new();
        let mut i: usize = 0;
        assert(nv.take(0) =~= Seq::<Seq<char>>::empty());
        assert(views(r@) =~= Seq::<Seq<char>>::empty());
        while i < self.extensions.len()
            invariant
                nv == self.names(),
                tv == Seq::new(self.entries().len(), |i: int| self.entries()[i].0.extension_type),
                i <= self.extensions@.len(),
                views(r@) == endpoint_names(nv.take(i as int), tv.take(i as int)),
            decreases self.extensions@.len() - i,
        {
            proof {
                assert(nv.take(i as int + 1).drop_last() =~= nv.take(i as int));
                assert(tv.take(i as int + 1).drop_last() =~= tv.take(i as int));
            }
            if self.extensions[i].manifest.extension_type == ExtensionType::Endpoint {
                let ghost rv = r@;
                r.push(self.extensions[i].manifest.name.clone());
                assert(views(r@) =~= views(rv).push(nv[i as int]));
            }
            i = i + 1;
        }
        assert(nv.take(nv.len() as int) =~= nv);
        assert(tv.take(tv.len() as int) =~= tv);
        r
    }
}

/// Names whose type is `Endpoint`, in order.
pub open spec fn endpoint_names(names: Seq<Seq<char>>, types: Seq<ExtensionType>) -> Seq<Seq<char>>
    decreases names.len(),
{
    if names.len() == 0 || types.len() != names.len() {
        seq![]
    } else {
        let r = endpoint_names(names.drop_last(), types.drop_last());
        if types.last() == ExtensionType::Endpoint { r.push(names.last()) } else { r }
    }
}

} // verus!
