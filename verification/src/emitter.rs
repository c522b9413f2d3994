//! How the module emitter and the npm resolver are put together.
//!
//! The parts are caches, clients and resolvers. Each method of [`EmitterFactory`] tells what one
//! part is made of; the parts themselves are made by whoever carries this out.

use std::collections::HashMap;

use vstd::prelude::*;

use crate::text::optional_text;

verus! {

/// The directories that modules are kept in.
pub struct DenoDir {
    /// Where modules that were fetched lie.
    pub deps_folder: String,
    /// Where npm packages lie.
    pub npm_folder: String,
    /// Where emitted code lies.
    pub gen_cache: String,
}

/// When a cache is asked.
#[derive(Clone, Copy, Debug, PartialEq, Eq, Structural)]
pub enum CacheSetting {
    /// What is in the cache is used.
    Use,
    /// Everything is fetched anew.
    ReloadAll,
}

/// A database among the caches.
#[derive(Clone, Copy, Debug, PartialEq, Eq, Structural)]
pub enum CacheDb {
    DepAnalysis,
    NodeAnalysis,
}

/// What code may do while modules are fetched.
#[derive(Clone, Copy, Debug, PartialEq, Eq, Structural)]
pub enum FetchPermissions {
    AllowAll,
}

/// What happens to imports that only import types.
#[derive(Clone, Copy, Debug, PartialEq, Eq, Structural)]
pub enum ImportsNotUsedAsValues {
    Remove,
    Preserve,
    Error,
}

/// How a module is emitted.
pub struct EmitOptions {
    pub emit_metadata: bool,
    pub imports_not_used_as_values: ImportsNotUsedAsValues,
    pub inline_source_map: bool,
    pub inline_sources: bool,
    pub jsx_automatic: bool,
    pub jsx_development: bool,
    pub jsx_factory: String,
    pub jsx_fragment_factory: String,
    pub jsx_import_source: Option<String>,
    pub source_map: bool,
    pub transform_jsx: bool,
    pub var_decl_imports: bool,
}

/// How a module is emitted, with names as text.
pub struct EmitOptionsView {
    pub emit_metadata: bool,
    pub imports_not_used_as_values: ImportsNotUsedAsValues,
    pub inline_source_map: bool,
    pub inline_sources: bool,
    pub jsx_automatic: bool,
    pub jsx_development: bool,
    pub jsx_factory: Seq<char>,
    pub jsx_fragment_factory: Seq<char>,
    pub jsx_import_source: Option<Seq<char>>,
    pub source_map: bool,
    pub transform_jsx: bool,
    pub var_decl_imports: bool,
}

impl View for EmitOptions {
    type V = EmitOptionsView;

    open spec fn view(&self) -> EmitOptionsView {
        EmitOptionsView {
            emit_metadata: self.emit_metadata,
            imports_not_used_as_values: self.imports_not_used_as_values,
            inline_source_map: self.inline_source_map,
            inline_sources: self.inline_sources,
            jsx_automatic: self.jsx_automatic,
            jsx_development: self.jsx_development,
            jsx_factory: self.jsx_factory@,
            jsx_fragment_factory: self.jsx_fragment_factory@,
            jsx_import_source: optional_text(self.jsx_import_source),
            source_map: self.source_map,
            transform_jsx: self.transform_jsx,
            var_decl_imports: self.var_decl_imports,
        }
    }
}

/// How a module is emitted unless something else is asked for.
pub open spec fn default_emit_options() -> EmitOptionsView {
    EmitOptionsView {
        emit_metadata: false,
        imports_not_used_as_values: ImportsNotUsedAsValues::Remove,
        inline_source_map: true,
        inline_sources: true,
        jsx_automatic: false,
        jsx_development: false,
        jsx_factory: "React.createElement"@,
        jsx_fragment_factory: "React.Fragment"@,
        jsx_import_source: None,
        source_map: false,
        transform_jsx: true,
        var_decl_imports: false,
    }
}

/// Calls `deno_ast::EmitOptions::default` and hands out its fields: the source map is inlined,
/// with the sources, type imports are removed, and JSX is transformed to calls of
/// `React.createElement`.
#[verifier::external_body]
pub(crate) fn transpiler_defaults() -> (options: EmitOptions)
    ensures
        options@ == default_emit_options(),
{
    let defaults = deno_ast::EmitOptions::default();
    EmitOptions {
        imports_not_used_as_values: match defaults.imports_not_used_as_values {
            deno_ast::ImportsNotUsedAsValues::Remove => ImportsNotUsedAsValues::Remove,
            deno_ast::ImportsNotUsedAsValues::Preserve => ImportsNotUsedAsValues::Preserve,
            deno_ast::ImportsNotUsedAsValues::Error => ImportsNotUsedAsValues::Error,
        },
        emit_metadata: defaults.emit_metadata, inline_source_map: defaults.inline_source_map,
        inline_sources: defaults.inline_sources, jsx_automatic: defaults.jsx_automatic,
        jsx_development: defaults.jsx_development, jsx_factory: defaults.jsx_factory,
        jsx_fragment_factory: defaults.jsx_fragment_factory, jsx_import_source: defaults.jsx_import_source,
        source_map: defaults.source_map, transform_jsx: defaults.transform_jsx,
        var_decl_imports: defaults.var_decl_imports,
    }
}

/// The options with source maps: inlined together with the sources, and asked for as such.
pub open spec fn with_source_maps(options: EmitOptionsView) -> EmitOptionsView {
    EmitOptionsView { inline_source_map: true, inline_sources: true, source_map: true, ..options }
}

/// Asks for source maps on top of the given options.
pub fn ask_for_source_maps(options: EmitOptions) -> (asked: EmitOptions)
    ensures
        asked@ == with_source_maps(options@),
        asked.inline_source_map && asked.inline_sources && asked.source_map,
        asked.emit_metadata == options.emit_metadata,
        asked.imports_not_used_as_values == options.imports_not_used_as_values,
        asked.jsx_automatic == options.jsx_automatic,
        asked.jsx_development == options.jsx_development,
        asked.jsx_factory == options.jsx_factory,
        asked.jsx_fragment_factory == options.jsx_fragment_factory,
        asked.jsx_import_source == options.jsx_import_source,
        asked.transform_jsx == options.transform_jsx,
        asked.var_decl_imports == options.var_decl_imports,
{
    EmitOptions { inline_source_map: true, inline_sources: true, source_map: true, ..options }
}

/// The system that npm packages are chosen for, in the words of Node.js.
pub struct NpmSystemInfo {
    pub os: String,
    pub cpu: String,
}

/// Where Rust and Node.js have different words for a system, these are not those of Rust.
pub open spec fn is_in_node_words(info: NpmSystemInfo) -> bool {
    &&& info.os@ != "macos"@
    &&& info.os@ != "windows"@
    &&& info.cpu@ != "x86_64"@
    &&& info.cpu@ != "aarch64"@
}

/// Calls `deno_npm::NpmSystemInfo::default` and hands out its fields, which describe the machine
/// that the program is built for, in the words of Node.js. Which machine that is, is left open.
#[verifier::external_body]
pub(crate) fn this_system() -> (info: NpmSystemInfo)
    ensures
        is_in_node_words(info),
{
    let info = deno_npm::NpmSystemInfo::default();
    NpmSystemInfo { os: info.os.to_string(), cpu: info.cpu.to_string() }
}

/// Finds the directories that modules are kept in.
pub struct DenoDirProvider {
    /// The root to use in place of the usual one.
    pub custom_root: Option<String>,
}

/// The databases of caches.
pub struct CachesPlan {
    pub provider: DenoDirProvider,
    /// The databases that are opened at once. One that cannot be opened is no error.
    pub opened: Vec<CacheDb>,
}

/// The cache of emitted code.
pub struct EmitCachePlan {
    pub gen_cache: String,
}

/// The cache of parsed sources.
pub struct ParsedSourceCachePlan {
    pub caches: CachesPlan,
    /// The database that keeps what was found in the sources.
    pub database: CacheDb,
}

/// The emitter of modules.
pub struct EmitterPlan {
    pub emit_cache: EmitCachePlan,
    pub parsed_source_cache: ParsedSourceCachePlan,
    pub emit_options: EmitOptions,
}

/// The cache of modules that were fetched.
pub struct GlobalHttpCachePlan {
    pub deps_folder: String,
}

/// The fetcher of modules.
pub struct FileFetcherPlan {
    pub http_cache: GlobalHttpCachePlan,
    pub cache_setting: CacheSetting,
    pub allow_remote: bool,
}

/// The loader of modules.
pub struct FetchCacherPlan {
    pub emit_cache: EmitCachePlan,
    pub file_fetcher: FileFetcherPlan,
    /// Response headers to use in place of those of a module, by the module's specifier.
    pub file_header_overrides: HashMap<String, HashMap<String, String>>,
    pub http_cache: GlobalHttpCachePlan,
    pub parsed_source_cache: ParsedSourceCachePlan,
    pub permissions: FetchPermissions,
    /// Whether npm packages are looked for.
    pub with_npm: bool,
}

/// The cache of npm packages.
pub struct NpmCachePlan {
    /// The line that is printed when the cache is made.
    pub announcement: String,
    pub folder: String,
    pub cache_setting: CacheSetting,
}

/// The client of an npm registry.
pub struct NpmApiPlan {
    pub registry_url: String,
    pub cache: NpmCachePlan,
}

/// The resolution of npm packages.
pub struct NpmResolutionPlan {
    pub api: NpmApiPlan,
    /// Whether the resolution starts from a snapshot.
    pub with_snapshot: bool,
    /// Whether the resolution follows a lock file.
    pub with_lock_file: bool,
}

/// The resolver of npm packages in the file system. It shares the resolution with the resolver
/// that it belongs to.
pub struct NpmFsResolverPlan {
    pub cache: NpmCachePlan,
    pub registry_url: String,
    /// The `node_modules` directory to use, if there is one.
    pub node_modules_folder: Option<String>,
    pub system_info: NpmSystemInfo,
}

/// The resolver of npm packages. The type of lock files is a parameter.
pub struct NpmResolverPlan<L> {
    pub resolution: NpmResolutionPlan,
    pub fs_resolver: NpmFsResolverPlan,
    pub lock_file: Option<L>,
}

/// Tells how the module emitter and the npm resolver are put together.
pub struct EmitterFactory {
    deno_dir: DenoDir,
}

impl EmitterFactory {
    /// The directories that modules are kept in.
    pub closed spec fn directories(&self) -> DenoDir {
        self.deno_dir
    }

    /// A factory for the given directories.
    pub fn new(deno_dir: DenoDir) -> (factory: Self)
        ensures
            factory.directories() == deno_dir,
    {
        EmitterFactory { deno_dir }
    }

    /// Finds the directories in their usual place.
    pub fn deno_dir_provider(&self) -> (provider: DenoDirProvider)
        ensures
            provider.custom_root is None,
    {
        DenoDirProvider { custom_root: None }
    }

    /// The caches, with both analysis databases opened.
    pub fn caches(&self) -> (caches: CachesPlan)
        ensures
            caches.provider.custom_root is None,
            caches.opened@ == seq![CacheDb::DepAnalysis, CacheDb::NodeAnalysis],
    {
        CachesPlan {
            provider: self.deno_dir_provider(),
            opened: vec![CacheDb::DepAnalysis, CacheDb::NodeAnalysis],
        }
    }

    /// The cache of emitted code.
    pub open spec fn emit_cache_plan(&self) -> EmitCachePlan {
        EmitCachePlan { gen_cache: self.directories().gen_cache }
    }

    /// The cache of emitted code.
    pub fn emit_cache(&self) -> (cache: EmitCachePlan)
        ensures
            cache == self.emit_cache_plan(),
            cache.gen_cache == self.directories().gen_cache,
    {
        EmitCachePlan { gen_cache: self.deno_dir.gen_cache.clone() }
    }

    /// The cache of parsed sources, on the dependency analysis.
    pub fn parsed_source_cache(&self) -> (cache: ParsedSourceCachePlan)
        ensures
            is_parsed_source_cache(cache),
            cache.caches.provider.custom_root is None,
            cache.caches.opened@ == seq![CacheDb::DepAnalysis, CacheDb::NodeAnalysis],
            cache.database == CacheDb::DepAnalysis,
    {
        ParsedSourceCachePlan { caches: self.caches(), database: CacheDb::DepAnalysis }
    }

    /// How modules are emitted: as usual, with source maps.
    pub fn emit_options(&self) -> (options: EmitOptions)
        ensures
            options@ == with_source_maps(default_emit_options()),
            options.inline_source_map && options.inline_sources && options.source_map,
            !options.emit_metadata,
            options.imports_not_used_as_values == ImportsNotUsedAsValues::Remove,
            !options.jsx_automatic && !options.jsx_development,
            options.jsx_factory@ == "React.createElement"@,
            options.jsx_fragment_factory@ == "React.Fragment"@,
            options.jsx_import_source is None,
            options.transform_jsx && !options.var_decl_imports,
    {
        ask_for_source_maps(transpiler_defaults())
    }

    /// The emitter of modules.
    pub fn emitter(&self) -> (emitter: EmitterPlan)
        ensures
            emitter.emit_cache == self.emit_cache_plan(),
            is_parsed_source_cache(emitter.parsed_source_cache),
            emitter.emit_options@ == with_source_maps(default_emit_options()),
            emitter.emit_cache.gen_cache == self.directories().gen_cache,
            emitter.parsed_source_cache.caches.provider.custom_root is None,
            emitter.parsed_source_cache.caches.opened@ == seq![
                CacheDb::DepAnalysis,
                CacheDb::NodeAnalysis,
            ],
            emitter.parsed_source_cache.database == CacheDb::DepAnalysis,
            emitter.emit_options.inline_source_map && emitter.emit_options.inline_sources
                && emitter.emit_options.source_map,
    {
        EmitterPlan {
            emit_cache: self.emit_cache(),
            parsed_source_cache: self.parsed_source_cache(),
            emit_options: self.emit_options(),
        }
    }

    /// The cache of modules that were fetched.
    pub open spec fn global_http_cache_plan(&self) -> GlobalHttpCachePlan {
        GlobalHttpCachePlan { deps_folder: self.directories().deps_folder }
    }

    /// The cache of modules that were fetched.
    pub fn global_http_cache(&self) -> (cache: GlobalHttpCachePlan)
        ensures
            cache == self.global_http_cache_plan(),
            cache.deps_folder == self.directories().deps_folder,
    {
        GlobalHttpCachePlan { deps_folder: self.deno_dir.deps_folder.clone() }
    }

    /// The cache of npm packages, which is used as it is and announced by its folder.
    pub open spec fn npm_cache_plan(&self) -> NpmCachePlan {
        NpmCachePlan {
            announcement: self.directories().npm_folder,
            folder: self.directories().npm_folder,
            cache_setting: CacheSetting::Use,
        }
    }

    /// The cache of npm packages.
    pub fn npm_cache(&self) -> (cache: NpmCachePlan)
        ensures
            cache == self.npm_cache_plan(),
            cache.folder == self.directories().npm_folder,
            cache.announcement == self.directories().npm_folder,
            cache.cache_setting == CacheSetting::Use,
    {
        NpmCachePlan {
            announcement: self.deno_dir.npm_folder.clone(),
            folder: self.deno_dir.npm_folder.clone(),
            cache_setting: CacheSetting::Use,
        }
    }

    /// The client of the npm registry at `registry_url`.
    pub open spec fn npm_api_plan(&self, registry_url: String) -> NpmApiPlan {
        NpmApiPlan { registry_url, cache: self.npm_cache_plan() }
    }

    /// The client of the npm registry at `registry_url`.
    pub fn npm_api(&self, registry_url: String) -> (api: NpmApiPlan)
        ensures
            api == self.npm_api_plan(registry_url),
            api.registry_url == registry_url,
            api.cache.folder == self.directories().npm_folder,
            api.cache.announcement == self.directories().npm_folder,
            api.cache.cache_setting == CacheSetting::Use,
    {
        NpmApiPlan { registry_url, cache: self.npm_cache() }
    }

    /// The resolver of npm packages for a given system. The resolution starts from nothing, and
    /// packages are kept in the npm cache, not in a `node_modules` directory.
    pub open spec fn npm_resolver_plan<L>(
        &self,
        registry_url: String,
        system_info: NpmSystemInfo,
        lock_file: Option<L>,
    ) -> NpmResolverPlan<L> {
        NpmResolverPlan {
            resolution: NpmResolutionPlan {
                api: self.npm_api_plan(registry_url),
                with_snapshot: false,
                with_lock_file: false,
            },
            fs_resolver: NpmFsResolverPlan {
                cache: self.npm_cache_plan(),
                registry_url,
                node_modules_folder: None,
                system_info,
            },
            lock_file,
        }
    }

    /// The resolver of npm packages for a given system.
    pub fn npm_resolver_for<L>(
        &self,
        registry_url: String,
        system_info: NpmSystemInfo,
        lock_file: Option<L>,
    ) -> (resolver: NpmResolverPlan<L>)
        ensures
            resolver == self.npm_resolver_plan(registry_url, system_info, lock_file),
            resolver.lock_file == lock_file,
            resolver.resolution.api.registry_url == registry_url,
            resolver.resolution.api.cache.folder == self.directories().npm_folder,
            resolver.resolution.api.cache.announcement == self.directories().npm_folder,
            resolver.resolution.api.cache.cache_setting == CacheSetting::Use,
            !resolver.resolution.with_snapshot && !resolver.resolution.with_lock_file,
            resolver.fs_resolver.registry_url == registry_url,
            resolver.fs_resolver.cache.folder == self.directories().npm_folder,
            resolver.fs_resolver.cache.announcement == self.directories().npm_folder,
            resolver.fs_resolver.cache.cache_setting == CacheSetting::Use,
            resolver.fs_resolver.node_modules_folder is None,
            resolver.fs_resolver.system_info == system_info,
    {
        NpmResolverPlan {
            resolution: NpmResolutionPlan {
                api: self.npm_api(registry_url.clone()),
                with_snapshot: false,
                with_lock_file: false,
            },
            fs_resolver: NpmFsResolverPlan {
                cache: self.npm_cache(),
                registry_url,
                node_modules_folder: None,
                system_info,
            },
            lock_file,
        }
    }

    /// The resolver of npm packages for this machine.
    pub fn npm_resolver<L>(&self, registry_url: String, lock_file: Option<L>) -> (resolver:
        NpmResolverPlan<L>)
        ensures
            exists|system_info: NpmSystemInfo|
                is_in_node_words(system_info) && resolver == #[trigger] self.npm_resolver_plan(
                    registry_url,
                    system_info,
                    lock_file,
                ),
            resolver.lock_file == lock_file,
            resolver.resolution.api.registry_url == registry_url,
            resolver.resolution.api.cache.folder == self.directories().npm_folder,
            resolver.resolution.api.cache.announcement == self.directories().npm_folder,
            resolver.resolution.api.cache.cache_setting == CacheSetting::Use,
            !resolver.resolution.with_snapshot && !resolver.resolution.with_lock_file,
            resolver.fs_resolver.registry_url == registry_url,
            resolver.fs_resolver.cache.folder == self.directories().npm_folder,
            resolver.fs_resolver.cache.announcement == self.directories().npm_folder,
            resolver.fs_resolver.cache.cache_setting == CacheSetting::Use,
            resolver.fs_resolver.node_modules_folder is None,
            is_in_node_words(resolver.fs_resolver.system_info),
    {
        let system_info = this_system();
        self.npm_resolver_for(registry_url, system_info, lock_file)
    }

    /// The fetcher of modules, which fetches everything anew and from anywhere.
    pub open spec fn file_fetcher_plan(&self) -> FileFetcherPlan {
        FileFetcherPlan {
            http_cache: self.global_http_cache_plan(),
            cache_setting: CacheSetting::ReloadAll,
            allow_remote: true,
        }
    }

    /// The fetcher of modules.
    pub fn file_fetcher(&self) -> (fetcher: FileFetcherPlan)
        ensures
            fetcher == self.file_fetcher_plan(),
            fetcher.http_cache.deps_folder == self.directories().deps_folder,
            fetcher.cache_setting == CacheSetting::ReloadAll,
            fetcher.allow_remote,
    {
        FileFetcherPlan {
            http_cache: self.global_http_cache(),
            cache_setting: CacheSetting::ReloadAll,
            allow_remote: true,
        }
    }

    /// The loader of modules, which may do anything and knows nothing of npm packages.
    pub fn file_fetcher_loader(&self) -> (loader: FetchCacherPlan)
        ensures
            loader.emit_cache == self.emit_cache_plan(),
            loader.file_fetcher == self.file_fetcher_plan(),
            loader.file_header_overrides@ == Map::<String, HashMap<String, String>>::empty(),
            loader.http_cache == self.global_http_cache_plan(),
            is_parsed_source_cache(loader.parsed_source_cache),
            loader.permissions == FetchPermissions::AllowAll,
            !loader.with_npm,
            loader.emit_cache.gen_cache == self.directories().gen_cache,
            loader.file_fetcher.http_cache.deps_folder == self.directories().deps_folder,
            loader.file_fetcher.cache_setting == CacheSetting::ReloadAll,
            loader.file_fetcher.allow_remote,
            loader.http_cache.deps_folder == self.directories().deps_folder,
            loader.parsed_source_cache.caches.provider.custom_root is None,
            loader.parsed_source_cache.caches.opened@ == seq![
                CacheDb::DepAnalysis,
                CacheDb::NodeAnalysis,
            ],
            loader.parsed_source_cache.database == CacheDb::DepAnalysis,
    {
        FetchCacherPlan {
            emit_cache: self.emit_cache(),
            file_fetcher: self.file_fetcher(),
            file_header_overrides: HashMap::new(),
            http_cache: self.global_http_cache(),
            parsed_source_cache: self.parsed_source_cache(),
            permissions: FetchPermissions::AllowAll,
            with_npm: false,
        }
    }
}

/// The cache keeps what was found in the sources in the dependency analysis, next to the other
/// caches in their usual place.
pub open spec fn is_parsed_source_cache(cache: ParsedSourceCachePlan) -> bool {
    &&& cache.caches.provider.custom_root is None
    &&& cache.caches.opened@ == seq![CacheDb::DepAnalysis, CacheDb::NodeAnalysis]
    &&& cache.database == CacheDb::DepAnalysis
}

/// The resolver looks for packages in the registry and in the cache that its resolution uses.
pub proof fn law_npm_parts_agree<L>(
    factory: EmitterFactory,
    registry_url: String,
    system_info: NpmSystemInfo,
    lock_file: Option<L>,
)
    ensures
        ({
            let resolver = factory.npm_resolver_plan(registry_url, system_info, lock_file);
            &&& resolver.fs_resolver.registry_url == resolver.resolution.api.registry_url
            &&& resolver.fs_resolver.cache == resolver.resolution.api.cache
            &&& resolver.fs_resolver.cache.announcement == resolver.fs_resolver.cache.folder
        }),
{
}

/// Each part lies in the directory that is meant for it: emitted code in the directory of emitted
/// code, fetched modules in that of dependencies, and packages in that of npm. So two factories make
/// the same part exactly when they agree on that one directory.
pub proof fn law_parts_lie_in_their_directories(a: EmitterFactory, b: EmitterFactory, url: String)
    ensures
        a.emit_cache_plan().gen_cache == a.directories().gen_cache,
        a.global_http_cache_plan().deps_folder == a.directories().deps_folder,
        a.file_fetcher_plan().http_cache.deps_folder == a.directories().deps_folder,
        a.npm_cache_plan().folder == a.directories().npm_folder,
        a.npm_cache_plan().announcement == a.directories().npm_folder,
        a.emit_cache_plan() == b.emit_cache_plan() <==> a.directories().gen_cache
            == b.directories().gen_cache,
        a.global_http_cache_plan() == b.global_http_cache_plan() <==> a.directories().deps_folder
            == b.directories().deps_folder,
        a.file_fetcher_plan() == b.file_fetcher_plan() <==> a.directories().deps_folder
            == b.directories().deps_folder,
        a.npm_cache_plan() == b.npm_cache_plan() <==> a.directories().npm_folder
            == b.directories().npm_folder,
        a.npm_api_plan(url) == b.npm_api_plan(url) <==> a.directories().npm_folder
            == b.directories().npm_folder,
{
}

/// Modules are always fetched anew and from anywhere, while npm packages are taken from their cache.
pub proof fn law_cache_settings(factory: EmitterFactory)
    ensures
        factory.file_fetcher_plan().cache_setting == CacheSetting::ReloadAll,
        factory.file_fetcher_plan().allow_remote,
        factory.npm_cache_plan().cache_setting == CacheSetting::Use,
{
}

/// The npm resolver is made for the registry, the system and the lock file that it is asked for, and
/// for nothing else: its resolution starts from nothing, and there is no `node_modules` directory.
pub proof fn law_npm_resolver_is_made_as_asked<L>(
    factory: EmitterFactory,
    registry_url: String,
    system_info: NpmSystemInfo,
    lock_file: Option<L>,
)
    ensures
        ({
            let resolver = factory.npm_resolver_plan(registry_url, system_info, lock_file);
            &&& resolver.lock_file == lock_file
            &&& resolver.resolution.api.registry_url == registry_url
            &&& resolver.resolution.api.cache.folder == factory.directories().npm_folder
            &&& !resolver.resolution.with_snapshot
            &&& !resolver.resolution.with_lock_file
            &&& resolver.fs_resolver.registry_url == registry_url
            &&& resolver.fs_resolver.cache.folder == factory.directories().npm_folder
            &&& resolver.fs_resolver.node_modules_folder is None
            &&& resolver.fs_resolver.system_info == system_info
            &&& factory.npm_api_plan(registry_url).registry_url == registry_url
            &&& factory.npm_api_plan(registry_url).cache.folder == factory.directories().npm_folder
        }),
{
}

/// To ask for source maps turns three options on, leaves every other option as it is, and changes
/// nothing when it is done again.
pub proof fn law_source_maps_change_nothing_else(options: EmitOptionsView)
    ensures
        ({
            let asked = with_source_maps(options);
            &&& asked.inline_source_map && asked.inline_sources && asked.source_map
            &&& asked.emit_metadata == options.emit_metadata
            &&& asked.imports_not_used_as_values == options.imports_not_used_as_values
            &&& asked.jsx_automatic == options.jsx_automatic
            &&& asked.jsx_development == options.jsx_development
            &&& asked.jsx_factory == options.jsx_factory
            &&& asked.jsx_fragment_factory == options.jsx_fragment_factory
            &&& asked.jsx_import_source == options.jsx_import_source
            &&& asked.transform_jsx == options.transform_jsx
            &&& asked.var_decl_imports == options.var_decl_imports
            &&& with_source_maps(asked) == asked
            &&& options.inline_source_map && options.inline_sources && options.source_map ==> asked
                == options
        }),
{
}

/// The options are known by all their fields.
pub proof fn law_emit_options_are_known_by_their_fields(a: EmitOptions, b: EmitOptions)
    ensures
        a@ == b@ <==> {
            &&& a.emit_metadata == b.emit_metadata
            &&& a.imports_not_used_as_values == b.imports_not_used_as_values
            &&& a.inline_source_map == b.inline_source_map
            &&& a.inline_sources == b.inline_sources
            &&& a.jsx_automatic == b.jsx_automatic
            &&& a.jsx_development == b.jsx_development
            &&& a.jsx_factory@ == b.jsx_factory@
            &&& a.jsx_fragment_factory@ == b.jsx_fragment_factory@
            &&& optional_text(a.jsx_import_source) == optional_text(b.jsx_import_source)
            &&& a.source_map == b.source_map
            &&& a.transform_jsx == b.transform_jsx
            &&& a.var_decl_imports == b.var_decl_imports
        },
{
}

/// Sources are kept in the dependency analysis of caches with both analysis databases, which lie in
/// their usual place.
pub proof fn law_parsed_sources_are_kept_in_the_dependency_analysis(cache: ParsedSourceCachePlan)
    ensures
        is_parsed_source_cache(cache) <==> {
            &&& cache.caches.provider.custom_root is None
            &&& cache.caches.opened@ == seq![CacheDb::DepAnalysis, CacheDb::NodeAnalysis]
            &&& cache.database == CacheDb::DepAnalysis
        },
{
}

} // verus!
