use edge_runtime::emitter::{
    ask_for_source_maps, CacheDb, CacheSetting, DenoDir, EmitOptions, EmitterFactory,
    FetchPermissions, ImportsNotUsedAsValues, NpmSystemInfo,
};

fn factory() -> EmitterFactory {
    EmitterFactory::new(DenoDir {
        deps_folder: "/cache/deps".to_string(),
        npm_folder: "/cache/npm".to_string(),
        gen_cache: "/cache/gen".to_string(),
    })
}

#[test]
fn modules_are_emitted_with_source_maps() {
    let options = factory().emit_options();
    assert!(options.source_map);
    assert!(options.inline_source_map);
    assert!(options.inline_sources);
    assert!(!options.emit_metadata);
    assert_eq!(options.imports_not_used_as_values, ImportsNotUsedAsValues::Remove);
    assert!(!options.jsx_automatic);
    assert!(!options.jsx_development);
    assert_eq!(options.jsx_factory, "React.createElement");
    assert_eq!(options.jsx_fragment_factory, "React.Fragment");
    assert!(options.jsx_import_source.is_none());
    assert!(options.transform_jsx);
    assert!(!options.var_decl_imports);
}

#[test]
fn source_maps_leave_the_other_options_alone() {
    let options = ask_for_source_maps(EmitOptions {
        emit_metadata: true,
        imports_not_used_as_values: ImportsNotUsedAsValues::Preserve,
        inline_source_map: false,
        inline_sources: false,
        jsx_automatic: true,
        jsx_development: true,
        jsx_factory: "h".to_string(),
        jsx_fragment_factory: "Fragment".to_string(),
        jsx_import_source: Some("preact".to_string()),
        source_map: false,
        transform_jsx: false,
        var_decl_imports: true,
    });
    assert!(options.source_map && options.inline_source_map && options.inline_sources);
    assert!(options.emit_metadata && options.jsx_automatic && options.jsx_development);
    assert!(!options.transform_jsx && options.var_decl_imports);
    assert_eq!(options.imports_not_used_as_values, ImportsNotUsedAsValues::Preserve);
    assert_eq!(options.jsx_factory, "h");
    assert_eq!(options.jsx_fragment_factory, "Fragment");
    assert_eq!(options.jsx_import_source.as_deref(), Some("preact"));
}

#[test]
fn caches_lie_in_their_directories() {
    let factory = factory();
    assert!(factory.deno_dir_provider().custom_root.is_none());
    let caches = factory.caches();
    assert!(caches.provider.custom_root.is_none());
    assert_eq!(caches.opened, vec![CacheDb::DepAnalysis, CacheDb::NodeAnalysis]);
    assert_eq!(factory.emit_cache().gen_cache, "/cache/gen");
    assert_eq!(factory.parsed_source_cache().database, CacheDb::DepAnalysis);
    assert_eq!(factory.global_http_cache().deps_folder, "/cache/deps");
    let emitter = factory.emitter();
    assert_eq!(emitter.emit_cache.gen_cache, "/cache/gen");
    assert_eq!(emitter.parsed_source_cache.database, CacheDb::DepAnalysis);
    assert!(emitter.emit_options.source_map);
}

#[test]
fn fetcher_reloads_everything() {
    let factory = factory();
    let fetcher = factory.file_fetcher();
    assert_eq!(fetcher.http_cache.deps_folder, "/cache/deps");
    assert_eq!(fetcher.cache_setting, CacheSetting::ReloadAll);
    assert!(fetcher.allow_remote);
    let loader = factory.file_fetcher_loader();
    assert_eq!(loader.file_fetcher.cache_setting, CacheSetting::ReloadAll);
    assert_eq!(loader.http_cache.deps_folder, "/cache/deps");
    assert_eq!(loader.emit_cache.gen_cache, "/cache/gen");
    assert!(loader.file_header_overrides.is_empty());
    assert_eq!(loader.permissions, FetchPermissions::AllowAll);
    assert!(!loader.with_npm);
}

#[test]
fn npm_parts_agree() {
    let factory = factory();
    assert_eq!(factory.npm_cache().announcement, "/cache/npm");
    assert_eq!(factory.npm_cache().cache_setting, CacheSetting::Use);
    let registry = "https://registry.npmjs.org/".to_string();
    assert_eq!(factory.npm_api(registry.clone()).registry_url, registry);
    let system_info = NpmSystemInfo { os: "linux".to_string(), cpu: "x64".to_string() };
    let resolver = factory.npm_resolver_for(registry.clone(), system_info, Some("lock"));
    assert_eq!(resolver.resolution.api.registry_url, registry);
    assert_eq!(resolver.fs_resolver.registry_url, registry);
    assert_eq!(resolver.resolution.api.cache.folder, "/cache/npm");
    assert_eq!(resolver.fs_resolver.cache.folder, "/cache/npm");
    assert!(!resolver.resolution.with_snapshot);
    assert!(!resolver.resolution.with_lock_file);
    assert!(resolver.fs_resolver.node_modules_folder.is_none());
    assert_eq!(resolver.fs_resolver.system_info.os, "linux");
    assert_eq!(resolver.fs_resolver.system_info.cpu, "x64");
    assert_eq!(resolver.lock_file, Some("lock"));
}

#[test]
fn npm_resolver_is_for_this_machine() {
    let resolver = factory().npm_resolver::<()>("r".to_string(), None);
    let info = deno_npm::NpmSystemInfo::default();
    assert_eq!(resolver.fs_resolver.system_info.os, info.os.to_string());
    assert_eq!(resolver.fs_resolver.system_info.cpu, info.cpu.to_string());
    assert!(!resolver.fs_resolver.system_info.os.is_empty());
    assert!(!["macos", "windows"].contains(&resolver.fs_resolver.system_info.os.as_str()));
    assert!(!["x86_64", "aarch64"].contains(&resolver.fs_resolver.system_info.cpu.as_str()));
    assert!(resolver.lock_file.is_none());
}
