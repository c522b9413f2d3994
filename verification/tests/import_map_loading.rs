use edge_runtime::import_maps::{
    accept_decoded, accept_parsed, accept_parts, import_map_diagnostics_message,
    import_map_request, load_import_map, load_import_map_at, locate_import_map, read_data_uri,
    try_load_import_map, ImportMapFile, ImportMapLoadError, ImportMapRequest,
};
use edge_runtime::urls::UrlParts;

const MAP: &str = r#"{"imports":{"std/":"https://deno.land/std/","local":"./lib.ts"}}"#;

fn data_uri(json: &str, base: &str) -> String {
    format!("data:{}?{}", urlencoding::encode(json), urlencoding::encode(base))
}

#[test]
fn no_path_means_no_import_map() {
    assert!(matches!(load_import_map(None, None), Ok(None)));
    assert!(matches!(import_map_request(&None), ImportMapRequest::Absent));
}

#[test]
fn requests_are_told_apart_by_their_prefix() {
    let data = Some("data:%7B%7D?%2F".to_string());
    let file = Some("./import_map.json".to_string());
    let upper = Some("DATA:%7B%7D?%2F".to_string());
    let short = Some("data".to_string());
    assert!(matches!(import_map_request(&data), ImportMapRequest::DataUri));
    assert!(matches!(import_map_request(&file), ImportMapRequest::File));
    assert!(matches!(import_map_request(&upper), ImportMapRequest::File));
    assert!(matches!(import_map_request(&short), ImportMapRequest::File));
}

#[test]
fn data_uri_gives_json_and_base_back() {
    for (json, base) in [
        (MAP, "/home/user/functions"),
        ("{}", "/"),
        ("{\"imports\":{\"gr\u{fc}n\":\"./\u{1f980}.ts\"}}", "/tmp/a b/%25/c?d#e"),
        ("", ""),
        ("100%", "/x"),
    ] {
        let source = read_data_uri(&data_uri(json, base)).ok().unwrap();
        assert_eq!(source.json, json);
        assert_eq!(source.base_dir, base);
    }
}

#[test]
fn unreserved_characters_need_no_encoding() {
    let source = read_data_uri("data:%7B%7D-_.!~*'()?%2Fa-_.!~*'()").ok().unwrap();
    assert_eq!(source.json, "{}-_.!~*'()");
    assert_eq!(source.base_dir, "/a-_.!~*'()");
}

#[test]
fn data_uri_loads_the_import_map() {
    let uri = data_uri(MAP, "/home/user/my functions");
    let loaded = load_import_map(Some(uri), None).ok().unwrap().unwrap();
    assert_eq!(loaded.import_map.base_url().as_str(), "file:///home/user/my%20functions/");
    assert!(loaded.diagnostics.is_empty());
    let referrer = url::Url::parse("file:///anywhere/main.ts").unwrap();
    assert_eq!(
        loaded.import_map.resolve("local", &referrer).unwrap().as_str(),
        "file:///home/user/my%20functions/lib.ts"
    );
    assert_eq!(
        loaded.import_map.resolve("std/path.ts", &referrer).unwrap().as_str(),
        "https://deno.land/std/path.ts"
    );
}

#[test]
fn data_uri_without_a_query_has_no_base() {
    let error = load_import_map(Some("data:%7B%7D".to_string()), None).err().unwrap();
    assert!(matches!(error, ImportMapLoadError::InvalidBaseUrl));
    assert_eq!(error.message(), "invalid import map base url");
}

#[test]
fn relative_base_is_refused() {
    let error = load_import_map_at("functions", "{}").err().unwrap();
    assert!(matches!(error, ImportMapLoadError::InvalidBaseUrl));
}

#[test]
fn bad_encoding_is_refused() {
    let error = load_import_map(Some("data:%FF?%2Ftmp".to_string()), None).err().unwrap();
    assert!(matches!(error, ImportMapLoadError::InvalidEncoding(_)));
    let error = load_import_map(Some("data:%7B%7D?%FF".to_string()), None).err().unwrap();
    assert!(matches!(&error, ImportMapLoadError::InvalidEncoding(_)));
    assert!(error.message().starts_with("invalid utf-8 sequence"));
}

#[test]
fn bad_url_is_refused() {
    let error = load_import_map(Some("data://a b/".to_string()), None).err().unwrap();
    assert!(matches!(&error, ImportMapLoadError::InvalidUrl(_)));
    assert_eq!(error.message(), url::Url::parse("data://a b/").unwrap_err().to_string());
}

#[test]
fn bad_json_is_refused() {
    let error = load_import_map_at("/tmp", "[]").err().unwrap();
    assert!(matches!(&error, ImportMapLoadError::InvalidImportMap(_)));
    assert_eq!(error.message(), "Import map JSON must be an object");
    let error = load_import_map_at("/tmp", "{").err().unwrap();
    assert!(error.message().starts_with("Unable to parse import map JSON: "));
}

#[test]
fn file_is_read_with_its_directory_as_base() {
    let location = locate_import_map("/srv/app", "config/import_map.json");
    assert_eq!(location.path, "/srv/app/config/import_map.json");
    assert_eq!(location.base_dir.as_deref(), Some("/srv/app/config"));
    let file = ImportMapFile { current_dir: "/srv/app".to_string(), json: MAP.to_string() };
    let path = Some("config/import_map.json".to_string());
    let loaded = load_import_map(path, Some(Ok(file))).ok().unwrap().unwrap();
    assert_eq!(loaded.import_map.base_url().as_str(), "file:///srv/app/config/");
}

#[test]
fn file_outside_the_working_directory_keeps_its_own_base() {
    let file = ImportMapFile { current_dir: "/srv/app".to_string(), json: MAP.to_string() };
    let path = Some("/etc/maps/import_map.json".to_string());
    let loaded = try_load_import_map(path, Some(Ok(file))).unwrap().ok().unwrap().unwrap();
    assert_eq!(loaded.import_map.base_url().as_str(), "file:///etc/maps/");
}

#[test]
fn file_without_a_directory_gives_nothing() {
    let file = ImportMapFile { current_dir: "/srv".to_string(), json: "{}".to_string() };
    assert!(try_load_import_map(Some("/".to_string()), Some(Ok(file))).is_none());
    let refused = try_load_import_map(Some("/".to_string()), Some(Err("a directory".to_string())));
    assert_eq!(refused.unwrap().err().unwrap().message(), "a directory");
    let data = try_load_import_map(Some(data_uri("{}", "/")), None).unwrap();
    assert!(matches!(data, Ok(Some(_))));
    assert!(matches!(try_load_import_map(None, None).unwrap(), Ok(None)));
}

#[test]
fn absolute_path_is_kept() {
    let location = locate_import_map("/srv/app", "/etc/import_map.json");
    assert_eq!(location.path, "/etc/import_map.json");
    assert_eq!(location.base_dir.as_deref(), Some("/etc"));
    assert!(locate_import_map("/srv", "/").base_dir.is_none());
}

#[test]
fn paths_are_joined_with_one_slash() {
    assert_eq!(locate_import_map("/srv", "").path, "/srv/");
    assert_eq!(locate_import_map("/srv/", "a.json").path, "/srv/a.json");
    assert_eq!(locate_import_map("", "a.json").path, "a.json");
    assert_eq!(locate_import_map("/srv", "./b//a.json").path, "/srv/./b//a.json");
    let location = locate_import_map("/srv//app", "a.json");
    assert_eq!(location.path, "/srv//app/a.json");
    assert_eq!(location.base_dir.as_deref(), Some("/srv//app"));
}

#[test]
fn unreadable_file_is_reported() {
    let error = load_import_map(Some("x.json".to_string()), Some(Err("no such file".to_string())))
        .err()
        .unwrap();
    assert!(matches!(&error, ImportMapLoadError::UnreadableFile(_)));
    assert_eq!(error.message(), "no such file");
}

#[test]
fn outcomes_of_the_steps_are_taken_over() {
    let parts = UrlParts { path: "p".to_string(), query: None };
    let source = accept_parts(Ok(parts)).ok().unwrap();
    assert_eq!((source.json.as_str(), source.base_dir.as_str()), ("p", ""));
    let parts = UrlParts { path: "p".to_string(), query: Some("q".to_string()) };
    let source = accept_parts(Ok(parts)).ok().unwrap();
    assert_eq!((source.json.as_str(), source.base_dir.as_str()), ("p", "q"));
    assert_eq!(accept_parts(Err("u".to_string())).err().unwrap().message(), "u");

    let both = accept_decoded(Err("first".to_string()), Err("second".to_string()));
    assert_eq!(both.err().unwrap().message(), "first");
    let base = accept_decoded(Ok("{}".to_string()), Err("second".to_string()));
    assert_eq!(base.err().unwrap().message(), "second");
    let source = accept_decoded(Ok("{}".to_string()), Ok("/b".to_string())).ok().unwrap();
    assert_eq!((source.json.as_str(), source.base_dir.as_str()), ("{}", "/b"));

    let refused = accept_parsed(Err("bad".to_string())).err().unwrap();
    assert!(matches!(&refused, ImportMapLoadError::InvalidImportMap(_)));
    assert_eq!(refused.message(), "bad");
}

#[test]
fn diagnostics_are_collected_whatever_their_order() {
    let json = r#"{"imports":{"":"./a.ts","n":1},"extra":1,"more":2}"#;
    let loaded = load_import_map_at("/tmp", json).ok().unwrap();
    let mut found = loaded.diagnostics.clone();
    found.sort();
    let mut expected = vec![
        "Invalid address \"1\" for the specifier key \"n\". Addresses must be strings.".to_string(),
        "Invalid empty string specifier.".to_string(),
        "Invalid top-level key \"extra\". Only \"imports\" and \"scopes\" can be present.".to_string(),
        "Invalid top-level key \"more\". Only \"imports\" and \"scopes\" can be present.".to_string(),
    ];
    expected.sort();
    assert_eq!(found, expected);
}

#[test]
fn warning_lists_the_diagnostics() {
    assert!(import_map_diagnostics_message(&Vec::new()).is_none());
    let one = vec!["first".to_string()];
    assert_eq!(
        import_map_diagnostics_message(&one).unwrap(),
        "Import map diagnostics:\n  - first"
    );
    let three = vec!["first".to_string(), "".to_string(), "third".to_string()];
    let warning = import_map_diagnostics_message(&three).unwrap();
    assert_eq!(warning, "Import map diagnostics:\n  - first\n  - \n  - third");
    assert_eq!(warning.lines().count(), 4);
}
