//! Loading the import map of a worker.
//!
//! An import map is configured by a path. A path that starts with `data:` is a data URI that
//! holds the map itself, in the format
//! `data:{encodeURIComponent(import_map_json)}?{encodeURIComponent(base_path)}`. Any other
//! path names a file, and the map's base is the directory of that file.

use vstd::multiset::Multiset;
use vstd::prelude::*;
use vstd::string::*;

use crate::startup::{from_here, lemma_from_here, without_slash};
use crate::text::{concat3, optional_text, starts_with, text_outcome, texts};
use crate::urls::{
    bare_data_uri, data_uri, directory_url, directory_url_text, dotted, encode_uri_component,
    ends_in_name, file_in, is_absolute, is_file_name, is_plain_directory, join_paths, joined_path, lemma_encoded_component_text,
    parent_of, parent_path, parse_url, parsed_url, percent_decode, percent_decoded, url_outcome,
    UrlParts, UrlPartsView,
};

verus! {

/// The map of specifiers to addresses of the `import_map` crate.
#[verifier::external_type_specification]
#[verifier::external_body]
pub struct ExImportMap(import_map::ImportMap);

/// The JSON text of the entries that an import map holds, as its `to_json` writes it.
pub uninterp spec fn import_map_json(map: import_map::ImportMap) -> Seq<char>;

/// The text of the URL that the relative addresses of an import map start from.
pub uninterp spec fn import_map_base(map: import_map::ImportMap) -> Seq<char>;

/// An import map that has been read.
pub struct LoadedImportMap {
    /// The map, for resolving specifiers.
    pub import_map: import_map::ImportMap,
    /// What is wrong with single entries of the map.
    pub diagnostics: Vec<String>,
}

/// What was found in the text of an import map: its entries, as JSON text, and what is wrong
/// with them. The order of the diagnostics varies from run to run.
pub struct ImportMapContents {
    pub json: Seq<char>,
    pub diagnostics: Multiset<Seq<char>>,
}

/// What is known of an import map: where its relative addresses start and what it holds.
pub struct ImportMapView {
    pub base_url: Seq<char>,
    pub contents: ImportMapContents,
}

impl View for LoadedImportMap {
    type V = ImportMapView;

    open spec fn view(&self) -> ImportMapView {
        ImportMapView {
            base_url: import_map_base(self.import_map),
            contents: ImportMapContents {
                json: import_map_json(self.import_map),
                diagnostics: texts(self.diagnostics@).to_multiset(),
            },
        }
    }
}

/// Why an import map could not be loaded.
pub enum ImportMapLoadError {
    /// The file could not be located or read.
    UnreadableFile(String),
    /// The data URI is no URL.
    InvalidUrl(String),
    /// A part of the data URI does not decode to UTF-8.
    InvalidEncoding(String),
    /// The base is not an absolute path.
    InvalidBaseUrl,
    /// The text is no import map.
    InvalidImportMap(String),
}

/// Why an import map could not be loaded, with the messages as text.
pub enum ImportMapLoadErrorView {
    UnreadableFile(Seq<char>),
    InvalidUrl(Seq<char>),
    InvalidEncoding(Seq<char>),
    InvalidBaseUrl,
    InvalidImportMap(Seq<char>),
}

impl View for ImportMapLoadError {
    type V = ImportMapLoadErrorView;

    open spec fn view(&self) -> ImportMapLoadErrorView {
        match self {
            ImportMapLoadError::UnreadableFile(text) => ImportMapLoadErrorView::UnreadableFile(
                text@,
            ),
            ImportMapLoadError::InvalidUrl(text) => ImportMapLoadErrorView::InvalidUrl(text@),
            ImportMapLoadError::InvalidEncoding(text) => ImportMapLoadErrorView::InvalidEncoding(
                text@,
            ),
            ImportMapLoadError::InvalidBaseUrl => ImportMapLoadErrorView::InvalidBaseUrl,
            ImportMapLoadError::InvalidImportMap(text) => ImportMapLoadErrorView::InvalidImportMap(
                text@,
            ),
        }
    }
}

impl ImportMapLoadErrorView {
    /// The message that the error is reported with.
    pub open spec fn message(self) -> Seq<char> {
        match self {
            ImportMapLoadErrorView::UnreadableFile(text) => text,
            ImportMapLoadErrorView::InvalidUrl(text) => text,
            ImportMapLoadErrorView::InvalidEncoding(text) => text,
            ImportMapLoadErrorView::InvalidBaseUrl => "invalid import map base url"@,
            ImportMapLoadErrorView::InvalidImportMap(text) => text,
        }
    }
}

impl ImportMapLoadError {
    /// The message that the error is reported with.
    pub fn message(self) -> (message: String)
        ensures
            message@ == self@.message(),
            message@ == (match self {
                ImportMapLoadError::UnreadableFile(text) => text@,
                ImportMapLoadError::InvalidUrl(text) => text@,
                ImportMapLoadError::InvalidEncoding(text) => text@,
                ImportMapLoadError::InvalidBaseUrl => "invalid import map base url"@,
                ImportMapLoadError::InvalidImportMap(text) => text@,
            }),
    {
        match self {
            ImportMapLoadError::UnreadableFile(text) => text,
            ImportMapLoadError::InvalidUrl(text) => text,
            ImportMapLoadError::InvalidEncoding(text) => text,
            ImportMapLoadError::InvalidBaseUrl => "invalid import map base url".to_owned(),
            ImportMapLoadError::InvalidImportMap(text) => text,
        }
    }
}

/// What came of loading an import map, as text.
pub open spec fn load_outcome(
    outcome: Result<LoadedImportMap, ImportMapLoadError>,
) -> Result<ImportMapView, ImportMapLoadErrorView> {
    match outcome {
        Ok(loaded) => Ok(loaded@),
        Err(error) => Err(error@),
    }
}

/// What `import_map::parse_from_json` makes of a JSON text, with the URL of directory
/// `base_dir` as its base: what the map holds, or the text of the error.
pub uninterp spec fn parsed_import_map(base_dir: Seq<char>, json: Seq<char>) -> Result<
    ImportMapContents,
    Seq<char>,
>;

/// Calls `import_map::parse_from_json` with the URL that `url::Url::from_directory_path` makes
/// of `base_dir`, and hands out the map and its diagnostics as text, or the error as text. The
/// entries of the map and the diagnostics, taken without their order, depend on the two
/// arguments alone, and the map's base URL is the URL that it was parsed with.
#[verifier::external_body]
pub(crate) fn parse_import_map(base_dir: &str, json: &str) -> (parsed: Result<
    LoadedImportMap,
    String,
>)
    requires
        is_absolute(base_dir@),
    ensures
        parsed is Ok ==> parsed_import_map(base_dir@, json@) == Ok::<ImportMapContents, Seq<char>>(
            (ImportMapContents {
                json: import_map_json(parsed->Ok_0.import_map),
                diagnostics: texts(parsed->Ok_0.diagnostics@).to_multiset(),
            }),
        ),
        parsed is Err ==> parsed_import_map(base_dir@, json@) == Err::<ImportMapContents, Seq<char>>(
            parsed->Err_0@,
        ),
        parsed is Ok ==> import_map_base(parsed->Ok_0.import_map) == directory_url_text(
            base_dir@,
        )->0,
{
    let base = url::Url::from_directory_path(base_dir).unwrap();
    match import_map::parse_from_json(&base, json) {
        Ok(found) => Ok(LoadedImportMap {
            import_map: found.import_map,
            diagnostics: found.diagnostics.iter().map(|d| d.to_string()).collect(),
        }),
        Err(error) => Err(error.to_string()),
    }
}

/// Takes over what came of parsing an import map.
pub fn accept_parsed(parsed: Result<LoadedImportMap, String>) -> (outcome: Result<
    LoadedImportMap,
    ImportMapLoadError,
>)
    ensures
        outcome == (match parsed {
            Ok(loaded) => Ok(loaded),
            Err(error) => Err(ImportMapLoadError::InvalidImportMap(error)),
        }),
{
    match parsed {
        Ok(loaded) => Ok(loaded),
        Err(error) => Err(ImportMapLoadError::InvalidImportMap(error)),
    }
}

/// The import map with the given JSON text and base directory.
pub open spec fn import_map_at(base_dir: Seq<char>, json: Seq<char>) -> Result<
    ImportMapView,
    ImportMapLoadErrorView,
> {
    if !is_absolute(base_dir) {
        Err(ImportMapLoadErrorView::InvalidBaseUrl)
    } else {
        match parsed_import_map(base_dir, json) {
            Ok(contents) => Ok(
                ImportMapView { base_url: directory_url_text(base_dir)->0, contents },
            ),
            Err(error) => Err(ImportMapLoadErrorView::InvalidImportMap(error)),
        }
    }
}

/// The text is that of the URL of a directory.
pub open spec fn is_directory_url(text: Seq<char>) -> bool {
    "file:///"@.is_prefix_of(text) && text.last() == '/'
}

/// Reads the import map with the given JSON text and base directory. The base of the map is the URL
/// of a directory.
pub fn load_import_map_at(base_dir: &str, json: &str) -> (outcome: Result<
    LoadedImportMap,
    ImportMapLoadError,
>)
    ensures
        load_outcome(outcome) == import_map_at(base_dir@, json@),
        outcome matches Ok(loaded) ==> is_directory_url(loaded@.base_url),
        (match outcome {
            Ok(loaded) => {
                &&& is_absolute(base_dir@)
                &&& import_map_base(loaded.import_map) == directory_url_text(base_dir@)->0
                &&& parsed_import_map(base_dir@, json@) == Ok::<ImportMapContents, Seq<char>>(
                    ImportMapContents {
                        json: import_map_json(loaded.import_map),
                        diagnostics: texts(loaded.diagnostics@).to_multiset(),
                    },
                )
            },
            Err(ImportMapLoadError::InvalidBaseUrl) => !is_absolute(base_dir@),
            Err(ImportMapLoadError::InvalidImportMap(text)) => is_absolute(base_dir@)
                && parsed_import_map(base_dir@, json@) == Err::<ImportMapContents, Seq<char>>(text@),
            Err(_) => false,
        }),
        is_plain_directory(base_dir@) ==> (outcome matches Ok(loaded) ==> import_map_base(
            loaded.import_map,
        ) == "file://"@ + base_dir@ + "/"@),
        forall|before: Seq<char>, after: Seq<char>|
            base_dir@ == #[trigger] dotted(before, after) && is_plain_directory(
                before + "/"@ + after,
            ) ==> (outcome matches Ok(loaded) ==> import_map_base(loaded.import_map) == "file://"@ + (
            before + "/"@ + after) + "/"@),
{
    match directory_url(base_dir) {
        Some(_) => accept_parsed(parse_import_map(base_dir, json)),
        None => Err(ImportMapLoadError::InvalidBaseUrl),
    }
}

/// The JSON text and the base directory of an import map.
pub struct ImportMapSource {
    pub json: String,
    pub base_dir: String,
}

/// The JSON text and the base directory of an import map, as text.
pub struct ImportMapSourceView {
    pub json: Seq<char>,
    pub base_dir: Seq<char>,
}

impl View for ImportMapSource {
    type V = ImportMapSourceView;

    open spec fn view(&self) -> ImportMapSourceView {
        ImportMapSourceView { json: self.json@, base_dir: self.base_dir@ }
    }
}

/// What came of locating an import map's source, as text.
pub open spec fn source_outcome(outcome: Result<ImportMapSource, ImportMapLoadError>) -> Result<
    ImportMapSourceView,
    ImportMapLoadErrorView,
> {
    match outcome {
        Ok(source) => Ok(source@),
        Err(error) => Err(error@),
    }
}

/// Where a data URI holds the source, still encoded: the JSON text in the path and the base
/// directory in the query. A URI without a query has an empty base directory.
pub open spec fn encoded_source(parts: Result<UrlPartsView, Seq<char>>) -> Result<
    ImportMapSourceView,
    ImportMapLoadErrorView,
> {
    match parts {
        Ok(found) => Ok(
            ImportMapSourceView {
                json: found.path,
                base_dir: match found.query {
                    Some(query) => query,
                    None => ""@,
                },
            },
        ),
        Err(error) => Err(ImportMapLoadErrorView::InvalidUrl(error)),
    }
}

/// Takes the encoded source out of the parts of a data URI.
pub fn accept_parts(parts: Result<UrlParts, String>) -> (outcome: Result<
    ImportMapSource,
    ImportMapLoadError,
>)
    ensures
        source_outcome(outcome) == encoded_source(url_outcome(parts)),
        (match parts {
            Ok(found) => outcome matches Ok(source) && source.json@ == found.path@
                && source.base_dir@ == (match found.query {
                Some(query) => query@,
                None => ""@,
            }),
            Err(error) => outcome == Err::<ImportMapSource, ImportMapLoadError>(
                ImportMapLoadError::InvalidUrl(error),
            ),
        }),
{
    match parts {
        Ok(found) => {
            let base_dir = match found.query {
                Some(query) => query,
                None => "".to_owned(),
            };
            Ok(ImportMapSource { json: found.path, base_dir })
        },
        Err(error) => Err(ImportMapLoadError::InvalidUrl(error)),
    }
}

/// The source that the decoded parts make up; an undecodable JSON text is reported first.
pub open spec fn decoded_source(
    json: Result<Seq<char>, Seq<char>>,
    base_dir: Result<Seq<char>, Seq<char>>,
) -> Result<ImportMapSourceView, ImportMapLoadErrorView> {
    match (json, base_dir) {
        (Err(error), _) => Err(ImportMapLoadErrorView::InvalidEncoding(error)),
        (_, Err(error)) => Err(ImportMapLoadErrorView::InvalidEncoding(error)),
        (Ok(json), Ok(base_dir)) => Ok(ImportMapSourceView { json, base_dir }),
    }
}

/// Puts a source together from its decoded parts.
pub fn accept_decoded(json: Result<String, String>, base_dir: Result<String, String>) -> (outcome:
    Result<ImportMapSource, ImportMapLoadError>)
    ensures
        source_outcome(outcome) == decoded_source(text_outcome(json), text_outcome(base_dir)),
        (match (json, base_dir) {
            (Ok(json), Ok(base_dir)) => outcome == Ok::<ImportMapSource, ImportMapLoadError>(
                ImportMapSource { json, base_dir },
            ),
            (Err(error), _) => outcome == Err::<ImportMapSource, ImportMapLoadError>(
                ImportMapLoadError::InvalidEncoding(error),
            ),
            (Ok(_), Err(error)) => outcome == Err::<ImportMapSource, ImportMapLoadError>(
                ImportMapLoadError::InvalidEncoding(error),
            ),
        }),
{
    match json {
        Err(error) => Err(ImportMapLoadError::InvalidEncoding(error)),
        Ok(json) => match base_dir {
            Err(error) => Err(ImportMapLoadError::InvalidEncoding(error)),
            Ok(base_dir) => Ok(ImportMapSource { json, base_dir }),
        },
    }
}

/// The source that a data URI holds.
pub open spec fn data_uri_source(uri: Seq<char>) -> Result<
    ImportMapSourceView,
    ImportMapLoadErrorView,
> {
    match encoded_source(parsed_url(uri)) {
        Ok(encoded) => decoded_source(
            percent_decoded(encoded.json),
            percent_decoded(encoded.base_dir),
        ),
        Err(error) => Err(error),
    }
}

/// Reads the source that a data URI holds. A URI in the format
/// `data:{encodeURIComponent(json)}?{encodeURIComponent(base_dir)}` gives `json` and `base_dir`
/// back; one without a query gives an empty base directory.
pub fn read_data_uri(uri: &str) -> (outcome: Result<ImportMapSource, ImportMapLoadError>)
    ensures
        source_outcome(outcome) == data_uri_source(uri@),
        (match parsed_url(uri@) {
            Err(error) => outcome matches Err(ImportMapLoadError::InvalidUrl(text)) && text@ == error,
            Ok(parts) => match (
                percent_decoded(parts.path),
                percent_decoded(
                    match parts.query {
                        Some(query) => query,
                        None => ""@,
                    },
                ),
            ) {
                (Ok(json), Ok(base_dir)) => outcome matches Ok(source) && source.json@ == json
                    && source.base_dir@ == base_dir,
                (Err(error), _) => outcome matches Err(ImportMapLoadError::InvalidEncoding(text))
                    && text@ == error,
                (Ok(_), Err(error)) => outcome matches Err(ImportMapLoadError::InvalidEncoding(text))
                    && text@ == error,
            },
        }),
        forall|json: Seq<char>, base_dir: Seq<char>|
            uri@ == #[trigger] data_uri(encode_uri_component(json), encode_uri_component(base_dir))
                && encode_uri_component(json).len() + 5 <= u32::MAX ==> source_outcome(outcome)
                == Ok::<ImportMapSourceView, ImportMapLoadErrorView>(
                ImportMapSourceView { json, base_dir },
            ),
        forall|json: Seq<char>|
            uri@ == #[trigger] bare_data_uri(encode_uri_component(json)) ==> source_outcome(outcome)
                == Ok::<ImportMapSourceView, ImportMapLoadErrorView>(
                ImportMapSourceView { json, base_dir: ""@ },
            ),
{
    proof {
        assert forall|text: Seq<char>| crate::urls::is_component_text(
            #[trigger] encode_uri_component(text),
        ) by {
            lemma_encoded_component_text(text);
        }
        reveal_strlit("");
    }
    match accept_parts(parse_url(uri)) {
        Ok(encoded) => {
            let json = percent_decode(encoded.json.as_str());
            let base_dir = percent_decode(encoded.base_dir.as_str());
            accept_decoded(json, base_dir)
        },
        Err(error) => Err(error),
    }
}

/// The import map that a data URI holds.
pub open spec fn import_map_in_data_uri(uri: Seq<char>) -> Result<
    ImportMapView,
    ImportMapLoadErrorView,
> {
    match data_uri_source(uri) {
        Ok(source) => import_map_at(source.base_dir, source.json),
        Err(error) => Err(error),
    }
}

/// What the configured path asks for.
pub enum ImportMapRequest {
    /// No import map is configured.
    Absent,
    /// The path is a data URI, and nothing has to be read.
    DataUri,
    /// The path names a file that has to be read.
    File,
}

/// What a configured path asks for.
pub open spec fn request_of(maybe_path: Option<Seq<char>>) -> ImportMapRequest {
    match maybe_path {
        None => ImportMapRequest::Absent,
        Some(path) => if "data:"@.is_prefix_of(path) {
            ImportMapRequest::DataUri
        } else {
            ImportMapRequest::File
        },
    }
}

/// Tells what a configured path asks for.
pub fn import_map_request(maybe_path: &Option<String>) -> (request: ImportMapRequest)
    ensures
        request == request_of(optional_text(*maybe_path)),
        request is Absent <==> maybe_path is None,
        request is DataUri <==> maybe_path is Some && "data:"@.is_prefix_of(maybe_path->0@),
{
    match maybe_path {
        None => ImportMapRequest::Absent,
        Some(path) => if starts_with(path.as_str(), "data:") {
            ImportMapRequest::DataUri
        } else {
            ImportMapRequest::File
        },
    }
}

/// Where an import map file lies.
pub struct ImportMapLocation {
    /// The path of the file, from the working directory.
    pub path: String,
    /// The directory that holds the file; a path that ends in the root has none.
    pub base_dir: Option<String>,
}

/// A file in a directory that is taken from `base` lies in the joined directory.
proof fn lemma_file_in_joined(base: Seq<char>)
    ensures
        forall|directory: Seq<char>, name: Seq<char>|
            ends_in_name(directory) ==> joined_path(base, #[trigger] file_in(directory, name))
                == file_in(joined_path(base, directory), name) && ends_in_name(
                joined_path(base, directory),
            ),
{
    assert forall|directory: Seq<char>, name: Seq<char>| ends_in_name(directory) implies joined_path(
        base,
        #[trigger] file_in(directory, name),
    ) == file_in(joined_path(base, directory), name) && ends_in_name(
        joined_path(base, directory),
    ) by {
        assert(file_in(directory, name)[0] == directory[0]);
        assert(joined_path(base, file_in(directory, name)) =~= file_in(
            joined_path(base, directory),
            name,
        ));
        assert(joined_path(base, directory).last() == directory.last());
    }
}

/// Locates the import map file that is configured as `path`, for working directory
/// `current_dir`. A mere file name is looked for in the working directory, which is the base then.
pub fn locate_import_map(current_dir: &str, path: &str) -> (location: ImportMapLocation)
    ensures
        location.path@ == joined_path(current_dir@, path@),
        optional_text(location.base_dir) == parent_path(joined_path(current_dir@, path@)),
        is_absolute(path@) ==> location.path@ == path@,
        is_absolute(current_dir@) ==> is_absolute(location.path@) && (location.base_dir is Some
            ==> is_absolute(location.base_dir->0@)),
        ends_in_name(current_dir@) && is_file_name(path@) ==> location.path@ == file_in(
            current_dir@,
            path@,
        ) && optional_text(location.base_dir) == Some(current_dir@),
        forall|directory: Seq<char>, name: Seq<char>|
            path@ == #[trigger] file_in(directory, name) && ends_in_name(directory) && is_file_name(
                name,
            ) ==> optional_text(location.base_dir) == Some(joined_path(current_dir@, directory)),
{
    proof {
        lemma_file_in_joined(current_dir@);
    }
    let joined = join_paths(current_dir, path);
    let base_dir = parent_of(joined.as_str());
    ImportMapLocation { path: joined, base_dir }
}

/// An import map file that has been read.
pub struct ImportMapFile {
    /// The working directory that the file was located from.
    pub current_dir: String,
    /// The text of the file.
    pub json: String,
}

/// An import map file that has been read, as text.
pub struct ImportMapFileView {
    pub current_dir: Seq<char>,
    pub json: Seq<char>,
}

impl View for ImportMapFile {
    type V = ImportMapFileView;

    open spec fn view(&self) -> ImportMapFileView {
        ImportMapFileView { current_dir: self.current_dir@, json: self.json@ }
    }
}

/// What came of reading the file that an import map is in.
pub type FileOutcome = Result<ImportMapFile, String>;

/// What came of reading the file that an import map is in, as text.
pub open spec fn file_outcome(outcome: FileOutcome) -> Result<ImportMapFileView, Seq<char>> {
    match outcome {
        Ok(file) => Ok(file@),
        Err(error) => Err(error@),
    }
}

/// The directory of the file that is configured as `path`.
pub open spec fn directory_of_file(current_dir: Seq<char>, path: Seq<char>) -> Option<Seq<char>> {
    parent_path(joined_path(current_dir, path))
}

/// The import map of the file that is configured as `path`. Its base is the directory of the
/// file.
pub open spec fn import_map_in_file(
    path: Seq<char>,
    file: Result<ImportMapFileView, Seq<char>>,
) -> Result<ImportMapView, ImportMapLoadErrorView> {
    match file {
        Ok(found) => import_map_at(directory_of_file(found.current_dir, path)->0, found.json),
        Err(error) => Err(ImportMapLoadErrorView::UnreadableFile(error)),
    }
}

/// What came of loading an optional import map, as text.
pub open spec fn optional_load_outcome(
    outcome: Result<Option<LoadedImportMap>, ImportMapLoadError>,
) -> Result<Option<ImportMapView>, ImportMapLoadErrorView> {
    match outcome {
        Ok(Some(loaded)) => Ok(Some(loaded@)),
        Ok(None) => Ok(None),
        Err(error) => Err(error@),
    }
}

/// The outcome of loading an import map that is configured.
pub open spec fn present(outcome: Result<ImportMapView, ImportMapLoadErrorView>) -> Result<
    Option<ImportMapView>,
    ImportMapLoadErrorView,
> {
    match outcome {
        Ok(map) => Ok(Some(map)),
        Err(error) => Err(error),
    }
}

/// The import map that a configured path leads to. `file` is what came of reading the file,
/// and counts where the path names one.
pub open spec fn configured_import_map(
    maybe_path: Option<Seq<char>>,
    file: Option<Result<ImportMapFileView, Seq<char>>>,
) -> Result<Option<ImportMapView>, ImportMapLoadErrorView> {
    match request_of(maybe_path) {
        ImportMapRequest::Absent => Ok(None),
        ImportMapRequest::DataUri => present(import_map_in_data_uri(maybe_path->0)),
        ImportMapRequest::File => present(import_map_in_file(maybe_path->0, file->0)),
    }
}

/// What came of reading the file, where it was read, as text.
pub open spec fn optional_file_outcome(file: Option<FileOutcome>) -> Option<
    Result<ImportMapFileView, Seq<char>>,
> {
    match file {
        Some(outcome) => Some(file_outcome(outcome)),
        None => None,
    }
}

/// A file was read, but its path ends in the root and so lies in no directory.
pub open spec fn lies_nowhere(
    maybe_path: Option<Seq<char>>,
    file: Option<Result<ImportMapFileView, Seq<char>>>,
) -> bool {
    &&& request_of(maybe_path) is File
    &&& file matches Some(Ok(found)) && directory_of_file(found.current_dir, maybe_path->0) is None
}

/// A directory that starts with `./`, taken from an absolute one, has a segment `.` in it.
proof fn lemma_base_from_here(current_dir: Seq<char>)
    ensures
        forall|directory: Seq<char>, name: Seq<char>|
            #![trigger file_in(from_here(directory), name)]
            ends_in_name(directory) ==> ends_in_name(from_here(directory)) && !"data:"@.is_prefix_of(
                file_in(from_here(directory), name),
            ),
        forall|directory: Seq<char>|
            is_absolute(current_dir) && !is_absolute(directory) ==> joined_path(
                current_dir,
                #[trigger] from_here(directory),
            ) == dotted(without_slash(current_dir), directory) && joined_path(current_dir, directory)
                == without_slash(current_dir) + "/"@ + directory,
{
    reveal_strlit("./");
    reveal_strlit("data:");
    assert forall|directory: Seq<char>, name: Seq<char>|
        #![trigger file_in(from_here(directory), name)]
        ends_in_name(directory) implies ends_in_name(from_here(directory)) && !"data:"@.is_prefix_of(
        file_in(from_here(directory), name),
    ) by {
        assert(from_here(directory).last() == directory.last());
        assert(file_in(from_here(directory), name)[0] == '.');
        assert("data:"@[0] == 'd');
    }
    assert forall|directory: Seq<char>|
        is_absolute(current_dir) && !is_absolute(directory) implies joined_path(
        current_dir,
        #[trigger] from_here(directory),
    ) == dotted(without_slash(current_dir), directory) && joined_path(current_dir, directory)
        == without_slash(current_dir) + "/"@ + directory by {
        lemma_from_here(current_dir, directory);
    }
}

/// Every `data:` URI starts with `data:`.
proof fn lemma_data_uri_prefix()
    ensures
        forall|path: Seq<char>, query: Seq<char>|
            "data:"@.is_prefix_of(#[trigger] data_uri(path, query)),
        forall|path: Seq<char>| "data:"@.is_prefix_of(#[trigger] bare_data_uri(path)),
{
    assert forall|path: Seq<char>| "data:"@.is_prefix_of(#[trigger] bare_data_uri(path)) by {
        assert(bare_data_uri(path).subrange(0, "data:"@.len() as int) =~= "data:"@);
    }
    assert forall|path: Seq<char>, query: Seq<char>| "data:"@.is_prefix_of(
        #[trigger] data_uri(path, query),
    ) by {
        assert(data_uri(path, query).subrange(0, "data:"@.len() as int) =~= "data:"@);
    }
}

/// Loads the import map that is configured as `maybe_path`. Where the path names a file,
/// `file` is what came of reading it, and the file lies in a directory. From a data URI in the
/// format `data:{encodeURIComponent(json)}?{encodeURIComponent(base_dir)}` comes the import map
/// with the text `json` and the base directory `base_dir`; without a base directory the URI is
/// refused. A file that was located from an absolute working directory always gives a valid base.
pub fn load_import_map(maybe_path: Option<String>, file: Option<FileOutcome>) -> (outcome: Result<
    Option<LoadedImportMap>,
    ImportMapLoadError,
>)
    requires
        request_of(optional_text(maybe_path)) is File ==> file is Some,
        !lies_nowhere(optional_text(maybe_path), optional_file_outcome(file)),
    ensures
        optional_load_outcome(outcome) == configured_import_map(
            optional_text(maybe_path),
            optional_file_outcome(file),
        ),
        forall|json: Seq<char>, base_dir: Seq<char>|
            optional_text(maybe_path) == Some(
                #[trigger] data_uri(encode_uri_component(json), encode_uri_component(base_dir)),
            ) && encode_uri_component(json).len() + 5 <= u32::MAX ==> optional_load_outcome(outcome)
                == present(import_map_at(base_dir, json)),
        forall|json: Seq<char>|
            optional_text(maybe_path) == Some(#[trigger] bare_data_uri(encode_uri_component(json)))
                ==> outcome matches Err(ImportMapLoadError::InvalidBaseUrl),
        outcome matches Ok(Some(loaded)) ==> is_directory_url(loaded@.base_url),
        request_of(optional_text(maybe_path)) is File && (file->0 matches Ok(found) && is_absolute(
            found.current_dir@,
        )) ==> !(outcome matches Err(ImportMapLoadError::InvalidBaseUrl)),
        (match (maybe_path, file) {
            (Some(path), Some(Ok(found))) if !"data:"@.is_prefix_of(path@) => {
                let base_dir = parent_path(joined_path(found.current_dir@, path@))->0;
                match outcome {
                    Ok(Some(loaded)) => {
                        &&& is_absolute(base_dir)
                        &&& import_map_base(loaded.import_map) == directory_url_text(base_dir)->0
                        &&& parsed_import_map(base_dir, found.json@) == Ok::<
                            ImportMapContents,
                            Seq<char>,
                        >(
                            ImportMapContents {
                                json: import_map_json(loaded.import_map),
                                diagnostics: texts(loaded.diagnostics@).to_multiset(),
                            },
                        )
                    },
                    Err(ImportMapLoadError::InvalidBaseUrl) => !is_absolute(base_dir),
                    Err(ImportMapLoadError::InvalidImportMap(text)) => is_absolute(base_dir)
                        && parsed_import_map(base_dir, found.json@) == Err::<
                        ImportMapContents,
                        Seq<char>,
                    >(text@),
                    _ => false,
                }
            },
            (Some(path), Some(Err(error))) if !"data:"@.is_prefix_of(path@) => outcome == Err::<
                Option<LoadedImportMap>,
                ImportMapLoadError,
            >(ImportMapLoadError::UnreadableFile(error)),
            (Some(path), _) => {
                match data_uri_source(path@) {
                    Err(error) => outcome matches Err(found) && found@ == error,
                    Ok(source) => match outcome {
                        Ok(Some(loaded)) => {
                            &&& is_absolute(source.base_dir)
                            &&& import_map_base(loaded.import_map) == directory_url_text(
                                source.base_dir,
                            )->0
                            &&& parsed_import_map(source.base_dir, source.json) == Ok::<
                                ImportMapContents,
                                Seq<char>,
                            >(
                                ImportMapContents {
                                    json: import_map_json(loaded.import_map),
                                    diagnostics: texts(loaded.diagnostics@).to_multiset(),
                                },
                            )
                        },
                        Err(ImportMapLoadError::InvalidBaseUrl) => !is_absolute(source.base_dir),
                        Err(ImportMapLoadError::InvalidImportMap(text)) => is_absolute(
                            source.base_dir,
                        ) && parsed_import_map(source.base_dir, source.json) == Err::<
                            ImportMapContents,
                            Seq<char>,
                        >(text@),
                        _ => false,
                    },
                }
            },
            (None, _) => outcome == Ok::<Option<LoadedImportMap>, ImportMapLoadError>(None),
        }),
        forall|directory: Seq<char>, name: Seq<char>|
            maybe_path is Some && maybe_path->0@ == #[trigger] file_in(directory, name)
                && ends_in_name(directory) && is_file_name(name) && !"data:"@.is_prefix_of(
                maybe_path->0@,
            ) && file is Some && file->0 is Ok ==> (outcome matches Ok(Some(loaded))
                ==> import_map_base(loaded.import_map) == directory_url_text(
                joined_path(file->0->Ok_0.current_dir@, directory),
            )->0),
        forall|directory: Seq<char>, name: Seq<char>|
            maybe_path is Some && maybe_path->0@ == #[trigger] file_in(from_here(directory), name)
                && ends_in_name(directory) && is_file_name(name) && !is_absolute(directory)
                && file is Some && file->0 is Ok && is_absolute(file->0->Ok_0.current_dir@)
                && is_plain_directory(joined_path(file->0->Ok_0.current_dir@, directory)) ==> (
            outcome matches Ok(Some(loaded)) ==> import_map_base(loaded.import_map) == "file://"@
                + joined_path(file->0->Ok_0.current_dir@, directory) + "/"@),
{
    proof {
        lemma_data_uri_prefix();
        reveal_strlit("");
        if file is Some && file->0 is Ok {
            lemma_base_from_here(file->0->Ok_0.current_dir@);
        }
    }
    let source = match import_map_request(&maybe_path) {
        ImportMapRequest::Absent => {
            return Ok(None);
        },
        ImportMapRequest::DataUri => {
            let path = maybe_path.unwrap();
            match read_data_uri(path.as_str()) {
                Ok(source) => source,
                Err(error) => {
                    return Err(error);
                },
            }
        },
        ImportMapRequest::File => match file.unwrap() {
            Ok(found) => {
                let path = maybe_path.unwrap();
                let location = locate_import_map(found.current_dir.as_str(), path.as_str());
                ImportMapSource { json: found.json, base_dir: location.base_dir.unwrap() }
            },
            Err(error) => {
                return Err(ImportMapLoadError::UnreadableFile(error));
            },
        },
    };
    match load_import_map_at(source.base_dir.as_str(), source.json.as_str()) {
        Ok(loaded) => Ok(Some(loaded)),
        Err(error) => Err(error),
    }
}

/// Loads the import map that is configured as `maybe_path`, or gives `None` where a file was read
/// that lies in no directory.
pub fn try_load_import_map(maybe_path: Option<String>, file: Option<FileOutcome>) -> (outcome:
    Option<Result<Option<LoadedImportMap>, ImportMapLoadError>>)
    requires
        request_of(optional_text(maybe_path)) is File ==> file is Some,
    ensures
        outcome is None <==> lies_nowhere(optional_text(maybe_path), optional_file_outcome(file)),
        outcome is Some ==> optional_load_outcome(outcome->0) == configured_import_map(
            optional_text(maybe_path),
            optional_file_outcome(file),
        ),
        forall|json: Seq<char>, base_dir: Seq<char>|
            optional_text(maybe_path) == Some(
                #[trigger] data_uri(encode_uri_component(json), encode_uri_component(base_dir)),
            ) && encode_uri_component(json).len() + 5 <= u32::MAX ==> outcome is Some
                && optional_load_outcome(outcome->0) == present(import_map_at(base_dir, json)),
        forall|json: Seq<char>|
            optional_text(maybe_path) == Some(#[trigger] bare_data_uri(encode_uri_component(json)))
                ==> outcome matches Some(Err(ImportMapLoadError::InvalidBaseUrl)),
        outcome matches Some(Ok(Some(loaded))) ==> is_directory_url(loaded@.base_url),
        request_of(optional_text(maybe_path)) is File && (file->0 matches Ok(found) && is_absolute(
            found.current_dir@,
        )) ==> !(outcome matches Some(Err(ImportMapLoadError::InvalidBaseUrl))),
        outcome is None <==> maybe_path is Some && !"data:"@.is_prefix_of(maybe_path->0@) && file->0
            is Ok && parent_path(joined_path(file->0->Ok_0.current_dir@, maybe_path->0@)) is None,
        maybe_path is None ==> outcome == Some(
            Ok::<Option<LoadedImportMap>, ImportMapLoadError>(None),
        ),
        (match (maybe_path, file) {
            (Some(path), Some(Ok(found))) if !"data:"@.is_prefix_of(path@) => outcome matches Some(
                Ok(maybe_loaded),
            ) ==> maybe_loaded is Some && import_map_base(maybe_loaded->0.import_map)
                == directory_url_text(
                parent_path(joined_path(found.current_dir@, path@))->0,
            )->0 && parsed_import_map(
                parent_path(joined_path(found.current_dir@, path@))->0,
                found.json@,
            ) is Ok,
            (Some(path), Some(Err(error))) if !"data:"@.is_prefix_of(path@) => outcome == Some(
                Err::<Option<LoadedImportMap>, ImportMapLoadError>(
                    ImportMapLoadError::UnreadableFile(error),
                ),
            ),
            _ => true,
        }),
{
    proof {
        lemma_data_uri_prefix();
    }
    if let ImportMapRequest::File = import_map_request(&maybe_path) {
        if let (Some(path), Some(Ok(found))) = (&maybe_path, &file) {
            let location = locate_import_map(found.current_dir.as_str(), path.as_str());
            if location.base_dir.is_none() {
                return None;
            }
        }
    }
    Some(load_import_map(maybe_path, file))
}

/// One line for each diagnostic, with line breaks between the lines.
pub open spec fn diagnostic_lines(diagnostics: Seq<Seq<char>>) -> Seq<char>
    decreases diagnostics.len(),
{
    if diagnostics.len() == 0 {
        Seq::empty()
    } else if diagnostics.len() == 1 {
        "  - "@ + diagnostics[0]
    } else {
        diagnostic_lines(diagnostics.drop_last()) + "\n"@ + ("  - "@ + diagnostics.last())
    }
}

/// The warning about the diagnostics of an import map, if there are any.
pub open spec fn diagnostics_warning(diagnostics: Seq<Seq<char>>) -> Option<Seq<char>> {
    if diagnostics.len() == 0 {
        None
    } else {
        Some("Import map diagnostics:\n"@ + diagnostic_lines(diagnostics))
    }
}

/// Writes the warning about the diagnostics of an import map; without diagnostics there is
/// nothing to warn about.
pub fn import_map_diagnostics_message(diagnostics: &Vec<String>) -> (warning: Option<String>)
    ensures
        optional_text(warning) == diagnostics_warning(texts(diagnostics@)),
{
    if diagnostics.len() == 0 {
        return None;
    }
    let ghost all = texts(diagnostics@);
    let mut lines = concat3("  - ", diagnostics[0].as_str(), "");
    let mut i: usize = 1;
    assert(lines@ =~= "  - "@ + all[0]) by {
        reveal_strlit("");
    }
    assert(all.take(1) =~= seq![all[0]]);
    while i < diagnostics.len()
        invariant
            1 <= i <= diagnostics.len(),
            all == texts(diagnostics@),
            lines@ == diagnostic_lines(all.take(i as int)),
        decreases diagnostics.len() - i,
    {
        lines.append("\n");
        lines.append("  - ");
        lines.append(diagnostics[i].as_str());
        proof {
            let longer = all.take(i + 1);
            assert(longer.drop_last() =~= all.take(i as int));
            assert(lines@ =~= diagnostic_lines(all.take(i as int)) + "\n"@ + ("  - "@
                + longer.last()));
        }
        i = i + 1;
    }
    assert(all.take(i as int) =~= all);
    let mut warning = "Import map diagnostics:\n".to_owned();
    warning.append(lines.as_str());
    Some(warning)
}

/// `text` has `line` as a line of its own from position `start`.
pub open spec fn is_line_at(text: Seq<char>, start: int, line: Seq<char>) -> bool {
    &&& 0 <= start
    &&& start + line.len() <= text.len()
    &&& text.subrange(start, start + line.len()) == line
    &&& start > 0 ==> text[start - 1] == '\n'
    &&& start + line.len() < text.len() ==> text[start + line.len()] == '\n'
}

/// Every diagnostic has a line of its own in the warning, below its first line.
pub proof fn law_every_diagnostic_is_listed(diagnostics: Seq<Seq<char>>, i: int)
    requires
        0 <= i < diagnostics.len(),
    ensures
        diagnostics_warning(diagnostics) is Some,
        exists|start: int|
            0 < start && #[trigger] is_line_at(
                diagnostics_warning(diagnostics)->0,
                start,
                "  - "@ + diagnostics[i],
            ),
{
    reveal_strlit("Import map diagnostics:\n");
    let header = "Import map diagnostics:\n"@;
    let lines = diagnostic_lines(diagnostics);
    let line = "  - "@ + diagnostics[i];
    let start = lemma_listed(diagnostics, i);
    let warning = diagnostics_warning(diagnostics)->0;
    let at = header.len() + start;
    assert(warning.subrange(at, at + line.len()) =~= lines.subrange(start, start + line.len()));
    assert(warning[at - 1] == '\n') by {
        if start > 0 {
            assert(warning[at - 1] == lines[start - 1]);
        } else {
            assert(warning[at - 1] == header[header.len() - 1]);
        }
    }
    assert(at + line.len() < warning.len() ==> warning[at + line.len()] == lines[start
        + line.len()]);
    assert(is_line_at(warning, at, line));
}

proof fn lemma_listed(diagnostics: Seq<Seq<char>>, i: int) -> (start: int)
    requires
        0 <= i < diagnostics.len(),
    ensures
        is_line_at(diagnostic_lines(diagnostics), start, "  - "@ + diagnostics[i]),
    decreases diagnostics.len(),
{
    reveal_strlit("\n");
    let lines = diagnostic_lines(diagnostics);
    let line = "  - "@ + diagnostics[i];
    if diagnostics.len() == 1 {
        assert(lines.subrange(0, line.len() as int) =~= line);
        0
    } else {
        let before = diagnostic_lines(diagnostics.drop_last());
        if i == diagnostics.len() - 1 {
            let start = before.len() as int + 1;
            assert(lines.subrange(start, start + line.len()) =~= line);
            start
        } else {
            let start = lemma_listed(diagnostics.drop_last(), i);
            assert(lines.subrange(start, start + line.len()) =~= before.subrange(
                start,
                start + line.len(),
            ));
            start
        }
    }
}

} // verus!
