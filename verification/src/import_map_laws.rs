//! What holds of the import map of a worker, wherever it comes from.

use vstd::prelude::*;
use vstd::string::*;

use crate::import_maps::{
    configured_import_map, data_uri_source, decoded_source, diagnostics_warning, directory_of_file,
    encoded_source, file_outcome, import_map_at, import_map_base, import_map_in_data_uri,
    import_map_in_file, import_map_json, is_directory_url, lies_nowhere, load_outcome,
    optional_file_outcome, optional_load_outcome, parsed_import_map, present, request_of,
    source_outcome, ImportMapFile, ImportMapFileView, ImportMapLoadError,
    ImportMapLoadErrorView, ImportMapRequest, ImportMapSource, ImportMapSourceView, ImportMapView,
    LoadedImportMap,
};
use crate::text::texts;
use crate::urls::{
    directory_url_text, is_absolute, joined_path, parent_path, parsed_url, percent_decoded,
    url_outcome, UrlParts, UrlPartsView,
};

verus! {

/// What a path asks for is decided by its first characters alone: `data:` makes it a data URI, and
/// anything else a file.
pub proof fn law_requests_are_told_apart_by_their_prefix(path: Seq<char>, rest: Seq<char>)
    ensures
        request_of(None) == ImportMapRequest::Absent,
        request_of(Some("data:"@ + rest)) == ImportMapRequest::DataUri,
        request_of(Some(path)) == ImportMapRequest::DataUri <==> "data:"@.is_prefix_of(path),
        request_of(Some(path)) == ImportMapRequest::File <==> !"data:"@.is_prefix_of(path),
{
    assert(("data:"@ + rest).subrange(0, "data:"@.len() as int) =~= "data:"@);
}

/// An import map is loaded exactly from an absolute base and a text that is an import map. Then its
/// base is the URL of the base directory and it holds what is in the text. Otherwise the base is
/// reported before the text.
pub proof fn law_import_map_is_loaded_whole(base_dir: Seq<char>, json: Seq<char>)
    ensures
        import_map_at(base_dir, json) is Ok <==> is_absolute(base_dir) && parsed_import_map(
            base_dir,
            json,
        ) is Ok,
        import_map_at(base_dir, json) matches Ok(map) ==> {
            &&& map.base_url == directory_url_text(base_dir)->0
            &&& map.contents == parsed_import_map(base_dir, json)->Ok_0
        },
        !is_absolute(base_dir) ==> import_map_at(base_dir, json) == Err::<
            ImportMapView,
            ImportMapLoadErrorView,
        >(ImportMapLoadErrorView::InvalidBaseUrl),
        is_absolute(base_dir) && parsed_import_map(base_dir, json) is Err ==> import_map_at(
            base_dir,
            json,
        ) == Err::<ImportMapView, ImportMapLoadErrorView>(
            ImportMapLoadErrorView::InvalidImportMap(parsed_import_map(base_dir, json)->Err_0),
        ),
{
}

/// The import map of a file has the directory of the file as its base, whatever the path looks like:
/// the directory of the path that is joined to the working directory. The text is that of the file.
pub proof fn law_file_import_map_starts_from_the_directory_of_the_file(
    path: Seq<char>,
    file: ImportMapFileView,
    directory: Seq<char>,
)
    requires
        !"data:"@.is_prefix_of(path),
        parent_path(joined_path(file.current_dir, path)) == Some(directory),
    ensures
        ({
            let outcome = configured_import_map(Some(path), Some(Ok(file)));
            &&& outcome matches Ok(maybe_map) ==> maybe_map is Some && maybe_map->0.base_url
                == directory_url_text(directory)->0
            &&& outcome is Ok <==> is_absolute(directory) && parsed_import_map(
                directory,
                file.json,
            ) is Ok
            &&& outcome matches Ok(maybe_map) ==> maybe_map->0.contents == parsed_import_map(
                directory,
                file.json,
            )->Ok_0
            &&& outcome == present(import_map_at(directory, file.json))
        }),
{
}

/// Two files in one directory, however their paths are written, give their texts the same base.
pub proof fn law_files_in_one_directory_have_one_base(
    path_a: Seq<char>,
    file_a: ImportMapFileView,
    path_b: Seq<char>,
    file_b: ImportMapFileView,
)
    requires
        !"data:"@.is_prefix_of(path_a),
        !"data:"@.is_prefix_of(path_b),
        parent_path(joined_path(file_a.current_dir, path_a)) == parent_path(
            joined_path(file_b.current_dir, path_b),
        ),
        file_a.json == file_b.json,
    ensures
        configured_import_map(Some(path_a), Some(Ok(file_a))) == configured_import_map(
            Some(path_b),
            Some(Ok(file_b)),
        ),
{
}

/// A file and a data URI that hold the same text and the same base directory give the same import
/// map, or fail alike.
pub proof fn law_files_and_data_uris_agree(
    path: Seq<char>,
    file: ImportMapFileView,
    uri: Seq<char>,
    unread: Option<Result<ImportMapFileView, Seq<char>>>,
)
    requires
        !"data:"@.is_prefix_of(path),
        parent_path(joined_path(file.current_dir, path)) is Some,
        "data:"@.is_prefix_of(uri),
        parsed_url(uri) matches Ok(parts) && parts.query is Some && percent_decoded(parts.path)
            == Ok::<Seq<char>, Seq<char>>(file.json) && percent_decoded(parts.query->0) == Ok::<
            Seq<char>,
            Seq<char>,
        >(parent_path(joined_path(file.current_dir, path))->0),
    ensures
        configured_import_map(Some(path), Some(Ok(file))) == configured_import_map(
            Some(uri),
            unread,
        ),
{
}

/// Without a path there is no import map and no failure. A file that could not be read is reported
/// as it was.
pub proof fn law_nothing_is_made_up(
    path: Seq<char>,
    error: Seq<char>,
    file: Option<Result<ImportMapFileView, Seq<char>>>,
)
    ensures
        configured_import_map(None, file) == Ok::<Option<ImportMapView>, ImportMapLoadErrorView>(
            None,
        ),
        !(configured_import_map(Some(path), file) == Ok::<
            Option<ImportMapView>,
            ImportMapLoadErrorView,
        >(None)),
        !"data:"@.is_prefix_of(path) ==> configured_import_map(Some(path), Some(Err(error))) == Err::<
            Option<ImportMapView>,
            ImportMapLoadErrorView,
        >(ImportMapLoadErrorView::UnreadableFile(error)),
{
}

/// A data URI is read in order: the URL, then the text in its path, then the base directory in its
/// query, which is empty where there is no query. The first of them that fails is reported as it is.
pub proof fn law_data_uri_is_read_in_order(uri: Seq<char>, file: Option<
    Result<ImportMapFileView, Seq<char>>,
>)
    requires
        "data:"@.is_prefix_of(uri),
    ensures
        (match parsed_url(uri) {
            Err(error) => configured_import_map(Some(uri), file) == Err::<
                Option<ImportMapView>,
                ImportMapLoadErrorView,
            >(ImportMapLoadErrorView::InvalidUrl(error)),
            Ok(parts) => {
                let query = match parts.query {
                    Some(query) => query,
                    None => ""@,
                };
                match (percent_decoded(parts.path), percent_decoded(query)) {
                    (Err(error), _) => configured_import_map(Some(uri), file) == Err::<
                        Option<ImportMapView>,
                        ImportMapLoadErrorView,
                    >(ImportMapLoadErrorView::InvalidEncoding(error)),
                    (Ok(_), Err(error)) => configured_import_map(Some(uri), file) == Err::<
                        Option<ImportMapView>,
                        ImportMapLoadErrorView,
                    >(ImportMapLoadErrorView::InvalidEncoding(error)),
                    (Ok(json), Ok(base_dir)) => {
                        &&& data_uri_source(uri) == Ok::<ImportMapSourceView, ImportMapLoadErrorView>(
                            ImportMapSourceView { json, base_dir },
                        )
                        &&& configured_import_map(Some(uri), file) == present(
                            import_map_at(base_dir, json),
                        )
                    },
                }
            },
        }),
        present(import_map_in_data_uri(uri)) == configured_import_map(Some(uri), file),
{
}

/// The path of a data URI is the text and its query is the base directory, not the other way round.
pub proof fn law_data_uri_parts_have_their_meaning(
    parts: UrlPartsView,
    json: Seq<char>,
    base_dir: Seq<char>,
    error: Seq<char>,
    other: Result<Seq<char>, Seq<char>>,
)
    ensures
        encoded_source(Ok(parts)) matches Ok(source) && source.json == parts.path && source.base_dir
            == (match parts.query {
            Some(query) => query,
            None => ""@,
        }),
        encoded_source(Err(error)) == Err::<ImportMapSourceView, ImportMapLoadErrorView>(
            ImportMapLoadErrorView::InvalidUrl(error),
        ),
        decoded_source(Ok(json), Ok(base_dir)) == Ok::<ImportMapSourceView, ImportMapLoadErrorView>(
            ImportMapSourceView { json, base_dir },
        ),
        decoded_source(Err(error), other) == Err::<ImportMapSourceView, ImportMapLoadErrorView>(
            ImportMapLoadErrorView::InvalidEncoding(error),
        ),
        decoded_source(Ok(json), Err(error)) == Err::<ImportMapSourceView, ImportMapLoadErrorView>(
            ImportMapLoadErrorView::InvalidEncoding(error),
        ),
{
}

/// A file lies nowhere exactly when it was read and its path has no parent.
pub proof fn law_only_the_root_lies_nowhere(
    maybe_path: Option<Seq<char>>,
    file: Option<Result<ImportMapFileView, Seq<char>>>,
)
    ensures
        lies_nowhere(maybe_path, file) <==> {
            &&& maybe_path is Some
            &&& !"data:"@.is_prefix_of(maybe_path->0)
            &&& file is Some
            &&& file->0 is Ok
            &&& parent_path(joined_path(file->0->Ok_0.current_dir, maybe_path->0)) is None
        },
        maybe_path is Some && file is Some && file->0 is Ok ==> directory_of_file(
            file->0->Ok_0.current_dir,
            maybe_path->0,
        ) == parent_path(joined_path(file->0->Ok_0.current_dir, maybe_path->0)),
        maybe_path is Some && file is Some && !"data:"@.is_prefix_of(maybe_path->0)
            ==> configured_import_map(maybe_path, file) == present(
            import_map_in_file(maybe_path->0, file->0),
        ),
{
}

/// Each error is reported with the message that it came with, and an invalid base with one of its
/// own.
pub proof fn law_errors_keep_their_messages(error: ImportMapLoadError)
    ensures
        (match error {
            ImportMapLoadError::UnreadableFile(text) => error@
                == ImportMapLoadErrorView::UnreadableFile(text@) && error@.message() == text@,
            ImportMapLoadError::InvalidUrl(text) => error@ == ImportMapLoadErrorView::InvalidUrl(
                text@,
            ) && error@.message() == text@,
            ImportMapLoadError::InvalidEncoding(text) => error@
                == ImportMapLoadErrorView::InvalidEncoding(text@) && error@.message() == text@,
            ImportMapLoadError::InvalidBaseUrl => error@ == ImportMapLoadErrorView::InvalidBaseUrl
                && error@.message() == "invalid import map base url"@,
            ImportMapLoadError::InvalidImportMap(text) => error@
                == ImportMapLoadErrorView::InvalidImportMap(text@) && error@.message() == text@,
        }),
{
}

/// What came of a step is known by what it holds, whole and unchanged.
pub proof fn law_outcomes_are_known_by_what_they_hold(
    loaded: LoadedImportMap,
    error: ImportMapLoadError,
    source: ImportMapSource,
    file: ImportMapFile,
    parts: UrlParts,
    text: String,
)
    ensures
        loaded@.base_url == import_map_base(loaded.import_map),
        loaded@.contents.json == import_map_json(loaded.import_map),
        loaded@.contents.diagnostics == texts(loaded.diagnostics@).to_multiset(),
        load_outcome(Ok(loaded)) == Ok::<ImportMapView, ImportMapLoadErrorView>(loaded@),
        load_outcome(Err(error)) == Err::<ImportMapView, ImportMapLoadErrorView>(error@),
        optional_load_outcome(Ok(Some(loaded))) == Ok::<
            Option<ImportMapView>,
            ImportMapLoadErrorView,
        >(Some(loaded@)),
        optional_load_outcome(Ok(None)) == Ok::<Option<ImportMapView>, ImportMapLoadErrorView>(None),
        optional_load_outcome(Err(error)) == Err::<Option<ImportMapView>, ImportMapLoadErrorView>(
            error@,
        ),
        source@.json == source.json@,
        source@.base_dir == source.base_dir@,
        source_outcome(Ok(source)) == Ok::<ImportMapSourceView, ImportMapLoadErrorView>(source@),
        source_outcome(Err(error)) == Err::<ImportMapSourceView, ImportMapLoadErrorView>(error@),
        file@.json == file.json@,
        file@.current_dir == file.current_dir@,
        file_outcome(Ok(file)) == Ok::<ImportMapFileView, Seq<char>>(file@),
        file_outcome(Err(text)) == Err::<ImportMapFileView, Seq<char>>(text@),
        optional_file_outcome(Some(Ok(file))) == Some(Ok::<ImportMapFileView, Seq<char>>(file@)),
        optional_file_outcome(Some(Err(text))) == Some(Err::<ImportMapFileView, Seq<char>>(text@)),
        optional_file_outcome(None) == None::<Result<ImportMapFileView, Seq<char>>>,
        parts@.path == parts.path@,
        parts.query is Some ==> parts@.query == Some(parts.query->0@),
        parts.query is None ==> parts@.query is None,
        url_outcome(Ok(parts)) == Ok::<UrlPartsView, Seq<char>>(parts@),
        url_outcome(Err(text)) == Err::<UrlPartsView, Seq<char>>(text@),
{
}

/// A configured import map is there with what was loaded, or its failure is.
pub proof fn law_present_import_maps_are_those_loaded(map: ImportMapView, error: ImportMapLoadErrorView)
    ensures
        present(Ok(map)) == Ok::<Option<ImportMapView>, ImportMapLoadErrorView>(Some(map)),
        present(Err(error)) == Err::<Option<ImportMapView>, ImportMapLoadErrorView>(error),
        is_directory_url(map.base_url) <==> "file:///"@.is_prefix_of(map.base_url)
            && map.base_url.last() == '/',
{
}

/// The warning starts with its heading, and each diagnostic adds one line to what is there, in the
/// order in which they come. Without diagnostics there is no warning.
pub proof fn law_each_diagnostic_adds_its_line(diagnostics: Seq<Seq<char>>, diagnostic: Seq<char>)
    ensures
        diagnostics_warning(Seq::empty()) is None,
        diagnostics_warning(diagnostics) is None <==> diagnostics.len() == 0,
        diagnostics_warning(seq![diagnostic]) == Some(
            "Import map diagnostics:\n"@ + ("  - "@ + diagnostic),
        ),
        diagnostics.len() > 0 ==> diagnostics_warning(diagnostics.push(diagnostic)) == Some(
            diagnostics_warning(diagnostics)->0 + "\n"@ + ("  - "@ + diagnostic),
        ),
{
    if diagnostics.len() > 0 {
        let longer = diagnostics.push(diagnostic);
        assert(longer.drop_last() =~= diagnostics);
        assert(diagnostics_warning(longer)->0 =~= diagnostics_warning(diagnostics)->0 + "\n"@ + (
        "  - "@ + diagnostic));
    }
}

} // verus!
