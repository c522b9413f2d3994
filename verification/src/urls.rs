//! Locations: directory paths, `file:` URLs and percent-encoded text.
//!
//! Paths are Unix paths, held as text.

use vstd::prelude::*;
use vstd::utf8::*;

use crate::text::{optional_text, text_outcome};

verus! {

/// A path is absolute when it starts at the root directory.
pub open spec fn is_absolute(path: Seq<char>) -> bool {
    path.len() > 0 && path[0] == '/'
}

/// A path that is taken from the directory `base`. An absolute path stands by itself; a relative one
/// follows the base, after a slash where the base does not bring one.
pub open spec fn joined_path(base: Seq<char>, path: Seq<char>) -> Seq<char> {
    if is_absolute(path) {
        path
    } else if base.len() == 0 || base.last() == '/' {
        base + path
    } else {
        base + "/"@ + path
    }
}

/// Calls `std::path::Path::join`. An absolute `path` replaces `base`; otherwise `path` is
/// adjoined to `base`, with one slash between them unless `base` is empty or ends in a slash.
#[verifier::external_body]
pub(crate) fn join_paths(base: &str, path: &str) -> (joined: String)
    ensures
        joined@ == joined_path(base@, path@),
{
    std::path::Path::new(base).join(path).to_string_lossy().into_owned()
}

/// A file name that is no dot segment.
pub open spec fn is_file_name(name: Seq<char>) -> bool {
    &&& !name.contains('/')
    &&& exists|i: int| 0 <= i < name.len() && #[trigger] name[i] != '.'
}

/// The path ends in a name, not in a slash or a dot.
pub open spec fn ends_in_name(path: Seq<char>) -> bool {
    path.len() > 0 && path.last() != '/' && path.last() != '.'
}

/// The path of a file in a directory.
pub open spec fn file_in(directory: Seq<char>, name: Seq<char>) -> Seq<char> {
    directory + "/"@ + name
}

/// What `std::path::Path::parent` says of a path.
pub uninterp spec fn parent_path(path: Seq<char>) -> Option<Seq<char>>;

/// Calls `std::path::Path::parent`: the path without its final component, or `None` for the
/// empty path and for the root. The parent of an absolute path is absolute, and the parent of a
/// file in a directory is the directory.
#[verifier::external_body]
pub(crate) fn parent_of(path: &str) -> (parent: Option<String>)
    ensures
        optional_text(parent) == parent_path(path@),
        path@.len() == 0 ==> parent is None,
        is_absolute(path@) && parent is Some ==> is_absolute(parent->0@),
        forall|directory: Seq<char>, name: Seq<char>|
            path@ == #[trigger] file_in(directory, name) && ends_in_name(directory) && is_file_name(
                name,
            ) ==> parent is Some && parent->0@ == directory,
{
    std::path::Path::new(path).parent().map(|p| p.to_string_lossy().into_owned())
}

/// The text of the `file:` URL that `url::Url::from_directory_path` makes of a path.
pub uninterp spec fn directory_url_text(path: Seq<char>) -> Option<Seq<char>>;

/// An absolute path whose segments a URL holds unencoded: they are made of ASCII letters, digits,
/// `-`, `_` and dots, none is empty and none starts with a dot.
pub open spec fn is_plain_directory(path: Seq<char>) -> bool {
    &&& is_absolute(path)
    &&& path.last() != '/'
    &&& forall|i: int|
        0 <= i < path.len() ==> {
            ||| is_alphanumeric(#[trigger] path[i])
            ||| path[i] == '-'
            ||| path[i] == '_'
            ||| path[i] == '.'
            ||| path[i] == '/'
        }
    &&& forall|i: int|
        0 <= i < path.len() - 1 && #[trigger] path[i] == '/' ==> path[i + 1] != '/' && path[i + 1]
            != '.'
}

/// A path with a segment `.` in it.
pub open spec fn dotted(before: Seq<char>, after: Seq<char>) -> Seq<char> {
    before + "/./"@ + after
}

/// Calls `url::Url::from_directory_path`. It succeeds exactly on absolute paths, and the
/// URL's text starts with `file:///` and ends with a slash. A slash at the end of the path makes
/// no difference, the text of a plain directory is its path, and a segment `.` is left out.
#[verifier::external_body]
pub(crate) fn directory_url(path: &str) -> (url: Option<String>)
    ensures
        optional_text(url) == directory_url_text(path@),
        url is Some <==> is_absolute(path@),
        url is Some ==> "file:///"@.is_prefix_of(url->0@) && url->0@.last() == '/',
        url is Some ==> optional_text(url) == directory_url_text(path@ + "/"@),
        is_plain_directory(path@) ==> url is Some && url->0@ == "file://"@ + path@ + "/"@,
        forall|before: Seq<char>, after: Seq<char>|
            path@ == #[trigger] dotted(before, after) && is_plain_directory(
                before + "/"@ + after,
            ) ==> url is Some && url->0@ == "file://"@ + (before + "/"@ + after) + "/"@,
{
    url::Url::from_directory_path(path).ok().map(String::from)
}

/// A file name that a URL holds unencoded: ASCII letters, digits, `-`, `_` and dots, of
/// which at least one character is no dot.
pub open spec fn is_plain_file_name(name: Seq<char>) -> bool {
    &&& forall|i: int|
        0 <= i < name.len() ==> {
            ||| is_alphanumeric(#[trigger] name[i])
            ||| name[i] == '-'
            ||| name[i] == '_'
            ||| name[i] == '.'
        }
    &&& exists|i: int| 0 <= i < name.len() && #[trigger] name[i] != '.'
}

/// An ASCII letter or digit.
pub open spec fn is_alphanumeric(c: char) -> bool {
    'a' <= c <= 'z' || 'A' <= c <= 'Z' || '0' <= c <= '9'
}

/// Calls `url::Url::join` on the URL that `url::Url::from_directory_path` makes of
/// `directory`. A plain file name is appended to the text of the directory's URL.
#[verifier::external_body]
pub(crate) fn join_directory_url(directory: &str, name: &str) -> (url: String)
    requires
        is_absolute(directory@),
        is_plain_file_name(name@),
    ensures
        url@ == directory_url_text(directory@)->0 + name@,
{
    let base = url::Url::from_directory_path(directory).unwrap();
    String::from(base.join(name).unwrap())
}

/// The parts of a URL that locate an inline import map.
pub struct UrlParts {
    /// The path, percent-encoded.
    pub path: String,
    /// The query, percent-encoded, without its question mark.
    pub query: Option<String>,
}

/// The parts of a URL as text.
pub struct UrlPartsView {
    pub path: Seq<char>,
    pub query: Option<Seq<char>>,
}

impl View for UrlParts {
    type V = UrlPartsView;

    open spec fn view(&self) -> UrlPartsView {
        UrlPartsView { path: self.path@, query: optional_text(self.query) }
    }
}

/// What came of reading a URL, as text.
pub open spec fn url_outcome(parts: Result<UrlParts, String>) -> Result<UrlPartsView, Seq<char>> {
    match parts {
        Ok(found) => Ok(found@),
        Err(error) => Err(error@),
    }
}

/// A character that stands for itself in a URI component, as `encodeURIComponent` has it.
pub open spec fn is_unreserved(c: char) -> bool {
    ||| is_alphanumeric(c)
    ||| c == '-'
    ||| c == '_'
    ||| c == '.'
    ||| c == '!'
    ||| c == '~'
    ||| c == '*'
    ||| c == '\''
    ||| c == '('
    ||| c == ')'
}

/// Text made of unreserved characters and percent signs only.
pub open spec fn is_component_text(text: Seq<char>) -> bool {
    forall|i: int| 0 <= i < text.len() ==> is_unreserved(#[trigger] text[i]) || text[i] == '%'
}

/// A `data:` URI with the given path and query.
pub open spec fn data_uri(path: Seq<char>, query: Seq<char>) -> Seq<char> {
    "data:"@ + path + "?"@ + query
}

/// A `data:` URI with the given path and without a query.
pub open spec fn bare_data_uri(path: Seq<char>) -> Seq<char> {
    "data:"@ + path
}

/// What `url::Url::parse` makes of a text: the URL's path and query, or the text of the error.
pub uninterp spec fn parsed_url(text: Seq<char>) -> Result<UrlPartsView, Seq<char>>;

/// Calls `url::Url::parse` and hands out `path()` and `query()` of the URL, or the error as
/// text. In a `data:` URI whose path and query are encoded URI components, the two come out
/// as they were written, as long as the position of the query fits in 32 bits. One without a query
/// gives none.
#[verifier::external_body]
pub(crate) fn parse_url(text: &str) -> (parts: Result<UrlParts, String>)
    ensures
        url_outcome(parts) == parsed_url(text@),
        forall|path: Seq<char>, query: Seq<char>|
            text@ == #[trigger] data_uri(path, query) && is_component_text(path)
                && is_component_text(query) && path.len() + 5 <= u32::MAX ==> (parts is Ok
                && parts->Ok_0@ == (UrlPartsView { path, query: Some(query) })),
        forall|path: Seq<char>|
            text@ == #[trigger] bare_data_uri(path) && is_component_text(path) ==> parts is Ok
                && parts->Ok_0@ == (UrlPartsView { path, query: None }),
{
    match url::Url::parse(text) {
        Ok(url) => Ok(UrlParts { path: url.path().to_owned(), query: url.query().map(str::to_owned) }),
        Err(error) => Err(error.to_string()),
    }
}

/// An upper-case hexadecimal digit.
pub open spec fn hex_digit(value: int) -> char {
    if value < 10 {
        (value + 48) as char
    } else {
        (value + 55) as char
    }
}

/// How `encodeURIComponent` writes one byte of UTF-8.
pub open spec fn encoded_byte(byte: u8) -> Seq<char> {
    if byte < 128 && is_unreserved(byte as char) {
        seq![byte as char]
    } else {
        seq!['%', hex_digit(byte as int / 16), hex_digit(byte as int % 16)]
    }
}

/// How `encodeURIComponent` writes a sequence of bytes.
pub open spec fn encoded_bytes(bytes: Seq<u8>) -> Seq<char>
    decreases bytes.len(),
{
    if bytes.len() == 0 {
        Seq::empty()
    } else {
        encoded_bytes(bytes.drop_last()) + encoded_byte(bytes.last())
    }
}

/// What `encodeURIComponent` makes of a text.
pub open spec fn encode_uri_component(text: Seq<char>) -> Seq<char> {
    encoded_bytes(encode_utf8(text))
}

/// What `urlencoding::decode` makes of a text: the decoded text, or the text of the error.
pub uninterp spec fn percent_decoded(text: Seq<char>) -> Result<Seq<char>, Seq<char>>;

/// Calls `urlencoding::decode`. Text without a percent sign comes out unchanged, and what
/// `encodeURIComponent` has written is read back.
#[verifier::external_body]
pub(crate) fn percent_decode(text: &str) -> (decoded: Result<String, String>)
    ensures
        text_outcome(decoded) == percent_decoded(text@),
        !text@.contains('%') ==> decoded is Ok && decoded->Ok_0@ == text@,
        forall|plain: Seq<char>|
            text@ == #[trigger] encode_uri_component(plain) ==> decoded is Ok && decoded->Ok_0@
                == plain,
{
    match urlencoding::decode(text) {
        Ok(plain) => Ok(plain.into_owned()),
        Err(error) => Err(error.to_string()),
    }
}

proof fn lemma_encoded_byte_is_component_text(byte: u8)
    ensures
        is_component_text(encoded_byte(byte)),
{
}

proof fn lemma_encoded_bytes_is_component_text(bytes: Seq<u8>)
    ensures
        is_component_text(encoded_bytes(bytes)),
    decreases bytes.len(),
{
    if bytes.len() > 0 {
        lemma_encoded_bytes_is_component_text(bytes.drop_last());
        lemma_encoded_byte_is_component_text(bytes.last());
    }
}

/// An encoded URI component holds unreserved characters and percent signs only.
pub proof fn lemma_encoded_component_text(text: Seq<char>)
    ensures
        is_component_text(encode_uri_component(text)),
{
    lemma_encoded_bytes_is_component_text(encode_utf8(text));
}

/// A path is absolute exactly when it starts with a slash. An absolute path stands by itself, from
/// whatever directory it is taken. A relative one stands at the end of the joined path, after the
/// directory and at most one slash, so that nothing of the two is lost.
pub proof fn law_paths_are_joined_whole(base: Seq<char>, path: Seq<char>)
    ensures
        is_absolute(path) <==> "/"@.is_prefix_of(path),
        is_absolute(path) ==> joined_path(base, path) == path,
        !is_absolute(path) ==> base.is_prefix_of(joined_path(base, path)) && path.is_suffix_of(
            joined_path(base, path),
        ),
        !is_absolute(path) && (base.len() == 0 || base.last() == '/') ==> joined_path(base, path)
            == base + path,
        !is_absolute(path) && base.len() > 0 && base.last() != '/' ==> joined_path(base, path)
            == base + "/"@ + path,
{
    reveal_strlit("/");
    if is_absolute(path) {
        assert("/"@ =~= path.subrange(0, 1));
    }
    if "/"@.is_prefix_of(path) {
        assert(path[0] == "/"@[0]);
    }
    if !is_absolute(path) {
        let joined = joined_path(base, path);
        assert(base =~= joined.subrange(0, base.len() as int));
        assert(path =~= joined.subrange(joined.len() - path.len(), joined.len() as int));
    }
}

} // verus!
