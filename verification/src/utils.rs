//! Filename sanitization, file-existence probing and URL-extension
//! extraction. The sanitizer and the URL parser are outside crates,
//! reached through trusted wrappers; everything around them is
//! verified.

use vstd::prelude::*;
use vstd::string::*;
use crate::text::spec_extension_of_path;
use crate::text::spec_replace_dot_suffix;
use crate::text::spec_strip_trailing_dots;
use crate::text::lemma_strip_trailing_dots_prefix;
use crate::text::extension_of_path;

verus! {

/// Result of the filename sanitizer on a given name. The sanitizer is
/// a pure function of the name: fixed substitution rules and a fixed
/// length cap, so its output depends on the input characters alone.
pub uninterp spec fn sanitize_spec(name: Seq<char>) -> Seq<char>;

/// A character the sanitizer may leave in its output: not one of the
/// nine characters illegal in Windows file names, and not a C0 or C1
/// control character.
pub open spec fn spec_sanitary_char(c: char) -> bool {
    &&& c != '/'
    &&& c != '\\'
    &&& c != ':'
    &&& c != '*'
    &&& c != '?'
    &&& c != '"'
    &&& c != '<'
    &&& c != '>'
    &&& c != '|'
    &&& c as u32 >= 0x20
    &&& !(0x80 <= c as u32 <= 0x9f)
}

/// A string safe to use as a file name: every character sanitary and
/// at most 255 characters.
pub open spec fn spec_sanitary(s: Seq<char>) -> bool {
    &&& s.len() <= 255
    &&& forall|i: int| 0 <= i < s.len() ==> spec_sanitary_char(#[trigger] s[i])
}

/// Relies on sanitize_filename::sanitize_with_options of the
/// sanitize-filename crate, with fixed options (truncating,
/// Windows-strict, replacing with an underscore): the result is a pure
/// function of the name; the sanitizer replaces every occurrence of
/// the nine illegal characters and of the C0/C1 control characters
/// with an underscore, replaces reserved names and trailing dots or
/// spaces likewise, and truncates to at most 255 bytes, hence at most
/// 255 characters.
#[verifier::external_body]
pub fn sanitize_filename(name: &str) -> (r: String)
    ensures
        r@ == sanitize_spec(name@),
        spec_sanitary(r@),
{
    sanitize_filename::sanitize_with_options(
        name,
        sanitize_filename::Options { truncate: true, windows: true, replacement: "_" },
    )
}

/// Handling a name's trailing dots keeps it safe: characters are kept
/// or replaced by an underscore, the length cannot grow past the cap,
/// and the result never ends with a dot.
pub proof fn lemma_replace_dot_suffix_sanitary(s: Seq<char>)
    requires
        spec_sanitary(s),
    ensures
        spec_sanitary(spec_replace_dot_suffix(s)),
        spec_replace_dot_suffix(s).len() > 0 ==> spec_replace_dot_suffix(s).last() != '.',
{
    reveal_strlit("_");
    lemma_strip_trailing_dots_prefix(s);
    if s.len() > 0 && s.last() == '.' {
        let t = spec_strip_trailing_dots(s) + "_"@;
        assert("_"@ =~= seq!['_']);
        assert(spec_replace_dot_suffix(s) == t);
        assert(t.last() == '_');
        assert forall|i: int| 0 <= i < t.len() implies spec_sanitary_char(#[trigger] t[i]) by {
            if i < spec_strip_trailing_dots(s).len() {
                assert(t[i] == s[i]);
            } else {
                assert(t[i] == '_');
            }
        }
    }
}

/// A name that ends with a dot has the run of trailing dots replaced by
/// a single underscore; any other name passes unchanged.
pub fn replace_dot_suffix(s: &str) -> (r: String)
    ensures
        r@ == spec_replace_dot_suffix(s@),
{
    let len = s.unicode_len();
    let mut e = len;
    proof {
        assert(s@.take(len as int) =~= s@);
    }
    while e > 0 && s.get_char(e - 1) == '.'
        invariant
            e <= len,
            len == s@.len(),
            spec_strip_trailing_dots(s@) == spec_strip_trailing_dots(s@.take(e as int)),
            forall|j: int| e <= j < len ==> s@[j] == '.',
        decreases e,
    {
        proof {
            assert(s@.take(e as int).last() == s@[e as int - 1]);
            assert(s@.take(e as int).drop_last() =~= s@.take(e as int - 1));
        }
        e = e - 1;
    }
    proof {
        if e > 0 {
            assert(s@.take(e as int).last() == s@[e as int - 1]);
        }
        assert(spec_strip_trailing_dots(s@.take(e as int)) == s@.take(e as int));
    }
    if e == len {
        proof {
            if s@.len() > 0 {
                assert(s@.last() != '.');
            }
        }
        s.to_owned()
    } else {
        proof {
            assert(s@.last() == '.');
            assert(s@.subrange(0, e as int) =~= s@.take(e as int));
        }
        let mut r = s.substring_char(0, e).to_owned();
        r.append("_");
        r
    }
}

/// Relies on std::path::Path::exists: answers whether `path` names an
/// entity present on disk at the moment of the call. The answer
/// depends on the state of the filesystem, so nothing is promised of
/// it.
#[verifier::external_body]
pub fn file_exists(path: &str) -> bool {
    std::path::Path::new(path).exists()
}

/// The path portion of `url` as the URL parser yields it, or None when
/// the parser rejects `url`. Parsing is a pure function of the string.
pub uninterp spec fn url_path_spec(url: Seq<char>) -> Option<Seq<char>>;

/// Relies on url::Url::parse and url::Url::path of the url crate:
/// parsing either rejects the string or yields a URL record whose
/// `path` accessor returns the path portion; both depend on the string
/// alone.
#[verifier::external_body]
fn url_path(url: &str) -> (r: Option<String>)
    ensures
        r.deep_view() == url_path_spec(url@),
{
    match url::Url::parse(url) {
        Ok(u) => Some(u.path().to_string()),
        Err(_) => None,
    }
}

/// The extension, with a leading dot, of the file that `url` points
/// at: None when the URL does not parse or its last path segment has
/// no extension.
pub open spec fn spec_get_file_extension(url: Seq<char>) -> Option<Seq<char>> {
    match url_path_spec(url) {
        Option::Some(p) => match spec_extension_of_path(p) {
            Option::Some(e) => Option::Some("."@ + e),
            Option::None => Option::None,
        },
        Option::None => Option::None,
    }
}

/// Extension, with a leading dot, of the file a URL points at.
pub fn get_file_extension(url: &str) -> (r: Option<String>)
    ensures
        r.deep_view() == spec_get_file_extension(url@),
{
    match url_path(url) {
        Some(p) => match extension_of_path(p.as_str()) {
            Some(e) => {
                let mut s = String::new();
                s.append(".");
                s.append(e.as_str());
                Some(s)
            },
            None => None,
        },
        None => None,
    }
}

} // verus!
