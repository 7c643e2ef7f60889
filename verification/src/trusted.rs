//! The items whose contracts are taken on trust: the types of other crates
//! that the library carries, and the calls it makes into them.

use vstd::prelude::*;
use rattler_conda_types::{ExplicitEnvironmentEntry, Platform};
use crate::explicit::{spec_text, ExplicitEnvironmentSpec};
use std::path::PathBuf;
use url::Url;

verus! {

/// `url::Url`, carried as an opaque value.
#[verifier::external_type_specification]
#[verifier::external_body]
pub struct ExUrl(url::Url);

/// `rattler_conda_types::Platform`, carried as an opaque value.
#[verifier::external_type_specification]
#[verifier::external_body]
pub struct ExPlatform(rattler_conda_types::Platform);

/// `std::path::PathBuf`, carried as an opaque value.
#[verifier::external_type_specification]
#[verifier::external_body]
pub struct ExPathBuf(std::path::PathBuf);

/// The serialization of a URL: what `Url::as_str` returns.
pub uninterp spec fn url_text(url: Url) -> Seq<char>;

/// The fragment of a URL, without the `#` before it: what `Url::fragment`
/// returns.
pub uninterp spec fn url_fragment(url: Url) -> Option<Seq<char>>;

/// The serialization of a URL up to its fragment, the `#` left out: what
/// slicing a `Url` up to `Position::AfterQuery` returns.
pub uninterp spec fn url_before_fragment(url: Url) -> Seq<char>;

/// The identifier of a platform: what `Platform::as_str` returns.
pub uninterp spec fn platform_name(platform: Platform) -> Seq<char>;

/// A path as text, where it is valid Unicode: what `Path::to_str` returns.
pub uninterp spec fn path_text(path: PathBuf) -> Option<Seq<char>>;

/// Whether a character stands for itself in a URL's fragment. The characters
/// that `Url::set_fragment` drops or percent-encodes are the controls, the
/// space, `"`, `<`, `>`, the backtick and everything beyond ASCII.
pub open spec fn is_plain_fragment_char(c: char) -> bool {
    0x20 < c as u32 && (c as u32) < 0x7f && c != '"' && c != '<' && c != '>' && c != '`'
}

/// `Url::as_str`: the serialization, copied into a `String`.
#[verifier::external_body]
pub(crate) fn url_as_string(url: &Url) -> (text: String)
    ensures
        text@ == url_text(*url),
{
    url.as_str().to_owned()
}

/// `Url::fragment`: the fragment, copied into a `String`.
#[verifier::external_body]
pub(crate) fn url_fragment_string(url: &Url) -> (fragment: Option<String>)
    ensures
        match fragment {
            Some(text) => url_fragment(*url) == Some(text@),
            None => url_fragment(*url) is None,
        },
{
    url.fragment().map(|text| text.to_owned())
}

/// `Url::clone`, which the derive on `Url` wrote: the copy equals the URL
/// it was made of.
pub assume_specification[ <url::Url as Clone>::clone ](url: &url::Url) -> (copy: url::Url)
    ensures
        copy == *url,
;

/// `Platform::clone`, which the derive on `Platform` wrote: the copy equals
/// the platform it was made of.
pub assume_specification[ <rattler_conda_types::Platform as Clone>::clone ](
    platform: &rattler_conda_types::Platform,
) -> (copy: rattler_conda_types::Platform)
    ensures
        copy == *platform,
;

/// `PathBuf::clone`: the copy equals the path it was made of.
pub assume_specification[ <std::path::PathBuf as Clone>::clone ](path: &std::path::PathBuf) -> (copy:
    std::path::PathBuf)
    ensures
        copy == *path,
;

/// `Url::set_fragment` with `Some(fragment)`: whatever fragment the URL had
/// is cut off together with its `#`, then `#` and the new fragment are
/// appended. The fragment is required to hold only characters that the
/// setter writes as they are, so the new fragment is `fragment` itself.
#[verifier::external_body]
pub(crate) fn set_url_fragment(url: &mut Url, fragment: &str)
    requires
        forall|i: int| 0 <= i < fragment@.len() ==> is_plain_fragment_char(#[trigger] fragment@[i]),
    ensures
        url_fragment(*final(url)) == Some(fragment@),
        url_before_fragment(*final(url)) == url_before_fragment(*old(url)),
        url_text(*final(url)) == url_before_fragment(*old(url)) + seq!['#'] + fragment@,
{
    url.set_fragment(Some(fragment))
}

/// `Platform::as_str`: the identifier, copied into a `String`.
#[verifier::external_body]
pub(crate) fn platform_as_string(platform: &Platform) -> (name: String)
    ensures
        name@ == platform_name(*platform),
{
    platform.as_str().to_owned()
}

/// `ExplicitEnvironmentSpec::to_spec_string` of `rattler_conda_types`, on a
/// list with the same platform and the same URLs: the line `# platform: `
/// with the platform's identifier, the line `@EXPLICIT`, then one line for
/// each URL, in order.
#[verifier::external_body]
pub(crate) fn spec_string(spec: &ExplicitEnvironmentSpec) -> (text: String)
    ensures
        text@ == spec_text(*spec),
{
    let packages = spec.entries.iter().map(|entry| ExplicitEnvironmentEntry { url: entry.url.clone() });
    rattler_conda_types::ExplicitEnvironmentSpec {
        platform: Some(spec.platform),
        packages: packages.collect(),
    }.to_spec_string()
}

/// `Path::to_str`: the path as text, or `None` where it is not valid Unicode.
#[verifier::external_body]
pub(crate) fn path_as_string(path: &PathBuf) -> (text: Option<String>)
    ensures
        match text {
            Some(text) => path_text(*path) == Some(text@),
            None => path_text(*path) is None,
        },
{
    path.to_str().map(|text| text.to_owned())
}

} // verus!
