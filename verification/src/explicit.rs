//! The pinned package list: every native package by its URL, with its digest
//! as the URL's fragment.

use vstd::prelude::*;
use vstd::string::*;
use rattler_conda_types::Platform;
use url::Url;
use crate::error::ExportError;
use crate::package::NativePackage;
use crate::text::{hex_lower, hex_text, lemma_hex_text_is_plain};
use crate::trusted::{
    platform_name, set_url_fragment, spec_string, url_as_string, url_before_fragment,
    url_fragment, url_fragment_string, url_text,
};

verus! {

/// One pinned package: its URL, with the digest as fragment.
#[derive(Clone, Debug)]
pub struct ExplicitEntry {
    pub url: Url,
}

impl ExplicitEntry {
    /// The entry as it stands in the list: the URL with its fragment.
    pub fn location(&self) -> (text: String)
        ensures
            text@ == url_text(self.url),
    {
        url_as_string(&self.url)
    }

    /// The digest that the entry pins its package by: the fragment of the
    /// URL, if it has one.
    pub fn digest(&self) -> (digest: Option<String>)
        ensures
            match digest {
                Some(text) => url_fragment(self.url) == Some(text@),
                None => url_fragment(self.url) is None,
            },
    {
        url_fragment_string(&self.url)
    }
}

/// The pinned packages of one platform, in the order of the lock.
#[derive(Clone, Debug)]
pub struct ExplicitEnvironmentSpec {
    pub platform: Platform,
    pub entries: Vec<ExplicitEntry>,
}

/// Whether `entry` pins `package`: the entry is the package's URL with the
/// fragment replaced by the package's digest in lower-case hexadecimal.
pub open spec fn pins(entry: ExplicitEntry, package: NativePackage) -> bool {
    &&& package.md5 matches Some(md5)
    &&& url_fragment(entry.url) == Some(hex_text(md5@))
    &&& url_before_fragment(entry.url) == url_before_fragment(package.url)
    &&& url_text(entry.url) == url_before_fragment(package.url) + seq!['#'] + hex_text(md5@)
}

/// Whether every package carries a digest.
pub open spec fn all_have_digest(packages: Seq<NativePackage>) -> bool {
    forall|i: int| 0 <= i < packages.len() ==> (#[trigger] packages[i]).md5 is Some
}

/// Whether `packages[index]` is the first package without a digest.
pub open spec fn first_without_digest(packages: Seq<NativePackage>, index: int) -> bool {
    &&& 0 <= index < packages.len()
    &&& packages[index].md5 is None
    &&& all_have_digest(packages.take(index))
}

/// Whether `error` is the integrity error that names the first package
/// without a digest.
pub open spec fn names_first_without_digest(
    error: ExportError,
    packages: Seq<NativePackage>,
) -> bool {
    exists|index: int|
        {
            &&& #[trigger] first_without_digest(packages, index)
            &&& error matches ExportError::Integrity { package }
            &&& package@ == packages[index].name@
        }
}

/// Pins every package by its digest, in the order given. Nothing is sorted
/// and nothing is dropped: a package that occurs twice is pinned twice.
///
/// Fails at the first package without a digest, with an
/// [`ExportError::Integrity`] that names it.
pub fn build_explicit_spec(platform: Platform, packages: &[NativePackage]) -> (result: Result<
    ExplicitEnvironmentSpec,
    ExportError,
>)
    ensures
        result is Err <==> !all_have_digest(packages@),
        match result {
            Ok(spec) => {
                &&& spec.platform == platform
                &&& spec.entries.len() == packages.len()
                &&& forall|i: int|
                    0 <= i < packages.len() ==> pins(#[trigger] spec.entries[i], packages[i])
            },
            Err(error) => names_first_without_digest(error, packages@),
        },
{
    let mut entries: Vec<ExplicitEntry> = Vec::new();
    let mut i: usize = 0;
    while i < packages.len()
        invariant
            i <= packages.len(),
            entries.len() == i,
            forall|j: int| 0 <= j < i ==> pins(#[trigger] entries[j], packages[j]),
        decreases packages.len() - i,
    {
        let package = &packages[i];
        match &package.md5 {
            None => {
                assert forall|j: int| 0 <= j < i implies (#[trigger] packages@.take(
                    i as int,
                )[j]).md5 is Some by {
                    assert(pins(entries[j], packages[j]));
                }
                assert(first_without_digest(packages@, i as int));
                let error = ExportError::Integrity { package: package.name.clone() };
                return Err(error);
            },
            Some(md5) => {
                let digest = hex_lower(md5.as_slice());
                proof {
                    lemma_hex_text_is_plain(md5@);
                }
                let mut url = package.url.clone();
                set_url_fragment(&mut url, digest.as_str());
                entries.push(ExplicitEntry { url });
            },
        }
        i = i + 1;
    }
    assert forall|j: int| 0 <= j < packages.len() implies (#[trigger] packages@[j]).md5 is Some by {
        assert(pins(entries[j], packages[j]));
    }
    Ok(ExplicitEnvironmentSpec { platform, entries })
}

/// The line that pins `package`: its URL up to the fragment, `#`, and its
/// digest in lower-case hexadecimal.
pub open spec fn pinned_line(package: NativePackage) -> Seq<char> {
    url_before_fragment(package.url) + seq!['#'] + match package.md5 {
        Some(md5) => hex_text(md5@),
        None => Seq::empty(),
    } + "\n"@
}

/// The lines that pin `packages`, in their order.
pub open spec fn pinned_lines(packages: Seq<NativePackage>) -> Seq<char>
    decreases packages.len(),
{
    if packages.len() == 0 {
        Seq::empty()
    } else {
        pinned_lines(packages.drop_last()) + pinned_line(packages.last())
    }
}

/// The file of the pinned list for `packages` on `platform`.
pub open spec fn explicit_spec_file_text(platform: Platform, packages: Seq<NativePackage>) -> Seq<
    char,
> {
    provenance_comment() + "# platform: "@ + platform_name(platform) + "\n@EXPLICIT\n"@
        + pinned_lines(packages)
}

/// The URLs of `entries`, each on a line of its own.
pub open spec fn url_lines(entries: Seq<ExplicitEntry>) -> Seq<char>
    decreases entries.len(),
{
    if entries.len() == 0 {
        Seq::empty()
    } else {
        url_lines(entries.drop_last()) + url_text(entries.last().url) + "\n"@
    }
}

/// The text of a pinned list: a comment that names the platform, the marker
/// of the format, then the URLs in their order.
pub open spec fn spec_text(spec: ExplicitEnvironmentSpec) -> Seq<char> {
    "# platform: "@ + platform_name(spec.platform) + "\n@EXPLICIT\n"@ + url_lines(spec.entries@)
}

/// The comment that opens the file of a pinned list and says where the file
/// comes from.
pub open spec fn provenance_comment() -> Seq<char> {
    "# Generated by `pixi project export`\n"@
}

impl ExplicitEnvironmentSpec {
    /// The list in the text format that tools for explicit environments
    /// read.
    pub fn to_spec_string(&self) -> (text: String)
        ensures
            text@ == spec_text(*self),
    {
        spec_string(self)
    }
}

/// The contents of the file of a pinned list: the provenance comment, then
/// the list as text.
pub fn explicit_spec_contents(spec: &ExplicitEnvironmentSpec) -> (text: String)
    ensures
        text@ == provenance_comment() + spec_text(*spec),
{
    let mut text = String::from_str("# Generated by `pixi project export`\n");
    text.append(spec.to_spec_string().as_str());
    text
}

/// The lines of entries that pin `packages` one by one are the lines that
/// pin `packages`.
pub proof fn lemma_url_lines_of_pinned(entries: Seq<ExplicitEntry>, packages: Seq<NativePackage>)
    requires
        entries.len() == packages.len(),
        forall|i: int| 0 <= i < packages.len() ==> pins(#[trigger] entries[i], packages[i]),
    ensures
        url_lines(entries) == pinned_lines(packages),
    decreases entries.len(),
{
    if entries.len() > 0 {
        let last = entries.len() - 1;
        assert(pins(entries[last], packages[last]));
        assert forall|i: int| 0 <= i < packages.drop_last().len() implies pins(
            #[trigger] entries.drop_last()[i],
            packages.drop_last()[i],
        ) by {
            assert(pins(entries[i], packages[i]));
        }
        lemma_url_lines_of_pinned(entries.drop_last(), packages.drop_last());
        assert(url_text(entries.last().url) + "\n"@ =~= pinned_line(packages.last()));
        assert(url_lines(entries) =~= pinned_lines(packages));
    }
}

/// Whether `text` holds no line break.
pub open spec fn is_one_line(text: Seq<char>) -> bool {
    forall|i: int| 0 <= i < text.len() ==> text[i] != '\n'
}

/// Whether every text of `lines` holds no line break.
pub open spec fn are_single_lines(lines: Seq<Seq<char>>) -> bool {
    forall|i: int| 0 <= i < lines.len() ==> is_one_line(#[trigger] lines[i])
}

/// The URLs of `entries` as text, in their order.
pub open spec fn url_texts(entries: Seq<ExplicitEntry>) -> Seq<Seq<char>> {
    Seq::new(entries.len(), |i: int| url_text(entries[i].url))
}

/// `lines`, each closed by a line break.
pub open spec fn joined_lines(lines: Seq<Seq<char>>) -> Seq<char>
    decreases lines.len(),
{
    if lines.len() == 0 {
        Seq::empty()
    } else {
        joined_lines(lines.drop_last()) + lines.last() + "\n"@
    }
}

/// The lines of a pinned list are the texts of its URLs, line by line.
pub proof fn lemma_url_lines_are_joined(entries: Seq<ExplicitEntry>)
    ensures
        url_lines(entries) == joined_lines(url_texts(entries)),
    decreases entries.len(),
{
    if entries.len() > 0 {
        lemma_url_lines_are_joined(entries.drop_last());
        assert(url_texts(entries).drop_last() =~= url_texts(entries.drop_last()));
    }
}

/// Lines that hold no line break can be read back from their joined text:
/// two lists of such lines with the same text are the same list.
pub proof fn lemma_joined_lines_determine_lines(first: Seq<Seq<char>>, second: Seq<Seq<char>>)
    requires
        are_single_lines(first),
        are_single_lines(second),
        joined_lines(first) == joined_lines(second),
    ensures
        first == second,
    decreases first.len(),
{
    reveal_strlit("\n");
    let text = joined_lines(first);
    if first.len() == 0 || second.len() == 0 {
        if first.len() > 0 {
            assert(joined_lines(first).len() > 0);
        }
        if second.len() > 0 {
            assert(joined_lines(second).len() > 0);
        }
        assert(first =~= second);
    } else {
        let before_first = joined_lines(first.drop_last());
        let before_second = joined_lines(second.drop_last());
        let last_first = first.last();
        let last_second = second.last();
        assert(is_one_line(last_first));
        assert(is_one_line(last_second));
        assert(text.len() == before_first.len() + last_first.len() + 1);
        assert(text.len() == before_second.len() + last_second.len() + 1);
        if last_first.len() < last_second.len() {
            lemma_joined_lines_end(first.drop_last());
            let at = before_first.len() - 1;
            assert(text[at] == before_first[at]);
            assert(text[at] == last_second[at - before_second.len()]);
        }
        if last_second.len() < last_first.len() {
            lemma_joined_lines_end(second.drop_last());
            let at = before_second.len() - 1;
            assert(text[at] == before_second[at]);
            assert(text[at] == last_first[at - before_first.len()]);
        }
        assert(last_first =~= last_second) by {
            assert forall|i: int| 0 <= i < last_first.len() implies last_first[i]
                == last_second[i] by {
                assert(text[before_first.len() + i] == last_first[i]);
                assert(text[before_second.len() + i] == last_second[i]);
            }
        }
        assert(before_first =~= before_second) by {
            assert forall|i: int| 0 <= i < before_first.len() implies before_first[i]
                == before_second[i] by {
                assert(text[i] == before_first[i]);
                assert(text[i] == before_second[i]);
            }
        }
        assert forall|i: int| 0 <= i < first.drop_last().len() implies is_one_line(
            #[trigger] first.drop_last()[i],
        ) by {
            assert(is_one_line(first[i]));
        }
        assert forall|i: int| 0 <= i < second.drop_last().len() implies is_one_line(
            #[trigger] second.drop_last()[i],
        ) by {
            assert(is_one_line(second[i]));
        }
        lemma_joined_lines_determine_lines(first.drop_last(), second.drop_last());
        assert(first =~= first.drop_last().push(last_first));
        assert(second =~= second.drop_last().push(last_second));
    }
}

/// Joined lines, if there are any, end in a line break.
proof fn lemma_joined_lines_end(lines: Seq<Seq<char>>)
    ensures
        lines.len() == 0 ==> joined_lines(lines).len() == 0,
        lines.len() > 0 ==> joined_lines(lines).len() > 0 && joined_lines(lines).last() == '\n',
{
    reveal_strlit("\n");
}

/// A pinned list can be read back from its text: two lists with the same
/// text are for platforms of the same name and hold the same URLs in the
/// same order, digests included. This takes for granted that neither the
/// name of a platform nor a URL holds a line break.
pub proof fn lemma_spec_text_determines_spec(
    first: ExplicitEnvironmentSpec,
    second: ExplicitEnvironmentSpec,
)
    requires
        spec_text(first) == spec_text(second),
        is_one_line(platform_name(first.platform)),
        is_one_line(platform_name(second.platform)),
        are_single_lines(url_texts(first.entries@)),
        are_single_lines(url_texts(second.entries@)),
    ensures
        platform_name(first.platform) == platform_name(second.platform),
        url_texts(first.entries@) == url_texts(second.entries@),
{
    reveal_strlit("# platform: ");
    reveal_strlit("\n@EXPLICIT\n");
    let text = spec_text(first);
    let name_first = platform_name(first.platform);
    let name_second = platform_name(second.platform);
    let lines_first = url_lines(first.entries@);
    let lines_second = url_lines(second.entries@);
    assert(text =~= "# platform: "@ + name_first + "\n@EXPLICIT\n"@ + lines_first);
    assert(text =~= "# platform: "@ + name_second + "\n@EXPLICIT\n"@ + lines_second);
    let len_first = name_first.len() as int;
    let len_second = name_second.len() as int;
    if len_first < len_second {
        assert(text[12 + len_first] == '\n');
        assert(text[12 + len_first] == name_second[len_first]);
    }
    if len_second < len_first {
        assert(text[12 + len_second] == '\n');
        assert(text[12 + len_second] == name_first[len_second]);
    }
    assert(name_first =~= name_second) by {
        assert forall|i: int| 0 <= i < name_first.len() implies name_first[i]
            == name_second[i] by {
            assert(text[12 + i] == name_first[i]);
            assert(text[12 + i] == name_second[i]);
        }
    }
    let start = 12 + len_first + 11;
    assert(lines_first =~= text.skip(start));
    assert(lines_second =~= text.skip(start));
    lemma_url_lines_are_joined(first.entries@);
    lemma_url_lines_are_joined(second.entries@);
    lemma_joined_lines_determine_lines(url_texts(first.entries@), url_texts(second.entries@));
}

} // verus!
