//! The requirements file: one line for each package of the secondary
//! ecosystem.

use vstd::prelude::*;
use vstd::string::*;
use crate::error::ExportError;
use crate::package::{HashAlgorithm, Location, PackageHashes, SecondaryPackage};
use crate::text::{hex_lower, hex_text, is_hex_digit, lemma_hex_text_is_hex};
use crate::trusted::{path_as_string, path_text, url_as_string, url_text};

verus! {

/// The prefix by which a lock marks a direct reference. The tool that reads
/// the requirements does not know it.
pub open spec fn direct_prefix() -> Seq<char> {
    seq!['d', 'i', 'r', 'e', 'c', 't', '+']
}

/// `text` without the direct-reference prefix at its start, however often
/// the prefix is repeated there. Nothing after the start is touched.
pub open spec fn strip_direct(text: Seq<char>) -> Seq<char>
    decreases text.len(),
{
    if direct_prefix().is_prefix_of(text) {
        strip_direct(text.skip(7))
    } else {
        text
    }
}

/// The name by which a requirement line calls an algorithm.
pub open spec fn algorithm_name(algorithm: HashAlgorithm) -> Seq<char> {
    match algorithm {
        HashAlgorithm::Md5 => "md5"@,
        HashAlgorithm::Sha256 => "sha256"@,
    }
}

/// The hash option of a requirement line: `--hash=`, the algorithm, a colon
/// and the preferred digest in lower-case hexadecimal.
pub open spec fn hash_option(hashes: PackageHashes) -> Seq<char> {
    "--hash="@ + algorithm_name(hashes.preferred_algorithm()) + ":"@ + hex_text(
        hashes.preferred_digest(),
    )
}

/// What follows the location in a requirement line: a space and the hash
/// option for a remote package with a digest, nothing otherwise.
pub open spec fn hash_annotation(remote: bool, hashes: Option<PackageHashes>) -> Seq<char> {
    match hashes {
        Some(hashes) if remote => " "@ + hash_option(hashes),
        _ => Seq::empty(),
    }
}

/// What precedes the location in a requirement line.
pub open spec fn editable_marker(editable: bool) -> Seq<char> {
    if editable {
        "-e "@
    } else {
        Seq::empty()
    }
}

/// The requirement line of a package found at `location`, line break
/// included.
pub open spec fn requirement_line(
    location: Seq<char>,
    remote: bool,
    editable: bool,
    hashes: Option<PackageHashes>,
) -> Seq<char> {
    editable_marker(editable) + strip_direct(location) + hash_annotation(remote, hashes) + "\n"@
}

/// Whether `text` holds the direct-reference prefix at `start`.
fn has_direct_prefix_at(text: &str, len: usize, start: usize) -> (found: bool)
    requires
        len == text@.len(),
        start <= len,
    ensures
        found == direct_prefix().is_prefix_of(text@.skip(start as int)),
{
    if len - start < 7 {
        return false;
    }
    let found = text.get_char(start) == 'd' && text.get_char(start + 1) == 'i' && text.get_char(
        start + 2,
    ) == 'r' && text.get_char(start + 3) == 'e' && text.get_char(start + 4) == 'c'
        && text.get_char(start + 5) == 't' && text.get_char(start + 6) == '+';
    found
}

/// Strips the direct-reference prefix from the start of `text`, as often as
/// it is repeated there.
pub fn strip_direct_prefix(text: &str) -> (rest: &str)
    ensures
        rest@ == strip_direct(text@),
{
    let len = text.unicode_len();
    let mut start: usize = 0;
    assert(text@.skip(0) =~= text@);
    while has_direct_prefix_at(text, len, start)
        invariant
            len == text@.len(),
            start <= len,
            strip_direct(text@) == strip_direct(text@.skip(start as int)),
        decreases len - start,
    {
        assert(text@.skip(start as int).skip(7) =~= text@.skip(start + 7));
        start = start + 7;
    }
    text.substring_char(start, len)
}

/// The hash option for the digests of a package, if it has any. Where both
/// kinds are recorded, the option names SHA-256 alone.
pub fn get_pypi_hash_str(hashes: &Option<PackageHashes>) -> (option: Option<String>)
    ensures
        match option {
            Some(text) => *hashes matches Some(digests) && text@ == hash_option(digests),
            None => *hashes is None,
        },
{
    match hashes {
        None => None,
        Some(hashes) => {
            let (algorithm, digest) = hashes.preferred();
            let mut text = match algorithm {
                HashAlgorithm::Md5 => String::from_str("--hash=md5:"),
                HashAlgorithm::Sha256 => String::from_str("--hash=sha256:"),
            };
            let hex = hex_lower(digest);
            text.append(hex.as_str());
            proof {
                reveal_strlit("--hash=md5:");
                reveal_strlit("--hash=sha256:");
                reveal_strlit("--hash=");
                reveal_strlit("md5");
                reveal_strlit("sha256");
                reveal_strlit(":");
            }
            Some(text)
        },
    }
}

/// Writes the requirement line of a package found at `location`: the
/// editable marker if asked for, the location without the direct-reference
/// prefix, the hash option if the package is remote and has a digest, and a
/// line break.
pub fn format_requirement(
    location: &str,
    remote: bool,
    editable: bool,
    hashes: &Option<PackageHashes>,
) -> (line: String)
    ensures
        line@ == requirement_line(location@, remote, editable, *hashes),
{
    let mut line = if editable {
        String::from_str("-e ")
    } else {
        String::new()
    };
    line.append(strip_direct_prefix(location));
    if remote {
        match get_pypi_hash_str(hashes) {
            Some(option) => {
                line.append(" ");
                line.append(option.as_str());
            },
            None => {},
        }
    }
    line.append("\n");
    line
}

/// The location of a package as text: the serialization of a URL, or a path
/// where it is valid Unicode.
pub open spec fn location_text(location: Location) -> Option<Seq<char>> {
    match location {
        Location::Url(url) => Some(url_text(url)),
        Location::Path(path) => path_text(path),
    }
}

/// The requirement line of `package`, which exists if its location can be
/// written as text.
pub open spec fn package_line(package: SecondaryPackage) -> Option<Seq<char>> {
    match location_text(package.location) {
        Some(text) => Some(
            requirement_line(text, package.location is Url, package.editable, package.hashes),
        ),
        None => None,
    }
}

/// Renders the requirement line of one package. A hash option is written
/// only for a remote package: the tool that reads the file takes none for a
/// local one.
///
/// Fails with [`ExportError::Encoding`] if the package is found at a local
/// path that is not valid Unicode.
pub fn render_requirement(package: &SecondaryPackage) -> (result: Result<String, ExportError>)
    ensures
        match result {
            Ok(line) => package_line(*package) == Some(line@),
            Err(error) => package_line(*package) is None && error == ExportError::Encoding,
        },
{
    match &package.location {
        Location::Url(url) => {
            let text = url_as_string(url);
            Ok(format_requirement(text.as_str(), true, package.editable, &package.hashes))
        },
        Location::Path(path) => {
            match path_as_string(path) {
                Some(text) => Ok(
                    format_requirement(text.as_str(), false, package.editable, &package.hashes),
                ),
                None => Err(ExportError::Encoding),
            }
        },
    }
}

/// Whether the location of every package can be written as text.
pub open spec fn all_locations_are_text(packages: Seq<SecondaryPackage>) -> bool {
    forall|i: int| 0 <= i < packages.len() ==> location_text(#[trigger] packages[i].location) is Some
}

/// The requirement lines of `packages`, one after the other in the order of
/// the packages. A package whose location is no text has no line.
pub open spec fn requirement_lines(packages: Seq<SecondaryPackage>) -> Seq<char>
    decreases packages.len(),
{
    if packages.len() == 0 {
        Seq::empty()
    } else {
        requirement_lines(packages.drop_last()) + match package_line(packages.last()) {
            Some(line) => line,
            None => Seq::empty(),
        }
    }
}

/// Renders the requirements file: the line of every package, in the order
/// given.
///
/// Fails with [`ExportError::Encoding`] if any package is found at a local
/// path that is not valid Unicode.
pub fn render_requirements(packages: &[SecondaryPackage]) -> (result: Result<String, ExportError>)
    ensures
        result is Ok <==> all_locations_are_text(packages@),
        match result {
            Ok(text) => text@ == requirement_lines(packages@),
            Err(error) => error == ExportError::Encoding,
        },
{
    let mut text = String::new();
    let mut i: usize = 0;
    while i < packages.len()
        invariant
            i <= packages.len(),
            all_locations_are_text(packages@.take(i as int)),
            text@ == requirement_lines(packages@.take(i as int)),
        decreases packages.len() - i,
    {
        match render_requirement(&packages[i]) {
            Ok(line) => {
                text.append(line.as_str());
            },
            Err(error) => {
                return Err(error);
            },
        }
        proof {
            let done = packages@.take(i + 1);
            assert(done.drop_last() =~= packages@.take(i as int));
            assert forall|j: int| 0 <= j < done.len() implies location_text(
                #[trigger] done[j].location,
            ) is Some by {
                if j < i {
                    assert(done[j] == packages@.take(i as int)[j]);
                }
            }
        }
        i = i + 1;
    }
    assert(packages@.take(i as int) =~= packages@);
    Ok(text)
}

/// The direct-reference prefix, `count` times in a row.
pub open spec fn repeated_direct_prefix(count: nat) -> Seq<char>
    decreases count,
{
    if count == 0 {
        Seq::empty()
    } else {
        direct_prefix() + repeated_direct_prefix((count - 1) as nat)
    }
}

/// Stripping takes the prefix off the start and nothing else: a text is
/// some copies of the prefix, followed by the stripped text, which does not
/// begin with the prefix. A text that does not begin with the prefix is left
/// as it is.
pub proof fn lemma_strip_direct(text: Seq<char>)
    ensures
        !direct_prefix().is_prefix_of(strip_direct(text)),
        exists|count: nat| text == #[trigger] repeated_direct_prefix(count) + strip_direct(text),
        !direct_prefix().is_prefix_of(text) ==> strip_direct(text) == text,
    decreases text.len(),
{
    if direct_prefix().is_prefix_of(text) {
        let rest = text.skip(7);
        lemma_strip_direct(rest);
        let count = choose|count: nat|
            rest == #[trigger] repeated_direct_prefix(count) + strip_direct(rest);
        assert(text =~= direct_prefix() + rest);
        assert(text =~= repeated_direct_prefix(count + 1) + strip_direct(text));
    } else {
        assert(text =~= repeated_direct_prefix(0) + strip_direct(text));
    }
}

/// A location that begins with the direct-reference prefix is rendered as
/// the same location without it.
pub proof fn lemma_direct_prefix_is_stripped(
    location: Seq<char>,
    remote: bool,
    editable: bool,
    hashes: Option<PackageHashes>,
)
    ensures
        requirement_line(direct_prefix() + location, remote, editable, hashes) == requirement_line(
            location,
            remote,
            editable,
            hashes,
        ),
{
    assert((direct_prefix() + location).skip(7) =~= location);
}

/// The line of an editable package begins with the marker `-e `. The line
/// of any other package begins with its location: it begins with the marker
/// only if the location itself, once stripped, begins with `-e`.
pub proof fn lemma_editable_marker(
    location: Seq<char>,
    remote: bool,
    editable: bool,
    hashes: Option<PackageHashes>,
)
    ensures
        editable ==> "-e "@.is_prefix_of(requirement_line(location, remote, editable, hashes)),
        !editable ==> strip_direct(location).is_prefix_of(
            requirement_line(location, remote, editable, hashes),
        ),
        !editable && !seq!['-', 'e'].is_prefix_of(strip_direct(location)) ==> !"-e "@.is_prefix_of(
            requirement_line(location, remote, editable, hashes),
        ),
{
    reveal_strlit("-e ");
    reveal_strlit(" ");
    reveal_strlit("\n");
    let line = requirement_line(location, remote, editable, hashes);
    if !editable && "-e "@.is_prefix_of(line) {
        assert(line[0] == line.subrange(0, 3)[0]);
        assert(line[1] == line.subrange(0, 3)[1]);
    }
}

/// A package at a local path is rendered without a hash option, whatever
/// digests it has. A remote package with digests is rendered with one hash
/// option, which names SHA-256 and its digest wherever that is recorded,
/// and MD5 only where it is the one digest.
pub proof fn lemma_hash_annotation(package: SecondaryPackage)
    requires
        location_text(package.location) is Some,
    ensures
        package.location is Path ==> package_line(package) == Some(
            editable_marker(package.editable) + strip_direct(
                location_text(package.location)->0,
            ) + "\n"@,
        ),
        package.location is Url ==> match package.hashes {
            None => package_line(package) == Some(
                editable_marker(package.editable) + strip_direct(
                    location_text(package.location)->0,
                ) + "\n"@,
            ),
            Some(PackageHashes::Md5(md5)) => package_line(package) == Some(
                editable_marker(package.editable) + strip_direct(
                    location_text(package.location)->0,
                ) + " --hash=md5:"@ + hex_text(md5@) + "\n"@,
            ),
            Some(PackageHashes::Sha256(sha256)) | Some(PackageHashes::Md5Sha256(_, sha256)) => {
                package_line(package) == Some(
                    editable_marker(package.editable) + strip_direct(
                        location_text(package.location)->0,
                    ) + " --hash=sha256:"@ + hex_text(sha256@) + "\n"@,
                )
            },
        },
{
    reveal_strlit(" --hash=md5:");
    reveal_strlit(" --hash=sha256:");
    reveal_strlit("--hash=");
    reveal_strlit("md5");
    reveal_strlit("sha256");
    reveal_strlit(":");
    reveal_strlit(" ");
}

/// Whether `pattern` stands in `text` at the position `at`.
pub open spec fn occurs_at(text: Seq<char>, pattern: Seq<char>, at: int) -> bool {
    &&& 0 <= at
    &&& at + pattern.len() <= text.len()
    &&& text.subrange(at, at + pattern.len()) == pattern
}

/// Whether `pattern` stands anywhere in `text`.
pub open spec fn occurs_in(text: Seq<char>, pattern: Seq<char>) -> bool {
    exists|at: int| occurs_at(text, pattern, at)
}

/// What follows the first two characters of a hash annotation holds no
/// hyphen.
proof fn lemma_hash_annotation_tail(hashes: PackageHashes)
    ensures
        hash_annotation(true, Some(hashes)).len() >= 8,
        hash_annotation(true, Some(hashes)).subrange(0, 8) == " --hash="@,
        forall|i: int|
            3 <= i < hash_annotation(true, Some(hashes)).len() ==> hash_annotation(
                true,
                Some(hashes),
            )[i] != '-',
{
    reveal_strlit(" ");
    reveal_strlit(" --hash=");
    reveal_strlit("--hash=");
    reveal_strlit("md5");
    reveal_strlit("sha256");
    reveal_strlit(":");
    let annotation = hash_annotation(true, Some(hashes));
    let name = algorithm_name(hashes.preferred_algorithm());
    let hex = hex_text(hashes.preferred_digest());
    lemma_hex_text_is_hex(hashes.preferred_digest());
    assert(annotation =~= " --hash="@ + name + ":"@ + hex);
    assert(annotation.subrange(0, 8) =~= " --hash="@);
    assert forall|i: int| 3 <= i < annotation.len() implies annotation[i] != '-' by {
        if i < 8 {
            assert(annotation[i] == " --hash="@[i]);
        } else if i < 8 + name.len() {
            assert(annotation[i] == name[i - 8]);
        } else if i == 8 + name.len() {
            assert(annotation[i] == ':');
        } else {
            assert(annotation[i] == hex[i - 9 - name.len()]);
            assert(is_hex_digit(hex[i - 9 - name.len()]));
        }
    }
}

/// Stripping leaves the end of the text: what is stripped is the text
/// from some position on.
proof fn lemma_stripped_is_suffix(text: Seq<char>)
    ensures
        exists|from: int| 0 <= from <= text.len() && strip_direct(text) == #[trigger] text.skip(from),
    decreases text.len(),
{
    if direct_prefix().is_prefix_of(text) {
        let rest = text.skip(7);
        lemma_stripped_is_suffix(rest);
        let from = choose|from: int|
            0 <= from <= rest.len() && strip_direct(rest) == #[trigger] rest.skip(from);
        assert(rest.skip(from) =~= text.skip(from + 7));
    } else {
        assert(text =~= text.skip(0));
    }
}

/// A pattern that does not stand in a text does not stand in its end.
proof fn lemma_no_occurrence_in_suffix(text: Seq<char>, pattern: Seq<char>, from: int)
    requires
        0 <= from <= text.len(),
        !occurs_in(text, pattern),
    ensures
        !occurs_in(text.skip(from), pattern),
{
    assert forall|at: int| !occurs_at(text.skip(from), pattern, at) by {
        if occurs_at(text.skip(from), pattern, at) {
            assert(text.subrange(at + from, at + from + pattern.len()) =~= text.skip(
                from,
            ).subrange(at, at + pattern.len()));
            assert(occurs_at(text, pattern, at + from));
        }
    }
}

/// The text `--hash=` stands in what follows the location only as the
/// start of the hash option, behind the space.
proof fn lemma_occurrence_behind_location(remote: bool, hashes: Option<PackageHashes>, at: int)
    ensures
        occurs_at(hash_annotation(remote, hashes) + "\n"@, "--hash="@, at) <==> remote
            && hashes is Some && at == 1,
{
    reveal_strlit("--hash=");
    reveal_strlit(" --hash=");
    reveal_strlit("\n");
    let pattern = "--hash="@;
    let annotation = hash_annotation(remote, hashes);
    let rest = annotation + "\n"@;
    if remote && hashes is Some {
        lemma_hash_annotation_tail(hashes->0);
        assert(rest.subrange(1, 8) =~= pattern) by {
            assert forall|d: int| 0 <= d < 7 implies rest[1 + d] == pattern[d] by {
                assert(rest[1 + d] == annotation.subrange(0, 8)[1 + d]);
            }
        }
        if occurs_at(rest, pattern, at) && at != 1 {
            let found = rest.subrange(at, at + 7);
            assert(found[0] == rest[at]);
            assert(found[1] == rest[at + 1]);
            if at == 0 {
                assert(rest[0] == annotation.subrange(0, 8)[0]);
            } else if at == 2 {
                assert(rest[3] == annotation[3]);
            } else {
                assert(rest[at] == annotation[at]);
            }
        }
    } else {
        assert(annotation.len() == 0);
    }
}

/// The text `--hash=` stands in a line only where it stands in what
/// follows the location, if the location does not hold it.
proof fn lemma_occurrence_in_line(
    marker: Seq<char>,
    location: Seq<char>,
    rest: Seq<char>,
    at: int,
)
    requires
        marker.len() == 0 || marker == "-e "@,
        !occurs_in(location, "--hash="@),
        rest.len() > 0,
        rest[0] == ' ' || rest[0] == '\n',
    ensures
        occurs_at(marker + location + rest, "--hash="@, at) <==> occurs_at(
            rest,
            "--hash="@,
            at - marker.len() - location.len(),
        ),
{
    reveal_strlit("--hash=");
    reveal_strlit("-e ");
    let pattern = "--hash="@;
    let line = marker + location + rest;
    let m = marker.len() as int;
    let s = location.len() as int;
    if occurs_at(line, pattern, at) {
        let found = line.subrange(at, at + 7);
        assert(found[0] == line[at]);
        assert(found[1] == line[at + 1]);
        if at < m {
            assert(line[1] == 'e');
            assert(line[2] == ' ');
        } else if at + 7 <= m + s {
            assert(location.subrange(at - m, at - m + 7) =~= found);
            assert(occurs_at(location, pattern, at - m));
        } else if at < m + s {
            assert(found[m + s - at] == line[m + s]);
            assert(line[m + s] == rest[0]);
        } else {
            assert(rest.subrange(at - m - s, at - m - s + 7) =~= found);
        }
    }
    if occurs_at(rest, pattern, at - m - s) {
        assert(line.subrange(at, at + 7) =~= rest.subrange(at - m - s, at - m - s + 7));
    }
}

/// Where the location itself does not hold the text `--hash=`, the line of
/// a remote package with a digest holds it once, right behind the location
/// and a space, and the line of any other package does not hold it at all.
pub proof fn lemma_hash_option_occurs_once(
    location: Seq<char>,
    remote: bool,
    editable: bool,
    hashes: Option<PackageHashes>,
)
    requires
        !occurs_in(location, "--hash="@),
    ensures
        forall|at: int| #[trigger]
            occurs_at(requirement_line(location, remote, editable, hashes), "--hash="@, at) <==> {
                &&& remote
                &&& hashes is Some
                &&& at == editable_marker(editable).len() + strip_direct(location).len() + 1
            },
{
    let line = requirement_line(location, remote, editable, hashes);
    let marker = editable_marker(editable);
    let stripped = strip_direct(location);
    let rest = hash_annotation(remote, hashes) + "\n"@;
    assert(line =~= marker + stripped + rest);
    lemma_stripped_is_suffix(location);
    let from = choose|from: int|
        0 <= from <= location.len() && stripped == #[trigger] location.skip(from);
    lemma_no_occurrence_in_suffix(location, "--hash="@, from);
    assert(rest.len() > 0 && (rest[0] == ' ' || rest[0] == '\n')) by {
        reveal_strlit(" ");
        reveal_strlit("\n");
    }
    assert forall|at: int| #[trigger] occurs_at(line, "--hash="@, at) <==> remote && hashes is Some
        && at == marker.len() + stripped.len() + 1 by {
        lemma_occurrence_in_line(marker, stripped, rest, at);
        lemma_occurrence_behind_location(remote, hashes, at - marker.len() - stripped.len());
    }
}

} // verus!
