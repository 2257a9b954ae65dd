use vstd::prelude::*;
use vstd::utf8::{decode_utf8, valid_utf8};
use crate::error::{SdistError, ToolOutput};
use crate::paths::{chars_of, join_path, joined, parent_dir, parent_of, string_of};

verus! {

/// The build descriptor file that every source distribution must hold.
pub const DESCRIPTOR_FILE: &'static str = "pyproject.toml";

/// The archive name under which the package metadata is embedded.
pub const METADATA_FILE: &'static str = "PKG-INFO";

/// One file of a source distribution: where it goes in the archive, and
/// where it is read from on disk.
#[derive(Debug, Clone, PartialEq, Eq)]
pub struct ManifestEntry {
    pub target: String,
    pub source: String,
}

impl View for ManifestEntry {
    type V = (Seq<char>, Seq<char>);

    open spec fn view(&self) -> (Seq<char>, Seq<char>) {
        (self.target@, self.source@)
    }
}

/// One request to the archive writer.
#[derive(Debug, Clone, PartialEq, Eq)]
pub enum ArchiveStep {
    /// Copy the entry's source file into the archive under its target path.
    AddFile(ManifestEntry),
    /// Store `contents` in the archive under `name`.
    AddText { name: String, contents: String },
}

/// A line with its final carriage return, if any, removed.
pub open spec fn strip_cr(line: Seq<char>) -> Seq<char> {
    if line.len() > 0 && line.last() == '\r' {
        line.drop_last()
    } else {
        line
    }
}

/// Reading `s` from the start: the lines finished by a newline so far, and
/// the characters read since the last newline.
pub open spec fn scan_lines(s: Seq<char>) -> (Seq<Seq<char>>, Seq<char>)
    decreases s.len(),
{
    if s.len() == 0 {
        (seq![], seq![])
    } else {
        let (done, cur) = scan_lines(s.drop_last());
        if s.last() == '\n' {
            (done.push(strip_cr(cur)), seq![])
        } else {
            (done, cur.push(s.last()))
        }
    }
}

/// The lines of `s` as `str::lines` yields them: split at each newline, a
/// carriage return just before a newline dropped, and no empty line after a
/// final newline.
pub open spec fn lines_of(s: Seq<char>) -> Seq<Seq<char>> {
    let (done, cur) = scan_lines(s);
    if cur.len() == 0 {
        done
    } else {
        done.push(cur)
    }
}

/// Each listed path, paired with that path resolved against `dir`.
pub open spec fn resolved(listing: Seq<Seq<char>>, dir: Seq<char>) -> Seq<(Seq<char>, Seq<char>)> {
    listing.map_values(|t: Seq<char>| (t, joined(dir, t)))
}

/// Whether some entry is placed in the archive under `name`.
pub open spec fn has_target(entries: Seq<(Seq<char>, Seq<char>)>, name: Seq<char>) -> bool {
    exists|i: int| 0 <= i < entries.len() && #[trigger] entries[i].0 == name
}

/// The lines of `text`, one string per line.
pub fn split_lines(text: &str) -> (r: Vec<String>)
    ensures
        r@.map_values(|l: String| l@) == lines_of(text@),
{
    let chars = chars_of(text);
    let mut out: Vec<String> = Vec::new();
    let mut cur: Vec<char> = Vec::new();
    let mut i: usize = 0;
    while i < chars.len()
        invariant
            i <= chars.len(),
            chars@ == text@,
            (out@.map_values(|l: String| l@), cur@) == scan_lines(chars@.take(i as int)),
        decreases chars.len() - i,
    {
        let c = chars[i];
        proof {
            assert(chars@.take(i + 1 as int).drop_last() == chars@.take(i as int));
        }
        if c == '\n' {
            let n = cur.len();
            if n > 0 && cur[n - 1] == '\r' {
                cur.pop();
            }
            out.push(string_of(cur.as_slice()));
            cur = Vec::new();
        } else {
            cur.push(c);
        }
        i += 1;
        proof {
            assert(out@.map_values(|l: String| l@) =~= scan_lines(chars@.take(i as int)).0);
            assert(cur@ =~= scan_lines(chars@.take(i as int)).1);
        }
    }
    if cur.len() > 0 {
        out.push(string_of(cur.as_slice()));
    }
    proof {
        assert(chars@.take(chars.len() as int) == chars@);
        assert(out@.map_values(|l: String| l@) =~= lines_of(text@));
    }
    out
}

/// Decodes `bytes` as UTF-8 text, if they are valid UTF-8.
/// Relies on `String::from_utf8`, which fails exactly on invalid UTF-8 and
/// otherwise keeps the bytes as the string's encoding.
#[verifier::external_body]
fn decode_text(bytes: Vec<u8>) -> (r: Option<String>)
    ensures
        r is Some <==> valid_utf8(bytes@),
        r matches Some(s) ==> s@ == decode_utf8(bytes@),
{
    String::from_utf8(bytes).ok()
}

/// Pairs each listed path with its location under `dir`.
pub fn resolve_entries(listing: &Vec<String>, dir: &str) -> (r: Vec<ManifestEntry>)
    ensures
        r@.map_values(|e: ManifestEntry| e@) == resolved(listing@.map_values(|l: String| l@), dir@),
{
    let mut out: Vec<ManifestEntry> = Vec::new();
    let mut i: usize = 0;
    while i < listing.len()
        invariant
            i <= listing.len(),
            out.len() == i,
            out@.map_values(|e: ManifestEntry| e@) == resolved(
                listing@.map_values(|l: String| l@).take(i as int),
                dir@,
            ),
        decreases listing.len() - i,
    {
        let target = listing[i].clone();
        let source = join_path(dir, listing[i].as_str());
        let ghost before = out@;
        out.push(ManifestEntry { target, source });
        i += 1;
        proof {
            let ls = listing@.map_values(|l: String| l@);
            assert(ls.take(i as int) =~= ls.take(i - 1 as int).push(ls[i - 1 as int]));
            assert(out@ =~= before.push(out@[i - 1 as int]));
            assert(out@[i - 1 as int]@ == (ls[i - 1 as int], joined(dir@, ls[i - 1 as int])));
            let prev = resolved(ls.take(i - 1 as int), dir@);
            assert forall|j: int| 0 <= j < i - 1 implies #[trigger] out@[j]@ == prev[j] by {
                assert(before.map_values(|e: ManifestEntry| e@)[j] == prev[j]);
            }
            assert(out@.map_values(|e: ManifestEntry| e@) =~= resolved(
                listing@.map_values(|l: String| l@).take(i as int),
                dir@,
            ));
        }
    }
    proof {
        assert(listing@.map_values(|l: String| l@).take(listing.len() as int)
            =~= listing@.map_values(|l: String| l@));
    }
    out
}

/// Whether some entry is placed in the archive under `name`.
pub fn contains_target(entries: &Vec<ManifestEntry>, name: &str) -> (r: bool)
    ensures
        r == has_target(entries@.map_values(|e: ManifestEntry| e@), name@),
{
    let wanted = string_of(chars_of(name).as_slice());
    let mut i: usize = 0;
    while i < entries.len()
        invariant
            i <= entries.len(),
            wanted@ == name@,
            forall|j: int| 0 <= j < i ==> entries@[j].target@ != name@,
        decreases entries.len() - i,
    {
        if entries[i].target == wanted {
            proof {
                let v = entries@.map_values(|e: ManifestEntry| e@);
                assert(v[i as int].0 == name@);
            }
            return true;
        }
        i += 1;
    }
    proof {
        let v = entries@.map_values(|e: ManifestEntry| e@);
        assert forall|j: int| 0 <= j < v.len() implies #[trigger] v[j].0 != name@ by {
            assert(entries@[j].target@ != name@);
        }
    }
    false
}

/// What resolving the packaging tool's `output` against the manifest at
/// `manifest_path` gives: the tool must have succeeded and printed UTF-8
/// text, the manifest must have a parent directory, and the listing must
/// hold the build descriptor file.
pub open spec fn resolution(output: ToolOutput, manifest_path: Seq<char>) -> Result<
    Seq<(Seq<char>, Seq<char>)>,
    SdistError,
> {
    if output.status != Some(0i32) {
        Err(SdistError::ToolExecution(output))
    } else if !valid_utf8(output.stdout@) {
        Err(SdistError::Encoding)
    } else {
        match parent_of(manifest_path) {
            None => Err(SdistError::NoManifestDirectory),
            Some(dir) => {
                let entries = resolved(lines_of(decode_utf8(output.stdout@)), dir);
                if has_target(entries, DESCRIPTOR_FILE@) {
                    Ok(entries)
                } else {
                    Err(SdistError::MissingBuildDescriptor)
                }
            },
        }
    }
}

/// The entries of a source distribution, from the packaging tool's listing
/// of the package whose manifest is at `manifest_path`.
pub fn resolve_manifest(output: ToolOutput, manifest_path: &str) -> (r: Result<
    Vec<ManifestEntry>,
    SdistError,
>)
    ensures
        match r {
            Ok(v) => resolution(output, manifest_path@) == Ok::<_, SdistError>(
                v@.map_values(|e: ManifestEntry| e@),
            ),
            Err(e) => resolution(output, manifest_path@) == Err::<
                Seq<(Seq<char>, Seq<char>)>,
                _,
            >(e),
        },
{
    if output.status != Some(0i32) {
        return Err(SdistError::ToolExecution(output));
    }
    let text = match decode_text(output.stdout) {
        Some(t) => t,
        None => return Err(SdistError::Encoding),
    };
    let dir = match parent_dir(manifest_path) {
        Some(d) => d,
        None => return Err(SdistError::NoManifestDirectory),
    };
    let listing = split_lines(text.as_str());
    let entries = resolve_entries(&listing, dir.as_str());
    if contains_target(&entries, DESCRIPTOR_FILE) {
        Ok(entries)
    } else {
        Err(SdistError::MissingBuildDescriptor)
    }
}

/// The writer requests that turn `entries` into a source distribution:
/// every entry in order, then the package metadata under its fixed name.
pub open spec fn writes_entries_then_metadata(
    steps: Seq<ArchiveStep>,
    entries: Seq<(Seq<char>, Seq<char>)>,
    metadata: Seq<char>,
) -> bool {
    &&& steps.len() == entries.len() + 1
    &&& forall|i: int|
        0 <= i < entries.len() ==> (#[trigger] steps[i] matches ArchiveStep::AddFile(e) && e@
            == entries[i])
    &&& steps.last() matches ArchiveStep::AddText { name, contents } && name@ == METADATA_FILE@
        && contents@ == metadata
}

/// The writer requests for `entries`, followed by the package metadata.
pub fn archive_steps(entries: &Vec<ManifestEntry>, metadata: &str) -> (r: Vec<ArchiveStep>)
    ensures
        writes_entries_then_metadata(r@, entries@.map_values(|e: ManifestEntry| e@), metadata@),
{
    let mut out: Vec<ArchiveStep> = Vec::new();
    let mut i: usize = 0;
    while i < entries.len()
        invariant
            i <= entries.len(),
            out.len() == i,
            forall|j: int|
                0 <= j < i ==> (#[trigger] out@[j] matches ArchiveStep::AddFile(e) && e@
                    == entries@[j]@),
        decreases entries.len() - i,
    {
        let entry = ManifestEntry {
            target: entries[i].target.clone(),
            source: entries[i].source.clone(),
        };
        out.push(ArchiveStep::AddFile(entry));
        i += 1;
    }
    let name = string_of(chars_of(METADATA_FILE).as_slice());
    let contents = string_of(chars_of(metadata).as_slice());
    out.push(ArchiveStep::AddText { name, contents });
    proof {
        let v = entries@.map_values(|e: ManifestEntry| e@);
        assert forall|j: int| 0 <= j < v.len() implies (#[trigger] out@[j] matches ArchiveStep::AddFile(
            e,
        ) && e@ == v[j]) by {
            assert(out@[j] matches ArchiveStep::AddFile(e) && e@ == entries@[j]@);
        }
    }
    out
}

/// Everything the archive writer is asked to do for a source distribution
/// of the package whose manifest is at `manifest_path`, given the packaging
/// tool's `output`. When resolution fails the writer is asked nothing.
pub fn plan_source_distribution(output: ToolOutput, manifest_path: &str, metadata: &str) -> (r:
    Result<Vec<ArchiveStep>, SdistError>)
    ensures
        match r {
            Ok(steps) => resolution(output, manifest_path@) matches Ok(entries)
                && writes_entries_then_metadata(steps@, entries, metadata@),
            Err(e) => resolution(output, manifest_path@) == Err::<
                Seq<(Seq<char>, Seq<char>)>,
                _,
            >(e),
        },
{
    match resolve_manifest(output, manifest_path) {
        Ok(entries) => Ok(archive_steps(&entries, metadata)),
        Err(e) => Err(e),
    }
}

/// A listing names the build descriptor file exactly when its resolved
/// entries hold one placed under that name.
proof fn lemma_has_target_resolved(listing: Seq<Seq<char>>, dir: Seq<char>, name: Seq<char>)
    ensures
        has_target(resolved(listing, dir), name) == listing.contains(name),
{
    let entries = resolved(listing, dir);
    if listing.contains(name) {
        let i = choose|i: int| 0 <= i < listing.len() && listing[i] == name;
        assert(entries[i].0 == name);
    }
    if has_target(entries, name) {
        let i = choose|i: int| 0 <= i < entries.len() && #[trigger] entries[i].0 == name;
        assert(listing[i] == name);
    }
}

/// When the packaging tool succeeds with a UTF-8 listing and the manifest
/// has a parent directory: if the listing names the build descriptor file,
/// every listed path becomes one entry, in order, resolved against that
/// directory; if it does not, resolution fails with `MissingBuildDescriptor`,
/// and no writer request is planned.
pub proof fn lemma_listing_resolution(output: ToolOutput, manifest_path: Seq<char>)
    requires
        output.status == Some(0i32),
        valid_utf8(output.stdout@),
        parent_of(manifest_path) is Some,
    ensures
        ({
            let listing = lines_of(decode_utf8(output.stdout@));
            let dir = parent_of(manifest_path)->Some_0;
            if listing.contains(DESCRIPTOR_FILE@) {
                &&& resolution(output, manifest_path) matches Ok(entries)
                &&& entries.len() == listing.len()
                &&& forall|i: int|
                    0 <= i < listing.len() ==> #[trigger] entries[i] == (
                        listing[i],
                        joined(dir, listing[i]),
                    )
            } else {
                resolution(output, manifest_path) == Err::<Seq<(Seq<char>, Seq<char>)>, _>(
                    SdistError::MissingBuildDescriptor,
                )
            }
        }),
{
    let listing = lines_of(decode_utf8(output.stdout@));
    let dir = parent_of(manifest_path)->Some_0;
    lemma_has_target_resolved(listing, dir, DESCRIPTOR_FILE@);
}

/// A packaging tool run that did not succeed is reported as
/// `ToolExecution`, carrying the run's output, whatever the manifest path:
/// nothing is resolved, and asking again gives the same error.
pub proof fn lemma_failed_tool_run(output: ToolOutput, manifest_path: Seq<char>, other_path: Seq<char>)
    requires
        output.status != Some(0i32),
    ensures
        resolution(output, manifest_path) == Err::<Seq<(Seq<char>, Seq<char>)>, _>(
            SdistError::ToolExecution(output),
        ),
        resolution(output, manifest_path) == resolution(output, other_path),
{
}

/// Resolving the same tool output twice yields the same entries: the result
/// depends on the exit status and the listing's bytes alone.
pub proof fn lemma_resolution_deterministic(
    first: ToolOutput,
    second: ToolOutput,
    manifest_path: Seq<char>,
)
    requires
        first.status == second.status,
        first.stdout@ == second.stdout@,
    ensures
        resolution(first, manifest_path) is Ok <==> resolution(second, manifest_path) is Ok,
        resolution(first, manifest_path) matches Ok(a) ==> resolution(second, manifest_path)
            matches Ok(b) && a == b,
{
}

} // verus!
