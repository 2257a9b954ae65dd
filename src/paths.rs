use vstd::prelude::*;

verus! {

/// What `Path::parent` gives for a path: the path without its final
/// component, or nothing when the path is empty or ends in a root.
pub uninterp spec fn parent_of(p: Seq<char>) -> Option<Seq<char>>;

/// Joins `rel` onto `dir` as `PathBuf::push` does on Unix: an absolute `rel`
/// replaces `dir`; otherwise a separator is put between them unless `dir`
/// is empty or already ends in one.
pub open spec fn joined(dir: Seq<char>, rel: Seq<char>) -> Seq<char> {
    if rel.len() > 0 && rel[0] == '/' {
        rel
    } else if dir.len() == 0 || dir.last() == '/' {
        dir + rel
    } else {
        dir + seq!['/'] + rel
    }
}

/// Relies on `str::chars`, collected into a `Vec`: the string's characters in order.
#[verifier::external_body]
pub(crate) fn chars_of(s: &str) -> (r: Vec<char>)
    ensures
        r@ == s@,
{
    s.chars().collect()
}

/// Relies on `String`'s `FromIterator<&char>`: the string made of the given characters.
#[verifier::external_body]
pub(crate) fn string_of(c: &[char]) -> (r: String)
    ensures
        r@ == c@,
{
    c.iter().collect()
}

/// Relies on `Path::parent`; the parent of a `&str` path is a prefix of it,
/// so the lossy conversion back to a `String` keeps every character.
#[verifier::external_body]
pub(crate) fn parent_dir(p: &str) -> (r: Option<String>)
    ensures
        match r {
            Some(d) => parent_of(p@) == Some(d@),
            None => parent_of(p@) is None,
        },
        p@.len() == 0 ==> r is None,
{
    match std::path::Path::new(p).parent() {
        Some(d) => Some(d.to_string_lossy().into_owned()),
        None => None,
    }
}

/// Appends every character of `src` to `out`.
pub(crate) fn push_all(out: &mut Vec<char>, src: &Vec<char>)
    ensures
        final(out)@ == old(out)@ + src@,
{
    let mut i: usize = 0;
    while i < src.len()
        invariant
            i <= src.len(),
            out@ == old(out)@ + src@.take(i as int),
        decreases src.len() - i,
    {
        out.push(src[i]);
        i += 1;
        assert(src@.take(i as int) == src@.take(i - 1 as int).push(src@[i - 1 as int]));
    }
    assert(src@.take(src.len() as int) == src@);
}

/// The path that `rel` names when it is resolved against the directory `dir`.
pub fn join_path(dir: &str, rel: &str) -> (r: String)
    ensures
        r@ == joined(dir@, rel@),
{
    let d = chars_of(dir);
    let tail = chars_of(rel);
    let mut out: Vec<char> = Vec::new();
    if tail.len() == 0 || tail[0] != '/' {
        push_all(&mut out, &d);
        if d.len() > 0 && d[d.len() - 1] != '/' {
            out.push('/');
        }
    }
    push_all(&mut out, &tail);
    proof {
        assert(out@ =~= joined(dir@, rel@));
    }
    string_of(out.as_slice())
}

} // verus!
