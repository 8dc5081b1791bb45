use vstd::prelude::*;

verus! {

/// Position of the last occurrence of `c` in `s`, if any.
pub open spec fn last_index_of(s: Seq<char>, c: char) -> Option<int>
    decreases s.len(),
{
    if s.len() == 0 {
        None
    } else if s.last() == c {
        Some(s.len() - 1)
    } else {
        last_index_of(s.drop_last(), c)
    }
}

/// The final component of a path: the text after its last `/`.
pub open spec fn file_name_of(p: Seq<char>) -> Seq<char> {
    match last_index_of(p, '/') {
        Some(i) => p.subrange(i + 1, p.len() as int),
        None => p,
    }
}

/// Whether the final component names a file (it is neither empty nor `.` or `..`).
pub open spec fn has_file_name(p: Seq<char>) -> bool {
    let f = file_name_of(p);
    f.len() > 0 && f != seq!['.'] && f != seq!['.', '.']
}

/// Where the extension starts in a file name: after its last dot, provided
/// that dot is not the first character.
pub open spec fn extension_dot(f: Seq<char>) -> Option<int> {
    match last_index_of(f, '.') {
        Some(i) => if i > 0 { Some(i) } else { None },
        None => None,
    }
}

/// The file name without its extension.
pub open spec fn stem_of(p: Seq<char>) -> Seq<char> {
    let f = file_name_of(p);
    match extension_dot(f) {
        Some(i) => f.subrange(0, i),
        None => f,
    }
}

/// The extension, without its leading dot, when the file name has one.
pub open spec fn extension_of(p: Seq<char>) -> Option<Seq<char>> {
    let f = file_name_of(p);
    match extension_dot(f) {
        Some(i) => Some(f.subrange(i + 1, f.len() as int)),
        None => None,
    }
}

/// Whether a path names a file whose stem and extension are both known.
pub open spec fn is_well_formed_source(p: Seq<char>) -> bool {
    has_file_name(p) && extension_of(p) is Some
}

proof fn lemma_last_index_bounds(s: Seq<char>, c: char)
    ensures
        match last_index_of(s, c) {
            Some(i) => 0 <= i < s.len() && s[i] == c && forall|j: int|
                i < j < s.len() ==> s[j] != c,
            None => forall|j: int| 0 <= j < s.len() ==> s[j] != c,
        },
    decreases s.len(),
{
    if s.len() > 0 {
        lemma_last_index_bounds(s.drop_last(), c);
        assert(forall|j: int| 0 <= j < s.len() - 1 ==> s.drop_last()[j] == s[j]);
    }
}

/// Finds the last occurrence of `c` in `s`.
fn find_last(s: &str, c: char) -> (r: Option<usize>)
    ensures
        match r {
            Some(i) => last_index_of(s@, c) == Some(i as int) && i < s@.len(),
            None => last_index_of(s@, c) is None,
        },
{
    proof {
        lemma_last_index_bounds(s@, c);
    }
    let n = s.unicode_len();
    assert(s@.subrange(0, n as int) =~= s@);
    let mut k: usize = n;
    while k > 0
        invariant
            k <= n,
            n == s@.len(),
            last_index_of(s@, c) == last_index_of(s@.subrange(0, k as int), c),
        decreases k,
    {
        let ch = s.get_char(k - 1);
        assert(s@.subrange(0, k as int).last() == ch);
        if ch == c {
            return Some(k - 1);
        }
        assert(s@.subrange(0, k as int).drop_last() =~= s@.subrange(0, k - 1));
        k = k - 1;
    }
    None
}

/// The file name of `p`, as a slice of it.
fn file_name_slice(p: &str) -> (r: &str)
    ensures
        r@ == file_name_of(p@),
{
    proof {
        lemma_last_index_bounds(p@, '/');
    }
    let n = p.unicode_len();
    match find_last(p, '/') {
        Some(i) => p.substring_char(i + 1, n),
        None => p,
    }
}

/// The source media file that a run works on: its path, stem and extension.
#[derive(Clone, Debug)]
pub struct SourceMedia {
    pub path: String,
    pub stem: String,
    pub extension: String,
}

impl SourceMedia {
    pub open spec fn wf(&self) -> bool {
        &&& is_well_formed_source(self.path@)
        &&& self.stem@ == stem_of(self.path@)
        &&& Some(self.extension@) == extension_of(self.path@)
    }
}

/// Splits the file name of `p` into stem and extension, if it has an extension.
pub(crate) fn split_file_name(p: &str) -> (r: (String, Option<String>))
    ensures
        r.0@ == stem_of(p@),
        match r.1 {
            Some(e) => extension_of(p@) == Some(e@),
            None => extension_of(p@) is None,
        },
{
    let f = file_name_slice(p);
    proof {
        lemma_last_index_bounds(f@, '.');
    }
    let n = f.unicode_len();
    match find_last(f, '.') {
        Some(i) => {
            if i > 0 {
                let stem = f.substring_char(0, i);
                let ext = f.substring_char(i + 1, n);
                (String::from_str(stem), Some(String::from_str(ext)))
            } else {
                (String::from_str(f), None)
            }
        },
        None => (String::from_str(f), None),
    }
}

/// The extension of a path, without its dot (`"mp4"` for `"talk.mp4"`).
pub fn get_file_extension(file_path: &str) -> (r: String)
    requires
        extension_of(file_path@) is Some,
    ensures
        Some(r@) == extension_of(file_path@),
{
    let (_, ext) = split_file_name(file_path);
    match ext {
        Some(e) => e,
        None => String::new(),
    }
}

/// Resolves the source path of a run into its stem and extension.
/// A path without a file name or without an extension is malformed.
pub fn resolve_source(path: &str) -> (r: Option<SourceMedia>)
    ensures
        r is Some <==> is_well_formed_source(path@),
        r matches Some(m) ==> m.wf() && m.path@ == path@,
{
    let f = file_name_slice(path);
    let n = f.unicode_len();
    if n == 0 {
        return None;
    }
    if n <= 2 && f.get_char(0) == '.' && (n == 1 || f.get_char(1) == '.') {
        assert(f@ =~= seq!['.'] || f@ =~= seq!['.', '.']);
        return None;
    }
    assert(f@ != seq!['.']) by {
        if n == 1 { assert(f@[0] != '.'); }
    }
    assert(f@ != seq!['.', '.']) by {
        if n == 2 { assert(f@[0] != '.' || f@[1] != '.'); }
    }
    let (stem, ext) = split_file_name(path);
    match ext {
        Some(e) => Some(SourceMedia { path: String::from_str(path), stem, extension: e }),
        None => None,
    }
}

} // verus!
