//! Derivation of the output file's path from the source file's path.
//!
//! Paths are modelled as plain strings whose components are separated
//! by '/', parsed as std parses them: trailing separators and trailing
//! "." components are ignored, so the file name of "/usr/bin/" is
//! "bin" and that of "a/." is "a".  A path with nothing left, or whose
//! last component is "..", has no file name.  The stem of a file name
//! is everything before its last '.' -- except that a name whose only
//! '.' is its first character (a hidden file) keeps the whole name.
//! A source path without a file name falls back to the stem "output".

use vstd::prelude::*;
use crate::format::Format;

verus! {

/// `s` with its trailing '/' separators and trailing "." components
/// removed, as std's path parsing ignores them.
pub open spec fn spec_trimmed(s: Seq<char>) -> Seq<char>
    decreases s.len(),
{
    if s.len() == 0 {
        s
    } else if s.last() == '/' {
        spec_trimmed(s.drop_last())
    } else if s.last() == '.' && (s.len() == 1 || s[s.len() - 2] == '/') {
        spec_trimmed(s.drop_last())
    } else {
        s
    }
}

/// Index of the first character after the last '/' in `s`, or 0 when
/// `s` holds no '/'.
pub open spec fn spec_name_start(s: Seq<char>) -> int
    decreases s.len(),
{
    if s.len() == 0 {
        0
    } else if s.last() == '/' {
        s.len() as int
    } else {
        spec_name_start(s.drop_last())
    }
}

/// The last component of a path: everything after the last '/' once
/// trailing separators and "." components are ignored.
pub open spec fn spec_last_segment(s: Seq<char>) -> Seq<char> {
    let t = spec_trimmed(s);
    t.subrange(spec_name_start(t), t.len() as int)
}

/// The file-name part of a path, as `Path::file_name` reads it: the
/// last component, unless nothing is left or that component is "..".
pub open spec fn spec_file_name(s: Seq<char>) -> Option<Seq<char>> {
    let name = spec_last_segment(s);
    if name.len() == 0 || name == seq!['.', '.'] {
        None
    } else {
        Some(name)
    }
}

/// Index of the last '.' in `name`, or -1 when it holds none.
pub open spec fn spec_last_dot(name: Seq<char>) -> int
    decreases name.len(),
{
    if name.len() == 0 {
        -1
    } else if name.last() == '.' {
        name.len() - 1
    } else {
        spec_last_dot(name.drop_last())
    }
}

/// The stem of a file name: the part before its last '.', except that
/// a name whose only '.' leads (a hidden file), or one with no '.' at
/// all, keeps the whole name.
pub open spec fn spec_stem(name: Seq<char>) -> Seq<char> {
    if spec_last_dot(name) > 0 {
        name.subrange(0, spec_last_dot(name))
    } else {
        name
    }
}

/// The stem of the output file for the source path `path`: the stem of
/// its file name, or "output" when the path has no file name.
pub open spec fn spec_output_stem(path: Seq<char>) -> Seq<char> {
    match spec_file_name(path) {
        Option::None => "output"@,
        Option::Some(name) => spec_stem(name),
    }
}

/// The three properties that pin `spec_name_start` down: any index in
/// bounds, preceded by a '/' unless it is 0 and followed by none, is it.
proof fn lemma_name_start_determined(s: Seq<char>, k: int)
    requires
        0 <= k <= s.len(),
        forall|j: int| k <= j < s.len() ==> s[j] != '/',
        k > 0 ==> s[k - 1] == '/',
    ensures
        spec_name_start(s) == k,
    decreases s.len(),
{
    if s.len() == 0 {
    } else if s.last() == '/' {
        assert(s[s.len() - 1] == '/');
        if k < s.len() {
            assert(s[k] != '/' || k == s.len() - 1);
            assert(k == s.len() - 1 || s[s.len() - 1] != '/');
            assert(false);
        }
    } else {
        if k == s.len() {
            assert(s[k - 1] == '/');
            assert(false);
        }
        assert forall|j: int| k <= j < s.drop_last().len() implies s.drop_last()[j] != '/' by {
            assert(s.drop_last()[j] == s[j]);
        }
        if k > 0 {
            assert(s.drop_last()[k - 1] == s[k - 1]);
        }
        lemma_name_start_determined(s.drop_last(), k);
    }
}

/// Any index that carries the last '.' (or -1 when there is none) is
/// `spec_last_dot`.
proof fn lemma_last_dot_determined(name: Seq<char>, d: int)
    requires
        d == -1 || (0 <= d < name.len() && name[d] == '.'),
        d == -1 ==> forall|j: int| 0 <= j < name.len() ==> name[j] != '.',
        forall|j: int| d < j < name.len() ==> name[j] != '.',
    ensures
        spec_last_dot(name) == d,
    decreases name.len(),
{
    if name.len() == 0 {
    } else if name.last() == '.' {
        assert(name[name.len() - 1] == '.');
        if d != name.len() - 1 {
            assert(name[name.len() - 1] != '.');
            assert(false);
        }
    } else {
        if d == name.len() - 1 {
            assert(false);
        }
        assert forall|j: int| d < j < name.drop_last().len() implies name.drop_last()[j] != '.' by {
            assert(name.drop_last()[j] == name[j]);
        }
        if d >= 0 {
            assert(name.drop_last()[d] == name[d]);
        }
        lemma_last_dot_determined(name.drop_last(), d);
    }
}

/// `spec_last_dot` lies between -1 and the last index of the name.
proof fn lemma_last_dot_bounds(name: Seq<char>)
    ensures
        -1 <= spec_last_dot(name) < name.len(),
    decreases name.len(),
{
    if name.len() == 0 {
    } else if name.last() == '.' {
    } else {
        lemma_last_dot_bounds(name.drop_last());
    }
}

/// The output stem is never empty, whatever the source path: the
/// output file always has a proper name under the output directory.
pub proof fn lemma_output_stem_nonempty(path: Seq<char>)
    ensures
        spec_output_stem(path).len() > 0,
{
    reveal_strlit("output");
    match spec_file_name(path) {
        Option::None => {},
        Option::Some(name) => {
            lemma_last_dot_bounds(name);
            if spec_last_dot(name) > 0 {
                assert(name.subrange(0, spec_last_dot(name)).len() == spec_last_dot(name));
            }
        },
    }
}

/// Index right after `spec_trimmed(path@)` in `path`: the length that
/// is left once trailing '/' and "." components are dropped.
fn trimmed_end(path: &str) -> (e: usize)
    ensures
        e <= path@.len(),
        spec_trimmed(path@) == path@.subrange(0, e as int),
{
    let n: usize = path.unicode_len();
    let mut e: usize = n;
    proof {
        assert(path@.subrange(0, n as int) =~= path@);
    }
    loop
        invariant_except_break
            e <= n,
            n == path@.len(),
            spec_trimmed(path@) == spec_trimmed(path@.subrange(0, e as int)),
        ensures
            e <= path@.len(),
            spec_trimmed(path@) == path@.subrange(0, e as int),
        decreases e,
    {
        if e == 0 {
            proof {
                assert(path@.subrange(0, 0).len() == 0);
            }
            break;
        }
        let c = path.get_char(e - 1);
        let cut = if c == '/' {
            true
        } else if c == '.' {
            e == 1 || path.get_char(e - 2) == '/'
        } else {
            false
        };
        if !cut {
            proof {
                let pre = path@.subrange(0, e as int);
                assert(pre.last() == path@[e - 1]);
                if e > 1 {
                    assert(pre[e - 2] == path@[e - 2]);
                }
                assert(spec_trimmed(pre) == pre);
            }
            break;
        }
        proof {
            let pre = path@.subrange(0, e as int);
            assert(pre.last() == path@[e - 1]);
            if e > 1 {
                assert(pre[e - 2] == path@[e - 2]);
            }
            assert(pre.drop_last() =~= path@.subrange(0, e - 1));
        }
        e = e - 1;
    }
    e
}

/// The file-name part of `path`, read as `Path::file_name` reads it.
pub fn file_name(path: &str) -> (r: Option<String>)
    ensures
        match r {
            Option::Some(name) => spec_file_name(path@) == Some(name@),
            Option::None => spec_file_name(path@) is None,
        },
{
    let e = trimmed_end(path);
    let ghost t = path@.subrange(0, e as int);
    let mut k: usize = 0;
    let mut i: usize = 0;
    while i < e
        invariant
            e <= path@.len(),
            k <= i <= e,
            forall|j: int| k <= j < i ==> path@[j] != '/',
            k > 0 ==> path@[k - 1] == '/',
        decreases e - i,
    {
        if path.get_char(i) == '/' {
            k = i + 1;
        }
        i = i + 1;
    }
    proof {
        assert forall|j: int| k <= j < t.len() implies t[j] != '/' by {
            assert(t[j] == path@[j]);
        }
        if k > 0 {
            assert(t[k - 1] == path@[k - 1]);
        }
        lemma_name_start_determined(t, k as int);
        assert(spec_last_segment(path@) =~= path@.subrange(k as int, e as int));
    }
    let len: usize = e - k;
    if len == 0 {
        None
    } else if len == 2 && path.get_char(k) == '.' && path.get_char(k + 1) == '.' {
        proof {
            assert(spec_last_segment(path@) =~= seq!['.', '.']);
        }
        None
    } else {
        proof {
            let seg = spec_last_segment(path@);
            if seg == seq!['.', '.'] {
                assert(seg[0] == '.' && seg[1] == '.');
                assert(seg[0] == path@[k as int] && seg[1] == path@[k + 1]);
                assert(false);
            }
        }
        let name = path.substring_char(k, e);
        Some(String::from_str(name))
    }
}

/// The stem of the file name `name`.
fn stem_of_name(name: &str) -> (r: String)
    ensures
        r@ == spec_stem(name@),
{
    let n: usize = name.unicode_len();
    let mut has_dot = false;
    let mut d: usize = 0;
    let mut i: usize = 0;
    while i < n
        invariant
            n == name@.len(),
            i <= n,
            has_dot ==> d < i && name@[d as int] == '.',
            has_dot ==> forall|j: int| d < j < i ==> name@[j] != '.',
            !has_dot ==> forall|j: int| 0 <= j < i ==> name@[j] != '.',
        decreases n - i,
    {
        if name.get_char(i) == '.' {
            has_dot = true;
            d = i;
        }
        i = i + 1;
    }
    proof {
        let rel: int = if has_dot { d as int } else { -1 };
        lemma_last_dot_determined(name@, rel);
        assert(name@.subrange(0, n as int) =~= name@);
    }
    let end: usize = if has_dot && d > 0 {
        d
    } else {
        n
    };
    String::from_str(name.substring_char(0, end))
}

/// The stem of the output file for the source path `path`.
pub fn output_stem(path: &str) -> (r: String)
    ensures
        r@ == spec_output_stem(path@),
{
    match file_name(path) {
        Option::None => String::from_str("output"),
        Option::Some(name) => stem_of_name(name.as_str()),
    }
}

/// The directory the converter writes its output files into.
pub fn output_dir() -> (r: String)
    ensures
        r@ == "./test/dist"@,
{
    String::from_str("./test/dist")
}

/// The full path of the output file: the output directory, the source
/// file's stem, and the extension of the chosen format.
pub open spec fn spec_dst_path(path: Seq<char>, fmt: Format) -> Seq<char> {
    "./test/dist/"@ + spec_output_stem(path) + fmt.spec_extension()
}

/// Builds the output file's path for `src` converted to `fmt`.
pub fn dst_path(src: &str, fmt: Format) -> (r: String)
    ensures
        r@ == spec_dst_path(src@, fmt),
{
    let mut r = String::from_str("./test/dist/");
    let stem = output_stem(src);
    r.append(stem.as_str());
    r.append(fmt.extension());
    r
}

} // verus!
