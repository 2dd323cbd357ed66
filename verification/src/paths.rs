//! Path and environment-file helpers: the Windows extended-length prefix,
//! environment-file line filtering, environment-file path resolution, and
//! the walk up a directory path towards the project root.
//!
//! Paths are handled as plain strings with `/` as the separator; the walk up
//! a path takes the set of directories that hold a manifest as an argument,
//! since only the caller can look at the disk.

use vstd::prelude::*;

use crate::strutil::{
    chars_to_string, lemma_str_views, lemma_str_views_push, split_chars, split_seq,
    starts_with_seq, str_to_chars, str_views, views_of,
};

verus! {

/// Strips the Windows extended-length path prefix from a path given as a
/// string, leaving any other path unchanged.
pub fn remove_unc_prefix(path: &str) -> (r: String)
    ensures
        starts_with_seq(path@, seq!['\\', '\\', '?', '\\']) ==> r@ == path@.skip(4),
        !starts_with_seq(path@, seq!['\\', '\\', '?', '\\']) ==> r@ == path@,
{
    let n = path.unicode_len();
    if n >= 4 && path.get_char(0) == '\\' && path.get_char(1) == '\\' && path.get_char(2) == '?'
        && path.get_char(3) == '\\' {
        let mut out: Vec<char> = Vec::new();
        let mut i: usize = 4;
        while i < n
            invariant
                4 <= i <= n,
                n == path@.len(),
                out@ == path@.subrange(4, i as int),
            decreases n - i,
        {
            out.push(path.get_char(i));
            i += 1;
        }
        proof {
            assert(path@.subrange(0, 4) =~= seq!['\\', '\\', '?', '\\']);
            assert(out@ =~= path@.skip(4));
        }
        chars_to_string(&out)
    } else {
        proof {
            if path@.len() >= 4 {
                assert(path@.subrange(0, 4) != seq!['\\', '\\', '?', '\\']);
            }
        }
        path.to_owned()
    }
}

/// True of the ASCII whitespace characters.
pub open spec fn is_space(c: char) -> bool {
    c == ' ' || c == '\t' || c == '\n' || c == '\r' || c == '\u{c}'
}

/// `s` without its leading ASCII whitespace.
pub open spec fn trim_start_spec(s: Seq<char>) -> Seq<char>
    decreases s.len(),
{
    if s.len() > 0 && is_space(s[0]) {
        trim_start_spec(s.skip(1))
    } else {
        s
    }
}

/// `s` without its trailing ASCII whitespace.
pub open spec fn trim_end_spec(s: Seq<char>) -> Seq<char>
    decreases s.len(),
{
    if s.len() > 0 && is_space(s.last()) {
        trim_end_spec(s.drop_last())
    } else {
        s
    }
}

/// `s` without leading or trailing ASCII whitespace.
pub open spec fn trim_spec(s: Seq<char>) -> Seq<char> {
    trim_end_spec(trim_start_spec(s))
}

/// Removes leading and trailing ASCII whitespace.
pub fn trim_chars(v: &Vec<char>) -> (r: Vec<char>)
    ensures
        r@ == trim_spec(v@),
{
    let n = v.len();
    let mut start: usize = 0;
    proof {
        assert(v@.skip(0) =~= v@);
    }
    while start < n && (v[start] == ' ' || v[start] == '\t' || v[start] == '\n' || v[start]
        == '\r' || v[start] == '\u{c}')
        invariant
            start <= n,
            n == v@.len(),
            trim_start_spec(v@) == trim_start_spec(v@.skip(start as int)),
        decreases n - start,
    {
        proof {
            assert(v@.skip(start as int).skip(1) =~= v@.skip(start + 1));
        }
        start += 1;
    }
    proof {
        assert(trim_start_spec(v@.skip(start as int)) == v@.skip(start as int));
        assert(v@.skip(start as int).take(n - start) =~= v@.skip(start as int));
    }
    let mut end: usize = n;
    while end > start && (v[end - 1] == ' ' || v[end - 1] == '\t' || v[end - 1] == '\n' || v[end
        - 1] == '\r' || v[end - 1] == '\u{c}')
        invariant
            start <= end <= n,
            n == v@.len(),
            trim_start_spec(v@) == v@.skip(start as int),
            trim_end_spec(v@.skip(start as int)) == trim_end_spec(
                v@.skip(start as int).take(end - start),
            ),
        decreases end,
    {
        proof {
            let mid = v@.skip(start as int).take(end - start);
            assert(mid.last() == v@[end - 1]);
            assert(mid.drop_last() =~= v@.skip(start as int).take(end - 1 - start));
        }
        end -= 1;
    }
    proof {
        let mid = v@.skip(start as int).take(end - start);
        if end > start {
            assert(mid.last() == v@[end - 1]);
        }
        assert(trim_end_spec(mid) == mid);
    }
    let mut out: Vec<char> = Vec::new();
    let mut i: usize = start;
    while i < end
        invariant
            start <= i <= end <= n,
            n == v@.len(),
            out@ == v@.subrange(start as int, i as int),
        decreases end - i,
    {
        out.push(v[i]);
        i += 1;
    }
    proof {
        assert(out@ =~= v@.skip(start as int).take(end - start));
    }
    out
}

/// The environment lines kept from a file's content: each line trimmed of
/// ASCII whitespace, comment lines (starting with `#`) dropped, empty lines
/// kept.
pub open spec fn env_lines_spec(content: Seq<char>) -> Seq<Seq<char>> {
    kept_lines(split_seq(content, '\n'))
}

/// The trimmed non-comment lines of `lines`.
pub open spec fn kept_lines(lines: Seq<Seq<char>>) -> Seq<Seq<char>>
    decreases lines.len(),
{
    if lines.len() == 0 {
        Seq::<Seq<char>>::empty()
    } else {
        let t = trim_spec(lines[0]);
        (if starts_with_seq(t, seq!['#']) {
            Seq::<Seq<char>>::empty()
        } else {
            seq![t]
        }) + kept_lines(lines.skip(1))
    }
}

/// Splits an environment file's content into lines, trims each, and drops
/// comment lines.
pub fn parse_env_content(content: &str) -> (r: Vec<String>)
    ensures
        str_views(r@) == env_lines_spec(content@),
{
    broadcast use lemma_str_views, crate::strutil::lemma_views_of;

    let chars = str_to_chars(content);
    let lines = split_chars(&chars, '\n');
    let ghost line_views = views_of(lines@);
    let n = lines.len();
    let mut out: Vec<String> = Vec::new();
    let mut i: usize = 0;
    proof {
        assert(line_views.skip(0) =~~= line_views);
        assert(str_views(out@) + kept_lines(line_views) =~~= kept_lines(line_views));
    }
    while i < n
        invariant
            i <= n,
            n == lines@.len(),
            line_views == views_of(lines@),
            kept_lines(line_views) == str_views(out@) + kept_lines(line_views.skip(i as int)),
        decreases n - i,
    {
        let ghost tail = line_views.skip(i as int);
        proof {
            assert(tail[0] == line_views[i as int]);
            assert(tail.skip(1) =~~= line_views.skip(i + 1));
        }
        let trimmed = trim_chars(&lines[i]);
        let is_comment = trimmed.len() > 0 && trimmed[0] == '#';
        proof {
            if trimmed@.len() > 0 {
                assert(trimmed@.subrange(0, 1) =~= seq![trimmed@[0]]);
                assert(seq![trimmed@[0]][0] == trimmed@[0]);
                assert(seq!['#'][0] == '#');
                if trimmed@[0] != '#' {
                    assert(trimmed@.subrange(0, 1) != seq!['#']);
                }
            }
            assert(is_comment == starts_with_seq(trim_spec(tail[0]), seq!['#']));
        }
        if !is_comment {
            let ghost prev = out@;
            out.push(chars_to_string(&trimmed));
            proof {
                lemma_str_views_push(prev, out@.last());
                assert(str_views(prev).push(trim_spec(tail[0])) =~~= str_views(prev) + seq![
                    trim_spec(tail[0]),
                ]);
            }
        }
        i += 1;
    }
    proof {
        assert(line_views.skip(n as int) =~~= Seq::<Seq<char>>::empty());
        assert(str_views(out@) + kept_lines(Seq::<Seq<char>>::empty()) =~~= str_views(out@));
    }
    out
}

/// Where an environment file is found: a name starting with `.` is taken
/// relative to the working directory, any other name as it stands.
pub open spec fn env_file_path_spec(file_name: Seq<char>, base_path: Seq<char>) -> Seq<char> {
    if starts_with_seq(file_name, seq!['.']) {
        base_path + seq!['/'] + file_name
    } else {
        file_name
    }
}

/// Resolves an environment-file name against the working directory.
pub fn resolve_env_file_path(file_name: &str, base_path: &str) -> (r: String)
    ensures
        r@ == env_file_path_spec(file_name@, base_path@),
{
    let n = file_name.unicode_len();
    if n >= 1 && file_name.get_char(0) == '.' {
        proof {
            assert(file_name@.subrange(0, 1) =~= seq!['.']);
        }
        let mut out = str_to_chars(base_path);
        out.push('/');
        let name_chars = str_to_chars(file_name);
        let m = name_chars.len();
        let mut i: usize = 0;
        while i < m
            invariant
                i <= m,
                m == name_chars@.len(),
                out@ == base_path@ + seq!['/'] + name_chars@.subrange(0, i as int),
            decreases m - i,
        {
            out.push(name_chars[i]);
            proof {
                assert(out@ =~= base_path@ + seq!['/'] + name_chars@.subrange(0, i + 1));
            }
            i += 1;
        }
        proof {
            assert(out@ =~= base_path@ + seq!['/'] + file_name@);
        }
        chars_to_string(&out)
    } else {
        proof {
            if file_name@.len() >= 1 {
                assert(file_name@.subrange(0, 1) =~= seq![file_name@[0]]);
                assert(seq![file_name@[0]][0] == file_name@[0]);
                assert(seq!['.'][0] == '.');
                assert(file_name@.subrange(0, 1) != seq!['.']);
            }
        }
        file_name.to_owned()
    }
}

/// The index of the last `/` in `s`, or `-1` if there is none.
pub open spec fn last_slash(s: Seq<char>) -> int
    decreases s.len(),
{
    if s.len() == 0 {
        -1
    } else if s.last() == '/' {
        s.len() - 1
    } else {
        last_slash(s.drop_last())
    }
}

pub proof fn lemma_last_slash(s: Seq<char>)
    ensures
        -1 <= last_slash(s) < s.len(),
    decreases s.len(),
{
    if s.len() > 0 && s.last() != '/' {
        lemma_last_slash(s.drop_last());
    }
}

/// The parent directory of a `/`-separated path: everything before the last
/// separator.  The root and the empty path have none; a path without a
/// separator has the empty path as its parent.
pub open spec fn parent_dir(s: Seq<char>) -> Option<Seq<char>> {
    if s.len() == 0 || s == seq!['/'] {
        None
    } else {
        let i = last_slash(s);
        if i == -1 {
            Some(Seq::<char>::empty())
        } else if i == 0 {
            Some(seq!['/'])
        } else {
            Some(s.take(i))
        }
    }
}

/// The nearest directory, walking up from `dir`, that holds a manifest: the
/// first of `dir`, its parent, and so on, found among `manifest_dirs`.
pub open spec fn project_root_spec(dir: Seq<char>, manifest_dirs: Seq<Seq<char>>) -> Option<
    Seq<char>,
>
    decreases dir.len(),
    via project_root_spec_decreases
{
    if manifest_dirs.contains(dir) {
        Some(dir)
    } else {
        match parent_dir(dir) {
            Some(p) => project_root_spec(p, manifest_dirs),
            None => None,
        }
    }
}

#[via_fn]
proof fn project_root_spec_decreases(dir: Seq<char>, manifest_dirs: Seq<Seq<char>>) {
    if parent_dir(dir) is Some {
        lemma_parent_shorter(dir);
    }
}

/// A path's parent, when it has one, is strictly shorter.
pub proof fn lemma_parent_shorter(dir: Seq<char>)
    requires
        parent_dir(dir) is Some,
    ensures
        parent_dir(dir)->0.len() < dir.len(),
{
    lemma_last_slash(dir);
    let i = last_slash(dir);
    if i == 0 && dir.len() == 1 {
        if dir.last() != '/' {
            assert(dir.drop_last() =~= Seq::<char>::empty());
            assert(last_slash(dir.drop_last()) == -1);
        }
        assert(dir =~= seq!['/']);
    }
}

/// True exactly when one of `dirs` spells the characters of `target`.
fn contains_string(dirs: &Vec<String>, target: &Vec<char>) -> (r: bool)
    ensures
        r == str_views(dirs@).contains(target@),
{
    broadcast use lemma_str_views;

    let t = chars_to_string(target);
    let n = dirs.len();
    let mut j: usize = 0;
    while j < n
        invariant
            j <= n,
            n == dirs@.len(),
            t@ == target@,
            forall|k: int| 0 <= k < j ==> str_views(dirs@)[k] != target@,
        decreases n - j,
    {
        if dirs[j].eq(&t) {
            proof {
                assert(str_views(dirs@)[j as int] == target@);
            }
            return true;
        }
        j += 1;
    }
    proof {
        if str_views(dirs@).contains(target@) {
            let k = choose|k: int| 0 <= k < str_views(dirs@).len() && str_views(dirs@)[k]
                == target@;
            assert(str_views(dirs@)[k] != target@);
        }
    }
    false
}

/// The parent directory of a path, per [`parent_dir`].
fn parent_of(dir: &Vec<char>) -> (r: Option<Vec<char>>)
    ensures
        match r {
            Some(p) => parent_dir(dir@) == Some(p@),
            None => parent_dir(dir@) is None,
        },
{
    let n = dir.len();
    if n == 0 {
        return None;
    }
    if n == 1 && dir[0] == '/' {
        proof {
            assert(dir@ =~= seq!['/']);
        }
        return None;
    }
    proof {
        if dir@ == seq!['/'] {
            assert(dir@.len() == 1);
            assert(dir@[0] == '/');
        }
    }
    let mut j: usize = n;
    proof {
        assert(dir@.take(n as int) =~= dir@);
    }
    while j > 0 && dir[j - 1] != '/'
        invariant
            j <= n,
            n == dir@.len(),
            last_slash(dir@) == last_slash(dir@.take(j as int)),
        decreases j,
    {
        proof {
            let taken = dir@.take(j as int);
            assert(taken.last() == dir@[j - 1]);
            assert(taken.drop_last() =~= dir@.take(j - 1));
        }
        j -= 1;
    }
    if j == 0 {
        proof {
            assert(dir@.take(0) =~= Seq::<char>::empty());
            assert(last_slash(dir@) == -1);
        }
        let empty: Vec<char> = Vec::new();
        return Some(empty);
    }
    proof {
        let taken = dir@.take(j as int);
        assert(taken.last() == dir@[j - 1]);
        assert(last_slash(dir@) == j - 1);
    }
    if j - 1 == 0 {
        let root = vec!['/'];
        proof {
            assert(root@ =~= seq!['/']);
        }
        return Some(root);
    }
    let mut out: Vec<char> = Vec::new();
    let mut i: usize = 0;
    while i < j - 1
        invariant
            i <= j - 1,
            1 <= j <= n,
            n == dir@.len(),
            out@ == dir@.subrange(0, i as int),
        decreases j - i,
    {
        out.push(dir[i]);
        i += 1;
    }
    proof {
        assert(out@ =~= dir@.take(j - 1));
    }
    Some(out)
}

/// Walks up from `directory` towards the root and returns the first
/// directory that holds a manifest, the manifest-holding directories being
/// given in `manifest_dirs`.
pub fn get_project_root_for_path(directory: &String, manifest_dirs: &Vec<String>) -> (r: Option<
    String,
>)
    ensures
        crate::types::opt_str_view(r) == project_root_spec(directory@, str_views(manifest_dirs@)),
{
    let mut cur: Vec<char> = str_to_chars(directory.as_str());
    loop
        invariant
            project_root_spec(directory@, str_views(manifest_dirs@)) == project_root_spec(
                cur@,
                str_views(manifest_dirs@),
            ),
        decreases cur@.len(),
    {
        if contains_string(manifest_dirs, &cur) {
            return Some(chars_to_string(&cur));
        }
        match parent_of(&cur) {
            Some(p) => {
                proof {
                    lemma_parent_shorter(cur@);
                }
                cur = p;
            },
            None => {
                return None;
            },
        }
    }
}

} // verus!
