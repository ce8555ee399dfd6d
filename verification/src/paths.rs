//! File paths, as texts whose components are separated by `/`. What paths mean on a platform that
//! has other separators, or prefixes such as drive letters, is not covered.

use vstd::prelude::*;

use crate::text::{from_chars, to_chars};

verus! {

/// `path` without trailing separators and trailing components that are a single dot.
pub open spec fn without_trailing_dots(path: Seq<char>) -> Seq<char>
    decreases path.len(),
{
    if path.len() > 0 && path.last() == '/' {
        without_trailing_dots(path.drop_last())
    } else if path.len() > 1 && path.last() == '.' && path[path.len() - 2] == '/' {
        without_trailing_dots(path.drop_last())
    } else {
        path
    }
}

/// What stands in `s` after the last `c`; all of `s` where there is none.
pub open spec fn after_last(s: Seq<char>, c: char) -> Seq<char>
    decreases s.len(),
{
    if s.len() == 0 || s.last() == c {
        Seq::empty()
    } else {
        after_last(s.drop_last(), c).push(s.last())
    }
}

/// The last component of `path`: none where the path is empty, is the root, or leads to the
/// current or the parent directory.
pub open spec fn file_name(path: Seq<char>) -> Option<Seq<char>> {
    let name = after_last(without_trailing_dots(path), '/');
    if name.len() == 0 || name == seq!['.'] || name == seq!['.', '.'] {
        None
    } else {
        Some(name)
    }
}

/// Whether a file name has a dot after its first character.
pub open spec fn has_extension(name: Seq<char>) -> bool {
    after_last(name, '.').len() + 1 < name.len()
}

/// What stands in the file name after its last dot: none where there is no file name, or no
/// dot after its first character.
pub open spec fn extension(path: Seq<char>) -> Option<Seq<char>> {
    match file_name(path) {
        Some(name) => if has_extension(name) {
            Some(after_last(name, '.'))
        } else {
            None
        },
        None => None,
    }
}

/// The file name without its extension and the dot before it.
pub open spec fn file_stem(path: Seq<char>) -> Option<Seq<char>> {
    match file_name(path) {
        Some(name) => if has_extension(name) {
            Some(name.take(name.len() - after_last(name, '.').len() - 1))
        } else {
            Some(name)
        },
        None => None,
    }
}

/// `path` as seen from `directory`: an absolute path stands for itself, any other is put
/// behind the directory, with one separator between them unless the directory ends in one or
/// is empty.
pub open spec fn join(directory: Seq<char>, path: Seq<char>) -> Seq<char> {
    if path.len() > 0 && path.first() == '/' {
        path
    } else if directory.len() == 0 || directory.last() == '/' {
        directory + path
    } else {
        directory + seq!['/'] + path
    }
}

/// Whether `name` can name a file in a directory.
pub open spec fn is_plain_name(name: Seq<char>) -> bool {
    &&& name.len() > 0
    &&& !name.contains('/')
    &&& name != seq!['.']
    &&& name != seq!['.', '.']
}

proof fn lemma_after_last(s: Seq<char>, c: char, n: int)
    requires
        0 <= n <= s.len(),
        forall|i: int| n <= i < s.len() ==> s[i] != c,
        n > 0 ==> s[n - 1] == c,
    ensures
        after_last(s, c) == s.skip(n),
    decreases s.len(),
{
    if n < s.len() {
        lemma_after_last(s.drop_last(), c, n);
        assert(s.skip(n) =~= s.drop_last().skip(n).push(s.last()));
    } else {
        assert(s.skip(n) =~= Seq::empty());
    }
}

/// What stands after the last `c` is the end of the text, holds no `c`, and has a `c` before
/// it unless it is the whole text.
pub proof fn lemma_after_last_is_suffix(s: Seq<char>, c: char)
    ensures
        after_last(s, c).len() <= s.len(),
        after_last(s, c) == s.skip(s.len() - after_last(s, c).len()),
        !after_last(s, c).contains(c),
        after_last(s, c).len() < s.len() ==> s[s.len() - after_last(s, c).len() - 1] == c,
    decreases s.len(),
{
    if s.len() > 0 && s.last() != c {
        let rest = s.drop_last();
        lemma_after_last_is_suffix(rest, c);
        let n = s.len() - after_last(s, c).len();
        assert(s.skip(n) =~= rest.skip(n).push(s.last()));
        let tail = after_last(s, c);
        assert forall|i: int| 0 <= i < tail.len() implies tail[i] != c by {
            if i < tail.len() - 1 {
                assert(tail[i] == after_last(rest, c)[i]);
                assert(after_last(rest, c).contains(tail[i]));
            }
        }
    } else {
        assert(s.skip(s.len() as int) =~= Seq::empty());
    }
}

/// A path without its trailing separators and dots is the beginning of the path.
pub proof fn lemma_without_trailing_dots_is_prefix(path: Seq<char>)
    ensures
        without_trailing_dots(path).is_prefix_of(path),
    decreases path.len(),
{
    if without_trailing_dots(path) != path {
        lemma_without_trailing_dots_is_prefix(path.drop_last());
    }
}

/// The extension of a path is made of characters of the path.
pub proof fn lemma_extension_is_in_path(path: Seq<char>, c: char)
    requires
        extension(path) is Some,
        extension(path)->0.contains(c),
    ensures
        path.contains(c),
        c != '.',
        c != '/',
{
    let left = without_trailing_dots(path);
    let name = after_last(left, '/');
    let ext = after_last(name, '.');
    lemma_without_trailing_dots_is_prefix(path);
    lemma_after_last_is_suffix(left, '/');
    lemma_after_last_is_suffix(name, '.');
    let i = choose|i: int| 0 <= i < ext.len() && ext[i] == c;
    let j = name.len() - ext.len() + i;
    assert(name[j] == c);
    assert(name.contains(c));
    assert(left[left.len() - name.len() + j] == c);
    assert(path[left.len() - name.len() + j] == c);
}

/// What stands after the last `c` of `a`, `c` and `b` is `b`, where `b` holds no `c`.
pub proof fn lemma_after_last_of_concat(a: Seq<char>, c: char, b: Seq<char>)
    requires
        !b.contains(c),
    ensures
        after_last(a + seq![c] + b, c) == b,
        after_last(b, c) == b,
{
    let whole = a + seq![c] + b;
    assert forall|i: int| a.len() < i < whole.len() implies whole[i] != c by {
        assert(b.contains(b[i - a.len() - 1]));
    }
    assert forall|i: int| 0 <= i < b.len() implies b[i] != c by {
        assert(b.contains(b[i]));
    }
    lemma_after_last(whole, c, a.len() as int + 1);
    lemma_after_last(b, c, 0);
    assert(whole.skip(a.len() as int + 1) =~= b);
    assert(b.skip(0) =~= b);
}

/// A path is joined to a directory by putting it behind the directory. There is one separator
/// between the two, which the directory may end in already, and none where the directory is
/// empty. An absolute path takes the place of the directory.
pub proof fn lemma_join(directory: Seq<char>, path: Seq<char>)
    ensures
        path.len() > 0 && path[0] == '/' ==> join(directory, path) == path,
        !(path.len() > 0 && path[0] == '/') ==> {
            let joined = join(directory, path);
            let n = directory.len() as int;
            &&& directory.is_prefix_of(joined)
            &&& joined.skip(joined.len() - path.len()) == path
            &&& if n == 0 || directory[n - 1] == '/' {
                joined.len() == n + path.len()
            } else {
                joined.len() == n + 1 + path.len() && joined[n] == '/'
            }
        },
{
    let joined = join(directory, path);
    assert(joined.skip(joined.len() - path.len()) =~= path);
}

/// The name of a file can name a file in a directory: it is not empty, has no separator in it,
/// and is neither one dot nor two.
pub proof fn lemma_file_name_is_plain(path: Seq<char>)
    ensures
        file_name(path) matches Some(name) ==> is_plain_name(name),
{
    lemma_after_last_is_suffix(without_trailing_dots(path), '/');
}

/// Separators, and dots behind separators, at the end of a path do not change its file name; two
/// dots there leave it without one. Nor has a path a file name that is empty, one dot or two.
pub proof fn lemma_file_name_at_the_end(path: Seq<char>)
    ensures
        file_name(path + seq!['/']) == file_name(path),
        file_name(path + seq!['/', '.']) == file_name(path),
        file_name(path + seq!['/', '.', '.']) is None,
        file_name(Seq::empty()) is None,
        file_name(seq!['.']) is None,
        file_name(seq!['.', '.']) is None,
{
    let slash = path + seq!['/'];
    assert(slash.drop_last() =~= path);
    assert((path + seq!['/', '.']).drop_last() =~= slash);
    let up = path + seq!['/', '.', '.'];
    assert(without_trailing_dots(up) == up);
    assert(up =~= path + seq!['/'] + seq!['.', '.']);
    lemma_after_last_of_concat(path, '/', seq!['.', '.']);
    assert(without_trailing_dots(seq!['.']) == seq!['.']);
    assert(without_trailing_dots(seq!['.', '.']) == seq!['.', '.']);
    lemma_after_last_of_concat(Seq::empty(), '/', seq!['.']);
    lemma_after_last_of_concat(Seq::empty(), '/', seq!['.', '.']);
}

/// The stem and the extension of a path are those of its file name.
pub proof fn lemma_parts_are_those_of_the_name(path: Seq<char>)
    ensures
        match file_name(path) {
            Some(name) => extension(path) == extension(name) && file_stem(path) == file_stem(name),
            None => extension(path) is None && file_stem(path) is None,
        },
{
    if file_name(path) is Some {
        lemma_file_name_is_plain(path);
        lemma_file_name_of_plain_name(file_name(path)->0);
    }
}

/// A file name is cut at its last dot, unless that is its first character: what stands before it
/// is the stem, and what stands after it the extension. Without such a dot the name is all stem.
pub proof fn lemma_name_is_cut_at_the_last_dot(name: Seq<char>)
    requires
        is_plain_name(name),
    ensures
        extension(name) is None <==> forall|i: int| 0 < i < name.len() ==> name[i] != '.',
        match extension(name) {
            Some(ext) => {
                &&& !ext.contains('.')
                &&& file_stem(name) matches Some(stem) && stem.len() > 0 && name == stem + seq!['.']
                    + ext
            },
            None => file_stem(name) == Some(name),
        },
{
    lemma_file_name_of_plain_name(name);
    lemma_after_last_is_suffix(name, '.');
    let tail = after_last(name, '.');
    let n = name.len() - tail.len();
    if has_extension(name) {
        assert(name[n - 1] == '.');
        assert(name =~= name.take(n - 1) + seq!['.'] + tail);
    } else {
        assert forall|i: int| 0 < i < name.len() implies name[i] != '.' by {
            assert(name[i] == tail[i - n]);
            assert(tail.contains(tail[i - n]));
        }
    }
}

/// A plain name is its own file name.
pub proof fn lemma_file_name_of_plain_name(name: Seq<char>)
    requires
        is_plain_name(name),
    ensures
        file_name(name) == Some(name),
{
    assert(name.contains(name.last()));
    if name.len() > 1 {
        assert(name.contains(name[name.len() - 2]));
    }
    assert(without_trailing_dots(name) == name);
    lemma_after_last_of_concat(Seq::empty(), '/', name);
}

/// A file put into a directory keeps its name.
pub proof fn lemma_file_name_of_join(directory: Seq<char>, name: Seq<char>)
    requires
        is_plain_name(name),
    ensures
        file_name(join(directory, name)) == Some(name),
{
    assert(name.contains(name.first()));
    assert(name.contains(name.last()));
    let path = join(directory, name);
    assert(path.last() == name.last());
    if name.len() > 1 {
        assert(name.contains(name[name.len() - 2]));
        assert(path[path.len() - 2] == name[name.len() - 2]);
    } else {
        assert(name =~= seq![name.last()]);
        assert(name.last() != '.');
    }
    assert(without_trailing_dots(path) == path);
    if directory.len() == 0 {
        assert(path =~= name);
        lemma_after_last_of_concat(Seq::empty(), '/', name);
    } else if directory.last() == '/' {
        assert(path =~= directory.drop_last() + seq!['/'] + name);
        lemma_after_last_of_concat(directory.drop_last(), '/', name);
    } else {
        lemma_after_last_of_concat(directory, '/', name);
    }
}

/// A file name made of a stem, a dot and an extension without a dot is taken apart into the
/// two again.
pub proof fn lemma_stem_and_extension(stem: Seq<char>, ext: Seq<char>)
    requires
        stem.len() > 0,
        !ext.contains('.'),
        is_plain_name(stem + seq!['.'] + ext),
    ensures
        extension(stem + seq!['.'] + ext) == Some(ext),
        file_stem(stem + seq!['.'] + ext) == Some(stem),
{
    let name = stem + seq!['.'] + ext;
    lemma_file_name_of_plain_name(name);
    lemma_after_last_of_concat(stem, '.', ext);
    assert(name.take(stem.len() as int) =~= stem);
}

/// Files in one directory have different paths where they have different names.
pub proof fn lemma_join_injective(directory: Seq<char>, a: Seq<char>, b: Seq<char>)
    requires
        is_plain_name(a),
        is_plain_name(b),
        join(directory, a) == join(directory, b),
    ensures
        a == b,
{
    lemma_file_name_of_join(directory, a);
    lemma_file_name_of_join(directory, b);
}

/// Where the part of `chars[..end]` after the last `c` starts.
fn start_after_last(chars: &Vec<char>, end: usize, c: char) -> (start: usize)
    requires
        end <= chars.len(),
    ensures
        start <= end,
        after_last(chars@.take(end as int), c) == chars@.subrange(start as int, end as int),
{
    let mut start: usize = end;
    while start > 0 && chars[start - 1] != c
        invariant
            start <= end <= chars.len(),
            forall|i: int| start <= i < end ==> chars@[i] != c,
        decreases start,
    {
        start = start - 1;
    }
    proof {
        lemma_after_last(chars@.take(end as int), c, start as int);
        assert(chars@.take(end as int).skip(start as int) =~= chars@.subrange(
            start as int,
            end as int,
        ));
    }
    start
}

/// The last component of `path`.
pub fn path_file_name(path: &str) -> (name: Option<String>)
    ensures
        name.deep_view() == file_name(path@),
{
    let chars = to_chars(path);
    let mut end: usize = chars.len();
    assert(path@.take(end as int) =~= path@);
    while end > 0 && (chars[end - 1] == '/' || (end > 1 && chars[end - 1] == '.' && chars[end - 2]
        == '/'))
        invariant
            end <= chars.len(),
            chars@ == path@,
            without_trailing_dots(path@.take(end as int)) == without_trailing_dots(path@),
        decreases end,
    {
        assert(path@.take(end as int).drop_last() =~= path@.take(end - 1));
        end = end - 1;
    }
    let start = start_after_last(&chars, end, '/');
    let name = from_chars(&chars, start, end);
    assert(without_trailing_dots(path@) == path@.take(end as int));
    if start == end {
        return None;
    }
    if end - start == 1 && chars[start] == '.' {
        assert(name@ =~= seq!['.']);
        return None;
    }
    if end - start == 2 && chars[start] == '.' && chars[start + 1] == '.' {
        assert(name@ =~= seq!['.', '.']);
        return None;
    }
    assert(name@ != seq!['.']) by {
        assert(name@[0] == chars@[start as int]);
        assert(seq!['.'].len() == 1 && seq!['.'][0] == '.');
    }
    assert(name@ != seq!['.', '.']) by {
        assert(name@[0] == chars@[start as int]);
        let dots = seq!['.', '.'];
        assert(dots.len() == 2 && dots[0] == '.' && dots[1] == '.');
        if end - start == 2 {
            assert(name@[1] == chars@[start + 1]);
        }
    }
    Some(name)
}

/// The stem of the file name of `path`, and its extension.
fn split_file_name(path: &str) -> (parts: Option<(String, Option<String>)>)
    ensures
        match parts {
            Some((stem, ext)) => file_stem(path@) == Some(stem@) && extension(path@)
                == ext.deep_view(),
            None => file_name(path@) is None,
        },
{
    match path_file_name(path) {
        Some(name) => {
            let chars = to_chars(name.as_str());
            let start = start_after_last(&chars, chars.len(), '.');
            assert(name@.take(name@.len() as int) =~= name@);
            if start > 1 {
                let stem = from_chars(&chars, 0, start - 1);
                let ext = from_chars(&chars, start, chars.len());
                assert(stem@ =~= name@.take(start - 1));
                Some((stem, Some(ext)))
            } else {
                Some((name, None))
            }
        },
        None => None,
    }
}

/// What stands in the file name of `path` after its last dot.
pub fn path_extension(path: &str) -> (ext: Option<String>)
    ensures
        ext.deep_view() == extension(path@),
{
    match split_file_name(path) {
        Some((_, ext)) => ext,
        None => None,
    }
}

/// The file name of `path` without its extension.
pub fn path_file_stem(path: &str) -> (stem: Option<String>)
    ensures
        stem.deep_view() == file_stem(path@),
{
    match split_file_name(path) {
        Some((stem, _)) => Some(stem),
        None => None,
    }
}

/// `path` as seen from `directory`.
pub fn join_path(directory: &str, path: &str) -> (joined: String)
    ensures
        joined@ == join(directory@, path@),
{
    let path_chars = to_chars(path);
    if path_chars.len() > 0 && path_chars[0] == '/' {
        return path.to_owned();
    }
    let chars = to_chars(directory);
    let mut joined = directory.to_owned();
    if chars.len() > 0 && chars[chars.len() - 1] != '/' {
        joined.push('/');
        assert(joined@ =~= directory@ + seq!['/']);
    }
    joined.append(path);
    joined
}

} // verus!
