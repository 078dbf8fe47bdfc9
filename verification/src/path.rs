//! Storage paths: a directory and the names below it, joined by `/`.
use crate::text::chars_of;
use vstd::prelude::*;
use vstd::string::StringExecFns;

verus! {

/// The path of the entry `name` in the directory `dir`: the two, with a
/// separator between them. From an empty `dir` this is `/name`, a path from
/// the root of the file system, so `dir` is to hold a name.
pub open spec fn child(dir: Seq<char>, name: Seq<char>) -> Seq<char> {
    dir + seq!['/'] + name
}

/// Whether `name` names an entry of the directory it is looked up in: it
/// holds no separator and is neither `.` nor `..`.
pub open spec fn is_plain_name(name: Seq<char>) -> bool {
    &&& !name.contains('/')
    &&& name != seq!['.']
    &&& name != seq!['.', '.']
}

/// Whether `name` names an entry of the directory it is looked up in.
pub fn is_plain(name: &str) -> (b: bool)
    ensures
        b == is_plain_name(name@),
{
    let chars = chars_of(name);
    let n = chars.len();
    if n == 1 && chars[0] == '.' {
        assert(name@ =~= seq!['.']);
        return false;
    }
    if n == 2 && chars[0] == '.' && chars[1] == '.' {
        assert(name@ =~= seq!['.', '.']);
        return false;
    }
    proof {
        if name@ == seq!['.'] {
            assert(seq!['.'][0] == '.');
        }
        if name@ == seq!['.', '.'] {
            assert(seq!['.', '.'][0] == '.' && seq!['.', '.'][1] == '.');
        }
    }
    let mut i: usize = 0;
    while i < n
        invariant
            i <= n,
            n == chars.len(),
            chars@ == name@,
            forall|j: int| 0 <= j < i ==> name@[j] != '/',
        decreases n - i,
    {
        if chars[i] == '/' {
            assert(name@[i as int] == '/');
            return false;
        }
        i += 1;
    }
    proof {
        if name@.contains('/') {
            let j = choose|j: int| 0 <= j < name@.len() && name@[j] == '/';
            assert(name@[j] != '/');
        }
    }
    true
}

/// The path of the entry `name` in the directory `dir`. An empty `dir` is
/// not left out: the path then begins with the separator.
pub fn join(dir: &str, name: &str) -> (path: String)
    ensures
        path@ == child(dir@, name@),
{
    proof {
        reveal_strlit("/");
    }
    let mut path = dir.to_owned();
    path.append("/");
    path.append(name);
    assert(path@ =~= child(dir@, name@));
    path
}

} // verus!
