//! File paths of a Unix system, as text.

use vstd::prelude::*;
use vstd::string::*;

verus! {

/// The path `part` as seen from `base`. An absolute `part` stands for itself;
/// any other is put behind `base`, with a slash between them where `base` is
/// not empty and does not end in one.
pub open spec fn joined(base: Seq<char>, part: Seq<char>) -> Seq<char> {
    if part.len() > 0 && part[0] == '/' {
        part
    } else if base.len() == 0 || base.last() == '/' {
        base + part
    } else {
        base + seq!['/'] + part
    }
}

/// Joins two paths.
pub fn join(base: &str, part: &str) -> (path: String)
    ensures
        path@ == joined(base@, part@),
{
    let part_len: usize = part.unicode_len();
    if part_len > 0 && part.get_char(0) == '/' {
        return part.to_string();
    }
    let base_len: usize = base.unicode_len();
    let mut path: String = base.to_string();
    if base_len > 0 && base.get_char(base_len - 1) != '/' {
        proof {
            reveal_strlit("/");
            assert("/"@ == seq!['/']);
        }
        path.append("/");
    }
    path.append(part);
    path
}

/// A path that begins with a slash stands for itself. Any other is the end of
/// the joined path, which begins with the base, if there is one, and has a slash
/// between the two, but never a second one.
pub proof fn law_joined(base: Seq<char>, part: Seq<char>)
    ensures
        part.len() > 0 && part[0] == '/' ==> joined(base, part) == part,
        base.len() == 0 ==> joined(base, part) == part,
        base.len() > 0 && (part.len() == 0 || part[0] != '/') ==> {
            let path = joined(base, part);
            let split = path.len() - part.len();
            &&& base.is_prefix_of(path)
            &&& path.skip(split) == part
            &&& path[split - 1] == '/'
            &&& split == if base.last() == '/' {
                base.len()
            } else {
                base.len() + 1
            }
        },
{
    let path = joined(base, part);
    if base.len() == 0 {
        assert(base + part == part);
    } else if part.len() == 0 || part[0] != '/' {
        assert(path.subrange(0, base.len() as int) == base);
        assert(path.skip(path.len() - part.len()) == part);
    }
}

} // verus!
