use vstd::prelude::*;
use vstd::string::StrSliceExecFns;

verus! {

/// `name` placed under `dir`, as a path is extended by one component: an absolute
/// `name` stands alone, and a separator is put between the two unless `dir` is empty
/// or already ends in one.
pub open spec fn output_path(name: Seq<char>, dir: Seq<char>) -> Seq<char> {
    if name.len() > 0 && name[0] == '/' {
        name
    } else if dir.len() == 0 || dir.last() == '/' {
        dir + name
    } else {
        dir + seq!['/'] + name
    }
}

/// The path that the output for template `name` is written to under `dir`.
pub fn mk_output_path(name: &str, dir: &str) -> (r: String)
    ensures
        r@ == output_path(name@, dir@),
{
    let name_len = name.unicode_len();
    let dir_len = dir.unicode_len();
    if name_len > 0 && name.get_char(0) == '/' {
        return String::from_str(name);
    }
    let mut buf = String::from_str(dir);
    if dir_len > 0 && dir.get_char(dir_len - 1) != '/' {
        buf.append("/");
        proof { reveal_strlit("/"); }
    }
    buf.append(name);
    buf
}

} // verus!
