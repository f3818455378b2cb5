//! The `-f <dir>/<file> ` flags that name compose files in a compose invocation.
use vstd::prelude::*;
use vstd::string::*;

verus! {

/// The flag that names `file` under the directory `dir`.
pub open spec fn compose_flag(dir: Seq<char>, file: Seq<char>) -> Seq<char> {
    "-f "@ + dir + "/"@ + file + " "@
}

/// The flags for each of `files` under `dir`, in list order.
pub open spec fn flag_list(dir: Seq<char>, files: Seq<String>) -> Seq<char>
    decreases files.len(),
{
    if files.len() == 0 {
        Seq::empty()
    } else {
        flag_list(dir, files.drop_last()) + compose_flag(dir, files.last()@)
    }
}

/// Writes the flags for each of `files` under `dir`, in list order.
pub fn compose_flags(dir: &str, files: &Vec<String>) -> (r: String)
    ensures
        r@ == flag_list(dir@, files@),
{
    let mut out = String::new();
    let mut i: usize = 0;
    while i < files.len()
        invariant
            i <= files.len(),
            out@ == flag_list(dir@, files@.take(i as int)),
        decreases files.len() - i,
    {
        let ghost before = out@;
        out.append("-f ");
        out.append(dir);
        out.append("/");
        out.append(files[i].as_str());
        out.append(" ");
        proof {
            assert(files@.take(i + 1).drop_last() =~= files@.take(i as int));
            assert(out@ =~= before + compose_flag(dir@, files@[i as int]@));
        }
        i = i + 1;
    }
    assert(files@.take(files.len() as int) =~= files@);
    out
}

} // verus!
