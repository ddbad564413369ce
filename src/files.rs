//! Which files of the input directory are sources, and where the output of
//! each one goes.
use vstd::prelude::*;

verus! {

/// `.txt`
pub open spec fn txt_suffix() -> Seq<char> {
    seq!['.', 't', 'x', 't']
}

/// `.yaml`
pub open spec fn yaml_suffix() -> Seq<char> {
    seq!['.', 'y', 'a', 'm', 'l']
}

/// A file name whose extension is `txt`: it ends in `.txt` and something
/// comes before that dot (`.txt` alone is a hidden file with no extension).
pub open spec fn is_source_name_spec(name: Seq<char>) -> bool {
    name.len() > 4 && name.subrange(name.len() - 4, name.len() as int) == txt_suffix()
}

/// Whether the file named `name` is a source document to clean.
pub fn is_source_name(name: &str) -> (r: bool)
    ensures
        r == is_source_name_spec(name@),
{
    let n = name.unicode_len();
    if n <= 4 {
        return false;
    }
    let r = name.get_char(n - 4) == '.' && name.get_char(n - 3) == 't' && name.get_char(n - 2) == 'x'
        && name.get_char(n - 1) == 't';
    proof {
        let tail = name@.subrange(n - 4, n as int);
        if r {
            assert(tail =~= txt_suffix());
        } else {
            assert(tail[0] != '.' || tail[1] != 't' || tail[2] != 'x' || tail[3] != 't');
        }
    }
    r
}

/// The output document of the source file `name` in the directory `dir`:
/// `dir/name.yaml`.
pub fn output_path(dir: &str, name: &str) -> (r: String)
    ensures
        r@ == dir@ + seq!['/'] + name@ + yaml_suffix(),
{
    proof {
        reveal_strlit("/");
        reveal_strlit(".yaml");
    }
    let mut r = String::from_str(dir);
    r.append("/");
    r.append(name);
    r.append(".yaml");
    assert(r@ =~= dir@ + seq!['/'] + name@ + yaml_suffix());
    r
}

} // verus!
