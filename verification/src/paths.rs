use vstd::prelude::*;

verus! {

/// What `~` expansion returns for a configured path specification `dir` and
/// the user's home directory `home`: `~` alone becomes `home`, a `~/rest`
/// prefix becomes `home` followed by `/rest`, and anything else (including
/// other `~user` forms) passes through unchanged.
pub open spec fn expand_spec(dir: Seq<char>, home: Seq<char>) -> Seq<char> {
    if dir.len() == 1 && dir[0] == '~' {
        home
    } else if dir.len() >= 2 && dir[0] == '~' && dir[1] == '/' {
        home + dir.skip(1)
    } else {
        dir
    }
}

/// Expands a leading `~` in a configured root to the home directory.
pub fn parse_dir(proj_dir: &str, home: &str) -> (r: String)
    ensures
        r@ == expand_spec(proj_dir@, home@),
{
    let n = proj_dir.unicode_len();
    if n >= 1 && proj_dir.get_char(0) == '~' {
        if n == 1 {
            return String::from_str(home);
        }
        if proj_dir.get_char(1) == '/' {
            let rest = proj_dir.substring_char(1, n);
            let mut out = String::from_str(home);
            out.append(rest);
            proof {
                assert(proj_dir@.skip(1) =~= proj_dir@.subrange(1, n as int));
            }
            return out;
        }
    }
    String::from_str(proj_dir)
}

} // verus!
