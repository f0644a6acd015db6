//! Where the toolchain may be installed.

use vstd::prelude::*;
use vstd::string::StringExecFns;
use crate::text::concat;
use crate::text::texts;

verus! {

/// The directories in which the toolchain is looked for, in the order in
/// which they are tried: the one below the home directory, then two that
/// are shared.
pub open spec fn candidate_dirs(home: Seq<char>) -> Seq<Seq<char>> {
    seq![home + "/.foundry/bin"@, "/usr/local/bin"@, "/opt/homebrew/bin"@]
}

/// The directories in which the toolchain is looked for.
pub fn install_candidates(home: &str) -> (r: Vec<String>)
    ensures
        texts(r@) == candidate_dirs(home@),
{
    let mut r: Vec<String> = Vec::new();
    r.push(concat(home, "/.foundry/bin"));
    r.push(String::from_str("/usr/local/bin"));
    r.push(String::from_str("/opt/homebrew/bin"));
    r
}

/// The file whose presence in `dir` shows that the toolchain is installed there.
pub fn forge_probe(dir: &str) -> (r: String)
    ensures
        r@ == dir@ + "/forge"@,
{
    concat(dir, "/forge")
}

} // verus!
