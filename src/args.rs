//! Command-line flags: independent of order, unrecognised tokens ignored.
use vstd::prelude::*;
use vstd::string::StringExecFns;

verus! {

/// The flags of a scan.
#[derive(Debug, Clone, Copy, PartialEq, Eq, Structural)]
pub struct Args {
    /// `-v`: include the extended descriptor text.
    pub verbose: bool,
    /// `-j`: structured output.
    pub json: bool,
    /// `-f`: keep only writable endpoints.
    pub filter_writable: bool,
    /// `--version`: print the version and scan nothing.
    pub version: bool,
}

/// Whether some token equals `flag`.
pub open spec fn has_flag(tokens: Seq<String>, flag: Seq<char>) -> bool {
    exists|i: int| 0 <= i < tokens.len() && (#[trigger] tokens[i])@ == flag
}

/// Reads the flags from the command-line tokens that follow the program name.
pub fn parse_args(tokens: &Vec<String>) -> (r: Args)
    ensures
        r.verbose == has_flag(tokens@, "-v"@),
        r.json == has_flag(tokens@, "-j"@),
        r.filter_writable == has_flag(tokens@, "-f"@),
        r.version == has_flag(tokens@, "--version"@),
{
    let verbose_flag = String::from_str("-v");
    let json_flag = String::from_str("-j");
    let filter_flag = String::from_str("-f");
    let version_flag = String::from_str("--version");
    let mut args = Args { verbose: false, json: false, filter_writable: false, version: false };
    let mut i: usize = 0;
    while i < tokens.len()
        invariant
            i <= tokens@.len(),
            verbose_flag@ == "-v"@,
            json_flag@ == "-j"@,
            filter_flag@ == "-f"@,
            version_flag@ == "--version"@,
            args.verbose == has_flag(tokens@.take(i as int), "-v"@),
            args.json == has_flag(tokens@.take(i as int), "-j"@),
            args.filter_writable == has_flag(tokens@.take(i as int), "-f"@),
            args.version == has_flag(tokens@.take(i as int), "--version"@),
        decreases tokens@.len() - i,
    {
        let t = &tokens[i];
        let ghost prev = tokens@.take(i as int);
        let ghost next = tokens@.take(i as int + 1);
        proof {
            assert forall|f: Seq<char>| has_flag(next, f) == (has_flag(prev, f) || t@ == f) by {
                if has_flag(next, f) {
                    let j = choose|j: int| 0 <= j < next.len() && (#[trigger] next[j])@ == f;
                    if j < i {
                        assert(prev[j] == next[j]);
                    }
                }
                if has_flag(prev, f) {
                    let j = choose|j: int| 0 <= j < prev.len() && (#[trigger] prev[j])@ == f;
                    assert(prev[j] == next[j]);
                }
                assert(next[i as int] == *t);
            }
        }
        proof {
            reveal_strlit("-v");
            reveal_strlit("-j");
            reveal_strlit("-f");
            reveal_strlit("--version");
        }
        assert("-v"@[1] != "-j"@[1] && "-v"@[1] != "-f"@[1] && "-j"@[1] != "-f"@[1]);
        assert("-v"@.len() != "--version"@.len());
        if *t == verbose_flag {
            args.verbose = true;
        } else if *t == json_flag {
            args.json = true;
        } else if *t == filter_flag {
            args.filter_writable = true;
        } else if *t == version_flag {
            args.version = true;
        }
        i = i + 1;
    }
    assert(tokens@.take(i as int) =~= tokens@);
    args
}

} // verus!
