//! The text and structured renderings of a result set.
use vstd::prelude::*;
use vstd::string::{StrSliceExecFns, StringExecFns};
use crate::report::PipeInfo;

verus! {

/// `s` with every backslash doubled.
pub open spec fn escape_backslashes(s: Seq<char>) -> Seq<char>
    decreases s.len(),
{
    if s.len() == 0 {
        Seq::empty()
    } else {
        escape_backslashes(s.drop_last()) + (if s.last() == '\\' {
            seq!['\\', '\\']
        } else {
            seq![s.last()]
        })
    }
}

/// The column separator of the text rendering.
pub open spec fn gap() -> Seq<char> {
    seq![' ', ' ', ' ']
}

/// The text line of one report: path and grant, and the extended descriptor
/// text in verbose mode when there is any.
pub open spec fn line_spec(info: PipeInfo, verbose: bool) -> Seq<char> {
    if verbose && info.sddl@.len() > 0 {
        info.name@ + gap() + info.access_str@ + gap() + info.sddl@
    } else {
        info.name@ + gap() + info.access_str@
    }
}

/// The text of a boolean.
pub open spec fn bool_text(b: bool) -> Seq<char> {
    if b {
        seq!['t', 'r', 'u', 'e']
    } else {
        seq!['f', 'a', 'l', 's', 'e']
    }
}

/// The structured object of one report: its escaped path, the writable flag
/// and the reported principal's canonical text.
pub open spec fn json_object(info: PipeInfo) -> Seq<char> {
    "{\"pipe\":\""@ + escape_backslashes(info.name@) + "\",\"writable\":"@ + bool_text(
        info.writable,
    ) + ",\"sid\":\""@ + info.sid@ + "\"}"@
}

/// The objects of `s`, separated by commas.
pub open spec fn json_items(s: Seq<PipeInfo>) -> Seq<char>
    decreases s.len(),
{
    if s.len() == 0 {
        Seq::empty()
    } else if s.len() == 1 {
        json_object(s[0])
    } else {
        json_items(s.drop_last()) + seq![','] + json_object(s.last())
    }
}

/// The structured rendering: an array of one object per report.
pub open spec fn json_spec(s: Seq<PipeInfo>) -> Seq<char> {
    seq!['['] + json_items(s) + seq![']']
}

/// Appends `s` with every backslash doubled.
pub fn push_escaped(out: &mut String, s: &str)
    ensures
        final(out)@ == old(out)@ + escape_backslashes(s@),
{
    let n = s.unicode_len();
    let ghost start = out@;
    let mut i: usize = 0;
    while i < n
        invariant
            n == s@.len(),
            i <= n,
            out@ == start + escape_backslashes(s@.take(i as int)),
        decreases n - i,
    {
        proof {
            reveal_strlit("\\\\");
            assert(s@.take(i as int + 1).drop_last() =~= s@.take(i as int));
        }
        if s.get_char(i) == '\\' {
            out.append("\\\\");
        } else {
            out.append(s.substring_char(i, i + 1));
        }
        i = i + 1;
        assert(out@ =~= start + escape_backslashes(s@.take(i as int)));
    }
    assert(s@.take(n as int) =~= s@);
}

/// The text line of one report.
pub fn format_line(info: &PipeInfo, verbose: bool) -> (r: String)
    ensures
        r@ == line_spec(*info, verbose),
{
    proof {
        reveal_strlit("   ");
    }
    let mut out = String::from_str(info.name.as_str());
    out.append("   ");
    out.append(info.access_str.as_str());
    if verbose && !info.sddl.as_str().is_empty() {
        out.append("   ");
        out.append(info.sddl.as_str());
    }
    out
}

/// Appends the structured object of one report.
fn push_json_object(out: &mut String, info: &PipeInfo)
    ensures
        final(out)@ == old(out)@ + json_object(*info),
{
    out.append("{\"pipe\":\"");
    push_escaped(out, info.name.as_str());
    out.append("\",\"writable\":");
    proof {
        reveal_strlit("true");
        reveal_strlit("false");
    }
    if info.writable {
        out.append("true");
    } else {
        out.append("false");
    }
    out.append(",\"sid\":\"");
    out.append(info.sid.as_str());
    out.append("\"}");
    assert(final(out)@ =~= old(out)@ + json_object(*info));
}

/// The structured rendering of a result set.
pub fn format_json(results: &Vec<PipeInfo>) -> (r: String)
    ensures
        r@ == json_spec(results@),
{
    proof {
        reveal_strlit("[");
        reveal_strlit("]");
        reveal_strlit(",");
    }
    let mut out = String::from_str("[");
    let mut i: usize = 0;
    while i < results.len()
        invariant
            i <= results@.len(),
            out@ == seq!['['] + json_items(results@.take(i as int)),
        decreases results@.len() - i,
    {
        proof {
            reveal_strlit(",");
            assert(results@.take(i as int + 1).drop_last() =~= results@.take(i as int));
        }
        if i > 0 {
            out.append(",");
        }
        push_json_object(&mut out, &results[i]);
        i = i + 1;
        proof {
            if i == 1 {
                assert(results@.take(1) =~= seq![results@[0]]);
            }
        }
        assert(out@ =~= seq!['['] + json_items(results@.take(i as int)));
    }
    out.append("]");
    assert(results@.take(i as int) =~= results@);
    out
}

} // verus!
