//! Per-endpoint reports: endpoint paths, the reported line of each endpoint,
//! the writable-only filter, the exit code of a scan, and the text and
//! structured renderings of the result set.
use vstd::prelude::*;
use vstd::string::{StrSliceExecFns, StringExecFns};
use crate::analyze::DaclAnalysis;

verus! {

/// The namespace prefix of every pipe endpoint path.
pub open spec fn pipe_prefix() -> Seq<char> {
    seq!['\\', '\\', '.', '\\', 'p', 'i', 'p', 'e', '\\']
}

/// The full path of an endpoint: `p` itself when it is under the pipe
/// namespace, else `p` put under it.
pub open spec fn endpoint_path_spec(p: Seq<char>) -> Seq<char> {
    if p.len() >= pipe_prefix().len() && p.subrange(0, pipe_prefix().len() as int)
        == pipe_prefix() {
        p
    } else {
        pipe_prefix() + p
    }
}

/// Whether `s` begins with `prefix`.
fn has_prefix(s: &str, prefix: &str) -> (r: bool)
    ensures
        r == (s@.len() >= prefix@.len() && s@.subrange(0, prefix@.len() as int) == prefix@),
{
    let n = s.unicode_len();
    let m = prefix.unicode_len();
    if n < m {
        return false;
    }
    let mut i: usize = 0;
    while i < m
        invariant
            n == s@.len(),
            m == prefix@.len(),
            m <= n,
            i <= m,
            forall|j: int| 0 <= j < i ==> s@[j] == prefix@[j],
        decreases m - i,
    {
        if s.get_char(i) != prefix.get_char(i) {
            assert(s@.subrange(0, m as int)[i as int] != prefix@[i as int]);
            return false;
        }
        i = i + 1;
    }
    assert(s@.subrange(0, m as int) =~= prefix@);
    true
}

/// The full path of the endpoint `p`.
pub fn endpoint_path(p: &str) -> (r: String)
    ensures
        r@ == endpoint_path_spec(p@),
{
    let prefix = "\\\\.\\pipe\\";
    proof {
        reveal_strlit("\\\\.\\pipe\\");
    }
    assert(prefix@ =~= pipe_prefix());
    if has_prefix(p, prefix) {
        String::from_str(p)
    } else {
        let mut out = String::from_str(prefix);
        out.append(p);
        out
    }
}

/// The path of a listed endpoint whose name is `name`; `None` for an empty name.
pub fn listed_path(name: &str) -> (r: Option<String>)
    ensures
        name@.len() == 0 ==> r is None,
        name@.len() > 0 ==> (r matches Some(p) && p@ == pipe_prefix() + name@),
{
    if name.unicode_len() == 0 {
        return None;
    }
    let prefix = "\\\\.\\pipe\\";
    proof {
        reveal_strlit("\\\\.\\pipe\\");
    }
    let mut out = String::from_str(prefix);
    out.append(name);
    assert(out@ =~= pipe_prefix() + name@);
    Some(out)
}

/// The length of a zero-terminated name held in `buf`: the index of the first
/// zero, or the whole buffer when it holds none.
pub fn terminated_len(buf: &[u16]) -> (r: usize)
    ensures
        r <= buf@.len(),
        forall|j: int| 0 <= j < r ==> buf@[j] != 0,
        r < buf@.len() ==> buf@[r as int] == 0,
{
    let mut i: usize = 0;
    while i < buf.len()
        invariant
            i <= buf@.len(),
            forall|j: int| 0 <= j < i ==> buf@[j] != 0,
        decreases buf@.len() - i,
    {
        if buf[i] == 0 {
            return i;
        }
        i = i + 1;
    }
    i
}

/// The report of one endpoint.
#[derive(Debug)]
pub struct PipeInfo {
    /// The endpoint's full path.
    pub name: String,
    /// Whether some allow entry grants write-equivalent access.
    pub writable: bool,
    /// The canonical text of the reported principal; empty when none.
    pub sid: String,
    /// The reported grant as "name:rights"; empty when none.
    pub access_str: String,
    /// The extended descriptor text, passed on verbatim; empty when not asked for.
    pub sddl: String,
}

/// The reported grant: the principal's display name, ":", and the rendered mask.
pub open spec fn access_text(name: Seq<char>, access: Seq<char>) -> Seq<char> {
    name + seq![':'] + access
}

impl PipeInfo {
    /// The report of the endpoint at `path`, from its analysis, the display
    /// name of the reported principal (unused when none is reported) and the
    /// extended descriptor text.
    pub fn new(path: &str, analysis: DaclAnalysis, display: &str, sddl: String) -> (r: PipeInfo)
        ensures
            r.name@ == endpoint_path_spec(path@),
            r.writable == analysis.writable,
            r.sid@ == analysis.sid@,
            analysis.chosen is Some ==> r.access_str@ == access_text(display@, analysis.access@),
            analysis.chosen is None ==> r.access_str@.len() == 0,
            r.sddl@ == sddl@,
    {
        let access_str = if analysis.chosen.is_some() {
            proof {
                reveal_strlit(":");
            }
            let mut s = String::from_str(display);
            s.append(":");
            s.append(analysis.access.as_str());
            s
        } else {
            String::new()
        };
        PipeInfo {
            name: endpoint_path(path),
            writable: analysis.writable,
            sid: analysis.sid,
            access_str,
            sddl,
        }
    }
}

/// Whether a report stays in the result set under the writable-only filter.
pub open spec fn kept(writable: bool, filter_writable: bool) -> bool {
    !filter_writable || writable
}

/// Whether a report stays in the result set under the writable-only filter.
pub fn keep_report(info: &PipeInfo, filter_writable: bool) -> (r: bool)
    ensures
        r == kept(info.writable, filter_writable),
{
    !filter_writable || info.writable
}

/// The reports that stay, in discovery order: endpoints whose descriptor
/// could not be fetched (`None`) are left out, and so are those that the
/// filter drops.
pub open spec fn collected(s: Seq<Option<PipeInfo>>, filter_writable: bool) -> Seq<PipeInfo>
    decreases s.len(),
{
    if s.len() == 0 {
        Seq::empty()
    } else {
        let rest = collected(s.drop_first(), filter_writable);
        match s[0] {
            Some(i) => if kept(i.writable, filter_writable) {
                seq![i] + rest
            } else {
                rest
            },
            None => rest,
        }
    }
}

/// Assembles the result set from the per-endpoint outcomes, in discovery order.
pub fn collect_reports(fetched: Vec<Option<PipeInfo>>, filter_writable: bool) -> (r: Vec<
    PipeInfo,
>)
    ensures
        r@ == collected(fetched@, filter_writable),
{
    let mut rest = fetched;
    let mut out: Vec<PipeInfo> = Vec::new();
    while rest.len() > 0
        invariant
            out@ + collected(rest@, filter_writable) == collected(fetched@, filter_writable),
        decreases rest@.len(),
    {
        let ghost before = rest@;
        let item = rest.remove(0);
        assert(rest@ =~= before.drop_first());
        match item {
            Some(info) => {
                if keep_report(&info, filter_writable) {
                    let ghost o = out@;
                    out.push(info);
                    assert(out@ + collected(rest@, filter_writable) =~= o + (seq![info]
                        + collected(rest@, filter_writable)));
                }
            },
            None => {},
        }
    }
    assert(out@ + Seq::<PipeInfo>::empty() =~= out@);
    out
}

/// The exit code of a scan: 1 when listing the endpoints failed, 2 when
/// nothing was reported, 0 otherwise.
pub open spec fn exit_code_spec(listed: bool, reported: nat) -> u8 {
    if !listed {
        1
    } else if reported == 0 {
        2
    } else {
        0
    }
}

/// The exit code of a scan that listed endpoints (or failed to) and reported
/// `reported` of them.
pub fn scan_exit_code(listed: bool, reported: usize) -> (r: u8)
    ensures
        r == exit_code_spec(listed, reported as nat),
{
    if !listed {
        1
    } else if reported == 0 {
        2
    } else {
        0
    }
}

} // verus!
