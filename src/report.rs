use crate::host::HostError;
use crate::plugins::{failure_kind_text, PluginFailure};
use vstd::prelude::*;

verus! {

/// One failure as a line of text: the plugin, a colon, and why it failed.
pub open spec fn failure_line(f: PluginFailure) -> Seq<char> {
    f.plugin@ + ": "@ + failure_kind_text(f.kind)
}

/// The lines joined by newlines, with no newline after the last.
pub open spec fn joined_lines(lines: Seq<Seq<char>>) -> Seq<char>
    decreases lines.len(),
{
    if lines.len() == 0 {
        Seq::empty()
    } else if lines.len() == 1 {
        lines[0]
    } else {
        joined_lines(lines.drop_last()) + "\n"@ + lines.last()
    }
}

/// The failure lines of a sequence of failures.
pub open spec fn failure_lines(fs: Seq<PluginFailure>) -> Seq<Seq<char>> {
    fs.map_values(|f: PluginFailure| failure_line(f))
}

/// The text shown to a person for a failed refresh.
pub open spec fn host_error_description(e: HostError) -> Seq<char> {
    match e {
        HostError::AllFailed(fs) => if fs@.len() == 0 {
            "All plugins failed without detailed errors"@
        } else {
            joined_lines(failure_lines(fs@))
        },
        HostError::RuntimeUnavailable => "Background runtime unavailable"@,
    }
}

/// Describes a failed refresh: one line per failure, or a fixed sentence
/// where there is no failure to list.
pub fn describe_host_error(err: HostError) -> (r: String)
    ensures
        r@ == host_error_description(err),
{
    match err {
        HostError::AllFailed(failures) => {
            if failures.len() == 0 {
                return "All plugins failed without detailed errors".to_string();
            }
            let mut out = String::new();
            let mut i: usize = 0;
            while i < failures.len()
                invariant
                    i <= failures.len(),
                    out@ == joined_lines(failure_lines(failures@.subrange(0, i as int))),
                decreases failures.len() - i,
            {
                let f = &failures[i];
                let mut line = f.plugin.clone();
                line.append(": ");
                let kind = f.kind.message();
                line.append(kind.as_str());
                let ghost prev = failure_lines(failures@.subrange(0, i as int));
                let ghost next = failure_lines(failures@.subrange(0, i + 1));
                assert(next =~= prev.push(failure_line(failures@[i as int])));
                assert(next.drop_last() =~= prev);
                if i > 0 {
                    out.append("\n");
                }
                out.append(line.as_str());
                i = i + 1;
            }
            assert(failures@.subrange(0, failures.len() as int) =~= failures@);
            out
        },
        HostError::RuntimeUnavailable => "Background runtime unavailable".to_string(),
    }
}

} // verus!
