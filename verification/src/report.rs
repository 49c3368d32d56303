//! Human-readable reports of error chains.

use vstd::prelude::*;

verus! {

/// Whether `s` ends with `suffix`.
pub open spec fn spec_ends_with(s: Seq<char>, suffix: Seq<char>) -> bool {
    suffix.len() <= s.len() && s.subrange(s.len() - suffix.len(), s.len() as int) == suffix
}

/// An error's own message: its display text without the `": <source>"` that
/// repeats its source's message at the end.
pub open spec fn spec_local_error_message(message: Seq<char>, source: Option<Seq<char>>) -> Seq<char> {
    match source {
        None => message,
        Some(src) => {
            let suffix = ": "@ + src;
            if spec_ends_with(message, suffix) {
                message.subrange(0, message.len() - suffix.len())
            } else {
                message
            }
        },
    }
}

fn ends_with(s: &str, suffix: &str) -> (found: bool)
    ensures
        found == spec_ends_with(s@, suffix@),
{
    let n = s.unicode_len();
    let m = suffix.unicode_len();
    if m > n {
        return false;
    }
    let mut i: usize = 0;
    while i < m
        invariant
            n == s@.len(),
            m == suffix@.len(),
            m <= n,
            0 <= i <= m,
            forall|j: int| 0 <= j < i ==> s@[n - m + j] == suffix@[j],
        decreases m - i,
    {
        if s.get_char(n - m + i) != suffix.get_char(i) {
            assert(s@.subrange(n - m, n as int)[i as int] != suffix@[i as int]);
            return false;
        }
        i = i + 1;
    }
    assert(s@.subrange(n - m, n as int) =~= suffix@);
    true
}

/// Returns an error's own message, given its display text and its source's.
pub fn local_error_message(message: &str, source: Option<&str>) -> (local: String)
    ensures
        local@ == spec_local_error_message(
            message@,
            match source {
                Some(s) => Some(s@),
                None => None,
            },
        ),
{
    match source {
        None => String::from_str(message),
        Some(src) => {
            let mut suffix = String::from_str(": ");
            suffix.append(src);
            if ends_with(message, suffix.as_str()) {
                let keep = message.unicode_len() - suffix.as_str().unicode_len();
                let prefix = message.substring_char(0, keep);
                String::from_str(prefix)
            } else {
                String::from_str(message)
            }
        },
    }
}

/// `n` spaces.
pub open spec fn spaces(n: nat) -> Seq<char> {
    Seq::new(n, |i: int| ' ')
}

/// The line of entry `k` of an error chain: `ERROR: ` for the error
/// itself, then `because: ` for each cause, indented four spaces deeper
/// than the one before.
pub open spec fn spec_report_line(k: nat, message: Seq<char>) -> Seq<char> {
    if k == 0 {
        "ERROR: "@ + message + "\n"@
    } else {
        spaces(4 * k) + "because: "@ + message + "\n"@
    }
}

/// The report of the first `n` messages of a chain.
pub open spec fn spec_report(messages: Seq<Seq<char>>, n: nat) -> Seq<char>
    decreases n,
{
    if n == 0 {
        Seq::empty()
    } else {
        spec_report(messages, (n - 1) as nat) + spec_report_line((n - 1) as nat, messages[n - 1])
    }
}

/// Formats an error chain, error first and then each cause, one per line.
pub fn format_error_report(messages: &[String]) -> (report: String)
    requires
        messages@.len() <= usize::MAX / 4,
    ensures
        report@ == spec_report(messages@.map_values(|m: String| m@), messages@.len()),
{
    let ghost ms = messages@.map_values(|m: String| m@);
    let mut report = String::new();
    let mut k: usize = 0;
    while k < messages.len()
        invariant
            ms == messages@.map_values(|m: String| m@),
            messages@.len() <= usize::MAX / 4,
            0 <= k <= messages@.len(),
            report@ == spec_report(ms, k as nat),
        decreases messages@.len() - k,
    {
        let ghost before = report@;
        if k == 0 {
            report.append("ERROR: ");
        } else {
            let indent = 4 * k;
            let mut s: usize = 0;
            while s < indent
                invariant
                    0 <= s <= indent,
                    report@ == before + spaces(s as nat),
                decreases indent - s,
            {
                report.append(" ");
                proof {
                    reveal_strlit(" ");
                }
                assert(before + spaces((s + 1) as nat) =~= before + spaces(s as nat) + " "@);
                s = s + 1;
            }
            report.append("because: ");
        }
        report.append(messages[k].as_str());
        report.append("\n");
        assert(ms[k as int] == messages@[k as int]@);
        assert(report@ =~= before + spec_report_line(k as nat, ms[k as int]));
        k = k + 1;
    }
    report
}

} // verus!
