//! The texts that are written into the documentation of a provider and of
//! its probes.
use vstd::prelude::*;

verus! {

/// The sentence that names the SystemTap/USDT provider of a trait.
pub open spec fn systemtap_sentence(provider: Seq<char>) -> Seq<char> {
    "This trait corresponds to a SystemTap/USDT provider named `"@ + provider + "`"@
}

/// The sentence that names the SystemTap/USDT provider of a trait.
pub fn systemtap_comment(provider: &str) -> (sentence: String)
    ensures
        sentence@ == systemtap_sentence(provider@),
{
    String::from_str("This trait corresponds to a SystemTap/USDT provider named `").concat(
        provider,
    ).concat("`")
}

/// The documentation that is added to a provider trait, for a provider of
/// the given name.
pub open spec fn trait_comment(provider: Seq<char>) -> Seq<char> {
    "\n# Probing\n\nThis trait is translated at compile-time by `probers` into a platform-specific tracing\nprovider, which allows very high-performance and low-overhead tracing of the probes it\nfires.\n\nThe exact details of how to use interact with the probes depends on the underlying\nprobing implementation.\n\n## SystemTap/USDT (Linux x64)\n\n"@
        + systemtap_sentence(provider)
        + ",\n\n## Other platforms\n\nNo other platforms are supported yet\n"@
}

/// The documentation that is added to a provider trait.
pub fn generate_trait_comment(provider: &str) -> (comment: String)
    ensures
        comment@ == trait_comment(provider@),
{
    let mut comment = String::from_str(
        "\n# Probing\n\nThis trait is translated at compile-time by `probers` into a platform-specific tracing\nprovider, which allows very high-performance and low-overhead tracing of the probes it\nfires.\n\nThe exact details of how to use interact with the probes depends on the underlying\nprobing implementation.\n\n## SystemTap/USDT (Linux x64)\n\n",
    );
    let sentence = systemtap_comment(provider);
    comment.append(sentence.as_str());
    comment.append(",\n\n## Other platforms\n\nNo other platforms are supported yet\n");
    comment
}

/// The warning against calling a probe method directly.
pub open spec fn deprecation_message(trait_name: Seq<char>, method: Seq<char>) -> Seq<char> {
    "Probe methods should not be called directly.  Use the `probe!` macro, e.g. `probe!("@
        + trait_name + "::"@ + method + "(...))`"@
}

/// The warning against calling a probe method directly.
pub fn generate_probe_deprecation_message(trait_name: &str, method: &str) -> (message: String)
    ensures
        message@ == deprecation_message(trait_name@, method@),
{
    String::from_str(
        "Probe methods should not be called directly.  Use the `probe!` macro, e.g. `probe!(",
    ).concat(trait_name).concat("::").concat(method).concat("(...))`")
}

/// The documentation that is added to a probe method.
pub open spec fn probe_doc_comment(
    trait_name: Seq<char>,
    probe: Seq<char>,
    provider: Seq<char>,
) -> Seq<char> {
    "\n# Probing\n\nThis method is translated at compile-time by `probers` into a platform-specific tracing\nprobe, which allows very high-performance and low-overhead tracing.\n\n## How to fire probe\n\nTo fire this probe, don't call this method directly. Instead, use the `probe!` macro, for example:\n\n```ignore\n// If the probe is enabled, fires the probe.  If the probe isn't enabled, or if provider\n// initialization failed for some reason, does not fire the probe, and does NOT evaluate the\n// arguments to the probe.\nprobe!("@
        + trait_name + "::"@ + probe
        + "(...));\n```\n\nThe exact details of how to interact with the probes depends on the underlying\nprobing implementation.\n\n## SystemTap/USDT (Linux x64)\n\nTo trace the firing of this probe, use `bpftrace`, e.g.:\n```text\nsudo bpftrace -p ${PID} -e 'usdt::"@
        + provider + ":"@ + probe + " { printf(\"Hello from "@ + probe
        + "\\n\"); }'\n```\n\nwhere `${PID}` should be the actual process ID of the process you are tracing.\n\n## Other platforms\n\nNo other platforms are supported yet\n\n"@
}

/// The documentation that is added to a probe method.
pub fn generate_probe_doc_comment(trait_name: &str, probe: &str, provider: &str) -> (comment: String)
    ensures
        comment@ == probe_doc_comment(trait_name@, probe@, provider@),
{
    let mut comment = String::from_str(
        "\n# Probing\n\nThis method is translated at compile-time by `probers` into a platform-specific tracing\nprobe, which allows very high-performance and low-overhead tracing.\n\n## How to fire probe\n\nTo fire this probe, don't call this method directly. Instead, use the `probe!` macro, for example:\n\n```ignore\n// If the probe is enabled, fires the probe.  If the probe isn't enabled, or if provider\n// initialization failed for some reason, does not fire the probe, and does NOT evaluate the\n// arguments to the probe.\nprobe!(",
    );
    comment.append(trait_name);
    comment.append("::");
    comment.append(probe);
    comment.append(
        "(...));\n```\n\nThe exact details of how to interact with the probes depends on the underlying\nprobing implementation.\n\n## SystemTap/USDT (Linux x64)\n\nTo trace the firing of this probe, use `bpftrace`, e.g.:\n```text\nsudo bpftrace -p ${PID} -e 'usdt::",
    );
    comment.append(provider);
    comment.append(":");
    comment.append(probe);
    comment.append(" { printf(\"Hello from ");
    comment.append(probe);
    comment.append(
        "\\n\"); }'\n```\n\nwhere `${PID}` should be the actual process ID of the process you are tracing.\n\n## Other platforms\n\nNo other platforms are supported yet\n\n",
    );
    comment
}

/// The text of one documentation line: a space, then the characters of
/// `text` from `start` up to `end`, without a carriage return just before
/// `end`.
pub open spec fn doc_line(text: Seq<char>, start: int, end: int) -> Seq<char> {
    if start < end && text[end - 1] == '\r' {
        " "@ + text.subrange(start, end - 1)
    } else {
        " "@ + text.subrange(start, end)
    }
}

/// The documentation lines of what `text` holds from `start` on, where no
/// line ends between `start` and `at`.
pub open spec fn doc_lines_from(text: Seq<char>, start: int, at: int) -> Seq<Seq<char>>
    decreases text.len() - at,
{
    if at < start || start < 0 {
        Seq::empty()
    } else if at >= text.len() {
        if start >= text.len() {
            Seq::empty()
        } else {
            seq![" "@ + text.subrange(start, text.len() as int)]
        }
    } else if text[at] == '\n' {
        seq![doc_line(text, start, at)] + doc_lines_from(text, at + 1, at + 1)
    } else {
        doc_lines_from(text, start, at + 1)
    }
}

/// The documentation lines of a text: its lines, each after one space.  A
/// line ends at a line feed; the line feed, and a carriage return just
/// before it, belong to no line.  What follows the last line feed is a line
/// if it is not empty.
pub open spec fn doc_lines(text: Seq<char>) -> Seq<Seq<char>> {
    doc_lines_from(text, 0, 0)
}

/// Breaks a comment of several lines into one documentation line per line,
/// each with a leading space.  The work grows with the square of the
/// comment's length.
pub fn generate_multiline_comments(comment: &str) -> (lines: Vec<String>)
    ensures
        lines.deep_view() == doc_lines(comment@),
{
    let n = comment.unicode_len();
    let mut lines: Vec<String> = Vec::new();
    let mut start: usize = 0;
    let mut at: usize = 0;
    assert(lines.deep_view() =~= Seq::empty());
    while at < n
        invariant
            n == comment@.len(),
            start <= at <= n,
            lines.deep_view() + doc_lines_from(comment@, start as int, at as int) == doc_lines(
                comment@,
            ),
        decreases n - at,
    {
        let ghost before = lines.deep_view();
        let c = comment.get_char(at);
        if c == '\n' {
            let end = if start < at && comment.get_char(at - 1) == '\r' {
                at - 1
            } else {
                at
            };
            let line = String::from_str(" ").concat(comment.substring_char(start, end));
            assert(line@ == doc_line(comment@, start as int, at as int));
            lines.push(line);
            assert(lines.deep_view() =~= before.push(line@));
            assert(before + (seq![line@] + doc_lines_from(comment@, at + 1, at + 1))
                =~= before.push(line@) + doc_lines_from(comment@, at + 1, at + 1));
            start = at + 1;
        }
        at += 1;
    }
    if start < n {
        let ghost before = lines.deep_view();
        let line = String::from_str(" ").concat(comment.substring_char(start, n));
        lines.push(line);
        assert(lines.deep_view() =~= before.push(line@));
        assert(before + seq![line@] =~= before.push(line@));
    } else {
        assert(lines.deep_view() + Seq::<Seq<char>>::empty() =~= lines.deep_view());
    }
    lines
}

} // verus!
