//! How a command-line failure is shown: the error, then its causes,
//! numbered from 1; and which outcomes of argument parsing are no failure.
use vstd::prelude::*;
use vstd::string::*;

use crate::text::{contains_spec, decimal_spec, owned, push_decimal};

verus! {

/// The error type of the `anyhow` crate.
#[verifier::external_type_specification]
#[verifier::external_body]
pub struct ExAnyhowError(anyhow::Error);

/// The `Display` texts of an error's chain (`anyhow::Error::chain`): the
/// error itself, then each source in turn, outermost first.
pub uninterp spec fn anyhow_chain_texts(err: anyhow::Error) -> Seq<Seq<char>>;

/// Calls `anyhow::Error::chain` and renders each error of the chain with
/// `Display`, outermost first. The chain is a function of the error alone,
/// named `anyhow_chain_texts`; it starts with the error itself, so it is
/// never empty.
#[verifier::external_body]
fn chain_messages(err: &anyhow::Error) -> (res: Vec<String>)
    ensures
        res.deep_view() == anyhow_chain_texts(*err),
        res.len() >= 1,
{
    let mut out = Vec::new();
    for cause in err.chain() {
        out.push(cause.to_string());
    }
    out
}

/// The text shown for an error whose chain of messages is `messages`
/// (outermost first): `Error: <first>` on its own line, then, when there are
/// causes, an empty line, `Caused by:` and one line `  <n>: <cause>` per
/// cause, numbered from 1.
pub open spec fn cli_error_text(messages: Seq<Seq<char>>) -> Seq<char> {
    let head = "Error: "@ + messages[0] + "\n"@;
    if messages.len() <= 1 {
        head
    } else {
        head + "\nCaused by:\n"@ + cause_lines(messages, 1)
    }
}

/// The lines for the causes `messages[from..]`, cause `i` numbered `i`.
pub open spec fn cause_lines(messages: Seq<Seq<char>>, from: nat) -> Seq<char>
    decreases messages.len() - from,
{
    if from >= messages.len() {
        Seq::empty()
    } else {
        cause_line(messages, from) + cause_lines(messages, from + 1)
    }
}

/// The line that reports cause `i` of a chain.
pub open spec fn cause_line(messages: Seq<Seq<char>>, i: nat) -> Seq<char> {
    "  "@ + decimal_spec(i) + ": "@ + messages[i as int] + "\n"@
}

/// `inner` occurs in `outer` shifted by `offset`: the occurrence of `pat`
/// in `inner` is an occurrence in `outer`.
proof fn lemma_contains_shift(outer: Seq<char>, inner: Seq<char>, offset: int, pat: Seq<char>)
    requires
        0 <= offset,
        offset + inner.len() <= outer.len(),
        outer.subrange(offset, offset + inner.len()) == inner,
        contains_spec(inner, pat),
    ensures
        contains_spec(outer, pat),
{
    let k = choose|k: int| 0 <= k && k + pat.len() <= inner.len() && #[trigger] inner.subrange(k, k + pat.len()) == pat;
    assert(outer.subrange(offset + k, offset + k + pat.len()) =~= inner.subrange(k, k + pat.len()));
}

/// The cause lines from `from` on hold the line of every later cause.
proof fn lemma_cause_lines_contain(messages: Seq<Seq<char>>, from: nat, i: nat)
    requires
        from <= i < messages.len(),
    ensures
        contains_spec(cause_lines(messages, from), cause_line(messages, i)),
    decreases messages.len() - from,
{
    let all = cause_lines(messages, from);
    let first = cause_line(messages, from);
    let rest = cause_lines(messages, from + 1);
    assert(all == first + rest);
    if i == from {
        assert(all.subrange(0int, 0int + first.len()) =~= first);
    } else {
        lemma_cause_lines_contain(messages, from + 1, i);
        assert(all.subrange(first.len() as int, all.len() as int) =~= rest);
        lemma_contains_shift(all, rest, first.len() as int, cause_line(messages, i));
    }
}

/// A report names every cause of the chain on a line of its own, numbered
/// by its place in the chain.
pub proof fn law_report_lists_every_cause(messages: Seq<Seq<char>>, i: nat)
    requires
        1 <= i < messages.len(),
    ensures
        contains_spec(cli_error_text(messages), cause_line(messages, i)),
{
    let text = cli_error_text(messages);
    let prefix = "Error: "@ + messages[0] + "\n"@ + "\nCaused by:\n"@;
    let lines = cause_lines(messages, 1);
    assert(text == prefix + lines);
    lemma_cause_lines_contain(messages, 1, i);
    assert(text.subrange(prefix.len() as int, text.len() as int) =~= lines);
    lemma_contains_shift(text, lines, prefix.len() as int, cause_line(messages, i));
}

/// Renders an error from its chain of messages, outermost first.
pub fn render_cli_error(messages: &Vec<String>) -> (res: String)
    requires
        messages.len() >= 1,
    ensures
        res@ == cli_error_text(messages.deep_view()),
{
    let ghost ms = messages.deep_view();
    let mut out = owned("Error: ");
    out.append(messages[0].as_str());
    out.append("\n");
    if messages.len() == 1 {
        return out;
    }
    out.append("\nCaused by:\n");
    let ghost head = out@;
    let mut i: usize = 1;
    while i < messages.len()
        invariant
            1 <= i <= messages.len(),
            ms == messages.deep_view(),
            head + cause_lines(ms, 1) == out@ + cause_lines(ms, i as nat),
        decreases messages.len() - i,
    {
        let ghost before = out@;
        out.append("  ");
        push_decimal(&mut out, i as u128);
        out.append(": ");
        out.append(messages[i].as_str());
        out.append("\n");
        proof {
            assert(cause_lines(ms, i as nat) == "  "@ + decimal_spec(i as nat) + ": "@ + ms[i as int] + "\n"@
                + cause_lines(ms, (i + 1) as nat));
            assert(out@ =~= before + ("  "@ + decimal_spec(i as nat) + ": "@ + ms[i as int] + "\n"@));
            assert(before + cause_lines(ms, i as nat) =~= out@ + cause_lines(ms, (i + 1) as nat));
        }
        i = i + 1;
    }
    proof {
        assert(cause_lines(ms, i as nat) == Seq::<char>::empty());
        assert(out@ =~= out@ + Seq::<char>::empty());
    }
    out
}

/// The text `report_cli_error` writes for `err`: its chain of messages
/// rendered by `render_cli_error`.
pub fn write_cli_error(err: &anyhow::Error) -> (res: String)
    ensures
        anyhow_chain_texts(*err).len() >= 1,
        res@ == cli_error_text(anyhow_chain_texts(*err)),
{
    let messages = chain_messages(err);
    render_cli_error(&messages)
}

/// The kinds of argument-parsing outcome that the program tells apart.
#[derive(Debug, Clone, Copy, PartialEq, Eq, Structural)]
pub enum CliErrorKind {
    /// Help was asked for and printed.
    DisplayHelp,
    /// The version was asked for and printed.
    DisplayVersion,
    /// A real parsing failure.
    Other,
}

/// Whether a parsing outcome of this kind ends the program successfully:
/// printing help or the version is no failure.
pub fn is_non_error_kind(kind: CliErrorKind) -> (res: bool)
    ensures
        res == (kind == CliErrorKind::DisplayHelp || kind == CliErrorKind::DisplayVersion),
{
    match kind {
        CliErrorKind::DisplayHelp => true,
        CliErrorKind::DisplayVersion => true,
        CliErrorKind::Other => false,
    }
}

} // verus!
