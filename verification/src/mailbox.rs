//! The prompt that nudges an agent to read a mailbox message waiting for
//! it in a team run.
use vstd::prelude::*;
use vstd::string::*;

use crate::text::owned;

verus! {

/// The headline of a mailbox hint: direct agent messages are called out as
/// such, any other reason is a generic pending message.
pub open spec fn mailbox_hint_headline(reason: Seq<char>) -> Seq<char> {
    if reason == "direct_agent_message"@ {
        "Direct mailbox message pending"@
    } else {
        "Mailbox message pending"@
    }
}

/// The prompt sent to an agent when a message waits in its mailbox for run
/// `run_id`: the headline, the run, the reason, and how to read the inbox.
pub open spec fn mailbox_hint_prompt(run_id: Seq<char>, reason: Seq<char>) -> Seq<char> {
    mailbox_hint_headline(reason) + " in run "@ + run_id + " (reason: "@ + reason
        + "). Read it with `agenthub actor inbox` before continuing."@
}

/// Builds the immediate mailbox hint prompt for run `run_id` and the hint's
/// `reason`.
pub fn build_actor_mailbox_immediate_hint_prompt_for_test(run_id: &str, reason: &str) -> (res: String)
    ensures
        res@ == mailbox_hint_prompt(run_id@, reason@),
{
    let direct = owned(reason) == owned("direct_agent_message");
    let mut s = if direct {
        owned("Direct mailbox message pending")
    } else {
        owned("Mailbox message pending")
    };
    s.append(" in run ");
    s.append(run_id);
    s.append(" (reason: ");
    s.append(reason);
    s.append("). Read it with `agenthub actor inbox` before continuing.");
    s
}

/// The hint names the run, the reason and how to read the inbox; a direct
/// agent message is called out as such.
pub proof fn law_mailbox_hint(run_id: Seq<char>, reason: Seq<char>)
    ensures
        reason == "direct_agent_message"@ ==> mailbox_hint_prompt(run_id, reason).subrange(0, 30)
            == "Direct mailbox message pending"@,
        reason != "direct_agent_message"@ ==> mailbox_hint_prompt(run_id, reason).subrange(0, 23)
            == "Mailbox message pending"@,
        mailbox_hint_prompt(run_id, reason).len() > run_id.len(),
{
    reveal_strlit("Direct mailbox message pending");
    reveal_strlit("Mailbox message pending");
    let p = mailbox_hint_prompt(run_id, reason);
    let h = mailbox_hint_headline(reason);
    assert(p.subrange(0, h.len() as int) =~= h);
}

} // verus!
