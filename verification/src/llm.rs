//! Language-model messages and the offline mock model.
use vstd::prelude::*;

use crate::text::{concat2, concat3, first_chars, has_substring, prefix, str_contains};

verus! {

/// One chat message.
pub struct LlmMessage {
    pub role: String,
    pub content: String,
}

impl Clone for LlmMessage {
    fn clone(&self) -> (res: Self)
        ensures
            res == *self,
    {
        LlmMessage { role: self.role.clone(), content: self.content.clone() }
    }
}

/// The chat sent to a model: the instructions as a `system` message, then
/// the request's messages in order.
pub fn with_system_message(system: String, messages: Vec<LlmMessage>) -> (res: Vec<LlmMessage>)
    ensures
        res@.len() == messages@.len() + 1,
        res@[0].role@ == "system"@,
        res@[0].content == system,
        res@.drop_first() == messages@,
{
    let mut res: Vec<LlmMessage> = Vec::new();
    res.push(LlmMessage { role: String::from_str("system"), content: system });
    let mut rest = messages;
    let ghost msgs = rest@;
    res.append(&mut rest);
    assert(res@.drop_first() =~= msgs);
    res
}

/// A model that answers offline, from the wording of the last message.
pub struct MockLlm;

/// The mock's outline.
pub open spec fn mock_outline() -> Seq<char> {
    "## Outline\n1. Executive summary\n2. Key trends\n3. Strategic implications\n4. Recommendations"@
}

/// The mock's transcript assessment.
pub open spec fn mock_assessment() -> Seq<char> {
    "Assessment: Candidate demonstrates strong systems thinking. Evidence: cited distributed systems tradeoffs at lines 12-18. Risk: limited depth on production incident response."@
}

/// The mock's article about the request `user`.
pub open spec fn mock_article(user: Seq<char>) -> Seq<char> {
    "# Technical Analysis\n\nSynthesized insights for: "@ + prefix(user, 80)
        + "\n\nEvidence-backed conclusions with operational intelligence mapping."@
}

/// The mock's generic analysis of the request `user`.
pub open spec fn mock_analysis(user: Seq<char>) -> Seq<char> {
    "Analysis complete. Topic context: "@ + prefix(user, 120)
}

/// What the mock answers to the request `user` (the last message, or
/// nothing): an outline when asked for one, an article when asked to write,
/// an assessment for transcripts and interviews, otherwise an analysis.
pub open spec fn mock_reply(user: Seq<char>) -> Seq<char> {
    if has_substring(user, "outline"@) {
        mock_outline()
    } else if has_substring(user, "article"@) || has_substring(user, "write"@) {
        mock_article(user)
    } else if has_substring(user, "transcript"@) || has_substring(user, "interview"@) {
        mock_assessment()
    } else {
        mock_analysis(user)
    }
}

/// The content of the last message, empty when there is none.
pub open spec fn last_content(messages: Seq<LlmMessage>) -> Seq<char> {
    if messages.len() == 0 {
        Seq::empty()
    } else {
        messages.last().content@
    }
}

impl MockLlm {
    /// The mock's answer to a chat.
    pub fn complete(&self, messages: &Vec<LlmMessage>) -> (res: String)
        ensures
            res@ == mock_reply(last_content(messages@)),
    {
        let user: &str = if messages.len() == 0 {
            ""
        } else {
            messages[messages.len() - 1].content.as_str()
        };
        proof {
            if messages@.len() == 0 {
                reveal_strlit("");
                assert(user@ =~= Seq::<char>::empty());
            }
            assert(user@ == last_content(messages@));
        }
        if str_contains(user, "outline") {
            String::from_str(
                "## Outline\n1. Executive summary\n2. Key trends\n3. Strategic implications\n4. Recommendations",
            )
        } else if str_contains(user, "article") || str_contains(user, "write") {
            let head = first_chars(user, 80);
            concat3(
                "# Technical Analysis\n\nSynthesized insights for: ",
                head.as_str(),
                "\n\nEvidence-backed conclusions with operational intelligence mapping.",
            )
        } else if str_contains(user, "transcript") || str_contains(user, "interview") {
            String::from_str(
                "Assessment: Candidate demonstrates strong systems thinking. Evidence: cited distributed systems tradeoffs at lines 12-18. Risk: limited depth on production incident response.",
            )
        } else {
            let head = first_chars(user, 120);
            concat2("Analysis complete. Topic context: ", head.as_str())
        }
    }
}

} // verus!
