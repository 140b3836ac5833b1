//! Message Builder: assembles the ordered list of role-tagged messages
//! (system prompts followed by user turns) from the raw input blocks and the
//! formatting flags.

use vstd::prelude::*;

verus! {

/// Mathematical form of one chat message: a role tag and its text.
pub struct MsgModel {
    pub role: Seq<char>,
    pub content: Seq<char>,
}

/// One role-tagged message of a chat-completion exchange.
#[derive(Debug)]
pub struct Message {
    pub role: String,
    pub content: String,
}

impl View for Message {
    type V = MsgModel;

    open spec fn view(&self) -> MsgModel {
        MsgModel { role: self.role@, content: self.content@ }
    }
}

pub open spec fn system_role() -> Seq<char> {
    "system"@
}

pub open spec fn user_role() -> Seq<char> {
    "user"@
}

pub open spec fn system_msg(content: Seq<char>) -> MsgModel {
    MsgModel { role: system_role(), content }
}

pub open spec fn user_msg(content: Seq<char>) -> MsgModel {
    MsgModel { role: user_role(), content }
}

/// The fixed instruction prepended to every ordinary request.
pub open spec fn helpful_prompt() -> Seq<char> {
    "You are a helpful coding tool. You should keep
    your answers brief, concise and mainly output code."@
}

/// The instruction asking for Markdown output, present iff Markdown is enabled.
pub open spec fn markdown_prompt() -> Seq<char> {
    "Please format your responses using Markdown syntax
  for better readability. Use appropriate Markdown elements for headers,
  lists, code blocks, and emphasis where applicable."@
}

/// The instruction forbidding Markdown output, present iff Markdown is disabled.
pub open spec fn no_markdown_prompt() -> Seq<char> {
    "Answer without using markdown formatting!"@
}

/// The instruction used by the reformulation (pre-processing) pass in place of
/// the ordinary system prompts.
pub open spec fn reformulate_prompt() -> Seq<char> {
    "Reformulate the user's submission into a clear and detailed instruction that captures the essence of what the user is asking for. Ensure that the reformulated instruction is phrased as if it were the user's original query or instruction, aiming to clarify any ambiguities and to provide a comprehensive understanding of the user's intent.  Prioritize maintaining all existing functionalities in the reformulated instruction unless the user explicitly requests the removal or modification of a specific feature. If necessary, add context or examples to enhance the clarity and specificity of the instruction.  If the user's submission is unclear or incomplete, attempt to infer the missing information or provide a helpful suggestion for clarification. Stay concise and avoid introducing unnecessary complexity or jargon, focusing on producing a reformulation that is easy to understand and actionable."@
}

/// The system messages that open the list: the reformulation prompt alone in
/// pre-process mode, otherwise the helpful prompt and exactly one of the two
/// formatting prompts.
pub open spec fn system_prefix(markdown: bool, preprocess: bool) -> Seq<MsgModel> {
    if preprocess {
        seq![system_msg(reformulate_prompt())]
    } else if markdown {
        seq![system_msg(helpful_prompt()), system_msg(markdown_prompt())]
    } else {
        seq![system_msg(helpful_prompt()), system_msg(no_markdown_prompt())]
    }
}

pub open spec fn system_count(preprocess: bool) -> int {
    if preprocess {
        1
    } else {
        2
    }
}

/// What the Message Builder produces: the system prefix, then one user
/// message per input block, in input order.
pub open spec fn build_messages_spec(
    contents: Seq<Seq<char>>,
    markdown: bool,
    preprocess: bool,
) -> Seq<MsgModel> {
    system_prefix(markdown, preprocess) + contents.map(|i: int, c: Seq<char>| user_msg(c))
}

pub open spec fn msgs_view(ms: Seq<Message>) -> Seq<MsgModel> {
    ms.map_values(|m: Message| m@)
}

/// Builds the ordered message list for one request.
pub fn build_messages(contents: &[String], markdown: bool, preprocess: bool) -> (r: Vec<Message>)
    ensures
        msgs_view(r@) == build_messages_spec(contents.deep_view(), markdown, preprocess),
{
    let mut msgs: Vec<Message> = Vec::new();
    if preprocess {
        msgs.push(
            Message {
                role: String::from_str("system"),
                content: String::from_str(
                    "Reformulate the user's submission into a clear and detailed instruction that captures the essence of what the user is asking for. Ensure that the reformulated instruction is phrased as if it were the user's original query or instruction, aiming to clarify any ambiguities and to provide a comprehensive understanding of the user's intent.  Prioritize maintaining all existing functionalities in the reformulated instruction unless the user explicitly requests the removal or modification of a specific feature. If necessary, add context or examples to enhance the clarity and specificity of the instruction.  If the user's submission is unclear or incomplete, attempt to infer the missing information or provide a helpful suggestion for clarification. Stay concise and avoid introducing unnecessary complexity or jargon, focusing on producing a reformulation that is easy to understand and actionable.",
                ),
            },
        );
    } else {
        msgs.push(
            Message {
                role: String::from_str("system"),
                content: String::from_str(
                    "You are a helpful coding tool. You should keep
    your answers brief, concise and mainly output code.",
                ),
            },
        );
        if markdown {
            msgs.push(
                Message {
                    role: String::from_str("system"),
                    content: String::from_str(
                        "Please format your responses using Markdown syntax
  for better readability. Use appropriate Markdown elements for headers,
  lists, code blocks, and emphasis where applicable.",
                    ),
                },
            );
        } else {
            msgs.push(
                Message {
                    role: String::from_str("system"),
                    content: String::from_str("Answer without using markdown formatting!"),
                },
            );
        }
    }
    assert(msgs_view(msgs@) =~= system_prefix(markdown, preprocess));
    let mut i: usize = 0;
    while i < contents.len()
        invariant
            i <= contents.len(),
            msgs_view(msgs@) =~= system_prefix(markdown, preprocess) + contents.deep_view().take(
                i as int,
            ).map(|j: int, c: Seq<char>| user_msg(c)),
        decreases contents.len() - i,
    {
        let ghost pre = msgs@;
        msgs.push(Message { role: String::from_str("user"), content: contents[i].clone() });
        i += 1;
        proof {
            let f = |j: int, c: Seq<char>| user_msg(c);
            assert(msgs_view(msgs@) =~= msgs_view(pre).push(msgs@.last()@));
            assert(msgs@.last()@ == user_msg(contents.deep_view()[i - 1]));
            assert(contents.deep_view().take(i as int) =~= contents.deep_view().take(
                i - 1,
            ).push(contents.deep_view()[i - 1]));
            assert(contents.deep_view().take(i as int).map(f) =~= contents.deep_view().take(
                i - 1,
            ).map(f).push(user_msg(contents.deep_view()[i - 1])));
        }
    }
    assert(contents.deep_view().take(contents@.len() as int) =~= contents.deep_view());
    assert(msgs_view(msgs@) =~= build_messages_spec(contents.deep_view(), markdown, preprocess));
    msgs
}

/// Law: for every input sequence the built list holds the one or two system
/// messages first, then one user message per input block, with the relative
/// order of the input blocks preserved.
pub proof fn lemma_message_list_shape(contents: Seq<Seq<char>>, markdown: bool, preprocess: bool)
    ensures
        build_messages_spec(contents, markdown, preprocess).len() == system_count(preprocess)
            + contents.len(),
        forall|i: int|
            0 <= i < contents.len() ==> build_messages_spec(contents, markdown, preprocess)[
                system_count(preprocess) + i
            ] == user_msg(contents[i]),
        forall|i: int|
            0 <= i < system_count(preprocess) ==> build_messages_spec(contents, markdown, preprocess)[
                i
            ].role == system_role(),
{
}

/// Law: the Markdown and no-Markdown prompts are mutually exclusive. Without a
/// reformulation pass exactly one of the two is present — the Markdown one iff
/// `markdown` — and with a reformulation pass neither appears.
pub proof fn lemma_format_prompts_exclusive(
    contents: Seq<Seq<char>>,
    markdown: bool,
    preprocess: bool,
)
    ensures
        ({
            let r = build_messages_spec(contents, markdown, preprocess);
            &&& (!preprocess && markdown) ==> r[1] == system_msg(markdown_prompt()) && (forall|
                i: int,
            |
                0 <= i < r.len() && i != 1 ==> r[i] != system_msg(markdown_prompt())) && (forall|
                i: int,
            |
                0 <= i < r.len() ==> r[i] != system_msg(no_markdown_prompt()))
            &&& (!preprocess && !markdown) ==> r[1] == system_msg(no_markdown_prompt()) && (forall|
                i: int,
            |
                0 <= i < r.len() && i != 1 ==> r[i] != system_msg(no_markdown_prompt())) && (forall|
                i: int,
            |
                0 <= i < r.len() ==> r[i] != system_msg(markdown_prompt()))
            &&& preprocess ==> (forall|i: int|
                0 <= i < r.len() ==> r[i] != system_msg(markdown_prompt()) && r[i] != system_msg(
                    no_markdown_prompt(),
                ))
        }),
{
    reveal_strlit("user");
    reveal_strlit("system");
    reveal_strlit("Answer without using markdown formatting!");
    reveal_strlit(
        "You are a helpful coding tool. You should keep
    your answers brief, concise and mainly output code.",
    );
    reveal_strlit(
        "Please format your responses using Markdown syntax
  for better readability. Use appropriate Markdown elements for headers,
  lists, code blocks, and emphasis where applicable.",
    );
    reveal_strlit(
        "Reformulate the user's submission into a clear and detailed instruction that captures the essence of what the user is asking for. Ensure that the reformulated instruction is phrased as if it were the user's original query or instruction, aiming to clarify any ambiguities and to provide a comprehensive understanding of the user's intent.  Prioritize maintaining all existing functionalities in the reformulated instruction unless the user explicitly requests the removal or modification of a specific feature. If necessary, add context or examples to enhance the clarity and specificity of the instruction.  If the user's submission is unclear or incomplete, attempt to infer the missing information or provide a helpful suggestion for clarification. Stay concise and avoid introducing unnecessary complexity or jargon, focusing on producing a reformulation that is easy to understand and actionable.",
    );
    assert(user_role().len() != system_role().len());
    assert(helpful_prompt().len() != markdown_prompt().len());
    assert(helpful_prompt().len() != no_markdown_prompt().len());
    assert(reformulate_prompt().len() != markdown_prompt().len());
    assert(reformulate_prompt().len() != no_markdown_prompt().len());
    let r = build_messages_spec(contents, markdown, preprocess);
    assert forall|i: int| system_count(preprocess) <= i < r.len() implies r[i].role
        == user_role() by {
        assert(r[i] == user_msg(contents[i - system_count(preprocess)]));
    }
}

} // verus!
