//! Prompt templates: a pure map from (mode, system prompt, user text) to the
//! text handed to the generation engine.
use vstd::prelude::*;

verus! {

/// The template family a session formats its prompts with.
#[derive(Clone, Copy, Debug, PartialEq, Eq, Structural)]
pub enum TextMode {
    Instruction,
    Chat,
}

/// `<s>[INST] <<SYS>> {system} <</SYS>> {user} [/INST]`
pub open spec fn instruction_prompt(system: Seq<char>, user: Seq<char>) -> Seq<char> {
    "<s>[INST] <<SYS>> "@ + system + " <</SYS>> "@ + user + " [/INST]"@
}

/// `### System: {system} ### Human: {user} ### Assistant: `
pub open spec fn chat_prompt(system: Seq<char>, user: Seq<char>) -> Seq<char> {
    "### System: "@ + system + " ### Human: "@ + user + " ### Assistant: "@
}

/// The prompt for `user` under `mode`, with `system` as the fixed preamble.
/// Neither text is escaped: delimiter-like substrings pass through as they are.
pub open spec fn prompt_text(mode: TextMode, system: Seq<char>, user: Seq<char>) -> Seq<char> {
    match mode {
        TextMode::Instruction => instruction_prompt(system, user),
        TextMode::Chat => chat_prompt(system, user),
    }
}

/// Builds the prompt for one turn; the template is applied unconditionally,
/// also to an empty `user` text.
pub fn build_prompt(mode: TextMode, system: &str, user: &str) -> (r: String)
    ensures
        r@ == prompt_text(mode, system@, user@),
{
    match mode {
        TextMode::Instruction => {
            let mut r = String::from_str("<s>[INST] <<SYS>> ");
            r.append(system);
            r.append(" <</SYS>> ");
            r.append(user);
            r.append(" [/INST]");
            r
        },
        TextMode::Chat => {
            let mut r = String::from_str("### System: ");
            r.append(system);
            r.append(" ### Human: ");
            r.append(user);
            r.append(" ### Assistant: ");
            r
        },
    }
}

/// Building a prompt is a pure function of its inputs: two builds from the
/// same mode, system prompt and user text give the same characters.
pub proof fn lemma_build_prompt_idempotent(
    mode: TextMode,
    system: Seq<char>,
    user: Seq<char>,
    first: Seq<char>,
    second: Seq<char>,
)
    requires
        first == prompt_text(mode, system, user),
        second == prompt_text(mode, system, user),
    ensures
        first == second,
{
}

} // verus!
