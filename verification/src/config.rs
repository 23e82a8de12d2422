//! Settings of the two services that process a recording.

use vstd::prelude::*;
use vstd::string::StringExecFns;

verus! {

/// The transcription service.
pub struct WhisperConfig {
    pub url: String,
    pub model: String,
}

/// The text-generation service.
pub struct LlmConfig {
    pub url: String,
    pub model: String,
    pub system_prompt: String,
    pub user_prompt_template: String,
}

/// Both services.
pub struct Config {
    pub whisper_api: WhisperConfig,
    pub llm_api: LlmConfig,
}

/// One message of a chat request.
pub struct ChatMessage {
    pub role: String,
    pub content: String,
}

/// The body of a request to the text-generation service.
pub struct ChatRequest {
    pub model: String,
    pub messages: Vec<ChatMessage>,
}

/// `text` with every match of a non-empty `pattern` replaced by `with`.
/// Matches are looked for from the left, and the search goes on behind each
/// match, so that matches do not overlap.
pub open spec fn replaced(text: Seq<char>, pattern: Seq<char>, with: Seq<char>) -> Seq<char>
    recommends
        pattern.len() > 0,
    decreases text.len(),
{
    if pattern.len() == 0 || text.len() == 0 {
        text
    } else if pattern.is_prefix_of(text) {
        with + replaced(text.skip(pattern.len() as int), pattern, with)
    } else {
        seq![text[0]] + replaced(text.skip(1), pattern, with)
    }
}

/// Whether `pattern` stands somewhere in `text`.
pub open spec fn occurs(text: Seq<char>, pattern: Seq<char>) -> bool {
    exists|i: int|
        0 <= i && i + pattern.len() <= text.len() && #[trigger] text.subrange(
            i,
            i + pattern.len(),
        ) == pattern
}

/// Calls `str::replace` with a non-empty pattern. Believed of it: every
/// match of the pattern, found from left to right without overlap, gives way
/// to `with`, and all else is copied.
#[verifier::external_body]
fn replace_all(text: &str, pattern: &str, with: &str) -> (r: String)
    requires
        pattern@.len() > 0,
    ensures
        r@ == replaced(text@, pattern@, with@),
{
    text.replace(pattern, with)
}

impl Config {
    /// Makes the settings from those of the two services, as they were read
    /// from their files.
    pub fn load(whisper_api: WhisperConfig, llm_api: LlmConfig) -> (c: Config)
        ensures
            c.whisper_api == whisper_api,
            c.llm_api == llm_api,
    {
        Config { whisper_api, llm_api }
    }
}

impl LlmConfig {
    /// The user's prompt: the template with the transcript in the place of
    /// each `{}`.
    pub fn user_prompt(&self, transcript: &str) -> (prompt: String)
        ensures
            prompt@ == replaced(self.user_prompt_template@, "{}"@, transcript@),
    {
        proof {
            reveal_strlit("{}");
        }
        replace_all(self.user_prompt_template.as_str(), "{}", transcript)
    }

    /// The request for a transcript: the model, then the system's prompt and
    /// the user's prompt as two messages, in that order.
    pub fn chat_request(&self, transcript: &str) -> (request: ChatRequest)
        ensures
            request.model@ == self.model@,
            request.messages@.len() == 2,
            request.messages@[0].role@ == "system"@,
            request.messages@[0].content@ == self.system_prompt@,
            request.messages@[1].role@ == "user"@,
            request.messages@[1].content@ == replaced(
                self.user_prompt_template@,
                "{}"@,
                transcript@,
            ),
    {
        let mut messages: Vec<ChatMessage> = Vec::new();
        messages.push(
            ChatMessage { role: String::from_str("system"), content: self.system_prompt.clone() },
        );
        messages.push(
            ChatMessage { role: String::from_str("user"), content: self.user_prompt(transcript) },
        );
        ChatRequest { model: self.model.clone(), messages }
    }
}

/// A text in which the pattern does not stand is left as it is.
pub proof fn lemma_replaced_without_match(text: Seq<char>, pattern: Seq<char>, with: Seq<char>)
    requires
        pattern.len() > 0,
        !occurs(text, pattern),
    ensures
        replaced(text, pattern, with) == text,
    decreases text.len(),
{
    if text.len() > 0 {
        if pattern.is_prefix_of(text) {
            assert(text.subrange(0int, 0int + pattern.len()) =~= pattern);
        }
        let rest = text.skip(1);
        if occurs(rest, pattern) {
            let i = choose|i: int|
                0 <= i && i + pattern.len() <= rest.len() && #[trigger] rest.subrange(
                    i,
                    i + pattern.len(),
                ) == pattern;
            assert(text.subrange(i + 1, i + 1 + pattern.len()) =~= rest.subrange(
                i,
                i + pattern.len(),
            ));
        }
        lemma_replaced_without_match(rest, pattern, with);
        assert(seq![text[0]] + rest =~= text);
    }
}

/// A match at the front gives way to `with`, and the replacing goes on
/// behind it; any other first character is copied.
pub proof fn lemma_replaced_at_front(
    rest: Seq<char>,
    pattern: Seq<char>,
    with: Seq<char>,
    c: char,
)
    requires
        pattern.len() > 0,
    ensures
        replaced(pattern + rest, pattern, with) == with + replaced(rest, pattern, with),
        replaced(pattern, pattern, with) == with,
        !pattern.is_prefix_of(seq![c] + rest) ==> replaced(seq![c] + rest, pattern, with)
            == seq![c] + replaced(rest, pattern, with),
        replaced(Seq::<char>::empty(), pattern, with) == Seq::<char>::empty(),
{
    let text = pattern + rest;
    assert(text.subrange(0, pattern.len() as int) =~= pattern);
    assert(text.skip(pattern.len() as int) =~= rest);
    assert(pattern.subrange(0, pattern.len() as int) =~= pattern);
    assert(pattern.skip(pattern.len() as int) =~= Seq::<char>::empty());
    assert(pattern.is_prefix_of(pattern));
    assert(replaced(Seq::<char>::empty(), pattern, with) == Seq::<char>::empty());
    assert(replaced(pattern, pattern, with) == with + replaced(
        pattern.skip(pattern.len() as int),
        pattern,
        with,
    ));
    assert(with + Seq::<char>::empty() =~= with);
    assert((seq![c] + rest).skip(1) =~= rest);
}

} // verus!
