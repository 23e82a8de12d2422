//! What is said to the two services, and what is read from their answers.

use vstd::prelude::*;
use vstd::string::StringExecFns;

verus! {

/// The answer of the transcription service.
#[derive(Debug)]
pub struct WhisperResponse {
    pub text: String,
}

/// The text of one choice.
#[derive(Debug)]
pub struct Message {
    pub content: String,
}

/// One choice of the text-generation service.
#[derive(Debug)]
pub struct Choice {
    pub message: Message,
}

/// The answer of the text-generation service.
#[derive(Debug)]
pub struct LLMResponse {
    pub choices: Vec<Choice>,
}

/// Whether an HTTP status reports success: 200 to 299.
pub open spec fn spec_is_success(status: u16) -> bool {
    200 <= status < 300
}

/// Whether an HTTP status reports success.
pub fn is_success(status: u16) -> (b: bool)
    ensures
        b == spec_is_success(status),
{
    200 <= status && status < 300
}

/// The value of the authorization header for a key.
pub fn bearer(key: &str) -> (value: String)
    ensures
        value@ == "Bearer "@ + key@,
{
    String::from_str("Bearer ").concat(key)
}

impl WhisperResponse {
    /// The transcript.
    pub fn transcript(self) -> (text: String)
        ensures
            text@ == self.text@,
    {
        self.text
    }
}

impl LLMResponse {
    /// The generated document: the text of the first choice.
    pub fn document(&self) -> (text: String)
        requires
            self.choices@.len() > 0,
        ensures
            text@ == self.choices@[0].message.content@,
    {
        self.choices[0].message.content.clone()
    }

    /// The generated document, if the answer holds a choice.
    pub fn first_document(&self) -> (text: Option<String>)
        ensures
            match text {
                None => self.choices@.len() == 0,
                Some(t) => self.choices@.len() > 0 && t@ == self.choices@[0].message.content@,
            },
    {
        if self.choices.len() == 0 {
            None
        } else {
            Some(self.document())
        }
    }
}

} // verus!
