//! Plain data carried across the language-model boundary: the role-tagged
//! messages sent to the model and the shape of the completion that comes
//! back. The network call itself lives outside the library; only the
//! extraction of the answer text is done (and verified) here.

use vstd::prelude::*;

verus! {

/// One role-tagged message of a model request.
#[derive(Debug, Clone)]
pub struct Message {
    pub role: String,
    pub content: String,
}

/// The answer text of one completion choice.
#[derive(Debug, Clone)]
pub struct ChatCompletionMessage {
    pub content: String,
}

/// One completion choice returned by the model.
#[derive(Debug, Clone)]
pub struct ChatCompletionChoice {
    pub message: ChatCompletionMessage,
}

/// A full model response: an ordered list of completion choices.
#[derive(Debug, Clone)]
pub struct ChatCompletionResponse {
    pub choices: Vec<ChatCompletionChoice>,
}

impl ChatCompletionResponse {
    /// The generated text of a response: the content of its first choice,
    /// or nothing when the model returned no choice at all.
    pub fn first_message_content(&self) -> (content: Option<String>)
        ensures
            match content {
                Some(text) => self.choices@.len() > 0 && text@ == self.choices@[0].message.content@,
                None => self.choices@.len() == 0,
            },
    {
        if self.choices.len() > 0 {
            Some(self.choices[0].message.content.clone())
        } else {
            None
        }
    }
}

} // verus!
