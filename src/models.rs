use vstd::prelude::*;

use crate::conversation::{
    has_user_message,
    prompt_of,
    transcript,
    validation_error,
    ConversationBuilder,
    Message,
};
use crate::error::{is_config_error, Result, SmartsError};
use crate::text::{
    contains,
    decimal,
    decimal_string,
    first_chars,
    first_chars_of,
    lemma_decimal_nonempty,
};

verus! {

/// How many characters of the prompt a placeholder reply quotes.
pub const PROMPT_PREVIEW_CHARS: usize = 100;

/// A handle on a local language model, known by its name.
pub struct Smarts {
    model_name: String,
}

impl View for Smarts {
    type V = Seq<char>;

    /// The model's name.
    closed spec fn view(&self) -> Seq<char> {
        self.model_name@
    }
}

/// The reply that generation gives for `msgs` on the model `name`: a
/// placeholder that names the model, counts the messages and quotes the
/// start of the prompt.
pub open spec fn reply_text(name: Seq<char>, msgs: Seq<Message>) -> Seq<char> {
    "[PLACEHOLDER] Generated response for model '"@ + name + "' with "@ + decimal(msgs.len())
        + " messages. Prompt: "@ + first_chars(prompt_of(msgs), PROMPT_PREVIEW_CHARS as nat)
}

/// A conversation that holds a user message is accepted for generation, and
/// the reply is not empty and names both the model and the number of messages.
pub proof fn lemma_reply_names_model_and_count(name: Seq<char>, msgs: Seq<Message>)
    requires
        has_user_message(msgs),
    ensures
        validation_error(msgs) is None,
        reply_text(name, msgs).len() > 0,
        contains(reply_text(name, msgs), name),
        contains(reply_text(name, msgs), decimal(msgs.len())),
{
    let head = "[PLACEHOLDER] Generated response for model '"@;
    let with_name = head + name;
    let upto_count = with_name + "' with "@;
    let count = decimal(msgs.len());
    let r = reply_text(name, msgs);
    lemma_decimal_nonempty(msgs.len());
    assert(r.subrange(head.len() as int, (head.len() + name.len()) as int) =~= name);
    assert(r.subrange(upto_count.len() as int, (upto_count.len() + count.len()) as int) =~= count);
}

impl Smarts {
    /// Opens a handle on the local model called `model_name`; the name must
    /// not be empty.
    pub fn with_local_model(model_name: &str) -> (r: Result<Smarts>)
        ensures
            r is Ok <==> model_name@.len() > 0,
            r is Ok ==> r->Ok_0@ == model_name@,
            r is Err ==> is_config_error(r->Err_0, "Model name cannot be empty"@),
    {
        if model_name.is_empty() {
            return Err(SmartsError::ConfigError(String::from_str("Model name cannot be empty")));
        }
        Ok(Smarts { model_name: String::from_str(model_name) })
    }

    /// Starts a conversation with this model.
    pub fn conversation(&self) -> (r: ConversationBuilder<'_>)
        ensures
            r@ == Seq::<Message>::empty(),
            r.owner() == *self,
    {
        ConversationBuilder::new(self)
    }

    /// Generates the reply to `messages`, which have been validated.
    pub(crate) fn generate_from_conversation(&self, messages: Vec<Message>) -> (r: Result<String>)
        ensures
            r is Ok,
            r->Ok_0@ == reply_text(self@, messages@),
    {
        let prompt = match self.format_messages_for_model(messages.as_slice()) {
            Ok(p) => p,
            Err(e) => return Err(e),
        };
        let mut r = String::from_str("[PLACEHOLDER] Generated response for model '");
        r.append(self.model_name.as_str());
        r.append("' with ");
        let count = decimal_string(messages.len());
        r.append(count.as_str());
        r.append(" messages. Prompt: ");
        let preview = first_chars_of(prompt.as_str(), PROMPT_PREVIEW_CHARS);
        r.append(preview.as_str());
        Ok(r)
    }

    /// Formats `messages` into one prompt: a line `Role: text` for each
    /// message in order, then `Assistant: ` to cue the reply.
    pub fn format_messages_for_model(&self, messages: &[Message]) -> (r: Result<String>)
        ensures
            r is Ok,
            r->Ok_0@ == prompt_of(messages@),
    {
        let mut formatted = String::new();
        let mut i: usize = 0;
        while i < messages.len()
            invariant
                i <= messages@.len(),
                formatted@ == transcript(messages@.take(i as int)),
            decreases messages@.len() - i,
        {
            match &messages[i] {
                Message::System(content) => {
                    formatted.append("System: ");
                    formatted.append(content.as_str());
                    formatted.append("\n");
                },
                Message::User(content) => {
                    formatted.append("User: ");
                    formatted.append(content.as_str());
                    formatted.append("\n");
                },
                Message::Assistant(content) => {
                    formatted.append("Assistant: ");
                    formatted.append(content.as_str());
                    formatted.append("\n");
                },
            }
            assert(messages@.take(i + 1).drop_last() =~= messages@.take(i as int));
            i += 1;
        }
        assert(messages@.take(i as int) =~= messages@);
        formatted.append("Assistant: ");
        Ok(formatted)
    }

    /// The name of the model.
    pub fn model_info(&self) -> (r: &str)
        ensures
            r@ == self@,
    {
        self.model_name.as_str()
    }
}

} // verus!
