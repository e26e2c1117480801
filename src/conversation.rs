use vstd::prelude::*;

use crate::error::{is_conversation_error, Result, SmartsError};
use crate::models::Smarts;

verus! {

/// One turn of a conversation, tagged with its role.
#[derive(Debug, Clone)]
pub enum Message {
    /// Sets the model's behavior or context.
    System(String),
    /// Input from the user.
    User(String),
    /// A response of the assistant, for examples or conversation history.
    Assistant(String),
}

impl Message {
    /// The text that the message carries.
    pub open spec fn text(self) -> Seq<char> {
        match self {
            Message::System(c) => c@,
            Message::User(c) => c@,
            Message::Assistant(c) => c@,
        }
    }

    /// The prompt line for the message: its role, a colon, its text and a newline.
    pub open spec fn line(self) -> Seq<char> {
        match self {
            Message::System(c) => "System: "@ + c@ + "\n"@,
            Message::User(c) => "User: "@ + c@ + "\n"@,
            Message::Assistant(c) => "Assistant: "@ + c@ + "\n"@,
        }
    }
}

/// The prompt lines of `msgs`, in order.
pub open spec fn transcript(msgs: Seq<Message>) -> Seq<char>
    decreases msgs.len(),
{
    if msgs.len() == 0 {
        Seq::empty()
    } else {
        transcript(msgs.drop_last()) + msgs.last().line()
    }
}

/// The prompt for `msgs`: their lines, then the cue for the assistant's reply.
pub open spec fn prompt_of(msgs: Seq<Message>) -> Seq<char> {
    transcript(msgs) + "Assistant: "@
}

/// Some message of `msgs` is a user message.
pub open spec fn has_user_message(msgs: Seq<Message>) -> bool {
    exists|i: int| 0 <= i < msgs.len() && (#[trigger] msgs[i]) is User
}

/// Why `msgs` cannot be handed to generation, or `None` when it can.
pub open spec fn validation_error(msgs: Seq<Message>) -> Option<Seq<char>> {
    if msgs.len() == 0 {
        Some("Conversation cannot be empty"@)
    } else if !has_user_message(msgs) {
        Some("Conversation must contain at least one user message"@)
    } else {
        None
    }
}

/// `after` is `before` with one message appended, of the role that `is_role`
/// picks and with the text `content`.
pub open spec fn appended(
    before: Seq<Message>,
    after: Seq<Message>,
    is_role: spec_fn(Message) -> bool,
    content: Seq<char>,
) -> bool {
    &&& after.len() == before.len() + 1
    &&& after.drop_last() == before
    &&& is_role(after.last())
    &&& after.last().text() == content
}

/// Formatting keeps the order of the messages: a system, a user and an
/// assistant message become three lines in that order, then the reply cue.
pub proof fn lemma_prompt_keeps_order(a: String, b: String, c: String)
    ensures
        prompt_of(seq![Message::System(a), Message::User(b), Message::Assistant(c)])
            == "System: "@ + a@ + "\n"@ + ("User: "@ + b@ + "\n"@) + ("Assistant: "@ + c@ + "\n"@)
            + "Assistant: "@,
{
    let s1 = Message::System(a);
    let s2 = Message::User(b);
    let s3 = Message::Assistant(c);
    let msgs = seq![s1, s2, s3];
    assert(msgs.drop_last() =~= seq![s1, s2]);
    assert(seq![s1, s2].drop_last() =~= seq![s1]);
    assert(seq![s1].drop_last() =~= Seq::<Message>::empty());
    assert(seq![s1].last() == s1);
    assert(seq![s1, s2].last() == s2);
    assert(msgs.last() == s3);
    assert(transcript(Seq::<Message>::empty()) == Seq::<char>::empty());
    assert(transcript(seq![s1]) == transcript(Seq::<Message>::empty()) + s1.line());
    assert(transcript(seq![s1]) =~= s1.line());
    assert(transcript(seq![s1, s2]) == s1.line() + s2.line());
    assert(transcript(msgs) == s1.line() + s2.line() + s3.line());
    assert(prompt_of(msgs) =~= "System: "@ + a@ + "\n"@ + ("User: "@ + b@ + "\n"@) + (
    "Assistant: "@ + c@ + "\n"@) + "Assistant: "@);
}

/// Appending a system message and then a user message to an empty
/// conversation leaves exactly those two messages, in that order.
pub proof fn lemma_chained_appends_keep_order(
    one: Seq<Message>,
    two: Seq<Message>,
    x: Seq<char>,
    y: Seq<char>,
)
    requires
        appended(Seq::empty(), one, |m: Message| m is System, x),
        appended(one, two, |m: Message| m is User, y),
    ensures
        two.len() == 2,
        two[0] is System,
        two[0].text() == x,
        two[1] is User,
        two[1].text() == y,
{
    assert(two[0] == one[0]);
}

/// Collects the messages of one conversation with a model handle.
pub struct ConversationBuilder<'a> {
    smarts: &'a Smarts,
    messages: Vec<Message>,
}

impl<'a> View for ConversationBuilder<'a> {
    type V = Seq<Message>;

    /// The messages appended so far, in order.
    closed spec fn view(&self) -> Seq<Message> {
        self.messages@
    }
}

impl<'a> ConversationBuilder<'a> {
    /// The handle that the conversation was started from.
    pub closed spec fn owner(&self) -> Smarts {
        *self.smarts
    }

    /// Starts an empty conversation with `smarts`.
    pub(crate) fn new(smarts: &'a Smarts) -> (r: Self)
        ensures
            r@ == Seq::<Message>::empty(),
            r.owner() == *smarts,
    {
        ConversationBuilder { smarts, messages: Vec::new() }
    }

    /// Appends a system message, which sets behavior or context.
    pub fn system(self, content: &str) -> (r: Self)
        ensures
            appended(self@, r@, |m: Message| m is System, content@),
            r.owner() == self.owner(),
    {
        let ghost before = self.messages@;
        let mut b = self;
        b.messages.push(Message::System(String::from_str(content)));
        assert(b.messages@.drop_last() =~= before);
        b
    }

    /// Appends a user message.
    pub fn user(self, content: &str) -> (r: Self)
        ensures
            appended(self@, r@, |m: Message| m is User, content@),
            r.owner() == self.owner(),
    {
        let ghost before = self.messages@;
        let mut b = self;
        b.messages.push(Message::User(String::from_str(content)));
        assert(b.messages@.drop_last() =~= before);
        b
    }

    /// Appends an assistant message, for examples or conversation history.
    pub fn assistant(self, content: &str) -> (r: Self)
        ensures
            appended(self@, r@, |m: Message| m is Assistant, content@),
            r.owner() == self.owner(),
    {
        let ghost before = self.messages@;
        let mut b = self;
        b.messages.push(Message::Assistant(String::from_str(content)));
        assert(b.messages@.drop_last() =~= before);
        b
    }

    /// Validates the conversation and generates the model's reply to it.
    pub fn generate(self) -> (r: Result<String>)
        ensures
            r is Ok <==> validation_error(self@) is None,
            r is Ok ==> r->Ok_0@ == crate::models::reply_text(self.owner()@, self@),
            validation_error(self@) matches Some(m) ==> is_conversation_error(r->Err_0, m),
    {
        match self.validate_conversation() {
            Ok(()) => {},
            Err(e) => return Err(e),
        }
        self.smarts.generate_from_conversation(self.messages)
    }

    /// Checks that the conversation is not empty and holds a user message.
    fn validate_conversation(&self) -> (r: Result<()>)
        ensures
            r is Ok <==> validation_error(self@) is None,
            validation_error(self@) matches Some(m) ==> is_conversation_error(r->Err_0, m),
    {
        if self.messages.len() == 0 {
            return Err(SmartsError::ConversationError(String::from_str("Conversation cannot be empty")));
        }
        let mut has_user = false;
        let mut i: usize = 0;
        while i < self.messages.len()
            invariant
                i <= self.messages@.len(),
                has_user <==> exists|j: int| 0 <= j < i && (#[trigger] self.messages@[j]) is User,
            decreases self.messages@.len() - i,
        {
            if let Message::User(_) = &self.messages[i] {
                has_user = true;
            }
            i += 1;
        }
        if !has_user {
            return Err(
                SmartsError::ConversationError(
                    String::from_str("Conversation must contain at least one user message"),
                ),
            );
        }
        // A conversation that ends with an assistant message is accepted: it
        // asks the model to continue that message, as few-shot prompts do.
        Ok(())
    }

    /// The messages appended so far, in order.
    pub fn messages(&self) -> (r: &[Message])
        ensures
            r@ == self@,
    {
        self.messages.as_slice()
    }
}

} // verus!
