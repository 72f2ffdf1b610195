//! What the chat with the study buddy decides by itself: what a message is,
//! which model is asked next, and what stands in for a reply that lacks a
//! part. Sending the request is the caller's part.

use vstd::prelude::*;

verus! {

/// How many models there are to ask.
pub const MODEL_COUNT: usize = 7;

/// One message of a chat: who speaks, and what is said.
#[derive(Debug)]
pub struct Message {
    role: String,
    content: String,
}

/// What a [`Message`] holds.
pub struct MessageView {
    pub role: Seq<char>,
    pub content: Seq<char>,
}

impl View for Message {
    type V = MessageView;

    closed spec fn view(&self) -> MessageView {
        MessageView { role: self.role@, content: self.content@ }
    }
}

impl Clone for Message {
    fn clone(&self) -> (r: Message)
        ensures
            r@ == self@,
    {
        Message { role: self.role.clone(), content: self.content.clone() }
    }
}

impl Message {
    /// The message in which `role` says `content`.
    pub fn new(role: &str, content: &str) -> (r: Message)
        ensures
            r@ == (MessageView { role: role@, content: content@ }),
    {
        Message { role: String::from_str(role), content: String::from_str(content) }
    }

    /// Who speaks.
    pub fn role(&self) -> (r: &str)
        ensures
            r@ == self@.role,
    {
        self.role.as_str()
    }

    /// What is said.
    pub fn content(&self) -> (r: &str)
        ensures
            r@ == self@.content,
    {
        self.content.as_str()
    }
}

/// The name of the model of rank `rank`; the best model has rank zero.
pub open spec fn model_of(rank: int) -> Seq<char> {
    if rank == 0 {
        "llama-3.1-405b-reasoning"@
    } else if rank == 1 {
        "llama-3.1-70b-versatile"@
    } else if rank == 2 {
        "llama-3.1-8b-instant"@
    } else if rank == 3 {
        "llama3-70b-8192"@
    } else if rank == 4 {
        "gemma2-9b-it"@
    } else if rank == 5 {
        "llama3-8b-8192"@
    } else {
        "gemma-7b-it"@
    }
}

/// The name of the model of rank `rank`, if there is one.
pub fn model_name(rank: usize) -> (r: Option<&'static str>)
    ensures
        r is Some <==> rank < MODEL_COUNT,
        r is Some ==> r->0@ == model_of(rank as int),
{
    if rank == 0 {
        Some("llama-3.1-405b-reasoning")
    } else if rank == 1 {
        Some("llama-3.1-70b-versatile")
    } else if rank == 2 {
        Some("llama-3.1-8b-instant")
    } else if rank == 3 {
        Some("llama3-70b-8192")
    } else if rank == 4 {
        Some("gemma2-9b-it")
    } else if rank == 5 {
        Some("llama3-8b-8192")
    } else if rank == 6 {
        Some("gemma-7b-it")
    } else {
        None
    }
}

/// The rank to ask after the model of rank `rank` was asked. A model that
/// answered ends the asking, whatever it answered; after a failure the next
/// model is asked, as long as there is one.
pub fn next_rank(rank: usize, answered: bool) -> (r: Option<usize>)
    ensures
        r is Some <==> !answered && rank + 1 < MODEL_COUNT,
        r is Some ==> r->0 == rank + 1,
{
    if !answered && rank < MODEL_COUNT - 1 {
        Some(rank + 1)
    } else {
        None
    }
}

/// The message that a reply stands for. A reply without a role is the
/// assistant's; one without content says that it is empty.
pub fn reply_of(role: Option<&str>, content: Option<&str>) -> (r: Message)
    ensures
        r@.role == (match role {
            Some(role) => role@,
            None => "assistant"@,
        }),
        r@.content == (match content {
            Some(content) => content@,
            None => "Empty message!"@,
        }),
{
    let role = match role {
        Some(role) => role,
        None => "assistant",
    };
    let content = match content {
        Some(content) => content,
        None => "Empty message!",
    };
    Message::new(role, content)
}

/// The title of a chat that has none of its own yet.
pub open spec fn new_chat_title() -> Seq<char> {
    "New Chat"@
}

/// What the model is told when it is asked for a title.
pub open spec fn title_instructions() -> Seq<char> {
    "Create a short and catchy title of up to 5 words that captures the essence of the following content. The title should be relevant and engaging for any subject matter. Keep in mind that this content is based on chat between a user and an LLM but don't mention this in title. Also, make sure you don't cut the title in between. Examples: 'Top Study Habits for Success', 'Advantages of Learning a Second Language', 'Improve Your Sleep Quality Fast', 'Blockchainâ€™s Impact on Industries', 'Manage Stress with Effective Strategies', 'What's Up, Buddy?' etc."@
}

/// Whether a chat with the title `title` is still to be given one.
pub fn needs_title(title: &str) -> (r: bool)
    ensures
        r == (title@ == new_chat_title()),
{
    String::from_str(title) == String::from_str("New Chat")
}

/// The title that the model's answer gives: what it said, or the title of
/// a chat without one where it said nothing.
pub fn title_of(answer: Option<&str>) -> (r: String)
    ensures
        r@ == (match answer {
            Some(answer) => answer@,
            None => new_chat_title(),
        }),
{
    match answer {
        Some(answer) => String::from_str(answer),
        None => String::from_str("New Chat"),
    }
}

/// The two messages that ask a model for a title: the instructions, from
/// the system, and the exchange to name, from the user.
pub fn title_request(last: &str, reply: &str) -> (r: Vec<Message>)
    ensures
        r@.len() == 2,
        r@[0]@ == (MessageView { role: "system"@, content: title_instructions() }),
        r@[1]@ == (MessageView {
            role: "user"@,
            content: "User:"@ + last@ + "\nLLM:"@ + reply@,
        }),
{
    let mut exchange = String::from_str("User:");
    exchange.append(last);
    exchange.append("\nLLM:");
    exchange.append(reply);
    let mut r: Vec<Message> = Vec::new();
    r.push(
        Message::new(
            "system",
            "Create a short and catchy title of up to 5 words that captures the essence of the following content. The title should be relevant and engaging for any subject matter. Keep in mind that this content is based on chat between a user and an LLM but don't mention this in title. Also, make sure you don't cut the title in between. Examples: 'Top Study Habits for Success', 'Advantages of Learning a Second Language', 'Improve Your Sleep Quality Fast', 'Blockchainâ€™s Impact on Industries', 'Manage Stress with Effective Strategies', 'What's Up, Buddy?' etc.",
        ),
    );
    r.push(Message::new("user", exchange.as_str()));
    r
}

} // verus!
