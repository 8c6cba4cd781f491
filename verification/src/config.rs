//! What is set up before the bot runs: its texts, its colors, its greets.

use crate::text::{pairs, render, render_template, Substitution};
use vstd::prelude::*;

verus! {

/// The text of a message, found by its key.
#[derive(Debug, PartialEq, Eq)]
pub struct MessageTemplate {
    pub key: String,
    pub text: String,
}

/// A command that answers with a greeting.
#[derive(Debug, PartialEq, Eq)]
pub struct Greet {
    pub command: String,
    pub description: String,
}

/// The setup of the bot.
#[derive(Debug, PartialEq, Eq)]
pub struct Config {
    pub messages: Vec<MessageTemplate>,
    pub action_embed_color: u32,
    pub response_embed_color: u32,
    pub error_embed_color: u32,
    pub greets: Option<Vec<Greet>>,
}

/// The text of the first of `messages` from `from` on that has the key `key`;
/// the key itself where none has.
pub open spec fn raw_message(messages: Seq<MessageTemplate>, key: Seq<char>, from: int) -> Seq<
    char,
>
    decreases messages.len() - from,
{
    if from < 0 || from >= messages.len() {
        key
    } else if messages[from].key@ == key {
        messages[from].text@
    } else {
        raw_message(messages, key, from + 1)
    }
}

impl Config {
    /// The text that is set up for `message_key`, as it is; the key itself
    /// where none is set up.
    pub open spec fn spec_raw_message(&self, message_key: Seq<char>) -> Seq<char> {
        raw_message(self.messages@, message_key, 0)
    }

    /// The text that is set up for `message_key`, with its placeholders replaced.
    pub open spec fn spec_message(
        &self,
        message_key: Seq<char>,
        substitutions: Seq<(Seq<char>, Seq<char>)>,
    ) -> Seq<char> {
        render(self.spec_raw_message(message_key), substitutions)
    }

    /// The text that is set up for `message_key`, as it is; the key itself
    /// where none is set up.
    pub fn get_raw_message(&self, message_key: &str) -> (text: String)
        ensures
            text@ == self.spec_raw_message(message_key@),
    {
        let key = message_key.to_owned();
        let n = self.messages.len();
        let mut i: usize = 0;
        while i < n
            invariant
                i <= n,
                n == self.messages@.len(),
                key@ == message_key@,
                raw_message(self.messages@, message_key@, 0) == raw_message(
                    self.messages@,
                    message_key@,
                    i as int,
                ),
            decreases n - i,
        {
            if self.messages[i].key == key {
                return self.messages[i].text.clone();
            }
            i += 1;
        }
        key
    }

    /// The text that is set up for `message_key`, in which the value of each
    /// substitution stands where the text has its name in braces.
    pub fn get_message(&self, message_key: &str, substitutions: &Vec<Substitution>) -> (text:
        String)
        ensures
            text@ == self.spec_message(message_key@, pairs(substitutions@)),
    {
        let template = self.get_raw_message(message_key);
        render_template(template.as_str(), substitutions)
    }
}

} // verus!
