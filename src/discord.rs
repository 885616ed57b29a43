use vstd::prelude::*;

use crate::ai_agent::Agent;
use crate::text::{field_bounds, lemma_split_len, split_chars};

verus! {

/// The reply sent to a message that is not two lines.
pub const FORMAT_GUIDANCE: &'static str = "The message needs to be separated by a new line, like so:\n<German>\n<English>";

/// The reply sent when the language model could not answer.
pub const QUERY_FAILURE_NOTICE: &'static str = "There was a problem querying the language model.";

/// A message as the chat platform delivers it.
pub struct InboundMessage {
    /// Who wrote it.
    pub author: String,
    /// Whether an automated account wrote it.
    pub author_is_bot: bool,
    /// Whether it was posted in a shared channel rather than a direct conversation.
    pub in_group: bool,
    /// Its text.
    pub body: String,
}

/// What the handler does with one message.
#[derive(Debug, PartialEq, Eq)]
pub enum Action {
    /// Nothing: the message is not for this assistant.
    Ignore,
    /// Explain the expected shape of a message, and ask nothing.
    Guide,
    /// Ask whether `german` is the right way to say `english`.
    Ask { german: String, english: String },
}

/// The allow-list written as a comma-separated list.
pub open spec fn allow_list_of(users: Seq<char>) -> Seq<Seq<char>> {
    split_chars(users, ',')
}

/// The lines of a message body.
pub open spec fn lines_of(body: Seq<char>) -> Seq<Seq<char>> {
    split_chars(body, '\n')
}

/// Whether an author may talk to the assistant: a person, on the allow-list by
/// exact, case-sensitive name.
pub open spec fn author_allowed(
    allowed: Seq<Seq<char>>,
    is_author_bot: bool,
    author: Seq<char>,
) -> bool {
    !is_author_bot && allowed.contains(author)
}

/// Whether the handler leaves a message alone: it comes from a shared channel
/// while only direct messages are served, or from an author who may not talk to
/// the assistant.
pub open spec fn ignored(allowed: Seq<Seq<char>>, direct_only: bool, msg: InboundMessage) -> bool {
    (direct_only && msg.in_group) || !author_allowed(allowed, msg.author_is_bot, msg.author@)
}

/// Whether `a` is what the handler does with `msg`: nothing when it is ignored;
/// otherwise guidance when the body is a single line, and the question of its
/// first two lines when it has more.
pub open spec fn action_matches(
    a: Action,
    allowed: Seq<Seq<char>>,
    direct_only: bool,
    msg: InboundMessage,
) -> bool {
    match a {
        Action::Ignore => ignored(allowed, direct_only, msg),
        Action::Guide => !ignored(allowed, direct_only, msg) && !msg.body@.contains('\n'),
        Action::Ask { german, english } => {
            &&& !ignored(allowed, direct_only, msg)
            &&& msg.body@.contains('\n')
            &&& german@ == lines_of(msg.body@)[0]
            &&& english@ == lines_of(msg.body@)[1]
        },
    }
}

/// The reply to a question, given what the agent answered: the answer itself, or
/// the failure notice when there is none.
pub open spec fn reply_text(answer: Option<String>) -> Seq<char> {
    match answer {
        Some(text) => text@,
        None => QUERY_FAILURE_NOTICE@,
    }
}

/// A message from an automated author is never turned into a question, whoever
/// is on the allow-list.
pub proof fn lemma_bot_author_never_asks(
    allowed: Seq<Seq<char>>,
    direct_only: bool,
    msg: InboundMessage,
    german: String,
    english: String,
)
    requires
        msg.author_is_bot,
    ensures
        !action_matches(Action::Ask { german, english }, allowed, direct_only, msg),
{
}

/// A message from an author who is not on the allow-list is never turned into a
/// question.
pub proof fn lemma_unlisted_author_never_asks(
    allowed: Seq<Seq<char>>,
    direct_only: bool,
    msg: InboundMessage,
    german: String,
    english: String,
)
    requires
        !allowed.contains(msg.author@),
    ensures
        !action_matches(Action::Ask { german, english }, allowed, direct_only, msg),
{
}

/// A body without a line break is never turned into a question: the author is
/// either ignored or sent the format guidance.
pub proof fn lemma_single_line_never_asks(
    allowed: Seq<Seq<char>>,
    direct_only: bool,
    msg: InboundMessage,
    german: String,
    english: String,
)
    requires
        !msg.body@.contains('\n'),
    ensures
        !action_matches(Action::Ask { german, english }, allowed, direct_only, msg),
        !ignored(allowed, direct_only, msg) ==> action_matches(
            Action::Guide,
            allowed,
            direct_only,
            msg,
        ),
{
}

/// The first two lines of `message`, when it has at least two; further lines are
/// left out.
pub fn get_german_and_english_parts(message: &str) -> (r: Option<(&str, &str)>)
    ensures
        r is Some <==> lines_of(message@).len() >= 2,
        r is Some <==> message@.contains('\n'),
        match r {
            Some(parts) => parts.0@ == lines_of(message@)[0] && parts.1@ == lines_of(message@)[1],
            None => true,
        },
{
    proof {
        lemma_split_len(message@, '\n');
    }
    let bounds = field_bounds(message, '\n');
    if bounds.len() < 2 {
        return None;
    }
    let (a0, b0) = bounds[0];
    let (a1, b1) = bounds[1];
    let german = message.substring_char(a0, b0);
    let english = message.substring_char(a1, b1);
    Some((german, english))
}

/// The number of lines in `message`.
pub fn line_count(message: &str) -> (r: usize)
    ensures
        r == lines_of(message@).len(),
{
    let bounds = field_bounds(message, '\n');
    bounds.len()
}

/// The reply to send for what the agent answered.
pub fn reply_for(answer: Option<String>) -> (r: String)
    ensures
        r@ == reply_text(answer),
{
    match answer {
        Some(text) => text,
        None => String::from_str(QUERY_FAILURE_NOTICE),
    }
}

/// Relays questions from chat messages to an agent.
pub struct Bot<A: Agent> {
    ai_agent: A,
    allowed_users: Vec<String>,
    direct_only: bool,
}

impl<A: Agent> Bot<A> {
    /// The names allowed to talk to the assistant.
    pub closed spec fn allowed(&self) -> Seq<Seq<char>> {
        self.allowed_users@.map_values(|u: String| u@)
    }

    /// Whether messages from shared channels are ignored.
    pub closed spec fn serves_direct_only(&self) -> bool {
        self.direct_only
    }

    /// The agent questions are put to.
    pub closed spec fn agent(&self) -> A {
        self.ai_agent
    }

    /// A bot for the comma-separated list of names `allowed_users`, which also
    /// answers messages from shared channels.
    pub fn new(ai_agent: A, allowed_users: String) -> (r: Bot<A>)
        ensures
            r.allowed() == allow_list_of(allowed_users@),
            !r.serves_direct_only(),
            r.agent() == ai_agent,
    {
        let bounds = field_bounds(allowed_users.as_str(), ',');
        let mut users: Vec<String> = Vec::new();
        let mut k: usize = 0;
        while k < bounds.len()
            invariant
                k <= bounds@.len(),
                bounds@.len() == split_chars(allowed_users@, ',').len(),
                forall|j: int|
                    #![trigger bounds@[j]]
                    0 <= j < bounds@.len() ==> {
                        &&& bounds@[j].0 <= bounds@[j].1 <= allowed_users@.len()
                        &&& allowed_users@.subrange(bounds@[j].0 as int, bounds@[j].1 as int)
                            == split_chars(allowed_users@, ',')[j]
                    },
                users@.len() == k,
                forall|j: int|
                    #![trigger users@[j]]
                    0 <= j < k ==> users@[j]@ == split_chars(allowed_users@, ',')[j],
            decreases bounds@.len() - k,
        {
            let (a, b) = bounds[k];
            let name = allowed_users.as_str().substring_char(a, b);
            users.push(String::from_str(name));
            k = k + 1;
        }
        let r = Bot { ai_agent, allowed_users: users, direct_only: false };
        proof {
            assert(r.allowed() =~= allow_list_of(allowed_users@));
        }
        r
    }

    /// The same bot, ignoring messages from shared channels when `on` holds.
    pub fn with_direct_only(self, on: bool) -> (r: Bot<A>)
        ensures
            r.allowed() == self.allowed(),
            r.serves_direct_only() == on,
            r.agent() == self.agent(),
    {
        Bot { ai_agent: self.ai_agent, allowed_users: self.allowed_users, direct_only: on }
    }

    /// Whether the author may talk to the assistant: not automated, and named
    /// exactly on the allow-list.
    pub fn is_author_allowed(&self, is_author_bot: bool, author_name: &str) -> (r: bool)
        ensures
            r == author_allowed(self.allowed(), is_author_bot, author_name@),
    {
        if is_author_bot {
            return false;
        }
        let name = String::from_str(author_name);
        let mut k: usize = 0;
        while k < self.allowed_users.len()
            invariant
                k <= self.allowed_users@.len(),
                !is_author_bot,
                name@ == author_name@,
                forall|j: int|
                    #![trigger self.allowed_users@[j]]
                    0 <= j < k ==> self.allowed_users@[j]@ != author_name@,
            decreases self.allowed_users@.len() - k,
        {
            if self.allowed_users[k] == name {
                proof {
                    assert(self.allowed()[k as int] == author_name@);
                }
                return true;
            }
            k = k + 1;
        }
        proof {
            if self.allowed().contains(author_name@) {
                let j = choose|j: int|
                    0 <= j < self.allowed().len() && self.allowed()[j] == author_name@;
                assert(self.allowed_users@[j]@ == author_name@);
            }
        }
        false
    }

    /// What to do with `msg`.
    pub fn decide(&self, msg: &InboundMessage) -> (r: Action)
        ensures
            action_matches(r, self.allowed(), self.serves_direct_only(), *msg),
    {
        if self.direct_only && msg.in_group {
            return Action::Ignore;
        }
        if !self.is_author_allowed(msg.author_is_bot, msg.author.as_str()) {
            return Action::Ignore;
        }
        match get_german_and_english_parts(msg.body.as_str()) {
            None => Action::Guide,
            Some((german, english)) => Action::Ask {
                german: String::from_str(german),
                english: String::from_str(english),
            },
        }
    }

    /// Handles one message and returns the replies to send, in order: none for a
    /// message that is ignored, the format guidance alone for a single line, and
    /// for two or more lines one reply after one question to the agent, which is
    /// the answer or the failure notice.
    pub fn message(&self, msg: &InboundMessage) -> (replies: Vec<String>)
        ensures
            ignored(self.allowed(), self.serves_direct_only(), *msg) ==> replies@.len() == 0,
            !ignored(self.allowed(), self.serves_direct_only(), *msg) ==> replies@.len() == 1,
            !ignored(self.allowed(), self.serves_direct_only(), *msg) && !msg.body@.contains('\n')
                ==> replies@[0]@ == FORMAT_GUIDANCE@,
            !ignored(self.allowed(), self.serves_direct_only(), *msg) && msg.body@.contains('\n')
                ==> exists|answer: Option<String>|
                {
                    &&& self.agent().translation_answer(
                        lines_of(msg.body@)[0],
                        lines_of(msg.body@)[1],
                        answer,
                    )
                    &&& replies@[0]@ == reply_text(answer)
                },
    {
        let mut replies: Vec<String> = Vec::new();
        match self.decide(msg) {
            Action::Ignore => {},
            Action::Guide => {
                replies.push(String::from_str(FORMAT_GUIDANCE));
            },
            Action::Ask { german, english } => {
                let answer = self.ai_agent.validate_phrase_translation(
                    german.as_str(),
                    english.as_str(),
                );
                replies.push(reply_for(answer));
            },
        }
        replies
    }
}

} // verus!
