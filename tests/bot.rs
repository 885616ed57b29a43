use snotra::ai_agent::{AIAgent, LLMResponse, LlmError, LLM};
use snotra::discord::{
    get_german_and_english_parts, line_count, reply_for, Action, Bot, InboundMessage,
    FORMAT_GUIDANCE, QUERY_FAILURE_NOTICE,
};
use std::cell::RefCell;
use std::rc::Rc;

/// A client that gives one fixed answer to every prompt and records the prompts.
struct RecordingLlm {
    answer: Option<String>,
    sent: Rc<RefCell<Vec<String>>>,
}

impl LLM for RecordingLlm {
    fn send_message(&self, message: String) -> Result<LLMResponse, LlmError> {
        self.sent.borrow_mut().push(message);
        match &self.answer {
            Some(a) => Ok(LLMResponse::new("mock".to_string(), a.clone())),
            None => Err(LlmError::Network),
        }
    }
}

/// An agent over a recording client, and the prompts that client is sent.
fn recording_agent(answer: Option<&str>) -> (AIAgent<RecordingLlm>, Rc<RefCell<Vec<String>>>) {
    let sent = Rc::new(RefCell::new(Vec::new()));
    let llm = RecordingLlm { answer: answer.map(|a| a.to_string()), sent: sent.clone() };
    (AIAgent::new(llm), sent)
}

/// A client that answers one prompt, fails on every other, and records what it is sent.
struct ScriptedLlm {
    expected: String,
    answer: Option<String>,
    sent: Rc<RefCell<Vec<String>>>,
}

impl LLM for ScriptedLlm {
    fn send_message(&self, message: String) -> Result<LLMResponse, LlmError> {
        self.sent.borrow_mut().push(message.clone());
        match &self.answer {
            Some(a) if message == self.expected => Ok(LLMResponse::new("mock".to_string(), a.clone())),
            Some(_) => Err(LlmError::MalformedResponse),
            None => Err(LlmError::Network),
        }
    }
}

fn msg(author: &str, is_bot: bool, body: &str) -> InboundMessage {
    InboundMessage {
        author: author.to_string(),
        author_is_bot: is_bot,
        in_group: false,
        body: body.to_string(),
    }
}

#[test]
fn when_author_is_a_bot_should_not_be_allowed() {
    let bot = Bot::new(recording_agent(None).0, "".to_string());

    bot.is_author_allowed(true, "n/a");
}

#[test]
fn when_author_is_not_in_allowed_list_should_not_be_allowed() {
    let bot = Bot::new(recording_agent(None).0, "juff,ceff".to_string());

    bot.is_author_allowed(true, "cov");
}

#[test]
fn when_author_is_in_allowed_list_should_be_allowed() {
    let bot = Bot::new(recording_agent(None).0, "jeff,caff".to_string());

    bot.is_author_allowed(true, "caff");
}

#[test]
fn when_message_has_two_parts_should_get_german_then_english() {
    let (german, english) = get_german_and_english_parts("etwas\nsomething").unwrap();

    assert_eq!(german, "etwas");
    assert_eq!(english, "something");
}

#[test]
fn when_message_has_more_than_two_parts_should_ignore_extra() {
    let (german, english) = get_german_and_english_parts("etwas\nsomething\nmore").unwrap();

    assert_eq!(german, "etwas");
    assert_eq!(english, "something");
}

#[test]
fn automated_author_is_refused_even_when_listed() {
    let bot = Bot::new(recording_agent(None).0, "jeff,caff".to_string());
    assert!(!bot.is_author_allowed(true, "caff"));
    assert!(!bot.is_author_allowed(true, "n/a"));
}

#[test]
fn listed_person_is_allowed() {
    let bot = Bot::new(recording_agent(None).0, "jeff,caff".to_string());
    assert!(bot.is_author_allowed(false, "caff"));
    assert!(bot.is_author_allowed(false, "jeff"));
}

#[test]
fn unlisted_person_is_refused() {
    let bot = Bot::new(recording_agent(None).0, "juff,ceff".to_string());
    assert!(!bot.is_author_allowed(false, "cov"));
    assert!(!bot.is_author_allowed(false, "juf"));
    assert!(!bot.is_author_allowed(false, "juff,ceff"));
}

#[test]
fn allow_list_match_is_case_sensitive() {
    let bot = Bot::new(recording_agent(None).0, "Alice".to_string());
    assert!(!bot.is_author_allowed(false, "alice"));
    assert!(bot.is_author_allowed(false, "Alice"));
}

#[test]
fn empty_allow_list_holds_only_the_empty_name() {
    let bot = Bot::new(recording_agent(None).0, "".to_string());
    assert!(!bot.is_author_allowed(false, "alice"));
    assert!(bot.is_author_allowed(false, ""));
}

#[test]
fn single_line_has_no_parts() {
    assert_eq!(get_german_and_english_parts("etwas"), None);
    assert_eq!(get_german_and_english_parts(""), None);
}

#[test]
fn empty_lines_are_parts_too() {
    assert_eq!(get_german_and_english_parts("\n"), Some(("", "")));
    assert_eq!(get_german_and_english_parts("\nx"), Some(("", "x")));
}

#[test]
fn parts_keep_non_ascii_text() {
    assert_eq!(get_german_and_english_parts("Straße\nstreet"), Some(("Straße", "street")));
}

#[test]
fn line_count_counts_pieces() {
    assert_eq!(line_count("etwas"), 1);
    assert_eq!(line_count(""), 1);
    assert_eq!(line_count("etwas\nsomething\nmore"), 3);
    assert_eq!(line_count("a\n"), 2);
}

#[test]
fn reply_for_answer_and_failure() {
    assert_eq!(reply_for(Some("Ja.".to_string())), "Ja.");
    assert_eq!(reply_for(None), QUERY_FAILURE_NOTICE);
    assert_eq!(reply_for(None), "There was a problem querying the language model.");
}

#[test]
fn single_line_body_gets_guidance_and_no_question() {
    let (agent, asked) = recording_agent(Some("unused"));
    let bot = Bot::new(agent, "alice".to_string());
    let replies = bot.message(&msg("alice", false, "etwas"));
    assert_eq!(replies, vec![FORMAT_GUIDANCE.to_string()]);
    assert!(asked.borrow().is_empty());
    assert_eq!(bot.decide(&msg("alice", false, "etwas")), Action::Guide);
}

#[test]
fn automated_author_never_asks() {
    let (agent, asked) = recording_agent(Some("x"));
    let bot = Bot::new(agent, "alice".to_string());
    assert!(bot.message(&msg("alice", true, "Hund\ndog")).is_empty());
    assert!(asked.borrow().is_empty());
    assert_eq!(bot.decide(&msg("alice", true, "Hund\ndog")), Action::Ignore);
}

#[test]
fn unlisted_author_never_asks() {
    let (agent, asked) = recording_agent(Some("x"));
    let bot = Bot::new(agent, "alice".to_string());
    assert!(bot.message(&msg("bob", false, "Hund\ndog")).is_empty());
    assert!(asked.borrow().is_empty());
    assert_eq!(bot.decide(&msg("bob", false, "Hund\ndog")), Action::Ignore);
}

#[test]
fn two_lines_are_asked_as_german_then_english() {
    let bot = Bot::new(recording_agent(Some("ok")).0, "alice".to_string());
    assert_eq!(
        bot.decide(&msg("alice", false, "Hund\ndog\nextra")),
        Action::Ask { german: "Hund".to_string(), english: "dog".to_string() }
    );
    assert_eq!(bot.message(&msg("alice", false, "Hund\ndog\nextra")), vec!["ok".to_string()]);
}

#[test]
fn group_messages_are_ignored_only_when_direct_only() {
    let mut m = msg("alice", false, "Hund\ndog");
    m.in_group = true;
    let open = Bot::new(recording_agent(Some("ok")).0, "alice".to_string());
    assert_eq!(open.message(&m), vec!["ok".to_string()]);
    let direct = Bot::new(recording_agent(Some("ok")).0, "alice".to_string()).with_direct_only(true);
    assert!(direct.message(&m).is_empty());
    m.in_group = false;
    assert_eq!(direct.message(&m), vec!["ok".to_string()]);
}

#[test]
fn end_to_end_answer_is_relayed_exactly() {
    let llm = ScriptedLlm {
        expected: "In German, is 'Hund' the right way to say 'dog'? If not, explain why and mark the differences in bold.".to_string(),
        answer: Some("Yes, correct.".to_string()),
        sent: Rc::new(RefCell::new(Vec::new())),
    };
    let sent = llm.sent.clone();
    let bot = Bot::new(AIAgent::new(llm), "alice".to_string());
    let replies = bot.message(&msg("alice", false, "Hund\ndog"));
    assert_eq!(replies, vec!["Yes, correct.".to_string()]);
    assert_eq!(sent.borrow().len(), 1);
}

#[test]
fn end_to_end_failure_gives_the_fixed_notice() {
    let llm = ScriptedLlm {
        expected: String::new(),
        answer: None,
        sent: Rc::new(RefCell::new(Vec::new())),
    };
    let bot = Bot::new(AIAgent::new(llm), "alice".to_string());
    let replies = bot.message(&msg("alice", false, "Hund\ndog"));
    assert_eq!(replies, vec![QUERY_FAILURE_NOTICE.to_string()]);
}

#[test]
fn end_to_end_guidance_sends_no_prompt() {
    let llm = ScriptedLlm {
        expected: String::new(),
        answer: Some("never".to_string()),
        sent: Rc::new(RefCell::new(Vec::new())),
    };
    let sent = llm.sent.clone();
    let bot = Bot::new(AIAgent::new(llm), "alice".to_string());
    assert_eq!(bot.message(&msg("alice", false, "Hund")), vec![FORMAT_GUIDANCE.to_string()]);
    assert!(bot.message(&msg("mallory", false, "Hund\ndog")).is_empty());
    assert!(sent.borrow().is_empty());
}

#[test]
fn agent_is_asked_about_the_first_two_lines() {
    let (agent, asked) = recording_agent(None);
    let bot = Bot::new(agent, "a,b".to_string());
    assert_eq!(
        bot.message(&msg("b", false, "eins\none\nzwei")),
        vec![QUERY_FAILURE_NOTICE.to_string()]
    );
    assert_eq!(
        *asked.borrow(),
        vec!["In German, is 'eins' the right way to say 'one'? If not, explain why and mark the differences in bold.".to_string()]
    );
}
