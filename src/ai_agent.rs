use vstd::prelude::*;

verus! {

/// What a language model answered: the model that answered and the text of its answer.
pub struct LLMResponse {
    pub model: String,
    pub content: String,
}

impl LLMResponse {
    /// The answer `content` given by `model`.
    pub fn new(model: String, content: String) -> (r: LLMResponse)
        ensures
            r.model == model,
            r.content == content,
    {
        LLMResponse { model, content }
    }

    /// Builds the response from the completion choices a provider offered, keeping
    /// the first one; a provider that offered none gave a malformed response.
    pub fn from_choices(model: String, choices: Vec<String>) -> (r: Result<LLMResponse, LlmError>)
        ensures
            choices@.len() == 0 <==> r == Err::<LLMResponse, LlmError>(LlmError::MalformedResponse),
            choices@.len() > 0 ==> r == Ok::<LLMResponse, LlmError>(
                LLMResponse { model, content: choices@[0] },
            ),
    {
        if choices.len() == 0 {
            Err(LlmError::MalformedResponse)
        } else {
            let mut choices = choices;
            let content = choices.remove(0);
            Ok(LLMResponse { model, content })
        }
    }
}

/// Why a request to a language model failed.
#[derive(Debug, Clone, Copy, PartialEq, Eq, Structural)]
pub enum LlmError {
    /// The provider could not be reached, or the connection broke.
    Network,
    /// The provider refused the credentials.
    Authentication,
    /// The provider answered with something that is not a usable completion.
    MalformedResponse,
}

/// A client of a language model: turns a prompt, which is never empty, into an
/// answer or a failure.
pub trait LLM {
    fn send_message(&self, message: String) -> Result<LLMResponse, LlmError>
        requires
            message@.len() > 0,
    ;
}

/// The questions the assistant knows how to ask; an absent result means the
/// question could not be answered.
pub trait Agent {
    /// Whether `r` is an answer this agent may give to the question whether
    /// `german` is the right way to say `english`.
    spec fn translation_answer(&self, german: Seq<char>, english: Seq<char>, r: Option<String>) -> bool;

    /// Whether `r` is an answer this agent may give to the question what sets
    /// `first` and `second` apart.
    spec fn difference_answer(&self, first: Seq<char>, second: Seq<char>, r: Option<String>) -> bool;

    fn validate_phrase_translation(&self, german: &str, english: &str) -> (r: Option<String>)
        ensures
            self.translation_answer(german@, english@, r),
    ;

    fn ask_word_difference(&self, first: &str, second: &str) -> (r: Option<String>)
        ensures
            self.difference_answer(first@, second@, r),
    ;
}

/// The question whether `german` is the right way to say `english`.
pub open spec fn translation_prompt(german: Seq<char>, english: Seq<char>) -> Seq<char> {
    "In German, is '"@ + german + "' the right way to say '"@ + english
        + "'? If not, explain why and mark the differences in bold."@
}

/// The question what sets the words `first` and `second` apart.
pub open spec fn difference_prompt(first: Seq<char>, second: Seq<char>) -> Seq<char> {
    "In German, what is the difference between '"@ + first + "' and '"@ + second + "'?"@
}

/// What the caller of a language model gets back from one outcome of a request:
/// the content, unchanged, on success, and nothing on any failure.
pub open spec fn relayed(result: Result<LLMResponse, LlmError>) -> Option<String> {
    match result {
        Ok(response) => Some(response.content),
        Err(_) => None,
    }
}

/// The translation question, with both phrases in place.
pub fn phrase_translation_prompt(german: &str, english: &str) -> (r: String)
    ensures
        r@ == translation_prompt(german@, english@),
{
    let mut prompt = String::from_str("In German, is '");
    prompt.append(german);
    prompt.append("' the right way to say '");
    prompt.append(english);
    prompt.append("'? If not, explain why and mark the differences in bold.");
    prompt
}

/// The difference question, with both words in place.
pub fn word_difference_prompt(first: &str, second: &str) -> (r: String)
    ensures
        r@ == difference_prompt(first@, second@),
{
    let mut prompt = String::from_str("In German, what is the difference between '");
    prompt.append(first);
    prompt.append("' and '");
    prompt.append(second);
    prompt.append("'?");
    prompt
}

/// Turns the outcome of a request into the answer handed on: the content verbatim,
/// or nothing, whatever the failure was.
pub fn relay_response(result: Result<LLMResponse, LlmError>) -> (r: Option<String>)
    ensures
        r == relayed(result),
{
    match result {
        Ok(response) => Some(response.content),
        Err(_) => None,
    }
}

/// The prompts are never empty, so every question may be handed to a client.
pub proof fn lemma_prompts_nonempty(a: Seq<char>, b: Seq<char>)
    ensures
        translation_prompt(a, b).len() > 0,
        difference_prompt(a, b).len() > 0,
{
    reveal_strlit("In German, is '");
    reveal_strlit("In German, what is the difference between '");
}

/// A successful answer is handed on exactly as the model gave it, and a failure
/// of any kind becomes no answer rather than an error.
pub proof fn lemma_relay_verbatim(response: LLMResponse, error: LlmError)
    ensures
        relayed(Ok(response)) == Some(response.content),
        relayed(Err(error)) == None::<String>,
{
}

/// An agent that asks its questions of a language model client.
pub struct AIAgent<L: LLM> {
    llm: L,
}

impl<L: LLM> AIAgent<L> {
    /// The client this agent asks.
    pub closed spec fn client(&self) -> L {
        self.llm
    }

    pub fn new(llm: L) -> (r: Self)
        ensures
            r.client() == llm,
    {
        AIAgent { llm }
    }

    /// Hands `query` to the client once and relays its outcome.
    pub fn query_llm(&self, query: String) -> (r: Option<String>)
        requires
            query@.len() > 0,
        ensures
            exists|outcome: Result<LLMResponse, LlmError>|
                call_ensures(L::send_message, (&self.client(), query), outcome) && r == relayed(
                    outcome,
                ),
    {
        let outcome = self.llm.send_message(query);
        relay_response(outcome)
    }
}

impl<L: LLM> Agent for AIAgent<L> {
    /// The client was asked the translation question once, and `r` is its
    /// outcome relayed.
    open spec fn translation_answer(
        &self,
        german: Seq<char>,
        english: Seq<char>,
        r: Option<String>,
    ) -> bool {
        exists|q: String, outcome: Result<LLMResponse, LlmError>|
            {
                &&& q@ == translation_prompt(german, english)
                &&& call_ensures(L::send_message, (&self.client(), q), outcome)
                &&& r == relayed(outcome)
            }
    }

    /// The client was asked the difference question once, and `r` is its outcome
    /// relayed.
    open spec fn difference_answer(
        &self,
        first: Seq<char>,
        second: Seq<char>,
        r: Option<String>,
    ) -> bool {
        exists|q: String, outcome: Result<LLMResponse, LlmError>|
            {
                &&& q@ == difference_prompt(first, second)
                &&& call_ensures(L::send_message, (&self.client(), q), outcome)
                &&& r == relayed(outcome)
            }
    }

    fn validate_phrase_translation(&self, german: &str, english: &str) -> (r: Option<String>) {
        let prompt = phrase_translation_prompt(german, english);
        let ghost q = prompt;
        proof {
            lemma_prompts_nonempty(german@, english@);
        }
        let r = self.query_llm(prompt);
        proof {
            let outcome = choose|outcome: Result<LLMResponse, LlmError>|
                call_ensures(L::send_message, (&self.client(), q), outcome) && r == relayed(
                    outcome,
                );
            assert(q@ == translation_prompt(german@, english@));
        }
        r
    }

    fn ask_word_difference(&self, first: &str, second: &str) -> (r: Option<String>) {
        let prompt = word_difference_prompt(first, second);
        let ghost q = prompt;
        proof {
            lemma_prompts_nonempty(first@, second@);
        }
        let r = self.query_llm(prompt);
        proof {
            let outcome = choose|outcome: Result<LLMResponse, LlmError>|
                call_ensures(L::send_message, (&self.client(), q), outcome) && r == relayed(
                    outcome,
                );
            assert(q@ == difference_prompt(first@, second@));
        }
        r
    }
}

} // verus!
