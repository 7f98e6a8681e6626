//! Parsers of webhook events, and the registry that tries them in order.

use crate::gitlab::{text_outcome, GitLabParser};
use crate::message::{FragmentView, Message};
use vstd::prelude::*;

verus! {

/// A parser for the webhook events of one source.
///
/// An implementation for a new source is all that is needed to support it.
pub trait EventParser {
    /// Takes a webhook text, which need not be JSON at all, and returns the
    /// messages to post for it, or `None` where the text is not an event that
    /// this parser supports.
    fn parse_json(&self, json_string: &str) -> Option<Vec<Message>>;
}

/// Whether the parser can return this result for this text.
pub open spec fn may_return<P: EventParser>(
    parser: P,
    text: Seq<char>,
    result: Option<Vec<Message>>,
) -> bool {
    exists|given: &str|
        given@ == text && #[trigger] call_ensures(P::parse_json, (&parser, given), result)
}

/// The parsers that come with the library, as one type.
#[derive(Debug, Clone, Copy)]
pub enum SourceParser {
    GitLab(GitLabParser),
}

impl EventParser for SourceParser {
    fn parse_json(&self, json_string: &str) -> (messages: Option<Vec<Message>>)
        ensures
            messages.deep_view() == text_outcome(json_string@),
    {
        match self {
            SourceParser::GitLab(parser) => parser.parse_json(json_string),
        }
    }
}

/// Whether a list of parsers, tried in order, settles on `messages` at
/// `position`: every parser before `position` declines the text, and either
/// the parser at `position` applies and returns `messages`, or there is no
/// parser left and `messages` is `None`.
pub open spec fn decided_at<P: EventParser>(
    parsers: Seq<P>,
    text: Seq<char>,
    position: int,
    messages: Option<Vec<Message>>,
) -> bool {
    &&& 0 <= position <= parsers.len()
    &&& forall|k: int| 0 <= k < position ==> may_return(#[trigger] parsers[k], text, None)
    &&& if position < parsers.len() {
        messages.is_some() && may_return(parsers[position], text, messages)
    } else {
        messages.is_none()
    }
}

/// Whether `messages` is a right answer of a list of parsers to a text: the
/// whole result of the first parser that applied, or `None`, all parsers having
/// declined.
pub open spec fn dispatched<P: EventParser>(
    parsers: Seq<P>,
    text: Seq<char>,
    messages: Option<Vec<Message>>,
) -> bool {
    exists|position: int| decided_at(parsers, text, position, messages)
}

/// An ordered list of parsers. The order is their priority, and it is fixed
/// once the registry is made.
pub struct ParserRegistry<P: EventParser> {
    parsers: Vec<P>,
}

impl<P: EventParser> View for ParserRegistry<P> {
    type V = Seq<P>;

    closed spec fn view(&self) -> Seq<P> {
        self.parsers@
    }
}

impl<P: EventParser> ParserRegistry<P> {
    /// A registry of the given parsers, the first of them tried first.
    pub fn new(parsers: Vec<P>) -> (registry: Self)
        ensures
            registry@ == parsers@,
    {
        ParserRegistry { parsers }
    }

    /// The number of parsers.
    pub fn len(&self) -> (n: usize)
        ensures
            n == self@.len(),
    {
        self.parsers.len()
    }

    /// Tries the parsers in order and returns what the first one that applies
    /// returns, together with its position. Once a parser has applied, the
    /// parsers after it are not called.
    pub fn first_match(&self, raw_json: &str) -> (found: Option<(usize, Vec<Message>)>)
        ensures
            match found {
                Some((position, messages)) => position < self@.len() && decided_at(
                    self@,
                    raw_json@,
                    position as int,
                    Some(messages),
                ),
                None => decided_at(self@, raw_json@, self@.len() as int, None),
            },
    {
        let mut i: usize = 0;
        while i < self.parsers.len()
            invariant
                i <= self.parsers.len(),
                forall|k: int| 0 <= k < i ==> may_return(#[trigger] self@[k], raw_json@, None),
            decreases self.parsers.len() - i,
        {
            let answer = self.parsers[i].parse_json(raw_json);
            assert(may_return(self@[i as int], raw_json@, answer)) by {
                assert(call_ensures(P::parse_json, (&self@[i as int], raw_json), answer));
            }
            match answer {
                Some(messages) => {
                    return Some((i, messages));
                },
                None => {},
            }
            i += 1;
        }
        None
    }

    /// Returns the messages of the first parser that applies to the text, whole
    /// and as that parser gave them, or `None` where no parser matched.
    pub fn dispatch_any(&self, raw_json: &str) -> (messages: Option<Vec<Message>>)
        ensures
            dispatched(self@, raw_json@, messages),
    {
        match self.first_match(raw_json) {
            Some((position, list)) => {
                assert(decided_at(self@, raw_json@, position as int, Some(list)));
                Some(list)
            },
            None => {
                assert(decided_at(self@, raw_json@, self@.len() as int, None));
                None
            },
        }
    }
}

/// The parsers that the library has, in their priority order.
pub open spec fn registered_parsers() -> Seq<SourceParser> {
    seq![SourceParser::GitLab(GitLabParser {})]
}

/// The registry of all parsers that the library has.
pub fn all_parsers() -> (registry: ParserRegistry<SourceParser>)
    ensures
        registry@ == registered_parsers(),
{
    let mut parsers: Vec<SourceParser> = Vec::new();
    parsers.push(SourceParser::GitLab(GitLabParser {}));
    assert(parsers@ =~= registered_parsers());
    ParserRegistry::new(parsers)
}

/// Tries every parser that the library has on a webhook text and returns the
/// messages of the first that applies. With one parser registered, that is the
/// GitLab parser's result.
pub fn parse_json_using_any_parser(json_string: &str) -> (messages: Option<Vec<Message>>)
    ensures
        messages.deep_view() == text_outcome(json_string@),
{
    let registry = all_parsers();
    let messages = registry.dispatch_any(json_string);
    proof {
        lemma_library_parsers_agree(registry@, json_string@, messages);
    }
    messages
}

/// Whether the parsers of a list answer a text each in one way only, the
/// parser at `k` with the messages `answers[k]`, or with `None`.
pub open spec fn answer_with<P: EventParser>(
    parsers: Seq<P>,
    text: Seq<char>,
    answers: Seq<Option<Seq<Seq<FragmentView>>>>,
) -> bool {
    &&& answers.len() == parsers.len()
    &&& forall|k: int, result: Option<Vec<Message>>|
        0 <= k < parsers.len() && #[trigger] may_return(parsers[k], text, result)
            ==> result.deep_view() == answers[k]
}

/// The first parser that applies decides. Where the parsers answer a text
/// each in one way only, and `position` is the first at which the answer is
/// not `None`, the registry's answer is that one, whatever parsers follow.
pub proof fn lemma_first_match_wins<P: EventParser>(
    parsers: Seq<P>,
    text: Seq<char>,
    answers: Seq<Option<Seq<Seq<FragmentView>>>>,
    position: int,
    messages: Option<Vec<Message>>,
)
    requires
        answer_with(parsers, text, answers),
        0 <= position < parsers.len(),
        answers[position].is_some(),
        forall|k: int| 0 <= k < position ==> (#[trigger] answers[k]).is_none(),
        dispatched(parsers, text, messages),
    ensures
        messages.deep_view() == answers[position],
{
    let at = choose|at: int| decided_at(parsers, text, at, messages);
    if at < position {
        assert(may_return(parsers[at], text, messages));
        assert(answers[at].is_none());
    } else if at > position {
        assert(may_return(parsers[position], text, None));
    } else {
        assert(may_return(parsers[at], text, messages));
    }
}

/// No match means no messages. Where the parsers answer a text each in one
/// way only, the registry's answer is `None` exactly when every parser's is.
pub proof fn lemma_no_match<P: EventParser>(
    parsers: Seq<P>,
    text: Seq<char>,
    answers: Seq<Option<Seq<Seq<FragmentView>>>>,
    messages: Option<Vec<Message>>,
)
    requires
        answer_with(parsers, text, answers),
        dispatched(parsers, text, messages),
    ensures
        messages.is_none() <==> forall|k: int|
            0 <= k < answers.len() ==> (#[trigger] answers[k]).is_none(),
{
    let at = choose|at: int| decided_at(parsers, text, at, messages);
    if at < parsers.len() {
        assert(may_return(parsers[at], text, messages));
        assert(answers[at].is_some());
    } else {
        assert forall|k: int| 0 <= k < answers.len() implies (#[trigger] answers[k]).is_none() by {
            assert(may_return(parsers[k], text, None));
        }
    }
}

/// Every parser of the library answers a text in one way only: with the
/// rendering of the GitLab event in it.
pub proof fn lemma_library_parsers_answer(parsers: Seq<SourceParser>, text: Seq<char>)
    ensures
        answer_with(parsers, text, Seq::new(parsers.len(), |k: int| text_outcome(text))),
{
}

/// A registry of the library's parsers, which is not empty, renders a text as
/// the GitLab parser does.
pub proof fn lemma_library_parsers_agree(
    parsers: Seq<SourceParser>,
    text: Seq<char>,
    messages: Option<Vec<Message>>,
)
    requires
        parsers.len() > 0,
        dispatched(parsers, text, messages),
    ensures
        messages.deep_view() == text_outcome(text),
{
    let answers = Seq::new(parsers.len(), |k: int| text_outcome(text));
    lemma_library_parsers_answer(parsers, text);
    if text_outcome(text).is_some() {
        lemma_first_match_wins(parsers, text, answers, 0, messages);
    } else {
        lemma_no_match(parsers, text, answers, messages);
    }
}

} // verus!
