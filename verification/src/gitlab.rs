//! The parser for the webhook payloads of a GitLab server.
//!
//! Every event is rendered as a header of three messages (the avatar, the
//! acting user with the kind of event, the project's address), the lines that
//! are particular to its kind, and a closing separator. An event that cannot be
//! attributed to a user is not rendered at all.

use crate::document::{json_document, read_document};
use crate::event_kind::EventKind;
use crate::message::{FragmentView, Message};
use crate::parser::EventParser;
use crate::payload::{payload_of, CommitView, Field, FieldView, Payload, PayloadView};
use crate::text::{concat2, concat3, concat4};
use vstd::prelude::*;

verus! {

/// The value that a fallback chain of two fields yields: the first field that
/// is present decides, and it yields a value only where it is a string.
pub open spec fn first_present(primary: FieldView, fallback: FieldView) -> Option<Seq<char>> {
    match primary {
        FieldView::Text(text) => Some(text),
        FieldView::Other => None,
        FieldView::Missing => match fallback {
            FieldView::Text(text) => Some(text),
            _ => None,
        },
    }
}

/// The acting user's name: the top-level field, else the nested one.
pub open spec fn username_of(payload: PayloadView) -> Option<Seq<char>> {
    first_present(payload.user_username, payload.nested_username)
}

/// The avatar's address: the project's, else the user's.
pub open spec fn avatar_of(payload: PayloadView) -> Option<Seq<char>> {
    first_present(payload.project_avatar, payload.user_avatar)
}

/// A message of one text fragment.
pub open spec fn text_message(text: Seq<char>) -> Seq<FragmentView> {
    seq![FragmentView::Text(text)]
}

/// A message of one link fragment.
pub open spec fn link_message(url: Seq<char>) -> Seq<FragmentView> {
    seq![FragmentView::Link(url)]
}

/// The first message of a header: the avatar as a link, or a message without
/// fragments where no avatar was found.
pub open spec fn avatar_message(avatar: Option<Seq<char>>) -> Seq<FragmentView> {
    match avatar {
        Some(url) => link_message(url),
        None => Seq::empty(),
    }
}

/// The text that attributes an event: the user, ` -- `, the kind's label.
pub open spec fn attribution(username: Seq<char>, kind: EventKind) -> Seq<char> {
    username + " -- "@ + kind.label()
}

/// The three messages that open every event, or `None` where no user name was
/// found.
pub open spec fn header_of(kind: EventKind, payload: PayloadView) -> Option<
    Seq<Seq<FragmentView>>,
> {
    match username_of(payload) {
        None => None,
        Some(username) => Some(
            seq![
                avatar_message(avatar_of(payload)),
                text_message(attribution(username, kind)),
                link_message(payload.project_url),
            ],
        ),
    }
}

/// The line that shows one commit.
pub open spec fn commit_line(commit: CommitView) -> Seq<char> {
    "    +  "@ + commit.id + ": "@ + commit.title
}

/// One message per commit, in the order of the commits.
pub open spec fn commit_messages(commits: Seq<CommitView>) -> Seq<Seq<FragmentView>> {
    Seq::new(commits.len(), |i: int| text_message(commit_line(commits[i])))
}

/// The line that shows an issue's title.
pub open spec fn issue_line(title: Seq<char>) -> Seq<char> {
    "Title: "@ + title
}

/// The messages that are particular to a kind of event: the commits of a
/// push, the title of an issue, nothing for any other kind.
pub open spec fn body_of(kind: EventKind, payload: PayloadView) -> Seq<Seq<FragmentView>> {
    match kind {
        EventKind::Push => commit_messages(payload.commits),
        EventKind::Issue => seq![text_message(issue_line(payload.issue_title))],
        _ => Seq::empty(),
    }
}

/// The message that closes every event.
pub open spec fn separator() -> Seq<FragmentView> {
    text_message("=========="@)
}

/// The rendering of an event of a given kind: header, then body, then the
/// separator; `None` where there is no header.
pub open spec fn event_outcome(kind: EventKind, payload: PayloadView) -> Option<
    Seq<Seq<FragmentView>>,
> {
    match header_of(kind, payload) {
        None => None,
        Some(header) => Some(header + body_of(kind, payload) + seq![separator()]),
    }
}

/// The rendering of a payload: that of its kind, `None` where the
/// discriminator is missing, is no string or names no known kind.
pub open spec fn outcome_of(payload: PayloadView) -> Option<Seq<Seq<FragmentView>>> {
    match payload.object_kind {
        None => None,
        Some(label) => match EventKind::recognize(label) {
            None => None,
            Some(kind) => event_outcome(kind, payload),
        },
    }
}

/// The rendering of a webhook text: that of the payload in it, `None` where
/// the library does not read the text as JSON.
pub open spec fn text_outcome(text: Seq<char>) -> Option<Seq<Seq<FragmentView>>> {
    match json_document(text) {
        None => None,
        Some(document) => outcome_of(payload_of(document)),
    }
}

/// Follows a fallback chain of two fields.
pub fn resolve(primary: &Field, fallback: &Field) -> (value: Option<String>)
    ensures
        value.deep_view() == first_present(primary@, fallback@),
{
    match primary {
        Field::Text(text) => Some(text.clone()),
        Field::Other => None,
        Field::Missing => match fallback {
            Field::Text(text) => Some(text.clone()),
            _ => None,
        },
    }
}

/// The parser for GitLab's webhook payloads.
#[derive(Debug, Clone, Copy)]
pub struct GitLabParser {}

impl GitLabParser {
    /// The acting user's name, or `None` where the event cannot be attributed.
    pub fn parse_username(payload: &Payload) -> (username: Option<String>)
        ensures
            username.deep_view() == username_of(payload@),
    {
        resolve(&payload.user_username, &payload.nested_username)
    }

    /// The avatar's address, or `None` where there is none to show.
    pub fn parse_avatar(payload: &Payload) -> (avatar: Option<String>)
        ensures
            avatar.deep_view() == avatar_of(payload@),
    {
        resolve(&payload.project_avatar, &payload.user_avatar)
    }

    /// The three messages that open an event of the given kind.
    pub fn parse_default_message_header(payload: &Payload, kind: EventKind) -> (header: Option<
        Vec<Message>,
    >)
        ensures
            header.deep_view() == header_of(kind, payload@),
    {
        let username = match Self::parse_username(payload) {
            Some(username) => username,
            None => {
                return None;
            },
        };
        let first = match Self::parse_avatar(payload) {
            Some(avatar) => Message::new().add_url(avatar.as_str()),
            None => Message::new(),
        };
        let attribution = concat3(username.as_str(), " -- ", kind.as_label());
        let mut messages: Vec<Message> = Vec::new();
        messages.push(first);
        messages.push(Message::new().add_text(attribution.as_str()));
        messages.push(Message::new().add_url(payload.project_url.as_str()));
        assert(messages.deep_view() =~= header_of(kind, payload@)->0);
        Some(messages)
    }

    /// Closes a rendering: appends the separator.
    fn close(messages: Vec<Message>) -> (closed: Vec<Message>)
        ensures
            closed.deep_view() == messages.deep_view() + seq![separator()],
    {
        let mut closed = messages;
        closed.push(Message::new().add_text("=========="));
        assert(closed.deep_view() =~= messages.deep_view() + seq![separator()]);
        closed
    }

    /// Renders a push: the header, one line per commit, the separator.
    pub fn parse_push_event(payload: &Payload) -> (messages: Option<Vec<Message>>)
        ensures
            messages.deep_view() == event_outcome(EventKind::Push, payload@),
    {
        let mut messages = match Self::parse_default_message_header(payload, EventKind::Push) {
            Some(header) => header,
            None => {
                return None;
            },
        };
        let ghost header = messages.deep_view();
        let ghost lines = commit_messages(payload@.commits);
        let mut i: usize = 0;
        while i < payload.commits.len()
            invariant
                i <= payload.commits.len(),
                lines == commit_messages(payload@.commits),
                messages.deep_view() == header + lines.take(i as int),
            decreases payload.commits.len() - i,
        {
            let commit = &payload.commits[i];
            let line = concat4("    +  ", commit.id.as_str(), ": ", commit.title.as_str());
            let ghost before = messages.deep_view();
            messages.push(Message::new().add_text(line.as_str()));
            assert(messages.deep_view() =~= before.push(lines[i as int]));
            assert(lines.take(i + 1) =~= lines.take(i as int).push(lines[i as int]));
            i += 1;
        }
        assert(lines.take(i as int) =~= lines);
        Some(Self::close(messages))
    }

    /// Renders an issue: the header, the title, the separator.
    pub fn parse_issue_event(payload: &Payload) -> (messages: Option<Vec<Message>>)
        ensures
            messages.deep_view() == event_outcome(EventKind::Issue, payload@),
    {
        let mut messages = match Self::parse_default_message_header(payload, EventKind::Issue) {
            Some(header) => header,
            None => {
                return None;
            },
        };
        let ghost header = messages.deep_view();
        let line = concat2("Title: ", payload.issue_title.as_str());
        messages.push(Message::new().add_text(line.as_str()));
        assert(messages.deep_view() =~= header + body_of(EventKind::Issue, payload@));
        Some(Self::close(messages))
    }

    /// Renders an event that is only acknowledged: the header and the
    /// separator.
    pub fn parse_plain_event(payload: &Payload, kind: EventKind) -> (messages: Option<
        Vec<Message>,
    >)
        ensures
            messages.deep_view() == match header_of(kind, payload@) {
                Some(header) => Some(header + seq![separator()]),
                None => None,
            },
            !kind.has_body() ==> messages.deep_view() == event_outcome(kind, payload@),
    {
        let messages = match Self::parse_default_message_header(payload, kind) {
            Some(header) => header,
            None => {
                return None;
            },
        };
        assert(messages.deep_view() =~= messages.deep_view() + Seq::empty());
        Some(Self::close(messages))
    }

    /// Renders an event of the given kind.
    pub fn parse_event(payload: &Payload, kind: EventKind) -> (messages: Option<Vec<Message>>)
        ensures
            messages.deep_view() == event_outcome(kind, payload@),
    {
        match kind {
            EventKind::Push => Self::parse_push_event(payload),
            EventKind::Issue => Self::parse_issue_event(payload),
            _ => Self::parse_plain_event(payload, kind),
        }
    }

    /// Renders a payload, whatever its kind.
    pub fn parse_payload(payload: &Payload) -> (messages: Option<Vec<Message>>)
        ensures
            messages.deep_view() == outcome_of(payload@),
    {
        match &payload.object_kind {
            None => None,
            Some(label) => match EventKind::from_label(label.as_str()) {
                None => None,
                Some(kind) => Self::parse_event(payload, kind),
            },
        }
    }
}

impl EventParser for GitLabParser {
    /// Parses a webhook text as JSON and renders the payload in it. Returns
    /// `None` where the text is not a supported GitLab event.
    fn parse_json(&self, json_string: &str) -> (messages: Option<Vec<Message>>)
        ensures
            messages.deep_view() == text_outcome(json_string@),
    {
        match read_document(json_string) {
            None => None,
            Some(document) => {
                let payload = Payload::read(&document);
                Self::parse_payload(&payload)
            },
        }
    }
}

/// The composition of a rendering. For every kind of event and every payload
/// that names its user, the rendering exists and is made of the three header
/// messages, the body of the kind (one message per commit for a push, one for
/// an issue, none otherwise) and the separator, in this order. Every message
/// holds exactly one fragment, except that the first holds none where no avatar
/// was found.
pub proof fn lemma_composition(kind: EventKind, payload: PayloadView)
    requires
        username_of(payload).is_some(),
    ensures
        event_outcome(kind, payload).is_some(),
        ({
            let messages = event_outcome(kind, payload).unwrap();
            let body = body_of(kind, payload);
            &&& messages.len() == 3 + body.len() + 1
            &&& messages[0] == avatar_message(avatar_of(payload))
            &&& messages[1] == text_message(attribution(username_of(payload).unwrap(), kind))
            &&& messages[2] == link_message(payload.project_url)
            &&& forall|i: int| 0 <= i < body.len() ==> messages[3 + i] == body[i]
            &&& messages[messages.len() - 1] == separator()
            &&& messages[0].len() == (if avatar_of(payload).is_some() { 1nat } else { 0nat })
            &&& forall|i: int| 1 <= i < messages.len() ==> (#[trigger] messages[i]).len() == 1
        }),
        kind == EventKind::Push ==> {
            &&& body_of(kind, payload).len() == payload.commits.len()
            &&& forall|i: int|
                0 <= i < payload.commits.len() ==> body_of(kind, payload)[i] == text_message(
                    commit_line(payload.commits[i]),
                )
        },
        kind == EventKind::Issue ==> body_of(kind, payload) == seq![
            text_message(issue_line(payload.issue_title)),
        ],
        !kind.has_body() ==> body_of(kind, payload).len() == 0,
{
}

/// A text that is read as JSON, and whose discriminator names a kind, is
/// rendered as an event of that kind.
pub proof fn lemma_recognized_text(text: Seq<char>, kind: EventKind)
    requires
        json_document(text).is_some(),
        payload_of(json_document(text).unwrap()).object_kind == Some(kind.label()),
    ensures
        text_outcome(text) == event_outcome(kind, payload_of(json_document(text).unwrap())),
{
    crate::event_kind::lemma_recognize_label(kind, kind.label());
}

/// An event without a user is not rendered: where the chain of user names
/// yields nothing, there is no rendering, whatever else the payload holds.
pub proof fn lemma_unattributed_not_applicable(payload: PayloadView)
    requires
        username_of(payload).is_none(),
    ensures
        outcome_of(payload).is_none(),
        forall|kind: EventKind| event_outcome(kind, payload).is_none(),
{
}

/// A webhook text without a user is not rendered: where the text is not read
/// as JSON, or the chain of user names in it yields nothing, the parser does
/// not apply.
pub proof fn lemma_unattributed_text(text: Seq<char>)
    requires
        json_document(text) matches Some(document) ==> username_of(payload_of(document)).is_none(),
    ensures
        text_outcome(text).is_none(),
{
}

/// The chain of user names yields nothing exactly when the first field that
/// is present is no string, or when both are missing.
pub proof fn lemma_username_chain(payload: PayloadView)
    ensures
        username_of(payload).is_none() <==> {
            ||| payload.user_username is Other
            ||| (payload.user_username is Missing && !(payload.nested_username is Text))
        },
        payload.user_username is Missing && payload.nested_username is Missing ==> username_of(
            payload,
        ).is_none(),
{
}

/// The avatar is optional: a payload without any avatar, whose discriminator
/// names a kind and whose user is named, is rendered. Its first message is
/// empty, and the two after it show the user with the kind, and the project's
/// address.
pub proof fn lemma_avatar_optional(payload: PayloadView, kind: EventKind)
    requires
        payload.project_avatar is Missing,
        payload.user_avatar is Missing,
        payload.object_kind == Some(kind.label()),
        username_of(payload).is_some(),
    ensures
        outcome_of(payload).is_some(),
        outcome_of(payload).unwrap().len() >= 4,
        outcome_of(payload).unwrap()[0] == Seq::<FragmentView>::empty(),
        outcome_of(payload).unwrap()[1] == text_message(
            attribution(username_of(payload).unwrap(), kind),
        ),
        outcome_of(payload).unwrap()[2] == link_message(payload.project_url),
{
    crate::event_kind::lemma_recognize_label(kind, kind.label());
    lemma_composition(kind, payload);
}

/// The avatar decides nothing. Whether a payload is rendered does not depend
/// on its two avatar fields, and neither does any message but the first.
pub proof fn lemma_avatar_irrelevant(
    payload: PayloadView,
    project_avatar: FieldView,
    user_avatar: FieldView,
)
    ensures
        ({
            let other = PayloadView { project_avatar, user_avatar, ..payload };
            &&& outcome_of(other).is_some() == outcome_of(payload).is_some()
            &&& outcome_of(payload).is_some() ==> {
                &&& outcome_of(other).unwrap().len() == outcome_of(payload).unwrap().len()
                &&& outcome_of(other).unwrap().skip(1) == outcome_of(payload).unwrap().skip(1)
                &&& outcome_of(other).unwrap()[0] == avatar_message(
                    first_present(project_avatar, user_avatar),
                )
            }
        }),
{
    let other = PayloadView { project_avatar, user_avatar, ..payload };
    if outcome_of(payload).is_some() {
        let kind = EventKind::recognize(payload.object_kind.unwrap()).unwrap();
        lemma_composition(kind, payload);
        lemma_composition(kind, other);
        assert(outcome_of(other).unwrap().skip(1) =~= outcome_of(payload).unwrap().skip(1));
    }
}

/// A payload is rendered exactly when its discriminator names a kind and its
/// user is named.
pub proof fn lemma_applicable(payload: PayloadView)
    ensures
        outcome_of(payload).is_some() <==> {
            &&& payload.object_kind.is_some()
            &&& EventKind::recognize(payload.object_kind.unwrap()).is_some()
            &&& username_of(payload).is_some()
        },
{
}

} // verus!
