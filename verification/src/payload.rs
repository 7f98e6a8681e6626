//! What a source-control webhook payload holds, as plain values.
//!
//! The rendering rules never look at a JSON document directly. They work on
//! a `Payload`: the handful of fields that matter, each already reduced to a
//! string or to a note that it is missing. `Payload::read` fills one from a
//! document.

use crate::document::{
    is_null, items_of, json_is_null, json_items, json_member, json_shown, json_text, member, show,
    text_of,
};
use json::JsonValue;
use vstd::prelude::*;

verus! {

/// What stands where a string is expected.
#[derive(Debug)]
pub enum Field {
    /// Nothing: the field is absent or null.
    Missing,
    /// A string.
    Text(String),
    /// Something that is neither null nor a string.
    Other,
}

pub enum FieldView {
    Missing,
    Text(Seq<char>),
    Other,
}

impl View for Field {
    type V = FieldView;

    open spec fn view(&self) -> FieldView {
        match self {
            Field::Missing => FieldView::Missing,
            Field::Text(text) => FieldView::Text(text@),
            Field::Other => FieldView::Other,
        }
    }
}

/// One commit of a push, as it is shown: its identifier and its title.
#[derive(Debug)]
pub struct Commit {
    pub id: String,
    pub title: String,
}

pub struct CommitView {
    pub id: Seq<char>,
    pub title: Seq<char>,
}

impl View for Commit {
    type V = CommitView;

    open spec fn view(&self) -> CommitView {
        CommitView { id: self.id@, title: self.title@ }
    }
}

impl DeepView for Commit {
    type V = CommitView;

    open spec fn deep_view(&self) -> CommitView {
        self@
    }
}

/// The fields of a payload that the rendering reads.
#[derive(Debug)]
pub struct Payload {
    /// The event-kind discriminator, where it is a string.
    pub object_kind: Option<String>,
    /// The acting user's name at the top level.
    pub user_username: Field,
    /// The acting user's name inside the nested user object.
    pub nested_username: Field,
    /// The project's avatar address.
    pub project_avatar: Field,
    /// The user's avatar address.
    pub user_avatar: Field,
    /// The project's web address, as displayed.
    pub project_url: String,
    /// The commits of a push, in the order in which the source lists them.
    pub commits: Vec<Commit>,
    /// The title of an issue, as displayed.
    pub issue_title: String,
}

pub struct PayloadView {
    pub object_kind: Option<Seq<char>>,
    pub user_username: FieldView,
    pub nested_username: FieldView,
    pub project_avatar: FieldView,
    pub user_avatar: FieldView,
    pub project_url: Seq<char>,
    pub commits: Seq<CommitView>,
    pub issue_title: Seq<char>,
}

impl View for Payload {
    type V = PayloadView;

    open spec fn view(&self) -> PayloadView {
        PayloadView {
            object_kind: self.object_kind.deep_view(),
            user_username: self.user_username@,
            nested_username: self.nested_username@,
            project_avatar: self.project_avatar@,
            user_avatar: self.user_avatar@,
            project_url: self.project_url@,
            commits: self.commits.deep_view(),
            issue_title: self.issue_title@,
        }
    }
}

/// What a JSON value is where a string is expected.
pub open spec fn field_of(value: JsonValue) -> FieldView {
    if json_is_null(value) {
        FieldView::Missing
    } else {
        match json_text(value) {
            Some(text) => FieldView::Text(text),
            None => FieldView::Other,
        }
    }
}

/// The commit that one member of the `commits` array describes.
pub open spec fn commit_of(value: JsonValue) -> CommitView {
    CommitView {
        id: json_shown(json_member(value, "id"@)),
        title: json_shown(json_member(value, "title"@)),
    }
}

/// The commits that the members of an array describe, in order.
pub open spec fn commits_of(items: Seq<JsonValue>) -> Seq<CommitView> {
    Seq::new(items.len(), |i: int| commit_of(items[i]))
}

/// The payload that a JSON document holds.
pub open spec fn payload_of(document: JsonValue) -> PayloadView {
    PayloadView {
        object_kind: json_text(json_member(document, "object_kind"@)),
        user_username: field_of(json_member(document, "user_username"@)),
        nested_username: field_of(json_member(json_member(document, "user"@), "username"@)),
        project_avatar: field_of(json_member(json_member(document, "project"@), "avatar_url"@)),
        user_avatar: field_of(json_member(document, "user_avatar"@)),
        project_url: json_shown(json_member(json_member(document, "project"@), "web_url"@)),
        commits: commits_of(json_items(json_member(document, "commits"@))),
        issue_title: json_shown(
            json_member(json_member(document, "object_attributes"@), "title"@),
        ),
    }
}

impl Field {
    /// Reads a JSON value where a string is expected.
    pub fn read(value: &JsonValue) -> (field: Field)
        ensures
            field@ == field_of(*value),
    {
        if is_null(value) {
            Field::Missing
        } else {
            match text_of(value) {
                Some(text) => Field::Text(text),
                None => Field::Other,
            }
        }
    }
}

impl Commit {
    /// Reads one member of the `commits` array.
    pub fn read(value: &JsonValue) -> (commit: Commit)
        ensures
            commit@ == commit_of(*value),
    {
        Commit { id: show(member(value, "id")), title: show(member(value, "title")) }
    }
}

impl Payload {
    /// Reads from a document the fields that the rendering needs.
    pub fn read(document: &JsonValue) -> (payload: Payload)
        ensures
            payload@ == payload_of(*document),
    {
        let project = member(document, "project");
        let items = items_of(member(document, "commits"));
        let ghost wanted = commits_of(json_items(json_member(*document, "commits"@)));
        let mut commits: Vec<Commit> = Vec::new();
        let mut i: usize = 0;
        while i < items.len()
            invariant
                i <= items.len(),
                items@.len() == wanted.len(),
                forall|k: int| 0 <= k < items@.len() ==> commit_of(*items@[k]) == wanted[k],
                commits@.len() == i,
                forall|k: int| 0 <= k < i ==> commits@[k]@ == wanted[k],
            decreases items.len() - i,
        {
            commits.push(Commit::read(items[i]));
            i += 1;
        }
        assert(commits.deep_view() =~= wanted);
        Payload {
            object_kind: text_of(member(document, "object_kind")),
            user_username: Field::read(member(document, "user_username")),
            nested_username: Field::read(member(member(document, "user"), "username")),
            project_avatar: Field::read(member(project, "avatar_url")),
            user_avatar: Field::read(member(document, "user_avatar")),
            project_url: show(member(project, "web_url")),
            commits,
            issue_title: show(member(member(document, "object_attributes"), "title")),
        }
    }
}

} // verus!
