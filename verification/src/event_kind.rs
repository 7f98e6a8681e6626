//! The kinds of event that a source-control payload can announce.

use vstd::prelude::*;

verus! {

/// The kind of an event, as the payload's discriminator names it.
#[derive(Debug, Clone, Copy, PartialEq, Eq, Structural)]
pub enum EventKind {
    Push,
    TagPush,
    Issue,
    Note,
    MergeRequest,
    WikiPage,
    Build,
    Deployment,
    FeatureFlag,
    Release,
}

impl EventKind {
    /// The discriminator value that names this kind.
    pub open spec fn label(self) -> Seq<char> {
        match self {
            EventKind::Push => "push"@,
            EventKind::TagPush => "tag_push"@,
            EventKind::Issue => "issue"@,
            EventKind::Note => "note"@,
            EventKind::MergeRequest => "merge_request"@,
            EventKind::WikiPage => "wiki_page"@,
            EventKind::Build => "build"@,
            EventKind::Deployment => "deployment"@,
            EventKind::FeatureFlag => "feature_flag"@,
            EventKind::Release => "release"@,
        }
    }

    /// The kind that a discriminator value names, if it names one.
    pub open spec fn recognize(label: Seq<char>) -> Option<EventKind> {
        if label == "push"@ {
            Some(EventKind::Push)
        } else if label == "tag_push"@ {
            Some(EventKind::TagPush)
        } else if label == "issue"@ {
            Some(EventKind::Issue)
        } else if label == "note"@ {
            Some(EventKind::Note)
        } else if label == "merge_request"@ {
            Some(EventKind::MergeRequest)
        } else if label == "wiki_page"@ {
            Some(EventKind::WikiPage)
        } else if label == "build"@ {
            Some(EventKind::Build)
        } else if label == "deployment"@ {
            Some(EventKind::Deployment)
        } else if label == "feature_flag"@ {
            Some(EventKind::FeatureFlag)
        } else if label == "release"@ {
            Some(EventKind::Release)
        } else {
            None
        }
    }

    /// Whether events of this kind carry lines of their own after the header.
    pub open spec fn has_body(self) -> bool {
        self == EventKind::Push || self == EventKind::Issue
    }

    /// Reads a discriminator value.
    pub fn from_label(label: &str) -> (kind: Option<EventKind>)
        ensures
            kind == Self::recognize(label@),
    {
        if *label == *"push" {
            Some(EventKind::Push)
        } else if *label == *"tag_push" {
            Some(EventKind::TagPush)
        } else if *label == *"issue" {
            Some(EventKind::Issue)
        } else if *label == *"note" {
            Some(EventKind::Note)
        } else if *label == *"merge_request" {
            Some(EventKind::MergeRequest)
        } else if *label == *"wiki_page" {
            Some(EventKind::WikiPage)
        } else if *label == *"build" {
            Some(EventKind::Build)
        } else if *label == *"deployment" {
            Some(EventKind::Deployment)
        } else if *label == *"feature_flag" {
            Some(EventKind::FeatureFlag)
        } else if *label == *"release" {
            Some(EventKind::Release)
        } else {
            None
        }
    }

    /// The discriminator value that names this kind.
    pub fn as_label(self) -> (label: &'static str)
        ensures
            label@ == self.label(),
    {
        match self {
            EventKind::Push => "push",
            EventKind::TagPush => "tag_push",
            EventKind::Issue => "issue",
            EventKind::Note => "note",
            EventKind::MergeRequest => "merge_request",
            EventKind::WikiPage => "wiki_page",
            EventKind::Build => "build",
            EventKind::Deployment => "deployment",
            EventKind::FeatureFlag => "feature_flag",
            EventKind::Release => "release",
        }
    }
}

/// The ten labels are pairwise different.
proof fn lemma_labels_differ()
    ensures
        forall|a: EventKind, b: EventKind| a.label() == b.label() ==> a == b,
{
    reveal_strlit("push");
    reveal_strlit("tag_push");
    reveal_strlit("issue");
    reveal_strlit("note");
    reveal_strlit("merge_request");
    reveal_strlit("wiki_page");
    reveal_strlit("build");
    reveal_strlit("deployment");
    reveal_strlit("feature_flag");
    reveal_strlit("release");
    assert forall|a: EventKind, b: EventKind| a.label() == b.label() implies a == b by {
        if a != b {
            let x = a.label();
            let y = b.label();
            assert(x.len() != y.len() || x[0] != y[0] || x[1] != y[1]);
        }
    }
}

/// Every kind is recognized by its own label, and by no other text.
pub proof fn lemma_recognize_label(kind: EventKind, label: Seq<char>)
    ensures
        EventKind::recognize(kind.label()) == Some(kind),
        EventKind::recognize(label) == Some(kind) <==> label == kind.label(),
{
    lemma_labels_differ();
    let found = EventKind::recognize(kind.label());
    assert(found is Some);
    assert(found->0.label() == kind.label());
    if EventKind::recognize(label) is Some {
        assert(EventKind::recognize(label)->0.label() == label);
    }
}

} // verus!
