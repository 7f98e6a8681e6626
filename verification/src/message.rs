//! Chat messages: ordered sequences of text and link fragments.

use vstd::prelude::*;

verus! {

/// The smallest unit of a message.
#[derive(Debug)]
pub enum Fragment {
    /// Plain text.
    Text(String),
    /// A bare link.
    Link(String),
}

/// What a fragment holds, as a mathematical value.
pub enum FragmentView {
    Text(Seq<char>),
    Link(Seq<char>),
}

impl View for Fragment {
    type V = FragmentView;

    open spec fn view(&self) -> FragmentView {
        match self {
            Fragment::Text(text) => FragmentView::Text(text@),
            Fragment::Link(url) => FragmentView::Link(url@),
        }
    }
}

impl DeepView for Fragment {
    type V = FragmentView;

    open spec fn deep_view(&self) -> FragmentView {
        self@
    }
}

impl Fragment {
    /// Whether two fragments are of the same kind and hold the same characters.
    pub fn same_as(&self, other: &Fragment) -> (same: bool)
        ensures
            same == (self@ == other@),
    {
        match (self, other) {
            (Fragment::Text(a), Fragment::Text(b)) => *a == *b,
            (Fragment::Link(a), Fragment::Link(b)) => *a == *b,
            _ => false,
        }
    }
}

impl Clone for Fragment {
    fn clone(&self) -> (copy: Fragment)
        ensures
            copy@ == self@,
    {
        match self {
            Fragment::Text(text) => Fragment::Text(text.clone()),
            Fragment::Link(url) => Fragment::Link(url.clone()),
        }
    }
}

impl PartialEq for Fragment {
    fn eq(&self, other: &Fragment) -> (same: bool) {
        self.same_as(other)
    }
}

impl vstd::std_specs::cmp::PartialEqSpecImpl for Fragment {
    open spec fn obeys_eq_spec() -> bool {
        true
    }

    open spec fn eq_spec(&self, other: &Fragment) -> bool {
        self@ == other@
    }
}

/// One deliverable chat post. The order of its fragments is significant.
#[derive(Debug)]
pub struct Message {
    fragments: Vec<Fragment>,
}

impl View for Message {
    type V = Seq<FragmentView>;

    closed spec fn view(&self) -> Seq<FragmentView> {
        self.fragments.deep_view()
    }
}

impl DeepView for Message {
    type V = Seq<FragmentView>;

    open spec fn deep_view(&self) -> Seq<FragmentView> {
        self@
    }
}

impl Message {
    /// A message without fragments.
    pub fn new() -> (message: Message)
        ensures
            message@ == Seq::<FragmentView>::empty(),
    {
        Message { fragments: Vec::new() }
    }

    /// The message followed by one text fragment.
    pub fn add_text(self, text: &str) -> (message: Message)
        ensures
            message@ == self@.push(FragmentView::Text(text@)),
    {
        let mut fragments = self.fragments;
        let ghost before = fragments.deep_view();
        fragments.push(Fragment::Text(String::from_str(text)));
        assert(fragments.deep_view() =~= before.push(FragmentView::Text(text@)));
        Message { fragments }
    }

    /// The message followed by one link fragment.
    pub fn add_url(self, url: &str) -> (message: Message)
        ensures
            message@ == self@.push(FragmentView::Link(url@)),
    {
        let mut fragments = self.fragments;
        let ghost before = fragments.deep_view();
        fragments.push(Fragment::Link(String::from_str(url)));
        assert(fragments.deep_view() =~= before.push(FragmentView::Link(url@)));
        Message { fragments }
    }

    /// The number of fragments.
    pub fn len(&self) -> (n: usize)
        ensures
            n == self@.len(),
    {
        self.fragments.len()
    }

    /// The fragments, in order.
    pub fn fragments(&self) -> (fragments: &Vec<Fragment>)
        ensures
            fragments.deep_view() == self@,
    {
        &self.fragments
    }

    /// Whether two messages hold the same fragments in the same order.
    pub fn same_as(&self, other: &Message) -> (same: bool)
        ensures
            same == (self@ == other@),
    {
        if self.fragments.len() != other.fragments.len() {
            assert(self@.len() != other@.len());
            return false;
        }
        let mut i: usize = 0;
        while i < self.fragments.len()
            invariant
                i <= self.fragments.len(),
                self.fragments.len() == other.fragments.len(),
                forall|k: int| 0 <= k < i ==> self@[k] == other@[k],
            decreases self.fragments.len() - i,
        {
            if !self.fragments[i].same_as(&other.fragments[i]) {
                assert(self@[i as int] != other@[i as int]);
                return false;
            }
            i += 1;
        }
        assert(self@ =~= other@);
        true
    }
}

impl Clone for Message {
    fn clone(&self) -> (copy: Message)
        ensures
            copy@ == self@,
    {
        let mut fragments: Vec<Fragment> = Vec::new();
        let mut i: usize = 0;
        while i < self.fragments.len()
            invariant
                i <= self.fragments.len(),
                fragments@.len() == i,
                forall|k: int| 0 <= k < i ==> fragments@[k]@ == self.fragments@[k]@,
            decreases self.fragments.len() - i,
        {
            fragments.push(self.fragments[i].clone());
            i += 1;
        }
        assert(fragments.deep_view() =~= self.fragments.deep_view());
        Message { fragments }
    }
}

impl PartialEq for Message {
    fn eq(&self, other: &Message) -> (same: bool) {
        self.same_as(other)
    }
}

impl vstd::std_specs::cmp::PartialEqSpecImpl for Message {
    open spec fn obeys_eq_spec() -> bool {
        true
    }

    open spec fn eq_spec(&self, other: &Message) -> bool {
        self@ == other@
    }
}

} // verus!
