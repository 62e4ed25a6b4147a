//! Topic names. Both peers derive the four topics of a session from one
//! channel root: `<root>/in`, `<root>/out`, `<root>/status`, `<root>/resize`.

use crate::text::text_eq;
use vstd::prelude::*;
use vstd::string::StringExecFns;

verus! {

/// What a topic carries.
#[derive(Clone, Copy, Debug, PartialEq, Eq, Structural)]
pub enum TopicKind {
    /// Raw bytes from the controller to the shell.
    Input,
    /// Raw bytes from the shell to the controller.
    Output,
    /// Status tokens from the agent to the controller.
    Status,
    /// Resize messages from the controller to the agent.
    Resize,
    /// Any topic that is none of the session's four.
    Unknown,
}

/// The topic for controller input under a channel root.
pub open spec fn input_topic(root: Seq<char>) -> Seq<char> {
    root + "/in"@
}

/// The topic for shell output under a channel root.
pub open spec fn output_topic(root: Seq<char>) -> Seq<char> {
    root + "/out"@
}

/// The topic for status tokens under a channel root.
pub open spec fn status_topic(root: Seq<char>) -> Seq<char> {
    root + "/status"@
}

/// The topic for resize messages under a channel root.
pub open spec fn resize_topic(root: Seq<char>) -> Seq<char> {
    root + "/resize"@
}

/// The name of the topic of a kind under a channel root. `Unknown` names no
/// topic.
pub open spec fn topic_of(root: Seq<char>, kind: TopicKind) -> Option<Seq<char>> {
    match kind {
        TopicKind::Input => Some(input_topic(root)),
        TopicKind::Output => Some(output_topic(root)),
        TopicKind::Status => Some(status_topic(root)),
        TopicKind::Resize => Some(resize_topic(root)),
        TopicKind::Unknown => None,
    }
}

/// What a topic carries in the session with the given channel root.
pub open spec fn kind_of(root: Seq<char>, topic: Seq<char>) -> TopicKind {
    if topic == input_topic(root) {
        TopicKind::Input
    } else if topic == output_topic(root) {
        TopicKind::Output
    } else if topic == status_topic(root) {
        TopicKind::Status
    } else if topic == resize_topic(root) {
        TopicKind::Resize
    } else {
        TopicKind::Unknown
    }
}

/// The four topic names of one session.
pub struct Topics {
    root: String,
    input: String,
    output: String,
    status: String,
    resize: String,
}

impl Topics {
    /// Each name is the root followed by its suffix.
    #[verifier::type_invariant]
    pub closed spec fn derived(self) -> bool {
        &&& self.input@ == input_topic(self.root@)
        &&& self.output@ == output_topic(self.root@)
        &&& self.status@ == status_topic(self.root@)
        &&& self.resize@ == resize_topic(self.root@)
    }

    /// The channel root that the names derive from.
    pub closed spec fn root_text(self) -> Seq<char> {
        self.root@
    }

    /// Derives the four topic names from a channel root.
    pub fn new(root: &str) -> (topics: Topics)
        ensures
            topics.root_text() == root@,
    {
        Topics {
            root: String::from_str(root),
            input: String::from_str(root).concat("/in"),
            output: String::from_str(root).concat("/out"),
            status: String::from_str(root).concat("/status"),
            resize: String::from_str(root).concat("/resize"),
        }
    }

    /// The channel root.
    pub fn root(&self) -> (name: &str)
        ensures
            name@ == self.root_text(),
    {
        self.root.as_str()
    }

    /// The topic for controller input.
    pub fn input(&self) -> (name: &str)
        ensures
            name@ == input_topic(self.root_text()),
    {
        proof {
            use_type_invariant(self);
        }
        self.input.as_str()
    }

    /// The topic for shell output.
    pub fn output(&self) -> (name: &str)
        ensures
            name@ == output_topic(self.root_text()),
    {
        proof {
            use_type_invariant(self);
        }
        self.output.as_str()
    }

    /// The topic for status tokens.
    pub fn status(&self) -> (name: &str)
        ensures
            name@ == status_topic(self.root_text()),
    {
        proof {
            use_type_invariant(self);
        }
        self.status.as_str()
    }

    /// The topic for resize messages.
    pub fn resize(&self) -> (name: &str)
        ensures
            name@ == resize_topic(self.root_text()),
    {
        proof {
            use_type_invariant(self);
        }
        self.resize.as_str()
    }

    /// The name of the topic of a kind, if the kind names one.
    pub fn name_of(&self, kind: TopicKind) -> (name: Option<&str>)
        ensures
            match topic_of(self.root_text(), kind) {
                Some(text) => name is Some && name->0@ == text,
                None => name is None,
            },
    {
        match kind {
            TopicKind::Input => Some(self.input()),
            TopicKind::Output => Some(self.output()),
            TopicKind::Status => Some(self.status()),
            TopicKind::Resize => Some(self.resize()),
            TopicKind::Unknown => None,
        }
    }

    /// Says what a topic carries in this session.
    pub fn classify(&self, topic: &str) -> (kind: TopicKind)
        ensures
            kind == kind_of(self.root_text(), topic@),
    {
        if text_eq(topic, self.input()) {
            TopicKind::Input
        } else if text_eq(topic, self.output()) {
            TopicKind::Output
        } else if text_eq(topic, self.status()) {
            TopicKind::Status
        } else if text_eq(topic, self.resize()) {
            TopicKind::Resize
        } else {
            TopicKind::Unknown
        }
    }
}

/// The four topics of a session are pairwise different, so each of them is
/// classified as what it is.
pub proof fn lemma_topics_distinct(root: Seq<char>)
    ensures
        kind_of(root, input_topic(root)) == TopicKind::Input,
        kind_of(root, output_topic(root)) == TopicKind::Output,
        kind_of(root, status_topic(root)) == TopicKind::Status,
        kind_of(root, resize_topic(root)) == TopicKind::Resize,
{
    reveal_strlit("/in");
    reveal_strlit("/out");
    reveal_strlit("/status");
    reveal_strlit("/resize");
    let n = root.len() as int;
    assert(input_topic(root).len() == n + 3);
    assert(output_topic(root).len() == n + 4);
    assert(status_topic(root).len() == n + 7);
    assert(resize_topic(root).len() == n + 7);
    assert(status_topic(root)[n + 1] == 's');
    assert(resize_topic(root)[n + 1] == 'r');
}

/// Naming a kind and classifying the name gives the kind back, and a topic
/// that is classified as a kind is the name of that kind.
pub proof fn lemma_name_and_kind_agree(root: Seq<char>, kind: TopicKind, topic: Seq<char>)
    ensures
        topic_of(root, kind) == Some(topic) ==> kind_of(root, topic) == kind,
        kind_of(root, topic) == kind && kind != TopicKind::Unknown ==> topic_of(root, kind) == Some(
            topic,
        ),
{
    lemma_topics_distinct(root);
}

/// Sessions with different channel roots share no topic.
pub proof fn lemma_roots_do_not_mix(a: Seq<char>, b: Seq<char>, topic: Seq<char>)
    requires
        a != b,
        kind_of(a, topic) != TopicKind::Unknown,
    ensures
        kind_of(b, topic) != kind_of(a, topic),
{
    reveal_strlit("/in");
    reveal_strlit("/out");
    reveal_strlit("/status");
    reveal_strlit("/resize");
    let k = kind_of(a, topic);
    if kind_of(b, topic) == k {
        let suffix: Seq<char> = match k {
            TopicKind::Input => "/in"@,
            TopicKind::Output => "/out"@,
            TopicKind::Status => "/status"@,
            _ => "/resize"@,
        };
        assert(topic == a + suffix);
        assert(topic == b + suffix);
        assert(a.len() == b.len());
        assert forall|i: int| 0 <= i < a.len() implies a[i] == b[i] by {
            assert((a + suffix)[i] == a[i]);
            assert((b + suffix)[i] == b[i]);
        }
        assert(a =~= b);
    }
}

} // verus!
