//! The node group resource.

use vstd::prelude::*;

verus! {

/// Representation of a Node Group spec.
#[derive(Clone, Debug, PartialEq)]
pub struct NodeGroupSpec {
    pub size: Option<NodeGroupSize>,
    pub storage: Option<NodeGroupStorage>,
    pub instance_types: Option<NodeGroupInstanceTypes>,
}

#[derive(Clone, Debug, PartialEq)]
pub struct NodeGroupInstanceTypes {
    pub default: String,
    pub alternates: Option<Vec<String>>,
}

#[derive(Clone, Debug, PartialEq)]
pub struct NodeGroupStorage {
    pub ephemeral: Option<String>,
}

#[derive(Clone, Debug, PartialEq)]
pub struct NodeGroupSize {
    pub max: Option<usize>,
    pub min: Option<usize>,
    pub target: Option<usize>,
}

#[derive(Clone, Debug, PartialEq)]
pub struct NodeGroupStatus {
    pub state: Option<NodeGroupState>,
}

/// The state that the cluster reports of a node group.
#[derive(Clone, Debug, PartialEq)]
pub enum NodeGroupState {
    Present,
    Absent,
    Processing,
    Invalid,
    /// A state that is none of the others, as it was reported.
    Unknown(String),
}

/// The lowercase form of a text.
pub uninterp spec fn lowercase(text: Seq<char>) -> Seq<char>;

/// `str::to_lowercase` gives the lowercase equivalent of a text, as Unicode
/// defines it: it depends on the text alone.
pub assume_specification[ str::to_lowercase ](s: &str) -> (lower: String)
    ensures
        lower@ == lowercase(s@),
;

/// A text as `{:?}` shows it: between double quotes, with the characters
/// escaped that need to be.
pub uninterp spec fn quoted(text: Seq<char>) -> Seq<char>;

/// Formats a text with `{:?}`, which is `<str as Debug>::fmt`. The result
/// depends on the text alone.
#[verifier::external_body]
fn quote(text: &str) -> (shown: String)
    ensures
        shown@ == quoted(text@),
{
    format!("{:?}", text)
}

/// The state that the name `lower` names: one of the four known states
/// where it is their name in lowercase letters, and else unknown, with
/// `value` as what was reported.
pub open spec fn named_state(lower: Seq<char>, value: String) -> NodeGroupState {
    if lower == "present"@ {
        NodeGroupState::Present
    } else if lower == "absent"@ {
        NodeGroupState::Absent
    } else if lower == "processing"@ {
        NodeGroupState::Processing
    } else if lower == "invalid"@ {
        NodeGroupState::Invalid
    } else {
        NodeGroupState::Unknown(value)
    }
}

/// The state that a reported text names: the state that its lowercase form
/// names, with the text as it was reported where that is none of the known
/// states.
pub open spec fn state_of(value: String) -> NodeGroupState {
    named_state(lowercase(value@), value)
}

/// The state that the name `lower` names, see [`named_state`].
pub fn state_named(lower: &str, value: String) -> (state: NodeGroupState)
    ensures
        state == named_state(lower@, value),
{
    if crate::utils::parsers::text::same_text(lower, "present") {
        NodeGroupState::Present
    } else if crate::utils::parsers::text::same_text(lower, "absent") {
        NodeGroupState::Absent
    } else if crate::utils::parsers::text::same_text(lower, "processing") {
        NodeGroupState::Processing
    } else if crate::utils::parsers::text::same_text(lower, "invalid") {
        NodeGroupState::Invalid
    } else {
        NodeGroupState::Unknown(value)
    }
}

impl From<String> for NodeGroupState {
    fn from(value: String) -> (state: Self) {
        let lower = value.as_str().to_lowercase();
        state_named(lower.as_str(), value)
    }
}

impl vstd::std_specs::convert::FromSpecImpl<String> for NodeGroupState {
    open spec fn obeys_from_spec() -> bool {
        true
    }

    open spec fn from_spec(value: String) -> Self {
        state_of(value)
    }
}

impl NodeGroupState {
    /// The state as it is shown: the name of the variant, and for an unknown
    /// state the reported text after it, quoted and in parentheses.
    pub open spec fn shown(self) -> Seq<char> {
        match self {
            NodeGroupState::Present => "Present"@,
            NodeGroupState::Absent => "Absent"@,
            NodeGroupState::Processing => "Processing"@,
            NodeGroupState::Invalid => "Invalid"@,
            NodeGroupState::Unknown(value) => "Unknown("@ + quoted(value@) + ")"@,
        }
    }

    /// The state as it is shown, see [`Self::shown`].
    pub fn to_text(&self) -> (text: String)
        ensures
            text@ == self.shown(),
    {
        match self {
            NodeGroupState::Present => String::from_str("Present"),
            NodeGroupState::Absent => String::from_str("Absent"),
            NodeGroupState::Processing => String::from_str("Processing"),
            NodeGroupState::Invalid => String::from_str("Invalid"),
            NodeGroupState::Unknown(value) => String::from_str("Unknown(").concat(
                quote(value.as_str()).as_str(),
            ).concat(")"),
        }
    }
}

} // verus!
