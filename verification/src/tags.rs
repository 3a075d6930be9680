//! Tags and tag sets: the retention labels attached to stored objects.

use vstd::prelude::*;

verus! {

/// One retention label: a key/value pair attached to a stored object.
/// Keys are unique within a tag set by convention; a tag is immutable
/// once constructed.
#[derive(Debug, Clone, PartialEq, Eq)]
pub struct Tag {
    pub key: String,
    pub value: String,
}

impl Tag {
    pub fn new(key: &str, value: &str) -> (t: Tag)
        ensures
            t.key@ == key@,
            t.value@ == value@,
    {
        Tag { key: String::from_str(key), value: String::from_str(value) }
    }

    /// A copy of this tag with the same key and value.
    pub fn duplicate(&self) -> (t: Tag)
        ensures
            t.key@ == self.key@,
            t.value@ == self.value@,
    {
        Tag { key: self.key.clone(), value: self.value.clone() }
    }
}

/// The baseline tag `{key: "standard", value: "1"}`, present in every
/// tag set so that manually triggered runs are still covered by
/// lifecycle rules.
pub open spec fn spec_baseline_tag(t: Tag) -> bool {
    t.key@ == "standard"@ && t.value@ == "1"@
}

pub fn baseline_tag() -> (t: Tag)
    ensures
        spec_baseline_tag(t),
{
    Tag::new("standard", "1")
}

} // verus!
