use vstd::prelude::*;

verus! {

/// What to render: a name, used for diagnostics, and the template's source text.
///
/// Static templates carry text baked into the program when it was built;
/// dynamic ones carry text read afresh for this call (for live editing).
#[derive(Clone, Debug, PartialEq, Eq)]
pub enum Template {
    StaticTemplate { name: &'static str, content: &'static str },
    DynamicTemplate { name: String, content: String },
}

impl Template {
    /// The template's name.
    pub open spec fn name_spec(&self) -> Seq<char> {
        match self {
            Template::StaticTemplate { name, .. } => name@,
            Template::DynamicTemplate { name, .. } => name@,
        }
    }

    /// The template's source text.
    pub open spec fn content_spec(&self) -> Seq<char> {
        match self {
            Template::StaticTemplate { content, .. } => content@,
            Template::DynamicTemplate { content, .. } => content@,
        }
    }

    pub fn name(&self) -> (r: &str)
        ensures
            r@ == self.name_spec(),
    {
        match self {
            Template::StaticTemplate { name, .. } => name,
            Template::DynamicTemplate { name, .. } => name.as_str(),
        }
    }

    pub fn content(&self) -> (r: &str)
        ensures
            r@ == self.content_spec(),
    {
        match self {
            Template::StaticTemplate { content, .. } => content,
            Template::DynamicTemplate { content, .. } => content.as_str(),
        }
    }

    /// Whether the text was read for this call rather than built in.
    pub fn is_dynamic(&self) -> (r: bool)
        ensures
            r == (self is DynamicTemplate),
    {
        match self {
            Template::StaticTemplate { .. } => false,
            Template::DynamicTemplate { .. } => true,
        }
    }
}

} // verus!
