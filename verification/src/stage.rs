//! Shader stages and their tags.

use vstd::prelude::*;
use crate::text::same_text;

verus! {

/// The six shader stages a GLSL source can be compiled for.
#[derive(Clone, Copy, Debug, PartialEq, Eq, Structural)]
pub enum StageTag {
    Vertex,
    Fragment,
    Geometry,
    TessellationControl,
    TessellationEvaluation,
    Compute,
}

/// The tag by which a configuration names a stage.
pub open spec fn tag_text(stage: StageTag) -> Seq<char> {
    match stage {
        StageTag::Vertex => "vs"@,
        StageTag::Fragment => "fs"@,
        StageTag::Geometry => "gs"@,
        StageTag::TessellationControl => "tcs"@,
        StageTag::TessellationEvaluation => "tes"@,
        StageTag::Compute => "cs"@,
    }
}

/// The stage that a tag names, if it names one.
pub open spec fn stage_of_tag(tag: Seq<char>) -> Option<StageTag> {
    if tag == "vs"@ {
        Some(StageTag::Vertex)
    } else if tag == "fs"@ {
        Some(StageTag::Fragment)
    } else if tag == "gs"@ {
        Some(StageTag::Geometry)
    } else if tag == "tcs"@ {
        Some(StageTag::TessellationControl)
    } else if tag == "tes"@ {
        Some(StageTag::TessellationEvaluation)
    } else if tag == "cs"@ {
        Some(StageTag::Compute)
    } else {
        None
    }
}

/// The six tags are pairwise different.
pub proof fn lemma_tags_distinct(a: StageTag, b: StageTag)
    ensures
        tag_text(a) == tag_text(b) <==> a == b,
{
    reveal_strlit("vs");
    reveal_strlit("fs");
    reveal_strlit("gs");
    reveal_strlit("tcs");
    reveal_strlit("tes");
    reveal_strlit("cs");
    if a != b {
        let ta = tag_text(a);
        let tb = tag_text(b);
        assert(ta.len() != tb.len() || ta[0] != tb[0] || ta[1] != tb[1]);
    }
}

/// Tags and stages correspond one to one: a stage's own tag names that stage,
/// and a tag names a stage only if it is that stage's tag.
pub proof fn lemma_tag_names_one_stage(tag: Seq<char>, stage: StageTag)
    ensures
        stage_of_tag(tag) == Some(stage) <==> tag == tag_text(stage),
{
    lemma_tags_distinct(stage, StageTag::Vertex);
    lemma_tags_distinct(stage, StageTag::Fragment);
    lemma_tags_distinct(stage, StageTag::Geometry);
    lemma_tags_distinct(stage, StageTag::TessellationControl);
    lemma_tags_distinct(stage, StageTag::TessellationEvaluation);
    lemma_tags_distinct(stage, StageTag::Compute);
}

impl StageTag {
    /// Reads a stage tag: `vs`, `fs`, `gs`, `tcs`, `tes` or `cs`. Any other
    /// text names no stage.
    pub fn from_tag(tag: &str) -> (stage: Option<StageTag>)
        ensures
            stage == stage_of_tag(tag@),
    {
        if same_text(tag, "vs") {
            Some(StageTag::Vertex)
        } else if same_text(tag, "fs") {
            Some(StageTag::Fragment)
        } else if same_text(tag, "gs") {
            Some(StageTag::Geometry)
        } else if same_text(tag, "tcs") {
            Some(StageTag::TessellationControl)
        } else if same_text(tag, "tes") {
            Some(StageTag::TessellationEvaluation)
        } else if same_text(tag, "cs") {
            Some(StageTag::Compute)
        } else {
            None
        }
    }

    /// The stage's tag.
    pub fn tag(self) -> (tag: &'static str)
        ensures
            tag@ == tag_text(self),
    {
        match self {
            StageTag::Vertex => "vs",
            StageTag::Fragment => "fs",
            StageTag::Geometry => "gs",
            StageTag::TessellationControl => "tcs",
            StageTag::TessellationEvaluation => "tes",
            StageTag::Compute => "cs",
        }
    }
}

} // verus!
