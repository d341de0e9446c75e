use vstd::prelude::*;

verus! {

/// Which of the five mutually exclusive pen tools is meant.
#[derive(PartialEq, Eq, Structural, Clone, Copy, Debug)]
pub enum PenStyle {
    BrushStyle,
    ShaperStyle,
    EraserStyle,
    SelectorStyle,
    ToolsStyle,
}

impl Default for PenStyle {
    /// The brush is the pen a fresh session starts with.
    fn default() -> (r: Self)
        ensures
            r == PenStyle::BrushStyle,
    {
        PenStyle::BrushStyle
    }
}

impl PenStyle {
    /// The stable tag under which a style is stored.
    pub open spec fn nick_spec(self) -> Seq<char> {
        match self {
            PenStyle::BrushStyle => "brush_style"@,
            PenStyle::ShaperStyle => "shaper_style"@,
            PenStyle::EraserStyle => "eraser_style"@,
            PenStyle::SelectorStyle => "selector_style"@,
            PenStyle::ToolsStyle => "tools_style"@,
        }
    }

    /// The style whose tag is `tag`, if any.
    pub open spec fn from_nick_spec(tag: Seq<char>) -> Option<PenStyle> {
        if tag == PenStyle::BrushStyle.nick_spec() {
            Some(PenStyle::BrushStyle)
        } else if tag == PenStyle::ShaperStyle.nick_spec() {
            Some(PenStyle::ShaperStyle)
        } else if tag == PenStyle::EraserStyle.nick_spec() {
            Some(PenStyle::EraserStyle)
        } else if tag == PenStyle::SelectorStyle.nick_spec() {
            Some(PenStyle::SelectorStyle)
        } else if tag == PenStyle::ToolsStyle.nick_spec() {
            Some(PenStyle::ToolsStyle)
        } else {
            None
        }
    }

    /// The tag under which this style is stored.
    pub fn nick(&self) -> (r: &'static str)
        ensures
            r@ == self.nick_spec(),
    {
        match self {
            PenStyle::BrushStyle => "brush_style",
            PenStyle::ShaperStyle => "shaper_style",
            PenStyle::EraserStyle => "eraser_style",
            PenStyle::SelectorStyle => "selector_style",
            PenStyle::ToolsStyle => "tools_style",
        }
    }

    /// Reads a stored tag back; `None` for a tag that names no style.
    pub fn from_nick(tag: &str) -> (r: Option<PenStyle>)
        ensures
            r == PenStyle::from_nick_spec(tag@),
    {
        let t = tag.to_owned();
        if t == "brush_style".to_owned() {
            Some(PenStyle::BrushStyle)
        } else if t == "shaper_style".to_owned() {
            Some(PenStyle::ShaperStyle)
        } else if t == "eraser_style".to_owned() {
            Some(PenStyle::EraserStyle)
        } else if t == "selector_style".to_owned() {
            Some(PenStyle::SelectorStyle)
        } else if t == "tools_style".to_owned() {
            Some(PenStyle::ToolsStyle)
        } else {
            None
        }
    }
}

/// Reading back the tag of a style gives that style again, so no two styles
/// share a tag.
pub proof fn lemma_nick_round_trip(s: PenStyle)
    ensures
        PenStyle::from_nick_spec(s.nick_spec()) == Some(s),
{
    reveal_strlit("brush_style");
    reveal_strlit("shaper_style");
    reveal_strlit("eraser_style");
    reveal_strlit("selector_style");
    reveal_strlit("tools_style");
    assert("brush_style"@[0] != "shaper_style"@[0]);
    assert("brush_style"@[0] != "eraser_style"@[0]);
    assert("brush_style"@[0] != "selector_style"@[0]);
    assert("brush_style"@[0] != "tools_style"@[0]);
    assert("shaper_style"@[1] != "selector_style"@[1]);
    assert("shaper_style"@[0] != "eraser_style"@[0]);
    assert("shaper_style"@[0] != "tools_style"@[0]);
    assert("eraser_style"@[0] != "selector_style"@[0]);
    assert("eraser_style"@[0] != "tools_style"@[0]);
    assert("selector_style"@[0] != "tools_style"@[0]);
}

} // verus!
