use vstd::prelude::*;

use crate::style::PenStyle;

verus! {

/// The pen dispatcher's state: the selected style, a transient override that
/// lasts for one gesture, and whether a gesture is in progress.
///
/// Each gesture call (`begin`, `motion`, `end`, `draw`) updates this state and
/// returns the tool that the call goes to, so that the caller, which owns the
/// five tools, forwards it there.
#[derive(PartialEq, Eq, Structural, Clone, Copy, Debug)]
pub struct Pens {
    pub style: PenStyle,
    pub style_overwrite: Option<PenStyle>,
    pen_shown: bool,
}

/// The mathematical model of `Pens`.
pub struct PensModel {
    pub style: PenStyle,
    pub style_overwrite: Option<PenStyle>,
    pub shown: bool,
}

impl PensModel {
    /// The style that calls are routed by: the override if set, else the style.
    pub open spec fn effective_style(self) -> PenStyle {
        match self.style_overwrite {
            Some(s) => s,
            None => self.style,
        }
    }

    /// The state that is saved.
    pub open spec fn saved(self) -> PensState {
        PensState { style: self.style, style_overwrite: self.style_overwrite }
    }

    /// The model rebuilt from a saved state: the selected style alone, since
    /// neither the override nor the gesture outlives a session.
    pub open spec fn restored(s: PensState) -> PensModel {
        PensModel { style: s.style, style_overwrite: None, shown: false }
    }
}

impl View for Pens {
    type V = PensModel;

    closed spec fn view(&self) -> PensModel {
        PensModel {
            style: self.style,
            style_overwrite: self.style_overwrite,
            shown: self.pen_shown,
        }
    }
}

/// The record under which the pen state is saved. The override is written
/// along with the style but is never restored from it.
#[derive(PartialEq, Eq, Structural, Clone, Copy, Debug)]
pub struct PensState {
    pub style: PenStyle,
    pub style_overwrite: Option<PenStyle>,
}

impl Default for PensState {
    /// A missing field reads as the brush, without override.
    fn default() -> (r: Self)
        ensures
            r.style == PenStyle::BrushStyle,
            r.style_overwrite is None,
    {
        PensState { style: PenStyle::default(), style_overwrite: None }
    }
}

impl Default for Pens {
    /// The brush is selected, nothing overrides it, and no gesture runs.
    fn default() -> (r: Self)
        ensures
            r@.style == PenStyle::BrushStyle,
            r@.style_overwrite is None,
            !r@.shown,
    {
        Pens { style: PenStyle::default(), style_overwrite: None, pen_shown: false }
    }
}

impl Pens {
    /// Whether a gesture is in progress.
    pub fn pen_shown(&self) -> (r: bool)
        ensures
            r == self@.shown,
    {
        self.pen_shown
    }

    /// The style that calls are routed by.
    pub fn current_style(&self) -> (r: PenStyle)
        ensures
            r == self@.effective_style(),
    {
        self.style_overwrite.unwrap_or(self.style)
    }

    /// Selects `style`; a running gesture goes on with it unless an override
    /// is set.
    pub fn set_style(&mut self, style: PenStyle)
        ensures
            final(self)@ == (PensModel { style, ..old(self)@ }),
    {
        self.style = style;
    }

    /// Sets or clears the override, which holds until the current gesture ends.
    pub fn set_style_overwrite(&mut self, style_overwrite: Option<PenStyle>)
        ensures
            final(self)@ == (PensModel { style_overwrite, ..old(self)@ }),
    {
        self.style_overwrite = style_overwrite;
    }

    /// Starts a gesture: the pen is shown from now on, and the call goes to
    /// the tool of the effective style.
    pub fn begin(&mut self) -> (target: PenStyle)
        ensures
            target == old(self)@.effective_style(),
            final(self)@.shown,
            final(self)@.style == old(self)@.style,
            final(self)@.style_overwrite == old(self)@.style_overwrite,
    {
        self.pen_shown = true;
        self.current_style()
    }

    /// Continues a gesture: the state stays as it is, and the call goes to the
    /// tool of the effective style as it is now.
    pub fn motion(&self) -> (target: PenStyle)
        ensures
            target == self@.effective_style(),
    {
        self.current_style()
    }

    /// Ends a gesture: the call goes to the tool of the effective style, then
    /// the pen is hidden and the override is dropped.
    pub fn end(&mut self) -> (target: PenStyle)
        ensures
            target == old(self)@.effective_style(),
            !final(self)@.shown,
            final(self)@.style_overwrite is None,
            final(self)@.style == old(self)@.style,
    {
        let target = self.current_style();
        self.pen_shown = false;
        self.style_overwrite = None;
        target
    }

    /// The tool whose drawing is asked for: none while no gesture runs, in
    /// which case drawing succeeds at once; else the tool of the effective
    /// style, whose result is the result of the drawing.
    pub fn draw(&self) -> (target: Option<PenStyle>)
        ensures
            target == (if self@.shown {
                Some(self@.effective_style())
            } else {
                None::<PenStyle>
            }),
    {
        if self.pen_shown {
            Some(self.current_style())
        } else {
            None
        }
    }

    /// The state to save.
    pub fn to_state(&self) -> (r: PensState)
        ensures
            r == self@.saved(),
    {
        PensState { style: self.style, style_overwrite: self.style_overwrite }
    }

    /// The pens as a saved state restores them: the saved style, with no
    /// override and no gesture in progress.
    pub fn from_state(s: PensState) -> (r: Pens)
        ensures
            r@ == PensModel::restored(s),
    {
        Pens { style: s.style, style_overwrite: None, pen_shown: false }
    }
}

/// Saving pens and restoring them keeps the selected style, drops the
/// override, and shows no gesture, whatever the saved pens held; so the
/// restored pens route by the saved style.
pub proof fn lemma_save_restore(p: PensModel)
    ensures
        PensModel::restored(p.saved()).style == p.style,
        PensModel::restored(p.saved()).style_overwrite is None,
        !PensModel::restored(p.saved()).shown,
        PensModel::restored(p.saved()).effective_style() == p.style,
{
}

} // verus!
