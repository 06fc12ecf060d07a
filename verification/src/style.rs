//! How a shape is painted: an optional fill colour and an optional stroke
//! with its colour. The colour type `C` and the stroke type `S` are left to
//! the renderer.

use vstd::prelude::*;

verus! {

/// How a shape is painted.
#[derive(Debug, Clone)]
pub struct Style<C, S> {
    pub fill: Option<C>,
    pub stroke: Option<(C, S)>,
}

impl<C, S> Default for Style<C, S> {
    fn default() -> (s: Self)
        ensures
            s.fill is None,
            s.stroke is None,
    {
        Style { fill: None, stroke: None }
    }
}

/// The stroke `stroke` painted in `color` instead of its own colour.
pub open spec fn recolored_stroke<C, S>(stroke: Option<(C, S)>, color: C) -> Option<(C, S)> {
    match stroke {
        Some((_, s)) => Some((color, s)),
        None => None,
    }
}

/// The fill `fill` painted in `color` instead of its own colour.
pub open spec fn recolored_fill<C>(fill: Option<C>, color: C) -> Option<C> {
    match fill {
        Some(_) => Some(color),
        None => None,
    }
}

impl<C, S> Style<C, S> {
    /// A style that paints nothing.
    pub fn new() -> (s: Self)
        ensures
            s.fill is None,
            s.stroke is None,
    {
        Style { fill: None, stroke: None }
    }

    /// A style that fills with `color` and draws no outline.
    pub fn filled(color: C) -> (s: Self)
        ensures
            s.fill == Some(color),
            s.stroke is None,
    {
        Style { fill: Some(color), stroke: None }
    }

    /// A style that draws the outline `stroke` in `color` and does not fill.
    pub fn stroked(color: C, stroke: S) -> (s: Self)
        ensures
            s.fill is None,
            s.stroke == Some((color, stroke)),
    {
        Style { fill: None, stroke: Some((color, stroke)) }
    }

    /// A style that fills with `fill` and draws the outline `stroke` in
    /// `stroke_color`.
    pub fn filled_and_stroked(fill: C, stroke_color: C, stroke: S) -> (s: Self)
        ensures
            s.fill == Some(fill),
            s.stroke == Some((stroke_color, stroke)),
    {
        Style { fill: Some(fill), stroke: Some((stroke_color, stroke)) }
    }

    /// Paints the fill, if there is one, in `color`; the stroke is kept.
    pub fn set_fill_color(&mut self, color: C)
        ensures
            final(self).fill == recolored_fill(old(self).fill, color),
            final(self).stroke == old(self).stroke,
    {
        if self.fill.is_some() {
            self.fill = Some(color);
        }
    }

    /// Paints the stroke, if there is one, in `color`; its other settings
    /// and the fill are kept.
    pub fn set_stroke_color(&mut self, color: C)
        ensures
            final(self).fill == old(self).fill,
            final(self).stroke == recolored_stroke(old(self).stroke, color),
    {
        let stroke = self.stroke.take();
        self.stroke = match stroke {
            Some((_, s)) => Some((color, s)),
            None => None,
        };
    }

    /// Paints both the fill and the stroke, those that there are, in `color`.
    pub fn set_color(&mut self, color: C)
        where
            C: Copy,
        ensures
            final(self).fill == recolored_fill(old(self).fill, color),
            final(self).stroke == recolored_stroke(old(self).stroke, color),
    {
        self.set_fill_color(color);
        self.set_stroke_color(color);
    }
}

} // verus!
