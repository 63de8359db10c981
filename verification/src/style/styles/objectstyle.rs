//! The style that is applied to something that is printed.

use crate::style::{Attribute, Color};
use vstd::prelude::*;

verus! {

/// The colours and attributes that something is printed with.
#[derive(Clone, Debug, PartialEq, Eq)]
pub struct ObjectStyle {
    pub fg_color: Option<Color>,
    pub bg_color: Option<Color>,
    pub attrs: Vec<Attribute>,
}

/// Something to print, with the style to print it in.
#[derive(Clone, Debug, PartialEq, Eq)]
pub struct StyledObject<D> {
    pub object_style: ObjectStyle,
    pub content: D,
}

impl Default for ObjectStyle {
    /// White on black, with no attributes.
    fn default() -> (style: ObjectStyle)
        ensures
            style.fg_color == Some(Color::White),
            style.bg_color == Some(Color::Black),
            style.attrs@ == Seq::<Attribute>::empty(),
    {
        ObjectStyle {
            fg_color: Some(Color::White),
            bg_color: Some(Color::Black),
            attrs: Vec::new(),
        }
    }
}

impl ObjectStyle {
    /// Puts `val` together with a copy of this style.
    pub fn apply_to<D>(&self, val: D) -> (styled: StyledObject<D>)
        ensures
            styled.content == val,
            styled.object_style.fg_color == self.fg_color,
            styled.object_style.bg_color == self.bg_color,
            styled.object_style.attrs@ == self.attrs@,
    {
        let mut attrs: Vec<Attribute> = Vec::new();
        let mut i: usize = 0;
        while i < self.attrs.len()
            invariant
                i <= self.attrs.len(),
                attrs@ == self.attrs@.take(i as int),
            decreases self.attrs.len() - i,
        {
            attrs.push(self.attrs[i]);
            assert(self.attrs@.take(i + 1) =~= self.attrs@.take(i as int).push(
                self.attrs@[i as int],
            ));
            i += 1;
        }
        assert(self.attrs@.take(i as int) =~= self.attrs@);
        StyledObject {
            object_style: ObjectStyle { fg_color: self.fg_color, bg_color: self.bg_color, attrs },
            content: val,
        }
    }

    /// A style that sets nothing.
    pub fn new() -> (style: ObjectStyle)
        ensures
            style.fg_color is None,
            style.bg_color is None,
            style.attrs@ == Seq::<Attribute>::empty(),
    {
        return ObjectStyle { fg_color: None, bg_color: None, attrs: Vec::new() };
    }

    /// The style with the background colour set.
    pub fn bg(self, color: Color) -> (style: ObjectStyle)
        ensures
            style.bg_color == Some(color),
            style.fg_color == self.fg_color,
            style.attrs@ == self.attrs@,
    {
        let mut style = self;
        style.bg_color = Some(color);
        style
    }

    /// The style with the foreground colour set.
    pub fn fg(self, color: Color) -> (style: ObjectStyle)
        ensures
            style.fg_color == Some(color),
            style.bg_color == self.bg_color,
            style.attrs@ == self.attrs@,
    {
        let mut style = self;
        style.fg_color = Some(color);
        style
    }

    /// Adds an attribute after those that the style has.
    pub fn add_attr(&mut self, attr: Attribute)
        ensures
            final(self).attrs@ == old(self).attrs@.push(attr),
            final(self).fg_color == old(self).fg_color,
            final(self).bg_color == old(self).bg_color,
    {
        self.attrs.push(attr);
    }
}

} // verus!
