//! A single character bound to a compound style, with its rendered form
//! cached.

use vstd::prelude::*;

use crate::compound_style::{repeat_chars, CompoundStyle, StyledText};
use crate::output::char_to_string;
use crossterm::style::Color;

verus! {

use vstd::string::StringExecFns;

/// A modifiable character which can be cheaply written or repeated: a
/// bullet, a horizontal-rule character or a scrollbar glyph. The bytes of
/// its rendered form are kept beside the style and the character, so that
/// writing it again and again costs no new style application; every mutation
/// recomputes that cache before it returns.
pub struct StyledChar {
    compound_style: CompoundStyle,
    nude_char: char,
    cached: Vec<u8>,
}

impl StyledChar {
    /// The style the character is rendered under.
    pub closed spec fn style_spec(&self) -> CompoundStyle {
        self.compound_style
    }

    /// The bare character.
    pub closed spec fn char_spec(&self) -> char {
        self.nude_char
    }

    /// The cache holds exactly the rendered form of the current style and
    /// character. Every constructor establishes this and every mutation
    /// re-establishes it, so a render never sees a stale cache.
    pub closed spec fn well_formed(&self) -> bool {
        self.cached@ == self.compound_style.rendered(seq![self.nude_char])
    }

    /// Bind `compound_style` to `nude_char`.
    pub fn new(compound_style: CompoundStyle, nude_char: char) -> (sc: StyledChar)
        ensures
            sc.style_spec() == compound_style,
            sc.char_spec() == nude_char,
            sc.well_formed(),
    {
        let cached = render_char(&compound_style, nude_char);
        StyledChar { compound_style, nude_char, cached }
    }

    /// Bind a foreground-only style to `nude_char`.
    pub fn from_fg_char(fg: Color, nude_char: char) -> (sc: StyledChar)
        ensures
            sc.style_spec().fg == Some(fg),
            sc.style_spec().bg is None,
            sc.style_spec().attrs@ == Seq::<crossterm::style::Attribute>::empty(),
            sc.char_spec() == nude_char,
            sc.well_formed(),
    {
        StyledChar::new(CompoundStyle::with_fg(fg), nude_char)
    }

    /// Change the character, keeping colors and attributes.
    pub fn set_char(&mut self, nude_char: char)
        ensures
            final(self).style_spec() == old(self).style_spec(),
            final(self).char_spec() == nude_char,
            final(self).well_formed(),
    {
        self.nude_char = nude_char;
        self.cached = render_char(&self.compound_style, self.nude_char);
    }

    /// Change the foreground color, keeping the character, the background
    /// color and the attributes.
    pub fn set_fg(&mut self, color: Color)
        ensures
            final(self).style_spec().fg == Some(color),
            final(self).style_spec().bg == old(self).style_spec().bg,
            final(self).style_spec().attrs == old(self).style_spec().attrs,
            final(self).char_spec() == old(self).char_spec(),
            final(self).well_formed(),
    {
        self.compound_style.set_fg(color);
        self.cached = render_char(&self.compound_style, self.nude_char);
    }

    /// Change the whole style, keeping the character.
    pub fn set_compound_style(&mut self, compound_style: CompoundStyle)
        ensures
            final(self).style_spec() == compound_style,
            final(self).char_spec() == old(self).char_spec(),
            final(self).well_formed(),
    {
        self.compound_style = compound_style;
        self.cached = render_char(&self.compound_style, self.nude_char);
    }

    /// A renderable made of `count` repetitions of the character, to be
    /// emitted under one single application of the style.
    pub fn repeated(&self, count: usize) -> (st: StyledText)
        ensures
            st.style.same_style(self.style_spec()),
            st.text@ == repeat_chars(seq![self.char_spec()], count as nat),
    {
        let one = char_to_string(self.nude_char);
        let mut text = String::new();
        let mut i: usize = 0;
        while i < count
            invariant
                i <= count,
                one@ == seq![self.char_spec()],
                text@ == repeat_chars(seq![self.char_spec()], i as nat),
            decreases count - i,
        {
            text.append(one.as_str());
            i = i + 1;
        }
        StyledText { style: self.compound_style.clone(), text }
    }

    /// Queue `count` copies of the character onto the buffer under one
    /// single style application; `count == 0` queues nothing at all.
    pub fn queue_repeat(&self, w: &mut Vec<u8>, count: usize)
        ensures
            final(w)@ == old(w)@ + (if count == 0 {
                Seq::<u8>::empty()
            } else {
                self.style_spec().rendered(repeat_chars(seq![self.char_spec()], count as nat))
            }),
    {
        let one = char_to_string(self.nude_char);
        self.compound_style.repeat_string(w, one.as_str(), count);
    }

    /// Queue the cached styled character onto the buffer.
    pub fn queue(&self, w: &mut Vec<u8>)
        requires
            self.well_formed(),
        ensures
            final(w)@ == old(w)@ + self.style_spec().rendered(seq![self.char_spec()]),
    {
        let ghost base = w@;
        let mut i: usize = 0;
        while i < self.cached.len()
            invariant
                i <= self.cached.len(),
                w@ == base + self.cached@.subrange(0, i as int),
            decreases self.cached.len() - i,
        {
            w.push(self.cached[i]);
            i = i + 1;
            proof {
                assert(self.cached@.subrange(0, i as int)
                    =~= self.cached@.subrange(0, (i - 1) as int).push(self.cached@[i - 1]));
            }
        }
        proof {
            assert(self.cached@.subrange(0, self.cached@.len() as int) =~= self.cached@);
        }
    }
}

/// The rendered bytes of one character under a style, in a fresh buffer.
fn render_char(style: &CompoundStyle, c: char) -> (v: Vec<u8>)
    ensures
        v@ == style.rendered(seq![c]),
{
    let mut v: Vec<u8> = Vec::new();
    let one = char_to_string(c);
    style.queue_str(&mut v, one.as_str());
    proof {
        assert(Seq::<u8>::empty() + style.rendered(seq![c]) =~= style.rendered(seq![c]));
    }
    v
}

} // verus!
