//! Compound styles: optional colors plus a set of text attributes.

use vstd::prelude::*;

use crate::output::{bg_bytes, fg_bytes, styled_bytes, write_styled, write_fg, write_bg};
use crate::styled_char::StyledChar;
use crossterm::style::{Attribute, Color};

verus! {

use vstd::string::StringExecFns;

/// A style which may be applied to a piece of content: an optional
/// foreground color, an optional background color and a collection of text
/// attributes. An absent color slot means "inherit the terminal default".
/// Attributes are kept as a list; duplicates are inert, since rendering
/// depends only on the set of attributes present.
pub struct CompoundStyle {
    pub fg: Option<Color>,
    pub bg: Option<Color>,
    pub attrs: Vec<Attribute>,
}

/// The color a merged slot holds: the overriding style's color where it
/// defines one, the base style's own otherwise.
pub open spec fn merged_color(base: Option<Color>, over: Option<Color>) -> Option<Color> {
    if over is Some {
        over
    } else {
        base
    }
}

/// `s` repeated `n` times.
pub open spec fn repeat_chars(s: Seq<char>, n: nat) -> Seq<char>
    decreases n,
{
    if n == 0 {
        Seq::empty()
    } else {
        repeat_chars(s, (n - 1) as nat) + s
    }
}

impl CompoundStyle {
    /// The set of attributes this style carries; rendering depends on the
    /// attributes only through this set.
    pub open spec fn attr_set(&self) -> Set<Attribute> {
        self.attrs@.to_set()
    }

    /// The bytes queued when `text` is rendered under this style.
    pub open spec fn rendered(&self, text: Seq<char>) -> Seq<u8> {
        styled_bytes(self.fg, self.bg, self.attr_set(), text)
    }

    /// True when the two styles hold the same colors and the same attribute
    /// list, and therefore render every text identically.
    pub open spec fn same_style(&self, other: CompoundStyle) -> bool {
        self.fg == other.fg && self.bg == other.bg && self.attrs@ == other.attrs@
    }

    /// A new style from its three parts.
    pub fn new(fg: Option<Color>, bg: Option<Color>, attrs: Vec<Attribute>) -> (s: CompoundStyle)
        ensures
            s.fg == fg,
            s.bg == bg,
            s.attrs == attrs,
    {
        CompoundStyle { fg, bg, attrs }
    }

    /// A style with both colors set and no attribute.
    pub fn with_fgbg(fg: Color, bg: Color) -> (s: CompoundStyle)
        ensures
            s.fg == Some(fg),
            s.bg == Some(bg),
            s.attrs@ == Seq::<Attribute>::empty(),
    {
        CompoundStyle { fg: Some(fg), bg: Some(bg), attrs: Vec::new() }
    }

    /// A style with only the foreground color set.
    pub fn with_fg(fg: Color) -> (s: CompoundStyle)
        ensures
            s.fg == Some(fg),
            s.bg is None,
            s.attrs@ == Seq::<Attribute>::empty(),
    {
        CompoundStyle { fg: Some(fg), bg: None, attrs: Vec::new() }
    }

    /// A style with only the background color set.
    pub fn with_bg(bg: Color) -> (s: CompoundStyle)
        ensures
            s.fg is None,
            s.bg == Some(bg),
            s.attrs@ == Seq::<Attribute>::empty(),
    {
        CompoundStyle { fg: None, bg: Some(bg), attrs: Vec::new() }
    }

    /// A style with no color and one attribute.
    pub fn with_attr(attr: Attribute) -> (s: CompoundStyle)
        ensures
            s.fg is None,
            s.bg is None,
            s.attrs@ == seq![attr],
    {
        let mut s = CompoundStyle { fg: None, bg: None, attrs: Vec::new() };
        s.add_attr(attr);
        proof {
            assert(s.attrs@ =~= seq![attr]);
        }
        s
    }

    /// Overwrite the foreground color slot.
    pub fn set_fg(&mut self, color: Color)
        ensures
            final(self).fg == Some(color),
            final(self).bg == old(self).bg,
            final(self).attrs == old(self).attrs,
    {
        self.fg = Some(color);
    }

    /// Overwrite the background color slot.
    pub fn set_bg(&mut self, color: Color)
        ensures
            final(self).fg == old(self).fg,
            final(self).bg == Some(color),
            final(self).attrs == old(self).attrs,
    {
        self.bg = Some(color);
    }

    /// Overwrite both color slots.
    pub fn set_fgbg(&mut self, fg: Color, bg: Color)
        ensures
            final(self).fg == Some(fg),
            final(self).bg == Some(bg),
            final(self).attrs == old(self).attrs,
    {
        self.fg = Some(fg);
        self.bg = Some(bg);
    }

    /// Append an attribute, like italic, underlined or bold. Appending one
    /// that is already present has no effect on rendering.
    pub fn add_attr(&mut self, attr: Attribute)
        ensures
            final(self).fg == old(self).fg,
            final(self).bg == old(self).bg,
            final(self).attrs@ == old(self).attrs@.push(attr),
    {
        self.attrs.push(attr);
    }

    /// Merge the defined characteristics of `other` into `self`: each color
    /// slot takes `other`'s value where `other` defines one and keeps its
    /// own otherwise, and the attribute list is extended with `other`'s
    /// attributes.
    pub fn overwrite_with(&mut self, other: &CompoundStyle)
        ensures
            final(self).fg == merged_color(old(self).fg, other.fg),
            final(self).bg == merged_color(old(self).bg, other.bg),
            final(self).attrs@ == old(self).attrs@ + other.attrs@,
    {
        let ghost base = self.attrs@;
        let mut i: usize = 0;
        while i < other.attrs.len()
            invariant
                i <= other.attrs.len(),
                self.attrs@ == base + other.attrs@.subrange(0, i as int),
                self.fg == old(self).fg,
                self.bg == old(self).bg,
            decreases other.attrs.len() - i,
        {
            let a = other.attrs[i];
            self.attrs.push(a);
            i = i + 1;
            proof {
                assert(other.attrs@.subrange(0, i as int)
                    =~= other.attrs@.subrange(0, (i - 1) as int).push(a));
            }
        }
        proof {
            assert(other.attrs@.subrange(0, other.attrs@.len() as int) =~= other.attrs@);
        }
        if other.fg.is_some() {
            self.fg = other.fg;
        }
        if other.bg.is_some() {
            self.bg = other.bg;
        }
    }

    /// The foreground color slot.
    pub fn get_fg(&self) -> (c: Option<Color>)
        ensures
            c == self.fg,
    {
        self.fg
    }

    /// The background color slot.
    pub fn get_bg(&self) -> (c: Option<Color>)
        ensures
            c == self.bg,
    {
        self.bg
    }

    /// Wrap a text so that rendering the pair emits the text under a copy
    /// of this style; the style itself is not changed.
    pub fn apply_to(&self, text: String) -> (st: StyledText)
        ensures
            st.style.same_style(*self),
            st.text == text,
    {
        StyledText { style: self.clone(), text }
    }

    /// Queue `count` copies of `s` onto the buffer as one single styled
    /// write; `count == 0` queues nothing at all.
    pub fn repeat_string(&self, w: &mut Vec<u8>, s: &str, count: usize)
        ensures
            final(w)@ == old(w)@ + (if count == 0 {
                Seq::<u8>::empty()
            } else {
                self.rendered(repeat_chars(s@, count as nat))
            }),
    {
        if count == 0 {
            proof {
                assert(old(w)@ + Seq::<u8>::empty() =~= old(w)@);
            }
            return ;
        }
        let mut text = String::new();
        let mut i: usize = 0;
        while i < count
            invariant
                i <= count,
                text@ == repeat_chars(s@, i as nat),
            decreases count - i,
        {
            text.append(s);
            i = i + 1;
        }
        self.queue_str(w, text.as_str());
    }

    /// Queue `count` spaces onto the buffer as one single styled write;
    /// `count == 0` queues nothing at all.
    pub fn repeat_space(&self, w: &mut Vec<u8>, count: usize)
        ensures
            final(w)@ == old(w)@ + (if count == 0 {
                Seq::<u8>::empty()
            } else {
                self.rendered(repeat_chars(seq![' '], count as nat))
            }),
    {
        proof {
            reveal_strlit(" ");
            assert(" "@ =~= seq![' ']);
        }
        self.repeat_string(w, " ", count);
    }

    /// Queue the value, rendered under this style, onto the buffer.
    pub fn queue(&self, w: &mut Vec<u8>, val: &String)
        ensures
            final(w)@ == old(w)@ + self.rendered(val@),
    {
        self.queue_str(w, val.as_str());
    }

    /// Queue the string, rendered under this style, onto the buffer.
    pub fn queue_str(&self, w: &mut Vec<u8>, s: &str)
        ensures
            final(w)@ == old(w)@ + self.rendered(s@),
    {
        write_styled(w, self.fg, self.bg, &self.attrs, s);
    }

    /// Queue the escape sequence selecting this style's foreground color;
    /// queue nothing when the slot is absent.
    pub fn queue_fg(&self, w: &mut Vec<u8>)
        ensures
            final(w)@ == old(w)@ + (match self.fg {
                Some(c) => fg_bytes(c),
                None => Seq::<u8>::empty(),
            }),
    {
        match self.fg {
            Some(c) => write_fg(w, c),
            None => {
                proof {
                    assert(old(w)@ + Seq::<u8>::empty() =~= old(w)@);
                }
            },
        }
    }

    /// Queue the escape sequence selecting this style's background color;
    /// queue nothing when the slot is absent.
    pub fn queue_bg(&self, w: &mut Vec<u8>)
        ensures
            final(w)@ == old(w)@ + (match self.bg {
                Some(c) => bg_bytes(c),
                None => Seq::<u8>::empty(),
            }),
    {
        match self.bg {
            Some(c) => write_bg(w, c),
            None => {
                proof {
                    assert(old(w)@ + Seq::<u8>::empty() =~= old(w)@);
                }
            },
        }
    }

    /// Bind a copy of this style to one character, its rendered form
    /// already cached consistently.
    pub fn style_char(&self, nude_char: char) -> (sc: StyledChar)
        ensures
            sc.style_spec().same_style(*self),
            sc.char_spec() == nude_char,
            sc.well_formed(),
    {
        StyledChar::new(self.clone(), nude_char)
    }
}

impl Clone for CompoundStyle {
    /// An identical style: same colors, same attribute list.
    fn clone(&self) -> (s: Self)
        ensures
            s.same_style(*self),
    {
        CompoundStyle { fg: self.fg, bg: self.bg, attrs: copy_attrs(&self.attrs) }
    }
}

impl Default for CompoundStyle {
    /// The style that inherits everything: no color, no attribute.
    fn default() -> (s: Self)
        ensures
            s.fg is None,
            s.bg is None,
            s.attrs@ == Seq::<Attribute>::empty(),
    {
        CompoundStyle { fg: None, bg: None, attrs: Vec::new() }
    }
}

/// A text bound to the style it is to be rendered under.
pub struct StyledText {
    pub style: CompoundStyle,
    pub text: String,
}

impl StyledText {
    /// Queue the text, rendered under the bound style, onto the buffer.
    pub fn queue(&self, w: &mut Vec<u8>)
        ensures
            final(w)@ == old(w)@ + self.style.rendered(self.text@),
    {
        self.style.queue_str(w, self.text.as_str());
    }
}

/// Law: a merge is right-biased per color slot — the result takes the
/// overriding style's color exactly where that style defines one — and at
/// the level of sets the merged attribute list carries exactly the union of
/// both inputs' attribute sets, so a superset of each.
pub proof fn lemma_merged_attr_set(a: Seq<Attribute>, b: Seq<Attribute>)
    ensures
        (a + b).to_set() == a.to_set().union(b.to_set()),
        a.to_set().subset_of((a + b).to_set()),
        b.to_set().subset_of((a + b).to_set()),
{
    assert forall|x: Attribute|
        (a + b).contains(x) <==> (a.contains(x) || b.contains(x)) by {
        if a.contains(x) {
            let i = choose|i: int| 0 <= i < a.len() && a[i] == x;
            assert((a + b)[i] == x);
        }
        if b.contains(x) {
            let i = choose|i: int| 0 <= i < b.len() && b[i] == x;
            assert((a + b)[a.len() + i] == x);
        }
        if (a + b).contains(x) {
            let i = choose|i: int| 0 <= i < (a + b).len() && (a + b)[i] == x;
            if i < a.len() {
                assert(a[i] == x);
            } else {
                assert(b[i - a.len()] == x);
            }
        }
    }
    assert((a + b).to_set() =~= a.to_set().union(b.to_set()));
}

/// Law: layered merging is associative: taking a base style and merging
/// `b`, then `c` into it leaves the same colors and the same attribute list
/// as first merging `c` into `b` and then the result into the base.
pub proof fn lemma_merge_associative(
    a_fg: Option<Color>,
    b_fg: Option<Color>,
    c_fg: Option<Color>,
    a_attrs: Seq<Attribute>,
    b_attrs: Seq<Attribute>,
    c_attrs: Seq<Attribute>,
)
    ensures
        merged_color(merged_color(a_fg, b_fg), c_fg) == merged_color(a_fg, merged_color(b_fg, c_fg)),
        (a_attrs + b_attrs) + c_attrs == a_attrs + (b_attrs + c_attrs),
{
    assert((a_attrs + b_attrs) + c_attrs =~= a_attrs + (b_attrs + c_attrs));
}

/// Law: a style that carries the same colors and the same set of attributes
/// as another renders every text to the very same bytes; the order and
/// multiplicity of the attribute list never matter. In particular a style
/// rebuilt from another's parts renders identically to the original.
pub proof fn lemma_same_parts_render_identically(
    a: CompoundStyle,
    b: CompoundStyle,
    text: Seq<char>,
)
    requires
        a.fg == b.fg,
        a.bg == b.bg,
        a.attr_set() == b.attr_set(),
    ensures
        a.rendered(text) == b.rendered(text),
{
}

/// Law: appending an attribute that a style already carries leaves the
/// rendering of every text unchanged: repeated attributes are inert.
pub proof fn lemma_duplicate_attr_inert(s: CompoundStyle, attr: Attribute, text: Seq<char>)
    requires
        s.attrs@.contains(attr),
    ensures
        styled_bytes(s.fg, s.bg, s.attrs@.push(attr).to_set(), text) == s.rendered(text),
{
    let pushed = s.attrs@.push(attr);
    assert forall|x: Attribute| pushed.contains(x) <==> s.attrs@.contains(x) by {
        if s.attrs@.contains(x) {
            let i = choose|i: int| 0 <= i < s.attrs@.len() && s.attrs@[i] == x;
            assert(pushed[i] == x);
        }
        if pushed.contains(x) {
            let i = choose|i: int| 0 <= i < pushed.len() && pushed[i] == x;
            if i < s.attrs@.len() {
                assert(s.attrs@[i] == x);
            }
        }
    }
    assert(pushed.to_set() =~= s.attrs@.to_set());
}

fn copy_attrs(v: &Vec<Attribute>) -> (r: Vec<Attribute>)
    ensures
        r@ == v@,
{
    let mut r: Vec<Attribute> = Vec::new();
    let mut i: usize = 0;
    while i < v.len()
        invariant
            i <= v.len(),
            r@ == v@.subrange(0, i as int),
        decreases v.len() - i,
    {
        r.push(v[i]);
        i = i + 1;
        proof {
            assert(v@.subrange(0, i as int) =~= v@.subrange(0, (i - 1) as int).push(v@[i - 1]));
        }
    }
    proof {
        assert(v@.subrange(0, v@.len() as int) =~= v@);
    }
    r
}

} // verus!
