use crossterm::style::{Attribute, Color};
use termview::{CompoundStyle, StyledChar};

#[test]
fn merge_is_right_biased_where_other_defines() {
    let mut a = CompoundStyle::new(Some(Color::Red), Some(Color::Blue), vec![Attribute::Bold]);
    let b = CompoundStyle::new(Some(Color::Yellow), None, vec![Attribute::Italic]);
    a.overwrite_with(&b);
    assert_eq!(a.get_fg(), Some(Color::Yellow));
    assert_eq!(a.get_bg(), Some(Color::Blue));
    assert!(a.attrs.contains(&Attribute::Bold));
    assert!(a.attrs.contains(&Attribute::Italic));
}

#[test]
fn merge_keeps_own_color_where_other_is_absent() {
    let mut a = CompoundStyle::with_fgbg(Color::Green, Color::Black);
    let b = CompoundStyle::new(None, None, Vec::new());
    a.overwrite_with(&b);
    assert_eq!(a.get_fg(), Some(Color::Green));
    assert_eq!(a.get_bg(), Some(Color::Black));
}

#[test]
fn repeat_count_zero_writes_nothing() {
    let style = CompoundStyle::with_fgbg(Color::Red, Color::Blue);
    let mut w: Vec<u8> = Vec::new();
    style.repeat_string(&mut w, "x", 0);
    assert!(w.is_empty());
    style.repeat_space(&mut w, 0);
    assert!(w.is_empty());
    let sc = style.style_char('x');
    sc.queue_repeat(&mut w, 0);
    assert!(w.is_empty());
}

#[test]
fn repeat_five_is_one_styled_write() {
    let style = CompoundStyle::with_fg(Color::Red);
    let mut repeated: Vec<u8> = Vec::new();
    style.repeat_string(&mut repeated, "x", 5);
    let mut single: Vec<u8> = Vec::new();
    style.queue_str(&mut single, "xxxxx");
    assert_eq!(repeated, single);
    let mut five_writes: Vec<u8> = Vec::new();
    for _ in 0..5 {
        style.queue_str(&mut five_writes, "x");
    }
    // the escape sequences are emitted once, not five times
    assert!(repeated.len() < five_writes.len());
    assert_eq!(
        five_writes.iter().filter(|&&b| b == 0x1b).count(),
        5 * repeated.iter().filter(|&&b| b == 0x1b).count()
    );
}

#[test]
fn styled_char_cache_never_stale() {
    let style = CompoundStyle::with_fgbg(Color::Magenta, Color::Black);
    let mut sc = StyledChar::new(style, 'x');
    sc.set_char('y');
    let mut after_mutation: Vec<u8> = Vec::new();
    sc.queue(&mut after_mutation);
    let fresh_y = CompoundStyle::with_fgbg(Color::Magenta, Color::Black).style_char('y');
    let mut fresh: Vec<u8> = Vec::new();
    fresh_y.queue(&mut fresh);
    assert_eq!(after_mutation, fresh);
    let fresh_x = CompoundStyle::with_fgbg(Color::Magenta, Color::Black).style_char('x');
    let mut stale: Vec<u8> = Vec::new();
    fresh_x.queue(&mut stale);
    assert_ne!(after_mutation, stale);
}

#[test]
fn styled_char_set_fg_rerenders() {
    let mut sc = StyledChar::from_fg_char(Color::Red, '*');
    sc.set_fg(Color::Green);
    let mut w: Vec<u8> = Vec::new();
    sc.queue(&mut w);
    let mut green: Vec<u8> = Vec::new();
    StyledChar::from_fg_char(Color::Green, '*').queue(&mut green);
    assert_eq!(w, green);
}

#[test]
fn styled_char_set_compound_style_rerenders() {
    let mut sc = StyledChar::from_fg_char(Color::Red, '*');
    sc.set_compound_style(CompoundStyle::with_bg(Color::Blue));
    let mut w: Vec<u8> = Vec::new();
    sc.queue(&mut w);
    let mut expected: Vec<u8> = Vec::new();
    CompoundStyle::with_bg(Color::Blue).queue_str(&mut expected, "*");
    assert_eq!(w, expected);
}

#[test]
fn rebuilt_style_renders_byte_identically() {
    let s1 = CompoundStyle::new(
        Some(Color::AnsiValue(178)),
        Some(Color::Blue),
        vec![Attribute::Bold, Attribute::Underlined],
    );
    let triple = (s1.get_fg(), s1.get_bg(), s1.attrs.clone());
    let s2 = CompoundStyle::new(triple.0, triple.1, triple.2);
    let mut w1: Vec<u8> = Vec::new();
    s1.queue_str(&mut w1, "hello");
    let mut w2: Vec<u8> = Vec::new();
    s2.queue_str(&mut w2, "hello");
    assert_eq!(w1, w2);
}

#[test]
fn duplicate_attribute_is_inert() {
    let mut once = CompoundStyle::with_attr(Attribute::Bold);
    let mut twice = CompoundStyle::with_attr(Attribute::Bold);
    twice.add_attr(Attribute::Bold);
    let mut w1: Vec<u8> = Vec::new();
    once.queue_str(&mut w1, "t");
    let mut w2: Vec<u8> = Vec::new();
    twice.queue_str(&mut w2, "t");
    assert_eq!(w1, w2);
    once.set_fg(Color::Red);
    twice.set_fg(Color::Red);
    let mut w3: Vec<u8> = Vec::new();
    once.queue_str(&mut w3, "t");
    let mut w4: Vec<u8> = Vec::new();
    twice.queue_str(&mut w4, "t");
    assert_eq!(w3, w4);
}

#[test]
fn queue_fg_emits_nothing_for_absent_slot() {
    let plain = CompoundStyle::new(None, None, Vec::new());
    let mut w: Vec<u8> = Vec::new();
    plain.queue_fg(&mut w);
    plain.queue_bg(&mut w);
    assert!(w.is_empty());
}

#[test]
fn queue_fg_emits_escape_for_present_slot() {
    let style = CompoundStyle::with_fgbg(Color::Red, Color::Blue);
    let mut w: Vec<u8> = Vec::new();
    style.queue_fg(&mut w);
    assert!(!w.is_empty());
    assert_eq!(w[0], 0x1b);
    let fg_len = w.len();
    style.queue_bg(&mut w);
    assert!(w.len() > fg_len);
}

#[test]
fn queue_str_styles_the_text() {
    let style = CompoundStyle::with_fg(Color::Cyan);
    let mut w: Vec<u8> = Vec::new();
    style.queue_str(&mut w, "abc");
    assert_ne!(w, b"abc".to_vec());
    assert_eq!(w[0], 0x1b);
    assert!(w.windows(3).any(|win| win == b"abc"));
}

#[test]
fn queue_and_queue_str_agree() {
    let style = CompoundStyle::with_fg(Color::Cyan);
    let mut w1: Vec<u8> = Vec::new();
    style.queue(&mut w1, &String::from("abc"));
    let mut w2: Vec<u8> = Vec::new();
    style.queue_str(&mut w2, "abc");
    assert_eq!(w1, w2);
}

#[test]
fn apply_to_renders_like_queue_str() {
    let style = CompoundStyle::with_fgbg(Color::Yellow, Color::DarkBlue);
    let styled = style.apply_to(String::from("body"));
    let mut w1: Vec<u8> = Vec::new();
    styled.queue(&mut w1);
    let mut w2: Vec<u8> = Vec::new();
    style.queue_str(&mut w2, "body");
    assert_eq!(w1, w2);
}

#[test]
fn repeated_renders_like_queue_repeat() {
    let sc = StyledChar::from_fg_char(Color::Green, '-');
    let mut w1: Vec<u8> = Vec::new();
    sc.repeated(4).queue(&mut w1);
    let mut w2: Vec<u8> = Vec::new();
    sc.queue_repeat(&mut w2, 4);
    assert_eq!(w1, w2);
}

#[test]
fn plain_style_passes_text_through() {
    let plain = CompoundStyle::new(None, None, Vec::new());
    let mut w: Vec<u8> = Vec::new();
    plain.queue_str(&mut w, "bare");
    assert_eq!(w, b"bare".to_vec());
}

#[test]
fn setters_overwrite_slots() {
    let mut s = CompoundStyle::new(None, None, Vec::new());
    s.set_fg(Color::Red);
    s.set_bg(Color::Blue);
    assert_eq!(s.get_fg(), Some(Color::Red));
    assert_eq!(s.get_bg(), Some(Color::Blue));
    s.set_fgbg(Color::White, Color::Black);
    assert_eq!(s.get_fg(), Some(Color::White));
    assert_eq!(s.get_bg(), Some(Color::Black));
}

#[test]
fn layered_merging_is_associative() {
    let base = CompoundStyle::new(Some(Color::Red), None, vec![Attribute::Bold]);
    let mid = CompoundStyle::new(None, Some(Color::Blue), vec![Attribute::Italic]);
    let top = CompoundStyle::new(Some(Color::Green), None, vec![Attribute::Underlined]);

    let mut left = base.clone();
    left.overwrite_with(&mid);
    left.overwrite_with(&top);

    let mut folded = mid.clone();
    folded.overwrite_with(&top);
    let mut right = base.clone();
    right.overwrite_with(&folded);

    assert_eq!(left.get_fg(), right.get_fg());
    assert_eq!(left.get_bg(), right.get_bg());
    assert_eq!(left.attrs, right.attrs);
}
