//! ANSI terminal escape sequences: cursor movement, graphics modes and colours,
//! and styled text built from them.
#![allow(non_snake_case)]
use vstd::prelude::*;
use crate::text::{dec, from_chars, push_dec, to_chars};

verus! {

/// The control sequence introducer, `ESC [`.
pub open spec fn csi() -> Seq<char> {
    seq!['\x1b', '[']
}

/// `ESC [ n c`: a sequence with one numeric parameter.
pub open spec fn seq1(n: nat, c: char) -> Seq<char> {
    csi() + dec(n) + seq![c]
}

/// `ESC [ 3/4 8 ; 2 ; r ; g ; b m`: a 24-bit colour, `lead` being `3` for the
/// foreground and `4` for the background.
pub open spec fn rgb_seq(lead: char, r: nat, g: nat, b: nat) -> Seq<char> {
    csi() + seq![lead, '8', ';', '2', ';'] + dec(r) + seq![';'] + dec(g) + seq![';'] + dec(b) + seq!['m']
}

/// Resets the foreground colour: `ESC [ 39 m`.
pub open spec fn fore_default() -> Seq<char> {
    seq1(39, 'm')
}

/// Resets the background colour: `ESC [ 49 m`.
pub open spec fn back_default() -> Seq<char> {
    seq1(49, 'm')
}

fn push_csi(out: &mut Vec<char>)
    ensures
        final(out)@ == old(out)@ + csi(),
{
    out.push('\x1b');
    out.push('[');
    assert(final(out)@ =~= old(out)@ + csi());
}

fn push_seq1(out: &mut Vec<char>, n: usize, c: char)
    ensures
        final(out)@ == old(out)@ + seq1(n as nat, c),
{
    push_csi(out);
    push_dec(out, n);
    out.push(c);
    assert(final(out)@ =~= old(out)@ + seq1(n as nat, c));
}

fn push_rgb(out: &mut Vec<char>, lead: char, r: u8, g: u8, b: u8)
    ensures
        final(out)@ == old(out)@ + rgb_seq(lead, r as nat, g as nat, b as nat),
{
    push_csi(out);
    out.push(lead);
    out.push('8');
    out.push(';');
    out.push('2');
    out.push(';');
    push_dec(out, r as usize);
    out.push(';');
    push_dec(out, g as usize);
    out.push(';');
    push_dec(out, b as usize);
    out.push('m');
    assert(final(out)@ =~= old(out)@ + rgb_seq(lead, r as nat, g as nat, b as nat));
}

fn push_text(out: &mut Vec<char>, t: &str)
    ensures
        final(out)@ == old(out)@ + t@,
{
    let v = to_chars(t);
    let ghost start = out@;
    let mut i: usize = 0;
    while i < v.len()
        invariant
            i <= v.len(),
            out@ == start + v@.subrange(0, i as int),
        decreases v.len() - i,
    {
        out.push(v[i]);
        i += 1;
        assert(out@ =~= start + v@.subrange(0, i as int));
    }
    assert(v@.subrange(0, i as int) =~= v@);
}

fn single(n: usize, c: char) -> (r: String)
    ensures
        r@ == seq1(n as nat, c),
{
    let mut out: Vec<char> = Vec::new();
    push_seq1(&mut out, n, c);
    assert(out@ =~= seq1(n as nat, c));
    from_chars(&out)
}

/// Moves the cursor up `N` lines.
pub fn CUR_UPN(N: usize) -> (r: String)
    ensures
        r@ == seq1(N as nat, 'A'),
{
    single(N, 'A')
}

/// Moves the cursor down `N` lines.
pub fn CUR_DOWNN(N: usize) -> (r: String)
    ensures
        r@ == seq1(N as nat, 'B'),
{
    single(N, 'B')
}

/// Moves the cursor right `N` columns.
pub fn CUR_RIGHTN(N: usize) -> (r: String)
    ensures
        r@ == seq1(N as nat, 'C'),
{
    single(N, 'C')
}

/// Moves the cursor left `N` columns.
pub fn CUR_LEFTN(N: usize) -> (r: String)
    ensures
        r@ == seq1(N as nat, 'D'),
{
    single(N, 'D')
}

/// Moves the cursor to the start of the line `n` lines down.
pub fn CUR_DOWN_LINEN(n: usize) -> (r: String)
    ensures
        r@ == seq1(n as nat, 'E'),
{
    single(n, 'E')
}

/// Moves the cursor to the start of the line `n` lines up.
pub fn CUR_UP_LINEN(n: usize) -> (r: String)
    ensures
        r@ == seq1(n as nat, 'F'),
{
    single(n, 'F')
}

/// Moves the cursor to column `n`.
pub fn CUR_TO_COLN(n: usize) -> (r: String)
    ensures
        r@ == seq1(n as nat, 'G'),
{
    single(n, 'G')
}

/// Moves the cursor to column `x` of line `y`: `ESC [ y ; x H`.
pub fn CUR_TO_POS(x: usize, y: usize) -> (r: String)
    ensures
        r@ == csi() + dec(y as nat) + seq![';'] + dec(x as nat) + seq!['H'],
{
    let mut out: Vec<char> = Vec::new();
    push_csi(&mut out);
    push_dec(&mut out, y);
    out.push(';');
    push_dec(&mut out, x);
    out.push('H');
    assert(out@ =~= csi() + dec(y as nat) + seq![';'] + dec(x as nat) + seq!['H']);
    from_chars(&out)
}

/// A graphics mode (select graphic rendition parameter).
#[derive(Clone, Copy, Debug, PartialEq, Eq, Structural)]
pub enum GraphicsMode {
    /// A reset with the given parameter.
    Reset(u8),
    Bold,
    Dim,
    Italic,
    Underline,
    Blinking,
    Inverse,
    Invisible,
    Strikethrough,
}

impl GraphicsMode {
    /// The parameter that sets this mode.
    pub open spec fn code(self) -> u8 {
        match self {
            GraphicsMode::Bold => 1,
            GraphicsMode::Dim => 2,
            GraphicsMode::Italic => 3,
            GraphicsMode::Underline => 4,
            GraphicsMode::Blinking => 5,
            GraphicsMode::Inverse => 7,
            GraphicsMode::Invisible => 8,
            GraphicsMode::Strikethrough => 9,
            GraphicsMode::Reset(c) => c,
        }
    }

    /// The parameter that resets this mode (bold and dim share one).
    pub open spec fn reset_param(self) -> u8 {
        match self {
            GraphicsMode::Bold | GraphicsMode::Dim => 22,
            GraphicsMode::Italic => 23,
            GraphicsMode::Underline => 24,
            GraphicsMode::Blinking => 25,
            GraphicsMode::Inverse => 27,
            GraphicsMode::Invisible => 28,
            GraphicsMode::Strikethrough => 29,
            GraphicsMode::Reset(c) => c,
        }
    }

    /// The parameter that sets this mode.
    pub fn as_u8(self) -> (r: u8)
        ensures
            r == self.code(),
    {
        match self {
            GraphicsMode::Bold => 1,
            GraphicsMode::Dim => 2,
            GraphicsMode::Italic => 3,
            GraphicsMode::Underline => 4,
            GraphicsMode::Blinking => 5,
            GraphicsMode::Inverse => 7,
            GraphicsMode::Invisible => 8,
            GraphicsMode::Strikethrough => 9,
            GraphicsMode::Reset(c) => c,
        }
    }

    /// The parameter that resets this mode.
    pub fn reset_code(self) -> (r: u8)
        ensures
            r == self.reset_param(),
    {
        match self {
            GraphicsMode::Bold | GraphicsMode::Dim => 22,
            GraphicsMode::Italic => 23,
            GraphicsMode::Underline => 24,
            GraphicsMode::Blinking => 25,
            GraphicsMode::Inverse => 27,
            GraphicsMode::Invisible => 28,
            GraphicsMode::Strikethrough => 29,
            GraphicsMode::Reset(c) => c,
        }
    }

    /// The mode that undoes this one.
    pub fn reset(self) -> (r: GraphicsMode)
        ensures
            r == GraphicsMode::Reset(self.reset_param()),
    {
        GraphicsMode::Reset(self.reset_code())
    }

    /// The escape sequence for this mode.
    pub open spec fn rendered(self) -> Seq<char> {
        seq1(self.code() as nat, 'm')
    }
}

/// A foreground colour: one of the eight basic ones, the default, or 24-bit.
#[derive(Clone, Copy, Debug, PartialEq, Eq, Structural)]
pub enum ForeColor {
    RGB(u8, u8, u8),
    Black,
    Red,
    Green,
    Yellow,
    Blue,
    Magenta,
    Cyan,
    White,
    Default,
}

/// A background colour: one of the eight basic ones, the default, or 24-bit.
#[derive(Clone, Copy, Debug, PartialEq, Eq, Structural)]
pub enum BackColor {
    RGB(u8, u8, u8),
    Black,
    Red,
    Green,
    Yellow,
    Blue,
    Magenta,
    Cyan,
    White,
    Default,
}

impl ForeColor {
    /// The parameter of a basic colour; 24-bit colours give the default's.
    pub open spec fn code(self) -> u8 {
        match self {
            ForeColor::Black => 30,
            ForeColor::Red => 31,
            ForeColor::Green => 32,
            ForeColor::Yellow => 33,
            ForeColor::Blue => 34,
            ForeColor::Magenta => 35,
            ForeColor::Cyan => 36,
            ForeColor::White => 37,
            ForeColor::Default => 39,
            ForeColor::RGB(_, _, _) => 39,
        }
    }

    /// The same colour as a background.
    pub open spec fn spec_as_back(self) -> BackColor {
        match self {
            ForeColor::Black => BackColor::Black,
            ForeColor::Red => BackColor::Red,
            ForeColor::Green => BackColor::Green,
            ForeColor::Yellow => BackColor::Yellow,
            ForeColor::Blue => BackColor::Blue,
            ForeColor::Magenta => BackColor::Magenta,
            ForeColor::Cyan => BackColor::Cyan,
            ForeColor::White => BackColor::White,
            ForeColor::Default => BackColor::Default,
            ForeColor::RGB(r, g, b) => BackColor::RGB(r, g, b),
        }
    }

    /// The same colour as a background.
    pub fn as_back(self) -> (r: BackColor)
        ensures
            r == self.spec_as_back(),
    {
        match self {
            ForeColor::Black => BackColor::Black,
            ForeColor::Red => BackColor::Red,
            ForeColor::Green => BackColor::Green,
            ForeColor::Yellow => BackColor::Yellow,
            ForeColor::Blue => BackColor::Blue,
            ForeColor::Magenta => BackColor::Magenta,
            ForeColor::Cyan => BackColor::Cyan,
            ForeColor::White => BackColor::White,
            ForeColor::Default => BackColor::Default,
            ForeColor::RGB(r, g, b) => BackColor::RGB(r, g, b),
        }
    }

    /// The parameter of a basic colour; 24-bit colours give the default's.
    pub fn as_u8(self) -> (r: u8)
        ensures
            r == self.code(),
    {
        match self {
            ForeColor::Black => 30,
            ForeColor::Red => 31,
            ForeColor::Green => 32,
            ForeColor::Yellow => 33,
            ForeColor::Blue => 34,
            ForeColor::Magenta => 35,
            ForeColor::Cyan => 36,
            ForeColor::White => 37,
            ForeColor::Default => 39,
            ForeColor::RGB(_, _, _) => 39,
        }
    }

    /// The escape sequence for this colour. A 24-bit colour writes its second
    /// and third components in swapped order.
    pub open spec fn rendered(self) -> Seq<char> {
        match self {
            ForeColor::RGB(r, g, b) => rgb_seq('3', r as nat, b as nat, g as nat),
            _ => seq1(self.code() as nat, 'm'),
        }
    }
}

impl BackColor {
    /// The parameter of a basic colour; 24-bit colours give the default's.
    pub open spec fn code(self) -> u8 {
        match self {
            BackColor::Black => 40,
            BackColor::Red => 41,
            BackColor::Green => 42,
            BackColor::Yellow => 43,
            BackColor::Blue => 44,
            BackColor::Magenta => 45,
            BackColor::Cyan => 46,
            BackColor::White => 47,
            BackColor::Default => 49,
            BackColor::RGB(_, _, _) => 49,
        }
    }

    /// The same colour as a foreground.
    pub open spec fn spec_as_fore(self) -> ForeColor {
        match self {
            BackColor::Black => ForeColor::Black,
            BackColor::Red => ForeColor::Red,
            BackColor::Green => ForeColor::Green,
            BackColor::Yellow => ForeColor::Yellow,
            BackColor::Blue => ForeColor::Blue,
            BackColor::Magenta => ForeColor::Magenta,
            BackColor::Cyan => ForeColor::Cyan,
            BackColor::White => ForeColor::White,
            BackColor::Default => ForeColor::Default,
            BackColor::RGB(r, g, b) => ForeColor::RGB(r, g, b),
        }
    }

    /// The same colour as a foreground.
    pub fn as_fore(self) -> (r: ForeColor)
        ensures
            r == self.spec_as_fore(),
    {
        match self {
            BackColor::Black => ForeColor::Black,
            BackColor::Red => ForeColor::Red,
            BackColor::Green => ForeColor::Green,
            BackColor::Yellow => ForeColor::Yellow,
            BackColor::Blue => ForeColor::Blue,
            BackColor::Magenta => ForeColor::Magenta,
            BackColor::Cyan => ForeColor::Cyan,
            BackColor::White => ForeColor::White,
            BackColor::Default => ForeColor::Default,
            BackColor::RGB(r, g, b) => ForeColor::RGB(r, g, b),
        }
    }

    /// The parameter of a basic colour; 24-bit colours give the default's.
    pub fn as_u8(self) -> (r: u8)
        ensures
            r == self.code(),
    {
        match self {
            BackColor::Black => 40,
            BackColor::Red => 41,
            BackColor::Green => 42,
            BackColor::Yellow => 43,
            BackColor::Blue => 44,
            BackColor::Magenta => 45,
            BackColor::Cyan => 46,
            BackColor::White => 47,
            BackColor::Default => 49,
            BackColor::RGB(_, _, _) => 49,
        }
    }

    /// The escape sequence for this colour. A 24-bit colour writes its second
    /// and third components in swapped order.
    pub open spec fn rendered(self) -> Seq<char> {
        match self {
            BackColor::RGB(r, g, b) => rgb_seq('4', r as nat, b as nat, g as nat),
            _ => seq1(self.code() as nat, 'm'),
        }
    }
}

/// Sets a graphics mode.
pub fn SET_GRAPHICS(graphics: GraphicsMode) -> (r: String)
    ensures
        r@ == graphics.rendered(),
{
    single(graphics.as_u8() as usize, 'm')
}

/// `text` in a graphics mode, followed by the number of the parameter that
/// resets it (written bare, as a number).
pub fn WRAP_GRAPHICS(text: &str, graphics: GraphicsMode) -> (r: String)
    ensures
        r@ == graphics.rendered() + text@ + dec(graphics.reset_param() as nat),
{
    let mut out: Vec<char> = Vec::new();
    push_seq1(&mut out, graphics.as_u8() as usize, 'm');
    push_text(&mut out, text);
    push_dec(&mut out, graphics.reset_code() as usize);
    assert(out@ =~= graphics.rendered() + text@ + dec(graphics.reset_param() as nat));
    from_chars(&out)
}

/// Sets a basic foreground colour by its parameter.
pub fn SET_FORE_COLOR_ID(color: ForeColor) -> (r: String)
    ensures
        r@ == seq1(color.code() as nat, 'm'),
{
    single(color.as_u8() as usize, 'm')
}

/// `text` in a basic foreground colour, then the default foreground.
pub fn WRAP_FORE_COLOR_ID(text: &str, color: ForeColor) -> (r: String)
    ensures
        r@ == seq1(color.code() as nat, 'm') + text@ + fore_default(),
{
    let mut out: Vec<char> = Vec::new();
    push_seq1(&mut out, color.as_u8() as usize, 'm');
    push_text(&mut out, text);
    push_seq1(&mut out, 39, 'm');
    assert(out@ =~= seq1(color.code() as nat, 'm') + text@ + fore_default());
    from_chars(&out)
}

/// Sets a basic background colour by its parameter.
pub fn SET_BACK_COLOR_ID(color: BackColor) -> (r: String)
    ensures
        r@ == seq1(color.code() as nat, 'm'),
{
    single(color.as_u8() as usize, 'm')
}

/// `text` in a basic background colour, then the default background.
pub fn WRAP_BACK_COLOR_ID(text: &str, color: BackColor) -> (r: String)
    ensures
        r@ == seq1(color.code() as nat, 'm') + text@ + back_default(),
{
    let mut out: Vec<char> = Vec::new();
    push_seq1(&mut out, color.as_u8() as usize, 'm');
    push_text(&mut out, text);
    push_seq1(&mut out, 49, 'm');
    assert(out@ =~= seq1(color.code() as nat, 'm') + text@ + back_default());
    from_chars(&out)
}

/// Sets a 24-bit foreground colour.
pub fn SET_FORE_COLOR_RGB(rgb: (u8, u8, u8)) -> (r: String)
    ensures
        r@ == rgb_seq('3', rgb.0 as nat, rgb.1 as nat, rgb.2 as nat),
{
    let mut out: Vec<char> = Vec::new();
    push_rgb(&mut out, '3', rgb.0, rgb.1, rgb.2);
    assert(out@ =~= rgb_seq('3', rgb.0 as nat, rgb.1 as nat, rgb.2 as nat));
    from_chars(&out)
}

/// `text` in a 24-bit foreground colour, then the default foreground.
pub fn WRAP_FORE_COLOR_RGB(text: &str, rgb: (u8, u8, u8)) -> (r: String)
    ensures
        r@ == rgb_seq('3', rgb.0 as nat, rgb.1 as nat, rgb.2 as nat) + text@ + fore_default(),
{
    let mut out: Vec<char> = Vec::new();
    push_rgb(&mut out, '3', rgb.0, rgb.1, rgb.2);
    push_text(&mut out, text);
    push_seq1(&mut out, 39, 'm');
    assert(out@ =~= rgb_seq('3', rgb.0 as nat, rgb.1 as nat, rgb.2 as nat) + text@ + fore_default());
    from_chars(&out)
}

/// Sets a 24-bit background colour.
pub fn SET_BACK_COLOR_RGB(rgb: (u8, u8, u8)) -> (r: String)
    ensures
        r@ == rgb_seq('4', rgb.0 as nat, rgb.1 as nat, rgb.2 as nat),
{
    let mut out: Vec<char> = Vec::new();
    push_rgb(&mut out, '4', rgb.0, rgb.1, rgb.2);
    assert(out@ =~= rgb_seq('4', rgb.0 as nat, rgb.1 as nat, rgb.2 as nat));
    from_chars(&out)
}

/// `text` in a 24-bit background colour, then the default background.
pub fn WRAP_BACK_COLOR_RGB(text: &str, rgb: (u8, u8, u8)) -> (r: String)
    ensures
        r@ == rgb_seq('4', rgb.0 as nat, rgb.1 as nat, rgb.2 as nat) + text@ + back_default(),
{
    let mut out: Vec<char> = Vec::new();
    push_rgb(&mut out, '4', rgb.0, rgb.1, rgb.2);
    push_text(&mut out, text);
    push_seq1(&mut out, 49, 'm');
    assert(out@ =~= rgb_seq('4', rgb.0 as nat, rgb.1 as nat, rgb.2 as nat) + text@ + back_default());
    from_chars(&out)
}

/// One piece of styled text.
pub enum TextNode {
    Text(String),
    Fore(ForeColor),
    Back(BackColor),
    Graphics(GraphicsMode),
}

/// A piece of styled text, as contracts see it.
pub enum Piece {
    Text(Seq<char>),
    Fore(ForeColor),
    Back(BackColor),
    Graphics(GraphicsMode),
}

/// The piece a node holds.
pub open spec fn piece(n: TextNode) -> Piece {
    match n {
        TextNode::Text(t) => Piece::Text(t@),
        TextNode::Fore(c) => Piece::Fore(c),
        TextNode::Back(c) => Piece::Back(c),
        TextNode::Graphics(g) => Piece::Graphics(g),
    }
}

/// How one piece is written out.
pub open spec fn node_rendered(n: Piece) -> Seq<char> {
    match n {
        Piece::Text(t) => t,
        Piece::Fore(c) => c.rendered(),
        Piece::Back(c) => c.rendered(),
        Piece::Graphics(g) => g.rendered(),
    }
}

/// How a sequence of pieces is written out: one after the other.
pub open spec fn nodes_rendered(ns: Seq<Piece>) -> Seq<char>
    decreases ns.len(),
{
    if ns.len() == 0 {
        seq![]
    } else {
        nodes_rendered(ns.drop_last()) + node_rendered(ns.last())
    }
}

fn push_node(out: &mut Vec<char>, n: &TextNode)
    ensures
        final(out)@ == old(out)@ + node_rendered(piece(*n)),
{
    match n {
        TextNode::Text(t) => push_text(out, t.as_str()),
        TextNode::Fore(c) => match c {
            ForeColor::RGB(r, g, b) => push_rgb(out, '3', *r, *b, *g),
            _ => push_seq1(out, c.as_u8() as usize, 'm'),
        },
        TextNode::Back(c) => match c {
            BackColor::RGB(r, g, b) => push_rgb(out, '4', *r, *b, *g),
            _ => push_seq1(out, c.as_u8() as usize, 'm'),
        },
        TextNode::Graphics(g) => push_seq1(out, g.as_u8() as usize, 'm'),
    }
}

/// Text with colours and graphics modes, as a list of pieces.
pub struct Text {
    nodes: Vec<TextNode>,
}

impl Text {
    /// The pieces, in order.
    pub closed spec fn nodes(&self) -> Seq<Piece> {
        self.nodes@.map_values(|n: TextNode| piece(n))
    }

    /// Empty styled text.
    pub fn new() -> (r: Text)
        ensures
            r.nodes() == Seq::<Piece>::empty(),
    {
        Text { nodes: Vec::new() }
    }

    /// Appends plain text.
    pub fn text(&mut self, text: &str)
        ensures
            final(self).nodes() == old(self).nodes().push(Piece::Text(text@)),
    {
        self.nodes.push(TextNode::Text(from_chars(&to_chars(text))));
        assert(self.nodes() =~= final(self).nodes());
    }

    /// Appends a graphics mode.
    pub fn graphics(&mut self, graphics: GraphicsMode)
        ensures
            final(self).nodes() == old(self).nodes().push(Piece::Graphics(graphics)),
    {
        self.nodes.push(TextNode::Graphics(graphics));
        assert(self.nodes() =~= final(self).nodes());
    }

    /// Appends `text` in a graphics mode, then the mode's reset.
    pub fn wrap_graphics(&mut self, text: &str, graphics: GraphicsMode)
        ensures
            final(self).nodes() == old(self).nodes().push(Piece::Graphics(graphics)).push(
                Piece::Text(text@),
            ).push(Piece::Graphics(GraphicsMode::Reset(graphics.reset_param()))),
    {
        self.nodes.push(TextNode::Graphics(graphics));
        self.nodes.push(TextNode::Text(from_chars(&to_chars(text))));
        self.nodes.push(TextNode::Graphics(graphics.reset()));
        assert(self.nodes() =~= final(self).nodes());
    }

    /// Appends the reset of a graphics mode.
    pub fn reset_graphics(&mut self, graphics: GraphicsMode)
        ensures
            final(self).nodes() == old(self).nodes().push(
                Piece::Graphics(GraphicsMode::Reset(graphics.reset_param())),
            ),
    {
        self.nodes.push(TextNode::Graphics(graphics.reset()));
        assert(self.nodes() =~= final(self).nodes());
    }

    /// Appends a foreground colour.
    pub fn fore(&mut self, color: ForeColor)
        ensures
            final(self).nodes() == old(self).nodes().push(Piece::Fore(color)),
    {
        self.nodes.push(TextNode::Fore(color));
        assert(self.nodes() =~= final(self).nodes());
    }

    /// Appends `text` in a foreground colour, then the default foreground.
    pub fn wrap_fore(&mut self, text: &str, color: ForeColor)
        ensures
            final(self).nodes() == old(self).nodes().push(Piece::Fore(color)).push(
                Piece::Text(text@),
            ).push(Piece::Fore(ForeColor::Default)),
    {
        self.nodes.push(TextNode::Fore(color));
        self.nodes.push(TextNode::Text(from_chars(&to_chars(text))));
        self.nodes.push(TextNode::Fore(ForeColor::Default));
        assert(self.nodes() =~= final(self).nodes());
    }

    /// Appends the default foreground.
    pub fn reset_fore(&mut self)
        ensures
            final(self).nodes() == old(self).nodes().push(Piece::Fore(ForeColor::Default)),
    {
        self.nodes.push(TextNode::Fore(ForeColor::Default));
        assert(self.nodes() =~= final(self).nodes());
    }

    /// Appends a background colour.
    pub fn back(&mut self, color: BackColor)
        ensures
            final(self).nodes() == old(self).nodes().push(Piece::Back(color)),
    {
        self.nodes.push(TextNode::Back(color));
        assert(self.nodes() =~= final(self).nodes());
    }

    /// Appends `text` in a background colour, then the default background.
    pub fn wrap_back(&mut self, text: &str, color: BackColor)
        ensures
            final(self).nodes() == old(self).nodes().push(Piece::Back(color)).push(
                Piece::Text(text@),
            ).push(Piece::Back(BackColor::Default)),
    {
        self.nodes.push(TextNode::Back(color));
        self.nodes.push(TextNode::Text(from_chars(&to_chars(text))));
        self.nodes.push(TextNode::Back(BackColor::Default));
        assert(self.nodes() =~= final(self).nodes());
    }

    /// Appends the default background.
    pub fn reset_back(&mut self)
        ensures
            final(self).nodes() == old(self).nodes().push(Piece::Back(BackColor::Default)),
    {
        self.nodes.push(TextNode::Back(BackColor::Default));
        assert(self.nodes() =~= final(self).nodes());
    }

    /// Removes every piece.
    pub fn reset(&mut self)
        ensures
            final(self).nodes() == Seq::<Piece>::empty(),
    {
        self.nodes = Vec::new();
    }

    /// The text with its escape sequences, as the terminal receives it.
    pub fn render(&self) -> (r: String)
        ensures
            r@ == nodes_rendered(self.nodes()),
    {
        let mut out: Vec<char> = Vec::new();
        let mut i: usize = 0;
        while i < self.nodes.len()
            invariant
                i <= self.nodes.len(),
                out@ == nodes_rendered(self.nodes().subrange(0, i as int)),
            decreases self.nodes.len() - i,
        {
            push_node(&mut out, &self.nodes[i]);
            assert(self.nodes().subrange(0, i + 1).drop_last() =~= self.nodes().subrange(0, i as int));
            i += 1;
        }
        assert(self.nodes().subrange(0, i as int) =~= self.nodes());
        from_chars(&out)
    }
}

/// Builds styled text by chaining calls.
pub struct TextBuilder {
    text: Text,
}

impl TextBuilder {
    /// The pieces added so far.
    pub closed spec fn nodes(&self) -> Seq<Piece> {
        self.text.nodes()
    }

    /// A builder with no pieces.
    pub fn new() -> (r: TextBuilder)
        ensures
            r.nodes() == Seq::<Piece>::empty(),
    {
        TextBuilder { text: Text::new() }
    }

    /// Adds plain text.
    pub fn text(self, text: &str) -> (r: TextBuilder)
        ensures
            r.nodes() == self.nodes().push(Piece::Text(text@)),
    {
        let mut b = self;
        b.text.text(text);
        b
    }

    /// Adds a graphics mode.
    pub fn graphics(self, graphics: GraphicsMode) -> (r: TextBuilder)
        ensures
            r.nodes() == self.nodes().push(Piece::Graphics(graphics)),
    {
        let mut b = self;
        b.text.graphics(graphics);
        b
    }

    /// Adds `text` in a graphics mode, then the mode's reset.
    pub fn wrap_graphics(self, text: &str, graphics: GraphicsMode) -> (r: TextBuilder)
        ensures
            r.nodes() == self.nodes().push(Piece::Graphics(graphics)).push(
                Piece::Text(text@),
            ).push(Piece::Graphics(GraphicsMode::Reset(graphics.reset_param()))),
    {
        let mut b = self;
        b.text.wrap_graphics(text, graphics);
        b
    }

    /// Adds the reset of a graphics mode.
    pub fn reset_graphics(self, graphics: GraphicsMode) -> (r: TextBuilder)
        ensures
            r.nodes() == self.nodes().push(
                Piece::Graphics(GraphicsMode::Reset(graphics.reset_param())),
            ),
    {
        let mut b = self;
        b.text.reset_graphics(graphics);
        b
    }

    /// Adds a foreground colour.
    pub fn fore(self, color: ForeColor) -> (r: TextBuilder)
        ensures
            r.nodes() == self.nodes().push(Piece::Fore(color)),
    {
        let mut b = self;
        b.text.fore(color);
        b
    }

    /// Adds `text` in a foreground colour, then the default foreground.
    pub fn wrap_fore(self, text: &str, color: ForeColor) -> (r: TextBuilder)
        ensures
            r.nodes() == self.nodes().push(Piece::Fore(color)).push(
                Piece::Text(text@),
            ).push(Piece::Fore(ForeColor::Default)),
    {
        let mut b = self;
        b.text.wrap_fore(text, color);
        b
    }

    /// Adds the default foreground.
    pub fn reset_fore(self) -> (r: TextBuilder)
        ensures
            r.nodes() == self.nodes().push(Piece::Fore(ForeColor::Default)),
    {
        let mut b = self;
        b.text.reset_fore();
        b
    }

    /// Adds a background colour.
    pub fn back(self, color: BackColor) -> (r: TextBuilder)
        ensures
            r.nodes() == self.nodes().push(Piece::Back(color)),
    {
        let mut b = self;
        b.text.back(color);
        b
    }

    /// Adds `text` in a background colour, then the default background.
    pub fn wrap_back(self, text: &str, color: BackColor) -> (r: TextBuilder)
        ensures
            r.nodes() == self.nodes().push(Piece::Back(color)).push(
                Piece::Text(text@),
            ).push(Piece::Back(BackColor::Default)),
    {
        let mut b = self;
        b.text.wrap_back(text, color);
        b
    }

    /// Adds the default background.
    pub fn reset_back(self) -> (r: TextBuilder)
        ensures
            r.nodes() == self.nodes().push(Piece::Back(BackColor::Default)),
    {
        let mut b = self;
        b.text.reset_back();
        b
    }

    /// The styled text built.
    pub fn build(self) -> (r: Text)
        ensures
            r.nodes() == self.nodes(),
    {
        self.text
    }
}

} // verus!
