use vstd::prelude::*;

verus! {

/// The five colors, in their fixed canonical order.
#[derive(Debug, Clone, Copy, PartialEq, Eq, Hash, Structural)]
pub enum Color {
    White,
    Blue,
    Black,
    Red,
    Green,
}

/// All colors in canonical order.
pub open spec fn all_colors() -> Seq<Color> {
    seq![Color::White, Color::Blue, Color::Black, Color::Red, Color::Green]
}

/// The two colors of a pair in color-pie order: the pair sorted by position,
/// reversed when the colors are more than two steps apart, so that the pair
/// reads as the short way around the color wheel.
pub open spec fn pie_order(a: Color, b: Color) -> (Color, Color) {
    let (lo, hi) = if a.position() <= b.position() {
        (a, b)
    } else {
        (b, a)
    };
    if hi.position() - lo.position() > 2 {
        (hi, lo)
    } else {
        (lo, hi)
    }
}

impl Color {
    /// Position of the color in canonical order.
    pub open spec fn position(self) -> nat {
        match self {
            Color::White => 0,
            Color::Blue => 1,
            Color::Black => 2,
            Color::Red => 3,
            Color::Green => 4,
        }
    }

    /// The one-letter abbreviation of the color.
    pub open spec fn letter(self) -> char {
        match self {
            Color::White => 'W',
            Color::Blue => 'U',
            Color::Black => 'B',
            Color::Red => 'R',
            Color::Green => 'G',
        }
    }

    pub fn ordinal(self) -> (r: u8)
        ensures
            r == self.position(),
    {
        match self {
            Color::White => 0,
            Color::Blue => 1,
            Color::Black => 2,
            Color::Red => 3,
            Color::Green => 4,
        }
    }

    /// The colors in canonical order.
    pub fn iterator() -> (r: Vec<Color>)
        ensures
            r@ == all_colors(),
    {
        let r = vec![Color::White, Color::Blue, Color::Black, Color::Red, Color::Green];
        assert(r@ =~= all_colors());
        r
    }

    pub fn color_pie_order(color1: Color, color2: Color) -> (r: (Color, Color))
        ensures
            r == pie_order(color1, color2),
    {
        let (lo, hi) = if color1.ordinal() <= color2.ordinal() {
            (color1, color2)
        } else {
            (color2, color1)
        };
        if hi.ordinal() - lo.ordinal() > 2 {
            (hi, lo)
        } else {
            (lo, hi)
        }
    }

    pub fn initial(self) -> (r: char)
        ensures
            r == self.letter(),
    {
        match self {
            Color::White => 'W',
            Color::Blue => 'U',
            Color::Black => 'B',
            Color::Red => 'R',
            Color::Green => 'G',
        }
    }

    /// The abbreviation as a one-character string.
    pub fn initial_str(self) -> (r: &'static str)
        ensures
            r@ == seq![self.letter()],
    {
        match self {
            Color::White => {
                proof {
                    reveal_strlit("W");
                }
                "W"
            },
            Color::Blue => {
                proof {
                    reveal_strlit("U");
                }
                "U"
            },
            Color::Black => {
                proof {
                    reveal_strlit("B");
                }
                "B"
            },
            Color::Red => {
                proof {
                    reveal_strlit("R");
                }
                "R"
            },
            Color::Green => {
                proof {
                    reveal_strlit("G");
                }
                "G"
            },
        }
    }
}

/// The color-pie order of two colors does not depend on the order in which
/// they are given.
pub proof fn lemma_color_pie_order_symmetric(a: Color, b: Color)
    requires
        a != b,
    ensures
        pie_order(a, b) == pie_order(b, a),
{
}

/// Which of the five colors are present, one bit per color position.
#[derive(Debug, Clone, Copy, PartialEq, Eq, Structural)]
pub struct ColorIdentity(u8);

pub open spec fn color_bit(c: Color) -> u8 {
    (1u8 << c.position() as u8) as u8
}

proof fn lemma_no_low_bits(x: u8)
    ensures
        (x & 31u8 == 0) <==> (x & 1u8 == 0 && x & 2u8 == 0 && x & 4u8 == 0 && x & 8u8 == 0 && x
            & 16u8 == 0),
{
    assert((x & 31u8 == 0) <==> (x & 1u8 == 0 && x & 2u8 == 0 && x & 4u8 == 0 && x & 8u8 == 0 && x
        & 16u8 == 0)) by (bit_vector);
}

spec fn single_bit(b: u8) -> bool {
    b == 1u8 || b == 2u8 || b == 4u8 || b == 8u8 || b == 16u8
}

proof fn lemma_set_clear_bit(x: u8, b: u8, o: u8)
    requires
        single_bit(b),
        single_bit(o),
    ensures
        (x | b) & b != 0,
        (x & !b) & b == 0,
        o != b ==> ((x | b) & o != 0 <==> x & o != 0),
        o != b ==> ((x & !b) & o != 0 <==> x & o != 0),
{
    assert(((b == 1u8 || b == 2u8 || b == 4u8 || b == 8u8 || b == 16u8) && (o == 1u8 || o == 2u8
        || o == 4u8 || o == 8u8 || o == 16u8)) ==> ((x | b) & b != 0 && (x & !b) & b == 0 && (o
        != b ==> ((x | b) & o != 0 <==> x & o != 0)) && (o != b ==> ((x & !b) & o != 0 <==> x & o
        != 0)))) by (bit_vector);
}

proof fn lemma_color_bit(c: Color)
    ensures
        color_bit(c) == match c {
            Color::White => 1u8,
            Color::Blue => 2u8,
            Color::Black => 4u8,
            Color::Red => 8u8,
            Color::Green => 16u8,
        },
{
    assert(1u8 << 0u8 == 1u8) by (bit_vector);
    assert(1u8 << 1u8 == 2u8) by (bit_vector);
    assert(1u8 << 2u8 == 4u8) by (bit_vector);
    assert(1u8 << 3u8 == 8u8) by (bit_vector);
    assert(1u8 << 4u8 == 16u8) by (bit_vector);
}

impl ColorIdentity {
    /// The set of colors present.
    pub closed spec fn view(&self) -> Set<Color> {
        Set::new(|c: Color| self.0 & color_bit(c) != 0)
    }

    pub fn new() -> (r: ColorIdentity)
        ensures
            r@ == Set::<Color>::empty(),
    {
        let r = ColorIdentity(0);
        proof {
            assert forall|c: Color| !(#[trigger] r@.contains(c)) by {
                lemma_color_bit(c);
                assert(0u8 & 1u8 == 0 && 0u8 & 2u8 == 0 && 0u8 & 4u8 == 0 && 0u8 & 8u8 == 0 && 0u8
                    & 16u8 == 0) by (bit_vector);
            }
            assert(r@ =~= Set::<Color>::empty());
        }
        r
    }

    pub fn is_colorless(self) -> (r: bool)
        ensures
            r == self@.is_empty(),
    {
        proof {
            lemma_no_low_bits(self.0);
            lemma_color_bit(Color::White);
            lemma_color_bit(Color::Blue);
            lemma_color_bit(Color::Black);
            lemma_color_bit(Color::Red);
            lemma_color_bit(Color::Green);
            if self.0 & 31u8 == 0 {
                assert forall|c: Color| !(#[trigger] self@.contains(c)) by {
                    lemma_color_bit(c);
                }
                assert(self@ =~= Set::<Color>::empty());
            } else {
                assert(self@.contains(Color::White) || self@.contains(Color::Blue)
                    || self@.contains(Color::Black) || self@.contains(Color::Red)
                    || self@.contains(Color::Green));
            }
        }
        self.0 & 31 == 0
    }

    pub fn has(self, color: Color) -> (r: bool)
        ensures
            r == self@.contains(color),
    {
        self.0 & (1u8 << color.ordinal()) != 0
    }

    pub fn add(&mut self, color: Color)
        ensures
            final(self)@ == old(self)@.insert(color),
    {
        let ghost before = *self;
        self.0 = self.0 | (1u8 << color.ordinal());
        proof {
            lemma_color_bit(color);
            assert forall|c: Color| #[trigger] self@.contains(c) == before@.insert(color).contains(
                c,
            ) by {
                lemma_color_bit(c);
                lemma_set_clear_bit(before.0, color_bit(color), color_bit(c));
            }
            assert(self@ =~= before@.insert(color));
        }
    }

    pub fn remove(&mut self, color: Color)
        ensures
            final(self)@ == old(self)@.remove(color),
    {
        let ghost before = *self;
        self.0 = self.0 & !(1u8 << color.ordinal());
        proof {
            lemma_color_bit(color);
            assert forall|c: Color| #[trigger] self@.contains(c) == before@.remove(color).contains(
                c,
            ) by {
                lemma_color_bit(c);
                lemma_set_clear_bit(before.0, color_bit(color), color_bit(c));
            }
            assert(self@ =~= before@.remove(color));
        }
    }

    /// The identity holding exactly the given colors.
    pub fn from_iter(colors: Vec<Color>) -> (r: ColorIdentity)
        ensures
            r@ == colors@.to_set(),
    {
        let mut r = ColorIdentity::new();
        let mut i: usize = 0;
        assert(colors@.subrange(0, 0).to_set() =~= Set::<Color>::empty());
        while i < colors.len()
            invariant
                0 <= i <= colors@.len(),
                r@ == colors@.subrange(0, i as int).to_set(),
            decreases colors@.len() - i,
        {
            r.add(colors[i]);
            assert(colors@.subrange(0, i as int + 1).to_set() =~= colors@.subrange(
                0,
                i as int,
            ).to_set().insert(colors@[i as int])) by {
                assert(colors@.subrange(0, i as int + 1) =~= colors@.subrange(0, i as int).push(
                    colors@[i as int],
                ));
                colors@.subrange(0, i as int).lemma_push_to_set_commute(colors@[i as int]);
            }
            i = i + 1;
        }
        assert(colors@.subrange(0, colors@.len() as int) =~= colors@);
        r
    }

    /// The colors present, in canonical order.
    pub fn colors(self) -> (r: Vec<Color>)
        ensures
            r@ == all_colors().filter(|c: Color| self@.contains(c)),
    {
        let all = Color::iterator();
        let mut r: Vec<Color> = Vec::new();
        let mut i: usize = 0;
        while i < all.len()
            invariant
                all@ == all_colors(),
                0 <= i <= all@.len(),
                r@ == all@.subrange(0, i as int).filter(|c: Color| self@.contains(c)),
            decreases all@.len() - i,
        {
            let c = all[i];
            proof {
                reveal(Seq::filter);
                assert(all@.subrange(0, i as int + 1).drop_last() =~= all@.subrange(0, i as int));
            }
            if self.has(c) {
                r.push(c);
            }
            i = i + 1;
        }
        assert(all@.subrange(0, all@.len() as int) =~= all@);
        r
    }

    /// The colors' abbreviations in canonical order, or `C` for no color.
    pub open spec fn text(self) -> Seq<char> {
        if self@.is_empty() {
            seq!['C']
        } else {
            all_colors().filter(|c: Color| self@.contains(c)).map_values(|c: Color| c.letter())
        }
    }

    pub fn to_string(self) -> (r: String)
        ensures
            r@ == self.text(),
    {
        if self.is_colorless() {
            proof {
                reveal_strlit("C");
            }
            return String::from_str("C");
        }
        let cs = self.colors();
        let mut r = String::new();
        let mut i: usize = 0;
        while i < cs.len()
            invariant
                0 <= i <= cs@.len(),
                r@ == cs@.subrange(0, i as int).map_values(|c: Color| c.letter()),
            decreases cs@.len() - i,
        {
            r.append(cs[i].initial_str());
            assert(cs@.subrange(0, i as int + 1).map_values(|c: Color| c.letter())
                =~= cs@.subrange(0, i as int).map_values(|c: Color| c.letter()).push(
                cs@[i as int].letter(),
            ));
            i = i + 1;
        }
        assert(cs@.subrange(0, cs@.len() as int) =~= cs@);
        r
    }
}

impl Default for ColorIdentity {
    fn default() -> (r: ColorIdentity)
        ensures
            r@ == Set::<Color>::empty(),
    {
        ColorIdentity::new()
    }
}

} // verus!
