use vstd::prelude::*;

use crate::color::{pie_order, Color};

verus! {

broadcast use vstd::seq_lib::group_to_multiset_ensures;

/// One symbol of a mana cost.
#[derive(Debug, Clone, Copy, PartialEq, Eq, Hash, Structural)]
pub enum ManaSymbol {
    Generic(usize),
    Colored(Color),
    Colorless,
    Variable,
    Hybrid(Color, Color),
    MonoHybrid(Color),
    Phyrexian(Color),
    Snow,
}

/// The decimal digit for `d < 10`.
pub open spec fn digit(d: nat) -> char {
    if d == 0 {
        '0'
    } else if d == 1 {
        '1'
    } else if d == 2 {
        '2'
    } else if d == 3 {
        '3'
    } else if d == 4 {
        '4'
    } else if d == 5 {
        '5'
    } else if d == 6 {
        '6'
    } else if d == 7 {
        '7'
    } else if d == 8 {
        '8'
    } else {
        '9'
    }
}

/// Decimal notation of a natural number, without leading zeros.
pub open spec fn decimal(n: nat) -> Seq<char>
    decreases n,
{
    if n < 10 {
        seq![digit(n)]
    } else {
        decimal(n / 10).push(digit(n % 10))
    }
}

/// The sum of `f` over the symbols of `s`.
pub open spec fn total(s: Seq<ManaSymbol>, f: spec_fn(ManaSymbol) -> nat) -> nat
    decreases s.len(),
{
    if s.len() == 0 {
        0
    } else {
        total(s.drop_last(), f) + f(s.last())
    }
}

impl ManaSymbol {
    /// The symbol's contribution to mana value.
    pub open spec fn value(self) -> nat {
        match self {
            ManaSymbol::Generic(n) => n as nat,
            ManaSymbol::Colored(_) => 1,
            ManaSymbol::Colorless => 1,
            ManaSymbol::Variable => 0,
            ManaSymbol::Hybrid(_, _) => 1,
            ManaSymbol::MonoHybrid(_) => 2,
            ManaSymbol::Phyrexian(_) => 1,
            ManaSymbol::Snow => 1,
        }
    }

    /// The generic amount of the symbol; zero for every other kind.
    pub open spec fn generic_amount(self) -> nat {
        match self {
            ManaSymbol::Generic(n) => n as nat,
            _ => 0,
        }
    }

    /// The symbol with the colors of a hybrid in color-pie order.
    pub open spec fn canonical(self) -> ManaSymbol {
        match self {
            ManaSymbol::Hybrid(a, b) => ManaSymbol::Hybrid(pie_order(a, b).0, pie_order(a, b).1),
            _ => self,
        }
    }

    /// Whether this symbol is counted as an occurrence of `x` when costs are
    /// compared: every symbol but a generic one counts, by its canonical form.
    pub open spec fn counts_as(self, x: ManaSymbol) -> bool {
        !(self is Generic) && self.canonical() == x
    }

    /// The text between the braces.
    pub open spec fn body(self) -> Seq<char> {
        match self {
            ManaSymbol::Generic(n) => decimal(n as nat),
            ManaSymbol::Colored(c) => seq![c.letter()],
            ManaSymbol::Colorless => seq!['C'],
            ManaSymbol::Variable => seq!['X'],
            ManaSymbol::Hybrid(a, b) => seq![pie_order(a, b).0.letter(), '/', pie_order(a, b).1.letter()],
            ManaSymbol::MonoHybrid(c) => seq![c.letter(), '/', '2'],
            ManaSymbol::Phyrexian(c) => seq![c.letter(), '/', 'P'],
            ManaSymbol::Snow => seq!['S'],
        }
    }

    /// The symbol as written in a cost, in braces.
    pub open spec fn text(self) -> Seq<char> {
        seq!['{'] + self.body() + seq!['}']
    }

    pub fn generic(amount: usize) -> (r: ManaSymbol)
        ensures
            r == ManaSymbol::Generic(amount),
    {
        ManaSymbol::Generic(amount)
    }

    pub fn colorless() -> (r: ManaSymbol)
        ensures
            r == ManaSymbol::Colorless,
    {
        ManaSymbol::Colorless
    }

    pub fn colored(color: Color) -> (r: ManaSymbol)
        ensures
            r == ManaSymbol::Colored(color),
    {
        ManaSymbol::Colored(color)
    }

    pub fn variable() -> (r: ManaSymbol)
        ensures
            r == ManaSymbol::Variable,
    {
        ManaSymbol::Variable
    }

    /// A hybrid symbol, its colors stored in color-pie order.
    pub fn hybrid(color1: Color, color2: Color) -> (r: ManaSymbol)
        ensures
            r == ManaSymbol::Hybrid(pie_order(color1, color2).0, pie_order(color1, color2).1),
    {
        let (c1, c2) = Color::color_pie_order(color1, color2);
        ManaSymbol::Hybrid(c1, c2)
    }

    pub fn mono_hybrid(color: Color) -> (r: ManaSymbol)
        ensures
            r == ManaSymbol::MonoHybrid(color),
    {
        ManaSymbol::MonoHybrid(color)
    }

    pub fn snow() -> (r: ManaSymbol)
        ensures
            r == ManaSymbol::Snow,
    {
        ManaSymbol::Snow
    }

    pub fn phyrexian(color: Color) -> (r: ManaSymbol)
        ensures
            r == ManaSymbol::Phyrexian(color),
    {
        ManaSymbol::Phyrexian(color)
    }

    fn canonicalize(self) -> (r: ManaSymbol)
        ensures
            r == self.canonical(),
    {
        match self {
            ManaSymbol::Hybrid(a, b) => {
                let (c1, c2) = Color::color_pie_order(a, b);
                ManaSymbol::Hybrid(c1, c2)
            },
            _ => self,
        }
    }

    pub fn to_string(&self) -> (r: String)
        ensures
            r@ == self.text(),
    {
        let mut r = String::new();
        proof {
            reveal_strlit("{");
            reveal_strlit("}");
            reveal_strlit("/");
            reveal_strlit("C");
            reveal_strlit("X");
            reveal_strlit("2");
            reveal_strlit("P");
            reveal_strlit("S");
        }
        r.append("{");
        match *self {
            ManaSymbol::Generic(n) => push_decimal(&mut r, n),
            ManaSymbol::Colored(c) => r.append(c.initial_str()),
            ManaSymbol::Colorless => r.append("C"),
            ManaSymbol::Variable => r.append("X"),
            ManaSymbol::Hybrid(a, b) => {
                let (c1, c2) = Color::color_pie_order(a, b);
                r.append(c1.initial_str());
                r.append("/");
                r.append(c2.initial_str());
            },
            ManaSymbol::MonoHybrid(c) => {
                r.append(c.initial_str());
                r.append("/2");
                proof {
                    reveal_strlit("/2");
                }
            },
            ManaSymbol::Phyrexian(c) => {
                r.append(c.initial_str());
                r.append("/P");
                proof {
                    reveal_strlit("/P");
                }
            },
            ManaSymbol::Snow => r.append("S"),
        }
        r.append("}");
        assert(r@ =~= self.text());
        r
    }
}

fn digit_str(d: usize) -> (r: &'static str)
    requires
        d < 10,
    ensures
        r@ == seq![digit(d as nat)],
{
    proof {
        reveal_strlit("0");
        reveal_strlit("1");
        reveal_strlit("2");
        reveal_strlit("3");
        reveal_strlit("4");
        reveal_strlit("5");
        reveal_strlit("6");
        reveal_strlit("7");
        reveal_strlit("8");
        reveal_strlit("9");
    }
    if d == 0 {
        "0"
    } else if d == 1 {
        "1"
    } else if d == 2 {
        "2"
    } else if d == 3 {
        "3"
    } else if d == 4 {
        "4"
    } else if d == 5 {
        "5"
    } else if d == 6 {
        "6"
    } else if d == 7 {
        "7"
    } else if d == 8 {
        "8"
    } else {
        "9"
    }
}

/// Appends the decimal notation of `n`.
fn push_decimal(out: &mut String, n: usize)
    ensures
        final(out)@ == old(out)@ + decimal(n as nat),
    decreases n,
{
    if n >= 10 {
        push_decimal(out, n / 10);
    }
    out.append(digit_str(n % 10));
    proof {
        if n < 10 {
            assert(n % 10 == n);
        }
        assert(final(out)@ =~= old(out)@ + decimal(n as nat));
    }
}

/// Anything with a mana value.
pub trait ConvertedManaCost {
    /// The mana value, as a mathematical integer.
    spec fn mana_value(&self) -> nat;

    fn converted_mana_cost(&self) -> (r: usize)
        requires
            self.mana_value() <= usize::MAX,
        ensures
            r == self.mana_value(),
    ;
}

impl ConvertedManaCost for ManaSymbol {
    open spec fn mana_value(&self) -> nat {
        self.value()
    }

    fn converted_mana_cost(&self) -> (r: usize) {
        match *self {
            ManaSymbol::Generic(n) => n,
            ManaSymbol::Colored(_) => 1,
            ManaSymbol::Colorless => 1,
            ManaSymbol::Variable => 0,
            ManaSymbol::Hybrid(_, _) => 1,
            ManaSymbol::MonoHybrid(_) => 2,
            ManaSymbol::Phyrexian(_) => 1,
            ManaSymbol::Snow => 1,
        }
    }
}

/// A mana cost: its symbols in the order in which they were given.
#[derive(Debug, Clone)]
pub struct ManaCost {
    symbols: Vec<ManaSymbol>,
}

pub open spec fn value_fn() -> spec_fn(ManaSymbol) -> nat {
    |x: ManaSymbol| x.value()
}

pub open spec fn generic_fn() -> spec_fn(ManaSymbol) -> nat {
    |x: ManaSymbol| x.generic_amount()
}

pub open spec fn occurrence_fn(x: ManaSymbol) -> spec_fn(ManaSymbol) -> nat {
    |y: ManaSymbol| if y.counts_as(x) { 1nat } else { 0nat }
}

/// Mana value of a sequence of symbols: the sum of the symbols' values.
pub open spec fn mana_value_of(s: Seq<ManaSymbol>) -> nat {
    total(s, value_fn())
}

/// The sum of the generic amounts.
pub open spec fn generic_total(s: Seq<ManaSymbol>) -> nat {
    total(s, generic_fn())
}

/// How many symbols of `s` count as an occurrence of `x`.
pub open spec fn occurrences(s: Seq<ManaSymbol>, x: ManaSymbol) -> nat {
    total(s, occurrence_fn(x))
}

/// Two costs are equivalent when their generic amounts add up to the same
/// total and every other symbol, hybrids taken in color-pie order, occurs
/// equally often in both.
pub open spec fn equivalent(a: Seq<ManaSymbol>, b: Seq<ManaSymbol>) -> bool {
    &&& generic_total(a) == generic_total(b)
    &&& forall|x: ManaSymbol| #[trigger] occurrences(a, x) == occurrences(b, x)
}

/// The text of a cost: the texts of its symbols in order.
pub open spec fn cost_text(s: Seq<ManaSymbol>) -> Seq<char>
    decreases s.len(),
{
    if s.len() == 0 {
        Seq::empty()
    } else {
        cost_text(s.drop_last()) + s.last().text()
    }
}

proof fn lemma_total_prefix(s: Seq<ManaSymbol>, i: int, f: spec_fn(ManaSymbol) -> nat)
    requires
        0 <= i < s.len(),
    ensures
        total(s.subrange(0, i + 1), f) == total(s.subrange(0, i), f) + f(s[i]),
        total(s.subrange(0, i), f) <= total(s, f),
    decreases s.len(),
{
    assert(s.subrange(0, i + 1).drop_last() =~= s.subrange(0, i));
    if i < s.len() - 1 {
        lemma_total_prefix(s.drop_last(), i, f);
        assert(s.drop_last().subrange(0, i) =~= s.subrange(0, i));
    } else {
        assert(s.drop_last() =~= s.subrange(0, i));
    }
}

proof fn lemma_total_remove(s: Seq<ManaSymbol>, j: int, f: spec_fn(ManaSymbol) -> nat)
    requires
        0 <= j < s.len(),
    ensures
        total(s, f) == total(s.remove(j), f) + f(s[j]),
    decreases s.len(),
{
    if j == s.len() - 1 {
        assert(s.remove(j) =~= s.drop_last());
    } else {
        lemma_total_remove(s.drop_last(), j, f);
        assert(s.remove(j).drop_last() =~= s.drop_last().remove(j));
        assert(s.remove(j).last() == s.last());
    }
}

proof fn lemma_total_permutation(a: Seq<ManaSymbol>, b: Seq<ManaSymbol>, f: spec_fn(ManaSymbol) -> nat)
    requires
        a.to_multiset() == b.to_multiset(),
    ensures
        total(a, f) == total(b, f),
    decreases a.len(),
{
    if a.len() == 0 {
        assert(b.to_multiset().len() == 0);
    } else {
        let x = a.last();
        let rest = a.drop_last();
        assert(rest.push(x) =~= a);
        assert(a.to_multiset() =~= rest.to_multiset().insert(x));
        assert(b.to_multiset().count(x) > 0);
        assert(b.contains(x));
        let j = choose|j: int| 0 <= j < b.len() && b[j] == x;
        assert(b.remove(j).to_multiset() =~= b.to_multiset().remove(x));
        assert(rest.to_multiset() =~= b.remove(j).to_multiset());
        lemma_total_permutation(rest, b.remove(j), f);
        lemma_total_remove(b, j, f);
    }
}

proof fn lemma_occurrence_witness(s: Seq<ManaSymbol>, x: ManaSymbol) -> (i: int)
    requires
        occurrences(s, x) > 0,
    ensures
        0 <= i < s.len(),
        s[i].counts_as(x),
    decreases s.len(),
{
    if s.last().counts_as(x) {
        s.len() - 1
    } else {
        lemma_occurrence_witness(s.drop_last(), x)
    }
}

/// Reordering the symbols of a cost gives an equivalent cost.
pub proof fn lemma_permutation_equivalent(a: Seq<ManaSymbol>, b: Seq<ManaSymbol>)
    requires
        a.to_multiset() == b.to_multiset(),
    ensures
        equivalent(a, b),
{
    lemma_total_permutation(a, b, generic_fn());
    assert forall|x: ManaSymbol| #[trigger] occurrences(a, x) == occurrences(b, x) by {
        lemma_total_permutation(a, b, occurrence_fn(x));
    }
}

/// Reordering the symbols of a cost keeps its mana value.
pub proof fn lemma_permutation_mana_value(a: Seq<ManaSymbol>, b: Seq<ManaSymbol>)
    requires
        a.to_multiset() == b.to_multiset(),
    ensures
        mana_value_of(a) == mana_value_of(b),
{
    lemma_total_permutation(a, b, value_fn());
}

/// Counts how many symbols of `s` count as an occurrence of `x`.
fn count_occurrences(s: &Vec<ManaSymbol>, x: ManaSymbol) -> (r: usize)
    ensures
        r == occurrences(s@, x),
{
    let ghost f = occurrence_fn(x);
    let mut n: usize = 0;
    let mut i: usize = 0;
    while i < s.len()
        invariant
            0 <= i <= s@.len(),
            n == total(s@.subrange(0, i as int), occurrence_fn(x)),
            n <= i,
        decreases s@.len() - i,
    {
        proof {
            lemma_total_prefix(s@, i as int, occurrence_fn(x));
            assert(occurrence_fn(x)(s@[i as int]) == if s@[i as int].counts_as(x) { 1nat } else { 0nat });
        }
        let y = s[i];
        match y {
            ManaSymbol::Generic(_) => {},
            _ => {
                if y.canonicalize() == x {
                    n = n + 1;
                }
            },
        }
        i = i + 1;
    }
    assert(s@.subrange(0, s@.len() as int) =~= s@);
    n
}

/// The sum of the generic amounts, which cannot overflow 128 bits.
fn sum_generic(s: &Vec<ManaSymbol>) -> (r: u128)
    ensures
        r == generic_total(s@),
{
    let ghost f = generic_fn();
    let mut n: u128 = 0;
    let mut i: usize = 0;
    while i < s.len()
        invariant
            0 <= i <= s@.len(),
            n == total(s@.subrange(0, i as int), generic_fn()),
            n <= i * (usize::MAX as int),
        decreases s@.len() - i,
    {
        proof {
            lemma_total_prefix(s@, i as int, generic_fn());
            assert(generic_fn()(s@[i as int]) == s@[i as int].generic_amount());
        }
        match s[i] {
            ManaSymbol::Generic(g) => {
                n = n + g as u128;
            },
            _ => {},
        }
        i = i + 1;
    }
    assert(s@.subrange(0, s@.len() as int) =~= s@);
    n
}

impl ManaCost {
    pub closed spec fn view(&self) -> Seq<ManaSymbol> {
        self.symbols@
    }

    /// A cost made of the given symbols, in that order.
    pub fn from_iter(symbols: Vec<ManaSymbol>) -> (r: ManaCost)
        ensures
            r@ == symbols@,
    {
        ManaCost { symbols }
    }

    pub fn new() -> (r: ManaCost)
        ensures
            r@ == Seq::<ManaSymbol>::empty(),
    {
        ManaCost { symbols: Vec::new() }
    }

    pub fn push(&mut self, symbol: ManaSymbol)
        ensures
            final(self)@ == old(self)@.push(symbol),
    {
        self.symbols.push(symbol);
    }

    /// The symbols in the order in which they were given.
    pub fn symbols(&self) -> (r: &Vec<ManaSymbol>)
        ensures
            r@ == self@,
    {
        &self.symbols
    }

    /// Whether the two costs are equivalent: order, and the order of the
    /// colors of a hybrid, do not matter.
    pub fn equivalent(&self, other: &ManaCost) -> (r: bool)
        ensures
            r == equivalent(self@, other@),
    {
        if sum_generic(&self.symbols) != sum_generic(&other.symbols) {
            return false;
        }
        let a = &self.symbols;
        let b = &other.symbols;
        let mut i: usize = 0;
        while i < a.len()
            invariant
                a@ == self@,
                b@ == other@,
                0 <= i <= a@.len(),
                forall|k: int|
                    0 <= k < i ==> occurrences(a@, (#[trigger] a@[k]).canonical()) == occurrences(
                        b@,
                        a@[k].canonical(),
                    ),
            decreases a@.len() - i,
        {
            let x = a[i].canonicalize();
            if count_occurrences(a, x) != count_occurrences(b, x) {
                assert(occurrences(self@, x) != occurrences(other@, x));
                return false;
            }
            i = i + 1;
        }
        let mut j: usize = 0;
        while j < b.len()
            invariant
                a@ == self@,
                b@ == other@,
                0 <= j <= b@.len(),
                forall|k: int|
                    0 <= k < a@.len() ==> occurrences(a@, (#[trigger] a@[k]).canonical())
                        == occurrences(b@, a@[k].canonical()),
                forall|k: int|
                    0 <= k < j ==> occurrences(a@, (#[trigger] b@[k]).canonical()) == occurrences(
                        b@,
                        b@[k].canonical(),
                    ),
            decreases b@.len() - j,
        {
            let x = b[j].canonicalize();
            if count_occurrences(a, x) != count_occurrences(b, x) {
                assert(occurrences(self@, x) != occurrences(other@, x));
                return false;
            }
            j = j + 1;
        }
        proof {
            assert forall|x: ManaSymbol| #[trigger] occurrences(a@, x) == occurrences(b@, x) by {
                if occurrences(a@, x) > 0 {
                    let k = lemma_occurrence_witness(a@, x);
                    assert(occurrences(a@, a@[k].canonical()) == occurrences(b@, a@[k].canonical()));
                } else if occurrences(b@, x) > 0 {
                    let k = lemma_occurrence_witness(b@, x);
                    assert(occurrences(a@, b@[k].canonical()) == occurrences(b@, b@[k].canonical()));
                }
            }
        }
        true
    }

    pub fn to_string(&self) -> (r: String)
        ensures
            r@ == cost_text(self@),
    {
        let mut r = String::new();
        let mut i: usize = 0;
        while i < self.symbols.len()
            invariant
                0 <= i <= self.symbols@.len(),
                r@ == cost_text(self.symbols@.subrange(0, i as int)),
            decreases self.symbols@.len() - i,
        {
            let t = self.symbols[i].to_string();
            r.append(t.as_str());
            assert(self.symbols@.subrange(0, i as int + 1).drop_last() =~= self.symbols@.subrange(
                0,
                i as int,
            ));
            i = i + 1;
        }
        assert(self.symbols@.subrange(0, self.symbols@.len() as int) =~= self.symbols@);
        r
    }
}

impl ConvertedManaCost for ManaCost {
    open spec fn mana_value(&self) -> nat {
        mana_value_of(self@)
    }

    fn converted_mana_cost(&self) -> (r: usize) {
        let mut n: usize = 0;
        let mut i: usize = 0;
        while i < self.symbols.len()
            invariant
                0 <= i <= self.symbols@.len(),
                n == total(self.symbols@.subrange(0, i as int), value_fn()),
                total(self.symbols@, value_fn()) <= usize::MAX,
            decreases self.symbols@.len() - i,
        {
            proof {
                lemma_total_prefix(self.symbols@, i as int, value_fn());
                assert(value_fn()(self.symbols@[i as int]) == self.symbols@[i as int].value());
                if i + 1 < self.symbols@.len() {
                    lemma_total_prefix(self.symbols@, i as int + 1, value_fn());
                } else {
                    assert(self.symbols@.subrange(0, i as int + 1) =~= self.symbols@);
                }
            }
            n = n + self.symbols[i].converted_mana_cost();
            i = i + 1;
        }
        assert(self.symbols@.subrange(0, self.symbols@.len() as int) =~= self.symbols@);
        n
    }
}

impl PartialEq for ManaCost {
    fn eq(&self, other: &ManaCost) -> (r: bool) {
        self.equivalent(other)
    }
}

impl vstd::std_specs::cmp::PartialEqSpecImpl for ManaCost {
    open spec fn obeys_eq_spec() -> bool {
        true
    }

    open spec fn eq_spec(&self, other: &ManaCost) -> bool {
        equivalent(self@, other@)
    }
}

impl Eq for ManaCost {}

impl Default for ManaCost {
    fn default() -> (r: ManaCost)
        ensures
            r@ == Seq::<ManaSymbol>::empty(),
    {
        ManaCost::new()
    }
}

} // verus!
