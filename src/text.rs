use vstd::prelude::*;

verus! {

/// Unicode white space, the characters that separate words.
pub open spec fn is_space(c: char) -> bool {
    let u = c as u32;
    ||| 0x09 <= u <= 0x0d
    ||| u == 0x20
    ||| u == 0x85
    ||| u == 0xa0
    ||| u == 0x1680
    ||| 0x2000 <= u <= 0x200a
    ||| u == 0x2028
    ||| u == 0x2029
    ||| u == 0x202f
    ||| u == 0x205f
    ||| u == 0x3000
}

pub fn is_space_char(c: char) -> (r: bool)
    ensures
        r == is_space(c),
{
    let u = c as u32;
    (0x09 <= u && u <= 0x0d) || u == 0x20 || u == 0x85 || u == 0xa0 || u == 0x1680 || (0x2000 <= u
        && u <= 0x200a) || u == 0x2028 || u == 0x2029 || u == 0x202f || u == 0x205f || u == 0x3000
}

/// The characters of a string.
pub fn chars_of(s: &str) -> (r: Vec<char>)
    ensures
        r@ == s@,
{
    let n = s.unicode_len();
    let mut r: Vec<char> = Vec::new();
    let mut i: usize = 0;
    while i < n
        invariant
            n == s@.len(),
            0 <= i <= n,
            r@ == s@.subrange(0, i as int),
        decreases n - i,
    {
        r.push(s.get_char(i));
        assert(r@ =~= s@.subrange(0, i as int + 1));
        i = i + 1;
    }
    assert(r@ =~= s@);
    r
}

/// Whether `t[lo..hi]` is the string `name`.
pub fn matches_text(t: &Vec<char>, lo: usize, hi: usize, name: &str) -> (r: bool)
    requires
        lo <= hi <= t@.len(),
    ensures
        r == (t@.subrange(lo as int, hi as int) == name@),
{
    let n = name.unicode_len();
    if hi - lo != n {
        return false;
    }
    let mut k: usize = 0;
    while k < n
        invariant
            n == name@.len(),
            hi - lo == n,
            lo <= hi <= t@.len(),
            0 <= k <= n,
            forall|j: int| 0 <= j < k ==> t@[lo + j] == name@[j],
        decreases n - k,
    {
        if t[lo + k] != name.get_char(k) {
            assert(t@.subrange(lo as int, hi as int)[k as int] != name@[k as int]);
            return false;
        }
        k = k + 1;
    }
    assert(t@.subrange(lo as int, hi as int) =~= name@);
    true
}

/// The words of `s`, maximal runs of characters other than white space,
/// scanning from position `i` with the word `cur` begun and the words `acc`
/// already found.
pub open spec fn words_acc(s: Seq<char>, i: int, cur: Seq<char>, acc: Seq<Seq<char>>) -> Seq<
    Seq<char>,
>
    decreases s.len() - i,
{
    if i >= s.len() {
        if cur.len() > 0 {
            acc.push(cur)
        } else {
            acc
        }
    } else if is_space(s[i]) {
        words_acc(s, i + 1, Seq::empty(), if cur.len() > 0 { acc.push(cur) } else { acc })
    } else {
        words_acc(s, i + 1, cur.push(s[i]), acc)
    }
}

/// The words of `s`, in order.
pub open spec fn words(s: Seq<char>) -> Seq<Seq<char>> {
    words_acc(s, 0, Seq::empty(), Seq::empty())
}

pub open spec fn word_views(ws: Seq<Vec<char>>) -> Seq<Seq<char>> {
    ws.map_values(|w: Vec<char>| w@)
}

/// The position of the first character at or after `i` that is not white
/// space, or the length.
pub open spec fn skip_spaces(s: Seq<char>, i: int) -> int
    decreases s.len() - i,
{
    if i >= s.len() || !is_space(s[i]) {
        i
    } else {
        skip_spaces(s, i + 1)
    }
}

/// The end of `s[..j]` once trailing white space is dropped.
pub open spec fn trim_end_from(s: Seq<char>, j: int) -> int
    decreases j,
{
    if j <= 0 || !is_space(s[j - 1]) {
        j
    } else {
        trim_end_from(s, j - 1)
    }
}

/// `s` without leading and trailing white space.
pub open spec fn trim(s: Seq<char>) -> Seq<char> {
    let a = skip_spaces(s, 0);
    let b = trim_end_from(s, s.len() as int);
    if a < b {
        s.subrange(a, b)
    } else {
        Seq::empty()
    }
}

/// The position of the first `c` at or after `i`, or the length.
pub open spec fn find_from(s: Seq<char>, c: char, i: int) -> int
    decreases s.len() - i,
{
    if i >= s.len() {
        s.len() as int
    } else if s[i] == c {
        i
    } else {
        find_from(s, c, i + 1)
    }
}

/// A word: not empty and without white space.
pub open spec fn is_word(s: Seq<char>) -> bool {
    &&& s.len() > 0
    &&& forall|i: int| 0 <= i < s.len() ==> !is_space(#[trigger] s[i])
}

/// `acc` with `cur` appended if `cur` is not empty.
pub open spec fn flush(cur: Seq<char>, acc: Seq<Seq<char>>) -> Seq<Seq<char>> {
    if cur.len() > 0 {
        acc.push(cur)
    } else {
        acc
    }
}

pub proof fn lemma_words_acc(s: Seq<char>, i: int, cur: Seq<char>, acc: Seq<Seq<char>>)
    requires
        0 <= i,
    ensures
        words_acc(s, i, cur, acc) == acc + words_acc(s, i, cur, Seq::empty()),
    decreases s.len() - i,
{
    if i >= s.len() {
        assert(flush(cur, acc) =~= acc + flush(cur, Seq::empty()));
    } else if is_space(s[i]) {
        lemma_words_acc(s, i + 1, Seq::empty(), flush(cur, acc));
        lemma_words_acc(s, i + 1, Seq::empty(), flush(cur, Seq::empty()));
        assert(flush(cur, acc) =~= acc + flush(cur, Seq::empty()));
        assert(words_acc(s, i, cur, acc) == words_acc(s, i + 1, Seq::empty(), flush(cur, acc)));
        assert(words_acc(s, i, cur, Seq::empty()) == words_acc(
            s,
            i + 1,
            Seq::empty(),
            flush(cur, Seq::empty()),
        ));
        assert(acc + (flush(cur, Seq::empty()) + words_acc(s, i + 1, Seq::empty(), Seq::empty()))
            =~= flush(cur, acc) + words_acc(s, i + 1, Seq::empty(), Seq::empty()));
    } else {
        lemma_words_acc(s, i + 1, cur.push(s[i]), acc);
    }
}

/// Scanning `x + y` past `x` is scanning `y`.
pub proof fn lemma_words_shift(
    x: Seq<char>,
    y: Seq<char>,
    j: int,
    cur: Seq<char>,
    acc: Seq<Seq<char>>,
)
    requires
        0 <= j,
    ensures
        words_acc(x + y, x.len() + j, cur, acc) == words_acc(y, j, cur, acc),
    decreases y.len() - j,
{
    if j < y.len() {
        assert((x + y)[x.len() + j] == y[j]);
        if is_space(y[j]) {
            lemma_words_shift(x, y, j + 1, Seq::empty(), flush(cur, acc));
        } else {
            lemma_words_shift(x, y, j + 1, cur.push(y[j]), acc);
        }
    }
}

proof fn lemma_words_concat_from(x: Seq<char>, y: Seq<char>, i: int, cur: Seq<char>)
    requires
        x.len() > 0,
        is_space(x[x.len() - 1]),
        0 <= i < x.len(),
    ensures
        words_acc(x + y, i, cur, Seq::empty()) == words_acc(x, i, cur, Seq::empty()) + words(y),
    decreases x.len() - i,
{
    assert((x + y)[i] == x[i]);
    if i == x.len() - 1 {
        lemma_words_shift(x, y, 0, Seq::empty(), flush(cur, Seq::empty()));
        lemma_words_acc(y, 0, Seq::empty(), flush(cur, Seq::empty()));
        assert(words_acc(x + y, i, cur, Seq::empty()) == words_acc(
            x + y,
            x.len() + 0int,
            Seq::empty(),
            flush(cur, Seq::empty()),
        ));
        assert(words_acc(x, i, cur, Seq::empty()) == words_acc(
            x,
            x.len() as int,
            Seq::empty(),
            flush(cur, Seq::empty()),
        ));
        assert(words_acc(x, x.len() as int, Seq::empty(), flush(cur, Seq::empty())) == flush(
            cur,
            Seq::empty(),
        ));
    } else if is_space(x[i]) {
        lemma_words_acc(x + y, i + 1, Seq::empty(), flush(cur, Seq::empty()));
        lemma_words_acc(x, i + 1, Seq::empty(), flush(cur, Seq::empty()));
        lemma_words_concat_from(x, y, i + 1, Seq::empty());
        assert(flush(cur, Seq::empty()) + (words_acc(x, i + 1, Seq::empty(), Seq::empty()) + words(y))
            =~= (flush(cur, Seq::empty()) + words_acc(x, i + 1, Seq::empty(), Seq::empty())) + words(y));
    } else {
        lemma_words_concat_from(x, y, i + 1, cur.push(x[i]));
    }
}

/// The words of `x + y` are those of `x` then those of `y`, when `x` is empty
/// or ends in white space.
pub proof fn lemma_words_concat(x: Seq<char>, y: Seq<char>)
    requires
        x.len() == 0 || is_space(x[x.len() - 1]),
    ensures
        words(x + y) == words(x) + words(y),
{
    if x.len() == 0 {
        assert(x + y =~= y);
        assert(words(x) =~= Seq::<Seq<char>>::empty());
        assert(words(x) + words(y) =~= words(y));
    } else {
        lemma_words_concat_from(x, y, 0, Seq::empty());
    }
}

proof fn lemma_words_trailing_from(x: Seq<char>, i: int, cur: Seq<char>, acc: Seq<Seq<char>>)
    requires
        0 <= i <= x.len(),
    ensures
        words_acc(x.push(' '), i, cur, acc) == words_acc(x, i, cur, acc),
    decreases x.len() - i,
{
    assert(is_space(' ')) by {
        assert((' ' as u32) == 0x20);
    }
    if i == x.len() {
        assert(x.push(' ')[i] == ' ');
        assert(words_acc(x.push(' '), i + 1, Seq::empty(), flush(cur, acc)) == flush(cur, acc));
    } else {
        assert(x.push(' ')[i] == x[i]);
        if is_space(x[i]) {
            lemma_words_trailing_from(x, i + 1, Seq::empty(), flush(cur, acc));
        } else {
            lemma_words_trailing_from(x, i + 1, cur.push(x[i]), acc);
        }
    }
}

/// A trailing space adds no word.
pub proof fn lemma_words_trailing(x: Seq<char>)
    ensures
        words(x.push(' ')) == words(x),
{
    lemma_words_trailing_from(x, 0, Seq::empty(), Seq::empty());
}

proof fn lemma_words_single_from(w: Seq<char>, i: int)
    requires
        is_word(w),
        0 <= i <= w.len(),
    ensures
        words_acc(w, i, w.subrange(0, i), Seq::empty()) == seq![w],
    decreases w.len() - i,
{
    if i == w.len() {
        assert(w.subrange(0, i) =~= w);
        assert(Seq::<Seq<char>>::empty().push(w) =~= seq![w]);
    } else {
        assert(!is_space(w[i]));
        assert(w.subrange(0, i).push(w[i]) =~= w.subrange(0, i + 1));
        lemma_words_single_from(w, i + 1);
    }
}

/// A word is its own only word.
pub proof fn lemma_words_single(w: Seq<char>)
    requires
        is_word(w),
    ensures
        words(w) == seq![w],
{
    assert(w.subrange(0, 0) =~= Seq::<char>::empty());
    lemma_words_single_from(w, 0);
}

proof fn lemma_word_views_push(ws: Seq<Vec<char>>, w: Vec<char>)
    ensures
        word_views(ws.push(w)) == word_views(ws).push(w@),
{
    assert(word_views(ws.push(w)) =~= word_views(ws).push(w@));
}

/// Splits `s` into its words.
pub fn split_words(s: &Vec<char>) -> (r: Vec<Vec<char>>)
    ensures
        word_views(r@) == words(s@),
{
    let mut acc: Vec<Vec<char>> = Vec::new();
    let mut cur: Vec<char> = Vec::new();
    let mut i: usize = 0;
    assert(word_views(acc@) =~= Seq::<Seq<char>>::empty());
    while i < s.len()
        invariant
            0 <= i <= s@.len(),
            words_acc(s@, i as int, cur@, word_views(acc@)) == words(s@),
        decreases s@.len() - i,
    {
        let c = s[i];
        if is_space_char(c) {
            if cur.len() > 0 {
                proof {
                    lemma_word_views_push(acc@, cur);
                }
                acc.push(cur);
                cur = Vec::new();
            } else {
                assert(cur@ =~= Seq::<char>::empty());
            }
        } else {
            cur.push(c);
        }
        i = i + 1;
    }
    if cur.len() > 0 {
        proof {
            lemma_word_views_push(acc@, cur);
        }
        acc.push(cur);
    }
    acc
}

/// The characters `t[lo..hi]`.
pub fn copy_range(t: &Vec<char>, lo: usize, hi: usize) -> (r: Vec<char>)
    requires
        lo <= hi <= t@.len(),
    ensures
        r@ == t@.subrange(lo as int, hi as int),
{
    let mut r: Vec<char> = Vec::new();
    let mut i: usize = lo;
    while i < hi
        invariant
            lo <= i <= hi <= t@.len(),
            r@ == t@.subrange(lo as int, i as int),
        decreases hi - i,
    {
        r.push(t[i]);
        assert(r@ =~= t@.subrange(lo as int, i as int + 1));
        i = i + 1;
    }
    r
}

/// The position of the first `c` in `t` at or after `from`, or the length.
pub fn find_char(t: &Vec<char>, c: char, from: usize) -> (r: usize)
    requires
        from <= t@.len(),
    ensures
        r == find_from(t@, c, from as int),
        from <= r <= t@.len(),
{
    let mut i: usize = from;
    while i < t.len() && t[i] != c
        invariant
            from <= i <= t@.len(),
            find_from(t@, c, i as int) == find_from(t@, c, from as int),
        decreases t@.len() - i,
    {
        i = i + 1;
    }
    i
}

/// The bounds of `t` without leading and trailing white space.
pub fn trim_bounds(t: &Vec<char>) -> (r: (usize, usize))
    ensures
        r.0 <= r.1 <= t@.len(),
        t@.subrange(r.0 as int, r.1 as int) == trim(t@),
{
    let mut a: usize = 0;
    while a < t.len() && is_space_char(t[a])
        invariant
            0 <= a <= t@.len(),
            skip_spaces(t@, a as int) == skip_spaces(t@, 0),
        decreases t@.len() - a,
    {
        a = a + 1;
    }
    let mut b: usize = t.len();
    while b > 0 && is_space_char(t[b - 1])
        invariant
            0 <= b <= t@.len(),
            trim_end_from(t@, b as int) == trim_end_from(t@, t@.len() as int),
        decreases b,
    {
        b = b - 1;
    }
    if a < b {
        (a, b)
    } else {
        assert(t@.subrange(0, 0) =~= Seq::<char>::empty());
        (0, 0)
    }
}

/// Relies on `String::push`: the character is appended.
#[verifier::external_body]
fn push_char(s: &mut String, c: char)
    ensures
        final(s)@ == old(s)@.push(c),
{
    s.push(c);
}

/// A string of the given characters.
pub fn string_of(cs: &Vec<char>) -> (r: String)
    ensures
        r@ == cs@,
{
    let mut r = String::new();
    let mut i: usize = 0;
    while i < cs.len()
        invariant
            0 <= i <= cs@.len(),
            r@ == cs@.subrange(0, i as int),
        decreases cs@.len() - i,
    {
        push_char(&mut r, cs[i]);
        assert(r@ =~= cs@.subrange(0, i as int + 1));
        i = i + 1;
    }
    assert(cs@.subrange(0, cs@.len() as int) =~= cs@);
    r
}

} // verus!
