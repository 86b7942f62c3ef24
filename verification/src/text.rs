use vstd::prelude::*;

verus! {

/// Whether `c` has the Unicode `White_Space` property, which is what
/// `char::is_whitespace` decides: the controls U+0009 to U+000D, the space,
/// U+0085, U+00A0, U+1680, U+2000 to U+200A, U+2028, U+2029, U+202F, U+205F
/// and U+3000.
pub open spec fn is_whitespace(c: char) -> bool {
    ||| '\t' <= c && c <= '\r'
    ||| c == ' '
    ||| c == '\u{85}'
    ||| c == '\u{A0}'
    ||| c == '\u{1680}'
    ||| '\u{2000}' <= c && c <= '\u{200A}'
    ||| c == '\u{2028}'
    ||| c == '\u{2029}'
    ||| c == '\u{202F}'
    ||| c == '\u{205F}'
    ||| c == '\u{3000}'
}

/// Whether `c` is whitespace, as `char::is_whitespace` answers.
pub fn char_is_whitespace(c: char) -> (r: bool)
    ensures
        r == is_whitespace(c),
{
    ('\t' <= c && c <= '\r') || c == ' ' || c == '\u{85}' || c == '\u{A0}' || c == '\u{1680}'
        || ('\u{2000}' <= c && c <= '\u{200A}') || c == '\u{2028}' || c == '\u{2029}'
        || c == '\u{202F}' || c == '\u{205F}' || c == '\u{3000}'
}

/// The characters of `s`, in order.
pub fn chars_of(s: &str) -> (v: Vec<char>)
    ensures
        v@ == s@,
{
    let mut v: Vec<char> = Vec::new();
    for c in it: s.chars()
        invariant
            v@ == it.seq().take(it.index() as int),
    {
        v.push(c);
    }
    v
}

/// The pieces of `s` between the positions marked in `marks` (one mark per
/// character; a marked character separates pieces and belongs to none), as
/// `str::split` yields them: one piece more than there are marked
/// characters, empty pieces included.
pub open spec fn split_marked(s: Seq<char>, marks: Seq<bool>) -> Seq<Seq<char>>
    decreases s.len(),
{
    if s.len() == 0 {
        seq![Seq::empty()]
    } else {
        let init = split_marked(s.drop_last(), marks);
        if marks[s.len() - 1] {
            init.push(Seq::empty())
        } else {
            init.update(init.len() - 1, init.last().push(s.last()))
        }
    }
}

/// The marks of the characters of `s` that are whitespace.
pub open spec fn whitespace_marks(s: Seq<char>) -> Seq<bool> {
    s.map_values(|c: char| is_whitespace(c))
}

/// Whether a piece has at least one character.
pub open spec fn nonempty(w: Seq<char>) -> bool {
    w.len() > 0
}

/// The whitespace-separated words of `s`, as `str::split_whitespace` yields
/// them: the non-empty pieces between whitespace characters.
pub open spec fn words(s: Seq<char>) -> Seq<Seq<char>> {
    split_marked(s, whitespace_marks(s)).filter(|w: Seq<char>| nonempty(w))
}

/// The contents of each vector of characters in `v`.
pub open spec fn views(v: Seq<Vec<char>>) -> Seq<Seq<char>> {
    v.map_values(|w: Vec<char>| w@)
}

/// One step of `split_marked`: the pieces of `s` with one more character.
proof fn lemma_split_marked_step(s: Seq<char>, marks: Seq<bool>, i: int, done: Seq<Seq<char>>, cur: Seq<char>)
    requires
        0 <= i < s.len(),
        split_marked(s.take(i), marks) == done.push(cur),
    ensures
        marks[i] ==> split_marked(s.take(i + 1), marks) == done.push(cur).push(Seq::<char>::empty()),
        !marks[i] ==> split_marked(s.take(i + 1), marks) == done.push(cur.push(s[i])),
{
    assert(s.take(i + 1).drop_last() =~= s.take(i));
    assert(s.take(i + 1).last() == s[i]);
    if !marks[i] {
        assert(done.push(cur).update(done.len() as int, cur.push(s[i])) =~= done.push(cur.push(s[i])));
    }
}

/// The pieces of `s` between the characters marked in `marks`.
pub fn split_at_marks(s: &Vec<char>, marks: &Vec<bool>) -> (pieces: Vec<Vec<char>>)
    requires
        marks@.len() == s@.len(),
    ensures
        views(pieces@) == split_marked(s@, marks@),
{
    let mut pieces: Vec<Vec<char>> = Vec::new();
    let mut cur: Vec<char> = Vec::new();
    let mut i: usize = 0;
    assert(s@.take(0) =~= Seq::<char>::empty());
    assert(views(pieces@).push(cur@) =~= seq![Seq::<char>::empty()]);
    while i < s.len()
        invariant
            0 <= i <= s.len(),
            marks@.len() == s@.len(),
            split_marked(s@.take(i as int), marks@) == views(pieces@).push(cur@),
        decreases s.len() - i,
    {
        proof {
            lemma_split_marked_step(s@, marks@, i as int, views(pieces@), cur@);
        }
        if marks[i] {
            let ghost before = views(pieces@);
            let ghost cv = cur@;
            pieces.push(cur);
            assert(views(pieces@) =~= before.push(cv));
            cur = Vec::new();
            assert(cur@ =~= Seq::<char>::empty());
        } else {
            cur.push(s[i]);
        }
        i = i + 1;
    }
    let ghost before = views(pieces@);
    let ghost cv = cur@;
    pieces.push(cur);
    assert(views(pieces@) =~= before.push(cv));
    assert(s@.take(s@.len() as int) =~= s@);
    pieces
}

/// The pieces of `pieces` that have at least one character, in order.
pub fn nonempty_pieces(pieces: Vec<Vec<char>>) -> (kept: Vec<Vec<char>>)
    ensures
        views(kept@) == views(pieces@).filter(|w: Seq<char>| nonempty(w)),
{
    let ghost pv = pieces@;
    let mut kept: Vec<Vec<char>> = Vec::new();
    assert(views(pv.take(0)) =~= Seq::<Seq<char>>::empty());
    proof {
        reveal(Seq::filter);
    }
    for p in it: pieces.into_iter()
        invariant
            it.seq() == pv,
            views(kept@) == views(pv.take(it.index() as int)).filter(|w: Seq<char>| nonempty(w)),
    {
        let ghost k = it.index() as int;
        assert(views(pv.take(k + 1)) =~= views(pv.take(k)).push(p@));
        proof {
            views(pv.take(k)).lemma_filter_push(p@, |w: Seq<char>| nonempty(w));
        }
        if p.len() > 0 {
            let ghost before = views(kept@);
            let ghost pw = p@;
            kept.push(p);
            assert(views(kept@) =~= before.push(pw));
        }
    }
    assert(pv.take(pv.len() as int) =~= pv);
    kept
}

/// The marks of the characters of `s` that are whitespace.
fn mark_whitespace(s: &Vec<char>) -> (marks: Vec<bool>)
    ensures
        marks@ == whitespace_marks(s@),
{
    let mut marks: Vec<bool> = Vec::new();
    let mut i: usize = 0;
    while i < s.len()
        invariant
            0 <= i <= s.len(),
            marks@ == whitespace_marks(s@).take(i as int),
        decreases s.len() - i,
    {
        marks.push(char_is_whitespace(s[i]));
        i = i + 1;
        assert(marks@ =~= whitespace_marks(s@).take(i as int));
    }
    assert(whitespace_marks(s@).take(s.len() as int) =~= whitespace_marks(s@));
    marks
}

/// The marks of the characters of `s` that equal `sep`.
pub open spec fn char_marks(s: Seq<char>, sep: char) -> Seq<bool> {
    s.map_values(|c: char| c == sep)
}

/// The pieces of `s` between occurrences of `sep`, as `str::split(sep)`
/// yields them.
pub fn split_on(s: &Vec<char>, sep: char) -> (pieces: Vec<Vec<char>>)
    ensures
        views(pieces@) == split_marked(s@, char_marks(s@, sep)),
{
    let mut marks: Vec<bool> = Vec::new();
    let mut i: usize = 0;
    while i < s.len()
        invariant
            0 <= i <= s.len(),
            marks@ == char_marks(s@, sep).take(i as int),
        decreases s.len() - i,
    {
        marks.push(s[i] == sep);
        i = i + 1;
        assert(marks@ =~= char_marks(s@, sep).take(i as int));
    }
    assert(char_marks(s@, sep).take(s.len() as int) =~= char_marks(s@, sep));
    split_at_marks(s, &marks)
}

/// The whitespace-separated words of `s`, as `str::split_whitespace` yields
/// them.
pub fn split_words(s: &Vec<char>) -> (ws: Vec<Vec<char>>)
    ensures
        views(ws@) == words(s@),
{
    let marks = mark_whitespace(s);
    nonempty_pieces(split_at_marks(s, &marks))
}

/// Whether `c` is one of the ASCII digits `0` to `9`.
pub open spec fn is_digit(c: char) -> bool {
    '0' <= c && c <= '9'
}

/// The value of the ASCII digit `c`.
pub open spec fn digit_value(c: char) -> nat {
    (c as int - '0' as int) as nat
}

/// The decimal value of the digits `s`, most significant first.
pub open spec fn decimal_value(s: Seq<char>) -> nat
    decreases s.len(),
{
    if s.len() == 0 {
        0
    } else {
        decimal_value(s.drop_last()) * 10 + digit_value(s.last())
    }
}

/// Whether every character of `s` is an ASCII digit.
pub open spec fn all_digits(s: Seq<char>) -> bool {
    forall|i: int| 0 <= i < s.len() ==> is_digit(#[trigger] s[i])
}

/// What `str::parse::<u32>` gives for the text `s`: an optional `+` sign
/// followed by at least one ASCII digit, whose decimal value fits in a `u32`;
/// `None` for every other text.
pub open spec fn u32_from_str(s: Seq<char>) -> Option<u32> {
    let digits = if s.len() > 0 && s[0] == '+' {
        s.drop_first()
    } else {
        s
    };
    if digits.len() > 0 && all_digits(digits) && decimal_value(digits) <= u32::MAX {
        Some(decimal_value(digits) as u32)
    } else {
        None
    }
}

/// Adding digits never lowers the decimal value.
proof fn lemma_decimal_value_prefix(s: Seq<char>, k: int)
    requires
        0 <= k <= s.len(),
        all_digits(s),
    ensures
        decimal_value(s.take(k)) <= decimal_value(s),
    decreases s.len() - k,
{
    if k < s.len() {
        lemma_decimal_value_prefix(s, k + 1);
        assert(s.take(k + 1).drop_last() =~= s.take(k));
    } else {
        assert(s.take(k) =~= s);
    }
}

/// How `str::parse::<u32>` reads decimal digits: a single digit `c` reads as
/// its distance from `'0'`, and appending any digit `c` (`'0'` included) to a
/// digit string that reads as `v` gives `10 * v` plus that distance, as long as
/// the result fits in a `u32`, and nothing once it does not.
pub proof fn law_digits_read_in_base_ten(s: Seq<char>, c: char)
    requires
        '0' <= c <= '9',
        forall|i: int| 0 <= i < s.len() ==> '0' <= #[trigger] s[i] <= '9',
    ensures
        u32_from_str(seq![c]) == Some((c as u32 - '0' as u32) as u32),
        s.len() > 0 ==> match u32_from_str(s) {
            Some(v) => u32_from_str(s.push(c)) == if v * 10 + (c as int - '0' as int)
                <= u32::MAX {
                Some((v * 10 + (c as int - '0' as int)) as u32)
            } else {
                None::<u32>
            },
            None => u32_from_str(s.push(c)) is None,
        },
{
    assert(seq![c].drop_last() =~= Seq::<char>::empty());
    assert(decimal_value(Seq::<char>::empty()) == 0);
    assert(decimal_value(seq![c]) == c as int - '0' as int);
    assert(seq![c][0] != '+');
    assert(all_digits(seq![c]));
    if s.len() > 0 {
        let t = s.push(c);
        assert(t.drop_last() =~= s);
        assert(all_digits(s));
        assert(all_digits(t)) by {
            assert forall|i: int| 0 <= i < t.len() implies is_digit(#[trigger] t[i]) by {
                if i < s.len() {
                    assert(t[i] == s[i]);
                }
            }
        }
        assert(s[0] != '+');
        assert(t[0] == s[0]);
        assert(decimal_value(t) == decimal_value(s) * 10 + (c as int - '0' as int));
        assert(decimal_value(t) >= decimal_value(s)) by (nonlinear_arith)
            requires
                decimal_value(t) == decimal_value(s) * 10 + (c as int - '0' as int),
                c as int - '0' as int >= 0,
        ;
    }
}

/// Parses `s` as `str::parse::<u32>` does.
pub fn parse_u32(s: &Vec<char>) -> (r: Option<u32>)
    ensures
        r == u32_from_str(s@),
{
    let start: usize = if s.len() > 0 && s[0] == '+' { 1 } else { 0 };
    let ghost digits = if s@.len() > 0 && s@[0] == '+' { s@.drop_first() } else { s@ };
    assert(digits =~= s@.skip(start as int));
    if start >= s.len() {
        return None;
    }
    let mut value: u64 = 0;
    let mut i: usize = start;
    while i < s.len()
        invariant
            start <= i <= s.len(),
            start == (if s@.len() > 0 && s@[0] == '+' { 1usize } else { 0usize }),
            digits == (if s@.len() > 0 && s@[0] == '+' { s@.drop_first() } else { s@ }),
            digits =~= s@.skip(start as int),
            all_digits(digits.take(i - start)),
            value == decimal_value(digits.take(i - start)),
            value <= u32::MAX,
        decreases s.len() - i,
    {
        let c = s[i];
        let ghost k = i - start;
        assert(digits.take(k + 1).drop_last() =~= digits.take(k));
        assert(digits.take(k + 1).last() == c);
        if c < '0' || c > '9' {
            assert(!is_digit(digits[k]));
            return None;
        }
        let d = (c as u32) - ('0' as u32);
        value = value * 10 + d as u64;
        if value > 4294967295u64 {
            proof {
                if all_digits(digits) {
                    lemma_decimal_value_prefix(digits, k + 1);
                }
            }
            return None;
        }
        i = i + 1;
    }
    assert(digits.take(s.len() - start) =~= digits);
    Some(value as u32)
}

} // verus!
