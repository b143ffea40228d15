//! Strings as sequences of characters: comparison, decimal rendering and the
//! small edits the shell needs.

use vstd::prelude::*;
use vstd::string::*;

verus! {

/// The character that ends a completed input line.
pub open spec fn newline() -> char {
    '\n'
}

/// The character that separates the tokens of a line.
pub open spec fn space() -> char {
    ' '
}

/// The decimal digit for `d`, which is meant to be below ten.
pub open spec fn digit_char(d: nat) -> char {
    if d == 0 {
        '0'
    } else if d == 1 {
        '1'
    } else if d == 2 {
        '2'
    } else if d == 3 {
        '3'
    } else if d == 4 {
        '4'
    } else if d == 5 {
        '5'
    } else if d == 6 {
        '6'
    } else if d == 7 {
        '7'
    } else if d == 8 {
        '8'
    } else {
        '9'
    }
}

/// `n` in decimal, most significant digit first, without padding.
pub open spec fn decimal(n: nat) -> Seq<char>
    decreases n,
{
    if n < 10 {
        seq![digit_char(n)]
    } else {
        decimal(n / 10).push(digit_char(n % 10))
    }
}

/// `v` in decimal, with a leading minus sign when it is negative.
pub open spec fn signed_decimal(v: int) -> Seq<char> {
    if v < 0 {
        seq!['-'] + decimal((-v) as nat)
    } else {
        decimal(v as nat)
    }
}

/// `n` in decimal, padded with one leading zero when it has a single digit.
pub open spec fn two_digits(n: nat) -> Seq<char> {
    if n < 10 {
        seq!['0', digit_char(n)]
    } else {
        decimal(n)
    }
}

/// Below a hundred, `two_digits` is two characters wide: the tens, then the
/// units.
pub proof fn lemma_two_digits_width(n: nat)
    requires
        n < 100,
    ensures
        two_digits(n) == seq![digit_char(n / 10), digit_char(n % 10)],
{
    if n >= 10 {
        assert(decimal(n / 10) == seq![digit_char(n / 10)]);
        assert(two_digits(n) =~= seq![digit_char(n / 10), digit_char(n % 10)]);
    }
}

/// `s` without its newline characters, the others in their order.
pub open spec fn without_newlines(s: Seq<char>) -> Seq<char> {
    s.filter(|c: char| c != newline())
}

/// A list of string slices as a sequence of character sequences.
pub open spec fn strs_of(strings: Seq<&str>) -> Seq<Seq<char>> {
    strings.map_values(|s: &str| s@)
}

/// The tokens of `s`: the stretches between its spaces, in order.  Every
/// single space separates two tokens, so two spaces in a row, and a space at
/// either end, give an empty token; a string without a space is one token,
/// the empty string too.
pub open spec fn split_spaces(s: Seq<char>) -> Seq<Seq<char>>
    decreases s.len(),
{
    if s.len() == 0 {
        seq![Seq::<char>::empty()]
    } else {
        let before = split_spaces(s.drop_last());
        if s.last() == space() {
            before.push(Seq::<char>::empty())
        } else {
            before.drop_last().push(before.last().push(s.last()))
        }
    }
}

/// The tokens put together again, with one space between neighbours.
pub open spec fn join_spaces(tokens: Seq<Seq<char>>) -> Seq<char>
    decreases tokens.len(),
{
    if tokens.len() == 0 {
        Seq::<char>::empty()
    } else if tokens.len() == 1 {
        tokens[0]
    } else {
        join_spaces(tokens.drop_last()) + seq![space()] + tokens.last()
    }
}

/// Splitting loses nothing and invents nothing: there is at least one token,
/// no token holds a space, and the tokens joined by single spaces are the
/// string that was split.
pub proof fn lemma_split_spaces(s: Seq<char>)
    ensures
        split_spaces(s).len() >= 1,
        forall|i: int, j: int|
            0 <= i < split_spaces(s).len() && 0 <= j < split_spaces(s)[i].len() ==> (
            #[trigger] split_spaces(s)[i][j]) != space(),
        join_spaces(split_spaces(s)) == s,
    decreases s.len(),
{
    if s.len() > 0 {
        let before = split_spaces(s.drop_last());
        lemma_split_spaces(s.drop_last());
        let now = split_spaces(s);
        if s.last() == space() {
            assert(now.drop_last() =~= before);
            assert(join_spaces(now) =~= s);
        } else {
            let grown = before.last().push(s.last());
            assert(now.last() == grown);
            if before.len() == 1 {
                assert(now =~= seq![grown]);
                assert(join_spaces(before) == before[0]);
                assert(join_spaces(now) =~= s);
            } else {
                assert(now.drop_last() =~= before.drop_last());
                assert(join_spaces(now) =~= join_spaces(before).push(s.last()));
                assert(join_spaces(now) =~= s);
            }
        }
    } else {
        assert(join_spaces(split_spaces(s)) =~= s);
    }
}

/// Whether the two strings hold the same characters.
pub fn str_equal(a: &str, b: &str) -> (same: bool)
    ensures
        same == (a@ == b@),
{
    let left = String::from_str(a);
    let right = String::from_str(b);
    left == right
}

/// The one-character string for the digit `d`.
fn digit_str(d: u8) -> (s: &'static str)
    requires
        d < 10,
    ensures
        s@ == seq![digit_char(d as nat)],
{
    proof {
        reveal_strlit("0");
        reveal_strlit("1");
        reveal_strlit("2");
        reveal_strlit("3");
        reveal_strlit("4");
        reveal_strlit("5");
        reveal_strlit("6");
        reveal_strlit("7");
        reveal_strlit("8");
        reveal_strlit("9");
    }
    let s = if d == 0 {
        "0"
    } else if d == 1 {
        "1"
    } else if d == 2 {
        "2"
    } else if d == 3 {
        "3"
    } else if d == 4 {
        "4"
    } else if d == 5 {
        "5"
    } else if d == 6 {
        "6"
    } else if d == 7 {
        "7"
    } else if d == 8 {
        "8"
    } else {
        "9"
    };
    assert(s@ =~= seq![digit_char(d as nat)]);
    s
}

/// Appends `n` in decimal to `out`.
pub fn push_decimal(out: &mut String, n: u32)
    ensures
        final(out)@ == old(out)@ + decimal(n as nat),
    decreases n,
{
    if n >= 10 {
        push_decimal(out, n / 10);
    }
    out.append(digit_str((n % 10) as u8));
    assert(out@ =~= old(out)@ + decimal(n as nat));
}

/// Appends `v` in decimal to `out`, with a minus sign when it is negative.
pub fn push_signed_decimal(out: &mut String, v: i32)
    ensures
        final(out)@ == old(out)@ + signed_decimal(v as int),
{
    if v < 0 {
        proof {
            reveal_strlit("-");
        }
        out.append("-");
        let magnitude: u32 = if v == i32::MIN {
            2147483648u32
        } else {
            (-v) as u32
        };
        push_decimal(out, magnitude);
        assert(out@ =~= old(out)@ + signed_decimal(v as int));
    } else {
        push_decimal(out, v as u32);
    }
}

/// Appends `n` in decimal to `out`, zero-padded to two digits.
pub fn push_two_digits(out: &mut String, n: u8)
    ensures
        final(out)@ == old(out)@ + two_digits(n as nat),
{
    if n < 10 {
        out.append("0");
        out.append(digit_str(n));
        proof {
            reveal_strlit("0");
        }
        assert(out@ =~= old(out)@ + two_digits(n as nat));
    } else {
        push_decimal(out, n as u32);
    }
}

/// A copy of `s` with every newline character removed.
pub fn strip_newlines(s: &str) -> (out: String)
    ensures
        out@ == without_newlines(s@),
{
    let n = s.unicode_len();
    let mut out = String::new();
    let mut i: usize = 0;
    assert(s@.subrange(0, 0) =~= Seq::<char>::empty());
    while i < n
        invariant
            n == s@.len(),
            i <= n,
            out@ == without_newlines(s@.subrange(0, i as int)),
        decreases n - i,
    {
        let c = s.get_char(i);
        proof {
            let keep = |c: char| c != newline();
            let head = s@.subrange(0, i as int);
            let next = s@.subrange(0, i + 1);
            assert(next.drop_last() =~= head);
            assert(next.last() == c);
            reveal(Seq::filter);
            assert(next.filter(keep) == if keep(c) {
                head.filter(keep).push(c)
            } else {
                head.filter(keep)
            });
        }
        if c != '\n' {
            out.append(s.substring_char(i, i + 1));
            assert(s@.subrange(i as int, i + 1) =~= seq![c]);
            assert(out@ =~= without_newlines(s@.subrange(0, i + 1)));
        }
        i = i + 1;
    }
    assert(s@.subrange(0, n as int) =~= s@);
    out
}

/// Splits `s` at every single space.
pub fn split_on_spaces<'a>(s: &'a str) -> (tokens: Vec<&'a str>)
    ensures
        strs_of(tokens@) == split_spaces(s@),
        tokens@.len() >= 1,
{
    let n = s.unicode_len();
    let mut tokens: Vec<&'a str> = Vec::new();
    let mut start: usize = 0;
    let mut i: usize = 0;
    assert(s@.take(0) =~= Seq::<char>::empty());
    assert(strs_of(tokens@).push(s@.subrange(0, 0)) =~= split_spaces(s@.take(0)));
    while i < n
        invariant
            n == s@.len(),
            start <= i <= n,
            split_spaces(s@.take(i as int)) == strs_of(tokens@).push(
                s@.subrange(start as int, i as int),
            ),
        decreases n - i,
    {
        let c = s.get_char(i);
        let ghost before = split_spaces(s@.take(i as int));
        let ghost seen = strs_of(tokens@);
        proof {
            assert(s@.take(i + 1).drop_last() =~= s@.take(i as int));
            assert(s@.take(i + 1).last() == c);
        }
        if c == ' ' {
            tokens.push(s.substring_char(start, i));
            start = i + 1;
            proof {
                assert(strs_of(tokens@) =~= before);
                assert(s@.subrange(start as int, i + 1) =~= Seq::<char>::empty());
            }
        } else {
            proof {
                assert(before.drop_last() =~= seen);
                assert(s@.subrange(start as int, i as int).push(c) =~= s@.subrange(
                    start as int,
                    i + 1,
                ));
            }
        }
        i = i + 1;
    }
    tokens.push(s.substring_char(start, n));
    proof {
        assert(s@.take(n as int) =~= s@);
        assert(strs_of(tokens@) =~= split_spaces(s@));
    }
    tokens
}

} // verus!
