//! Display text shared by the interfaces: strip labels, pair bus labels,
//! pan readouts and decimal numbers.
use vstd::prelude::*;

verus! {

/// The ASCII digit character for `d` (0-9).
pub open spec fn digit_char(d: int) -> char {
    if d == 0 {
        '0'
    } else if d == 1 {
        '1'
    } else if d == 2 {
        '2'
    } else if d == 3 {
        '3'
    } else if d == 4 {
        '4'
    } else if d == 5 {
        '5'
    } else if d == 6 {
        '6'
    } else if d == 7 {
        '7'
    } else if d == 8 {
        '8'
    } else {
        '9'
    }
}

/// The decimal representation of `n`, most significant digit first, with
/// no leading zeros.
pub open spec fn decimal(n: nat) -> Seq<char>
    decreases n,
{
    if n < 10 {
        seq![digit_char(n as int)]
    } else {
        decimal(n / 10).push(digit_char((n % 10) as int))
    }
}

/// Whether `c` is an ASCII digit.
pub open spec fn is_digit(c: char) -> bool {
    '0' <= c && c <= '9'
}

/// Whether `p` is a prefix of `s`.
pub open spec fn has_prefix(s: Seq<char>, p: Seq<char>) -> bool {
    p.len() <= s.len() && s.subrange(0, p.len() as int) == p
}

/// `s` without its leading non-digit characters.
pub open spec fn skip_non_digits(s: Seq<char>) -> Seq<char>
    decreases s.len(),
{
    if s.len() == 0 {
        s
    } else if is_digit(s[0]) {
        s
    } else {
        skip_non_digits(s.drop_first())
    }
}

/// The one-character string literal for a digit.
fn digit_str(d: u64) -> (r: &'static str)
    requires
        d < 10,
    ensures
        r@ == seq![digit_char(d as int)],
{
    if d == 0 {
        proof {
            reveal_strlit("0");
        }
        "0"
    } else if d == 1 {
        proof {
            reveal_strlit("1");
        }
        "1"
    } else if d == 2 {
        proof {
            reveal_strlit("2");
        }
        "2"
    } else if d == 3 {
        proof {
            reveal_strlit("3");
        }
        "3"
    } else if d == 4 {
        proof {
            reveal_strlit("4");
        }
        "4"
    } else if d == 5 {
        proof {
            reveal_strlit("5");
        }
        "5"
    } else if d == 6 {
        proof {
            reveal_strlit("6");
        }
        "6"
    } else if d == 7 {
        proof {
            reveal_strlit("7");
        }
        "7"
    } else if d == 8 {
        proof {
            reveal_strlit("8");
        }
        "8"
    } else {
        proof {
            reveal_strlit("9");
        }
        "9"
    }
}

/// Appends the decimal representation of `n` to `s`.
pub fn push_decimal(s: &mut String, n: u64)
    ensures
        final(s)@ == old(s)@ + decimal(n as nat),
    decreases n,
{
    if n >= 10 {
        push_decimal(s, n / 10);
    }
    s.append(digit_str(n % 10));
    assert(decimal(n as nat) =~= if n < 10 {
        seq![digit_char(n as int)]
    } else {
        decimal((n / 10) as nat).push(digit_char((n % 10) as int))
    });
}

/// The decimal representation of `n` as a new string.
pub fn decimal_string(n: u64) -> (r: String)
    ensures
        r@ == decimal(n as nat),
{
    let mut s = String::new();
    push_decimal(&mut s, n);
    assert(s@ =~= decimal(n as nat));
    s
}

/// Whether the first four characters of `s` are `a b c d`.
fn starts_with4(s: &str, n: usize, a: char, b: char, c: char, d: char) -> (r: bool)
    requires
        n == s@.len(),
    ensures
        r == (n >= 4 && s@[0] == a && s@[1] == b && s@[2] == c && s@[3] == d),
{
    n >= 4 && s.get_char(0) == a && s.get_char(1) == b && s.get_char(2) == c && s.get_char(3) == d
}

/// The label shown in a strip header: the stored name without a leading
/// `"PCM "` (playbacks) or `"OUT "` (outputs), which the strip's type
/// badge already conveys.
pub fn short_label(name: &str) -> (r: &str)
    ensures
        r@ == (if has_prefix(name@, "PCM "@) {
            name@.subrange(4, name@.len() as int)
        } else if has_prefix(name@, "OUT "@) {
            name@.subrange(4, name@.len() as int)
        } else {
            name@
        }),
{
    proof {
        reveal_strlit("PCM ");
        reveal_strlit("OUT ");
    }
    let n = name.unicode_len();
    let pcm = starts_with4(name, n, 'P', 'C', 'M', ' ');
    assert(pcm == has_prefix(name@, "PCM "@)) by {
        if n >= 4 {
            if pcm {
                assert(name@.subrange(0, 4) =~= "PCM "@);
            } else if has_prefix(name@, "PCM "@) {
                assert(name@.subrange(0, 4)[0] == name@[0]);
                assert(name@.subrange(0, 4)[1] == name@[1]);
                assert(name@.subrange(0, 4)[2] == name@[2]);
                assert(name@.subrange(0, 4)[3] == name@[3]);
            }
        }
    }
    if pcm {
        return name.substring_char(4, n);
    }
    let out = starts_with4(name, n, 'O', 'U', 'T', ' ');
    assert(out == has_prefix(name@, "OUT "@)) by {
        if n >= 4 {
            if out {
                assert(name@.subrange(0, 4) =~= "OUT "@);
            } else if has_prefix(name@, "OUT "@) {
                assert(name@.subrange(0, 4)[0] == name@[0]);
                assert(name@.subrange(0, 4)[1] == name@[1]);
                assert(name@.subrange(0, 4)[2] == name@[2]);
                assert(name@.subrange(0, 4)[3] == name@[3]);
            }
        }
    }
    if out {
        return name.substring_char(4, n);
    }
    name
}

/// Skipping leading non-digits from position `i` gives the same result
/// as from the start, when everything before `i` is a non-digit.
proof fn lemma_skip_non_digits_from(s: Seq<char>, i: int)
    requires
        0 <= i <= s.len(),
        forall|j: int| 0 <= j < i ==> !is_digit(#[trigger] s[j]),
    ensures
        skip_non_digits(s) == skip_non_digits(s.subrange(i, s.len() as int)),
    decreases i,
{
    if i > 0 {
        assert(!is_digit(s[0]));
        let t = s.drop_first();
        assert forall|j: int| 0 <= j < i - 1 implies !is_digit(#[trigger] t[j]) by {
            assert(t[j] == s[j + 1]);
        }
        lemma_skip_non_digits_from(t, i - 1);
        assert(t.subrange(i - 1, t.len() as int) =~= s.subrange(i, s.len() as int));
    } else {
        assert(s.subrange(0, s.len() as int) =~= s);
    }
}

/// The bus label of a linked pair: `left`, a slash, and `right` from its
/// first digit on (all of `right` when it has no digit).
pub open spec fn pair_bus_label_spec(left: Seq<char>, right: Seq<char>) -> Seq<char> {
    left + seq!['/'] + (if skip_non_digits(right).len() == 0 {
        right
    } else {
        skip_non_digits(right)
    })
}

/// Combines a linked pair's two channel names into the bus label:
/// `"AN1"`/`"AN2"` gives `"AN1/2"`; if `right` has no digit at all, the
/// label is `"{left}/{right}"`.
pub fn pair_bus_label(left: &str, right: &str) -> (r: String)
    ensures
        r@ == pair_bus_label_spec(left@, right@),
{
    let n = right.unicode_len();
    let mut k: usize = 0;
    while k < n && !('0' <= right.get_char(k) && right.get_char(k) <= '9')
        invariant
            n == right@.len(),
            k <= n,
            forall|j: int| 0 <= j < k ==> !is_digit(#[trigger] right@[j]),
        decreases n - k,
    {
        k = k + 1;
    }
    proof {
        lemma_skip_non_digits_from(right@, k as int);
        if k < n {
            assert(is_digit(right@[k as int]));
            assert(right@.subrange(k as int, n as int)[0] == right@[k as int]);
        } else {
            assert(right@.subrange(k as int, n as int).len() == 0);
        }
        reveal_strlit("/");
    }
    let mut s = String::from_str(left);
    s.append("/");
    if k < n {
        s.append(right.substring_char(k, n));
    } else {
        s.append(right);
    }
    s
}

/// The pan readout: `"C"` at center, `"L{n}"` left of it, `"R{n}"` right.
pub fn pan_text(pan: i8) -> (r: String)
    requires
        pan > -128,
    ensures
        r@ == (if pan < 0 {
            seq!['L'] + decimal((-pan) as nat)
        } else if pan > 0 {
            seq!['R'] + decimal(pan as nat)
        } else {
            seq!['C']
        }),
{
    proof {
        reveal_strlit("L");
        reveal_strlit("R");
        reveal_strlit("C");
    }
    if pan < 0 {
        let mut s = String::from_str("L");
        let m: i8 = -pan;
        push_decimal(&mut s, m as u64);
        s
    } else if pan > 0 {
        let mut s = String::from_str("R");
        push_decimal(&mut s, pan as u64);
        s
    } else {
        String::from_str("C")
    }
}

} // verus!
