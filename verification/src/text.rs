//! Text helpers shared by the handlers: equality and splitting of chat
//! text, line wrapping for the on-screen caption, and decimal / hex
//! rendering for the strings sent to the remote service.

use vstd::prelude::*;
use vstd::string::StrSliceExecFns;

verus! {

/// Relies on `String::push`: appends exactly the given character.
#[verifier::external_body]
pub(crate) fn push_char(s: &mut String, c: char)
    ensures
        final(s)@ == old(s)@.push(c),
{
    s.push(c)
}

/// What `str::to_lowercase` returns for a given character sequence.
pub uninterp spec fn lower_of(s: Seq<char>) -> Seq<char>;

/// Relies on `str::to_lowercase`: the result is a function of the input
/// characters alone.
#[verifier::external_body]
pub(crate) fn lowercase(s: &str) -> (r: String)
    ensures
        r@ == lower_of(s@),
{
    s.to_lowercase()
}

/// Character-wise string equality.
pub fn str_eq(a: &str, b: &str) -> (r: bool)
    ensures
        r == (a@ == b@),
{
    let alen = a.unicode_len();
    let blen = b.unicode_len();
    if alen != blen {
        return false;
    }
    let mut i: usize = 0;
    while i < alen
        invariant
            i <= alen,
            alen == a@.len(),
            alen == b@.len(),
            forall|k: int| 0 <= k < i ==> a@[k] == b@[k],
        decreases alen - i,
    {
        if a.get_char(i) != b.get_char(i) {
            return false;
        }
        i = i + 1;
    }
    proof {
        assert(a@ =~= b@);
    }
    true
}

/// The decimal digit character for `n`.
pub open spec fn dec_digit(n: int) -> char {
    if n == 0 {
        '0'
    } else if n == 1 {
        '1'
    } else if n == 2 {
        '2'
    } else if n == 3 {
        '3'
    } else if n == 4 {
        '4'
    } else if n == 5 {
        '5'
    } else if n == 6 {
        '6'
    } else if n == 7 {
        '7'
    } else if n == 8 {
        '8'
    } else {
        '9'
    }
}

/// The decimal rendering of `n`, most significant digit first, no sign
/// and no leading zeroes (a single `'0'` for zero).
pub open spec fn dec_str(n: nat) -> Seq<char>
    decreases n,
{
    if n < 10 {
        seq![dec_digit(n as int)]
    } else {
        dec_str(n / 10).push(dec_digit((n % 10) as int))
    }
}

/// The decimal rendering of a possibly negative value.
pub open spec fn int_str(v: int) -> Seq<char> {
    if v >= 0 {
        dec_str(v as nat)
    } else {
        seq!['-'] + dec_str((-v) as nat)
    }
}

fn dec_digit_exec(n: u64) -> (c: char)
    requires
        n < 10,
    ensures
        c == dec_digit(n as int),
{
    if n == 0 {
        '0'
    } else if n == 1 {
        '1'
    } else if n == 2 {
        '2'
    } else if n == 3 {
        '3'
    } else if n == 4 {
        '4'
    } else if n == 5 {
        '5'
    } else if n == 6 {
        '6'
    } else if n == 7 {
        '7'
    } else if n == 8 {
        '8'
    } else {
        '9'
    }
}

/// Renders `n` in decimal.
pub fn u64_to_string(n: u64) -> (s: String)
    ensures
        s@ == dec_str(n as nat),
{
    let mut digits: Vec<char> = Vec::new();
    let mut m: u64 = n;
    digits.push(dec_digit_exec(m % 10));
    proof {
        if n < 10 {
            assert(digits@.reverse() =~= dec_str(n as nat));
        } else {
            assert(dec_str((m / 10) as nat) + digits@.reverse() =~= dec_str(n as nat));
        }
    }
    m = m / 10;
    while m > 0
        invariant
            digits@.len() >= 1,
            dec_str(n as nat) == (if m > 0 {
                dec_str(m as nat)
            } else {
                Seq::<char>::empty()
            }) + digits@.reverse(),
        decreases m,
    {
        let ghost old_digits = digits@;
        let ghost old_m = m as nat;
        digits.push(dec_digit_exec(m % 10));
        proof {
            let d = dec_digit((old_m % 10) as int);
            assert(digits@.reverse() =~= seq![d] + old_digits.reverse());
            if old_m < 10 {
                assert(dec_str(old_m) == seq![d]);
                assert(Seq::<char>::empty() + digits@.reverse() =~= dec_str(old_m)
                    + old_digits.reverse());
            } else {
                assert(dec_str(old_m) == dec_str(old_m / 10).push(d));
                assert(dec_str(old_m / 10) + digits@.reverse() =~= dec_str(old_m)
                    + old_digits.reverse());
            }
        }
        m = m / 10;
    }
    let mut s = String::new();
    let mut i: usize = digits.len();
    while i > 0
        invariant
            i <= digits@.len(),
            s@.len() == digits@.len() - i,
            forall|k: int| 0 <= k < s@.len() ==> s@[k] == digits@[digits@.len() - 1 - k],
        decreases i,
    {
        i = i - 1;
        let c = digits[i];
        push_char(&mut s, c);
    }
    proof {
        assert(s@ =~= digits@.reverse());
        assert(Seq::<char>::empty() + digits@.reverse() =~= digits@.reverse());
    }
    s
}

/// Renders `v` in decimal with a leading minus sign when negative.
pub fn i64_to_string(v: i64) -> (s: String)
    ensures
        s@ == int_str(v as int),
{
    if v >= 0 {
        u64_to_string(v as u64)
    } else {
        let mag: u64 = if v == i64::MIN {
            9223372036854775808u64
        } else {
            (-v) as u64
        };
        proof {
            assert(mag as nat == (-(v as int)) as nat);
        }
        let mut s = String::new();
        push_char(&mut s, '-');
        let t = u64_to_string(mag);
        s.append(t.as_str());
        proof {
            assert(s@ =~= seq!['-'] + dec_str((-(v as int)) as nat));
        }
        s
    }
}

/// The lower-case hex digit character for `n`.
pub open spec fn hex_digit(n: int) -> char {
    if n == 0 {
        '0'
    } else if n == 1 {
        '1'
    } else if n == 2 {
        '2'
    } else if n == 3 {
        '3'
    } else if n == 4 {
        '4'
    } else if n == 5 {
        '5'
    } else if n == 6 {
        '6'
    } else if n == 7 {
        '7'
    } else if n == 8 {
        '8'
    } else if n == 9 {
        '9'
    } else if n == 10 {
        'a'
    } else if n == 11 {
        'b'
    } else if n == 12 {
        'c'
    } else if n == 13 {
        'd'
    } else if n == 14 {
        'e'
    } else {
        'f'
    }
}

/// Two lower-case hex digits for a byte.
pub open spec fn hex_byte(n: int) -> Seq<char> {
    seq![hex_digit(n / 16), hex_digit(n % 16)]
}

fn hex_digit_exec(n: u8) -> (c: char)
    requires
        n < 16,
    ensures
        c == hex_digit(n as int),
{
    if n < 10 {
        dec_digit_exec(n as u64)
    } else if n == 10 {
        'a'
    } else if n == 11 {
        'b'
    } else if n == 12 {
        'c'
    } else if n == 13 {
        'd'
    } else if n == 14 {
        'e'
    } else {
        'f'
    }
}

/// Renders an RGB colour as `#rrggbb`, as shown beside a chat line.
pub fn format_color(r: u8, g: u8, b: u8) -> (s: String)
    ensures
        s@ == seq!['#'] + hex_byte(r as int) + hex_byte(g as int) + hex_byte(b as int),
{
    let mut s = String::new();
    push_char(&mut s, '#');
    push_char(&mut s, hex_digit_exec(r / 16));
    push_char(&mut s, hex_digit_exec(r % 16));
    push_char(&mut s, hex_digit_exec(g / 16));
    push_char(&mut s, hex_digit_exec(g % 16));
    push_char(&mut s, hex_digit_exec(b / 16));
    push_char(&mut s, hex_digit_exec(b % 16));
    proof {
        assert(s@ =~= seq!['#'] + hex_byte(r as int) + hex_byte(g as int) + hex_byte(b as int));
    }
    s
}

/// The pieces of `s` between single spaces, in order.  Every space ends a
/// piece, so consecutive spaces and leading or trailing spaces produce
/// empty pieces, and the empty text has one empty piece.
pub open spec fn split_spaces(s: Seq<char>) -> Seq<Seq<char>>
    decreases s.len(),
{
    if s.len() == 0 {
        seq![Seq::<char>::empty()]
    } else if s.last() == ' ' {
        split_spaces(s.drop_last()).push(Seq::<char>::empty())
    } else {
        let rest = split_spaces(s.drop_last());
        rest.update(rest.len() - 1, rest.last().push(s.last()))
    }
}

/// Splits chat text on single spaces, like the word lists handed to the
/// command router.
pub fn split_words(s: &str) -> (words: Vec<String>)
    ensures
        words.deep_view() == split_spaces(s@),
        words.deep_view().len() >= 1,
{
    let n = s.unicode_len();
    let mut words: Vec<String> = Vec::new();
    let mut cur = String::new();
    let mut i: usize = 0;
    while i < n
        invariant
            i <= n,
            n == s@.len(),
            words.deep_view().push(cur@) == split_spaces(s@.subrange(0, i as int)),
        decreases n - i,
    {
        let ghost old_words = words.deep_view();
        let ghost old_cur = cur@;
        let c = s.get_char(i);
        if c == ' ' {
            words.push(cur);
            cur = String::new();
        } else {
            push_char(&mut cur, c);
        }
        proof {
            let pre = s@.subrange(0, i as int);
            let now = s@.subrange(0, i + 1);
            assert(now.drop_last() =~= pre);
            assert(now.last() == s@[i as int]);
            if c == ' ' {
                assert(words.deep_view() =~= old_words.push(old_cur));
                assert(words.deep_view().push(cur@) =~= split_spaces(pre).push(
                    Seq::<char>::empty(),
                ));
            } else {
                let rest = split_spaces(pre);
                assert(rest == old_words.push(old_cur));
                assert(rest.last() == old_cur);
                assert(words.deep_view().push(cur@) =~= rest.update(
                    rest.len() - 1,
                    rest.last().push(c),
                ));
            }
        }
        i = i + 1;
    }
    words.push(cur);
    proof {
        assert(s@.subrange(0, n as int) =~= s@);
        assert(words.deep_view() =~= split_spaces(s@));
    }
    words
}

/// Whether `c` is a decimal digit.
pub open spec fn is_dec_digit(c: char) -> bool {
    '0' <= c && c <= '9'
}

/// The numeric value of a digit character.
pub open spec fn digit_val(c: char) -> int {
    c as int - 48
}

/// Whether every character of `s` is a decimal digit.
pub open spec fn all_digits(s: Seq<char>) -> bool {
    forall|i: int| 0 <= i < s.len() ==> is_dec_digit(#[trigger] s[i])
}

/// The value of `s` read as a decimal numeral.
pub open spec fn dec_val(s: Seq<char>) -> int
    decreases s.len(),
{
    if s.len() == 0 {
        0
    } else {
        dec_val(s.drop_last()) * 10 + digit_val(s.last())
    }
}

proof fn lemma_dec_val_nonneg(s: Seq<char>)
    requires
        all_digits(s),
    ensures
        dec_val(s) >= 0,
    decreases s.len(),
{
    if s.len() > 0 {
        assert(all_digits(s.drop_last())) by {
            assert(forall|i: int|
                0 <= i < s.len() - 1 ==> s.drop_last()[i] == #[trigger] s[i]);
        }
        lemma_dec_val_nonneg(s.drop_last());
    }
}

/// Reading more digits never shrinks the value: the value of a prefix is
/// at most the value of the whole numeral.
proof fn lemma_dec_val_prefix_le(s: Seq<char>, i: int)
    requires
        all_digits(s),
        0 <= i <= s.len(),
    ensures
        dec_val(s.subrange(0, i)) <= dec_val(s),
    decreases s.len(),
{
    if i == s.len() {
        assert(s.subrange(0, i) =~= s);
    } else {
        let t = s.drop_last();
        assert(all_digits(t)) by {
            assert(forall|k: int| 0 <= k < t.len() ==> t[k] == #[trigger] s[k]);
        }
        assert(s.subrange(0, i) =~= t.subrange(0, i));
        lemma_dec_val_prefix_le(t, i);
        lemma_dec_val_nonneg(t);
    }
}

/// Reads an unsigned decimal numeral.  Returns the value exactly when the
/// text is non-empty, all digits, and the value fits; anything else is
/// `None` — callers fall back to their documented defaults.
pub fn parse_u64(s: &str) -> (r: Option<u64>)
    ensures
        r is Some <==> s@.len() > 0 && all_digits(s@) && dec_val(s@) <= u64::MAX,
        r matches Some(v) ==> v == dec_val(s@),
{
    let n = s.unicode_len();
    if n == 0 {
        return None;
    }
    let mut acc: u64 = 0;
    let mut i: usize = 0;
    while i < n
        invariant
            i <= n,
            n == s@.len(),
            n > 0,
            all_digits(s@.subrange(0, i as int)),
            acc == dec_val(s@.subrange(0, i as int)),
        decreases n - i,
    {
        let c = s.get_char(i);
        if !(c >= '0' && c <= '9') {
            proof {
                assert(!is_dec_digit(s@[i as int]));
            }
            return None;
        }
        let d: u64 = (c as u32 - 48) as u64;
        proof {
            let pre = s@.subrange(0, i as int);
            let now = s@.subrange(0, i + 1);
            assert(now.drop_last() =~= pre);
            assert(all_digits(now)) by {
                assert(forall|k: int| 0 <= k < i ==> now[k] == #[trigger] pre[k]);
            }
        }
        if acc > (u64::MAX - d) / 10 {
            proof {
                let now = s@.subrange(0, i + 1);
                assert(dec_val(now) == acc * 10 + d);
                assert(dec_val(now) > u64::MAX);
                if all_digits(s@) {
                    lemma_dec_val_prefix_le(s@, i + 1);
                }
            }
            return None;
        }
        acc = acc * 10 + d;
        i = i + 1;
    }
    proof {
        assert(s@.subrange(0, n as int) =~= s@);
    }
    Some(acc)
}

/// One step of the caption wrapper: starting at position `i` with the
/// current length allowance `limit`, a space past the allowance becomes a
/// line break and moves the allowance twenty characters further; every
/// other character is kept.
pub open spec fn wrap_from(s: Seq<char>, i: int, limit: int) -> Seq<char>
    decreases s.len() - i,
{
    if i < 0 || i >= s.len() {
        Seq::<char>::empty()
    } else if s[i] == ' ' && i > limit {
        seq!['\n'] + wrap_from(s, i + 1, limit + 20)
    } else {
        seq![s[i]] + wrap_from(s, i + 1, limit)
    }
}

/// The caption shown while a message is spoken: the message with spaces
/// past each twenty-character allowance turned into line breaks.
pub open spec fn wrapped_message(s: Seq<char>) -> Seq<char> {
    wrap_from(s, 0, 20)
}

/// Wraps chat text for the on-screen caption.
pub fn wrap_text(s: &str) -> (r: String)
    requires
        s@.len() + 20 <= usize::MAX,
    ensures
        r@ == wrapped_message(s@),
{
    let n = s.unicode_len();
    let mut out = String::new();
    let mut limit: usize = 20;
    let mut i: usize = 0;
    while i < n
        invariant
            i <= n,
            n == s@.len(),
            n + 20 <= usize::MAX,
            limit <= n + 20,
            wrapped_message(s@) == out@ + wrap_from(s@, i as int, limit as int),
        decreases n - i,
    {
        let ghost old_out = out@;
        let ghost old_limit = limit as int;
        let c = s.get_char(i);
        if c == ' ' && i > limit {
            push_char(&mut out, '\n');
            limit = limit + 20;
            proof {
                assert(out@ + wrap_from(s@, i + 1, limit as int) =~= old_out + (seq!['\n']
                    + wrap_from(s@, i + 1, old_limit + 20)));
            }
        } else {
            push_char(&mut out, c);
            proof {
                assert(out@ + wrap_from(s@, i + 1, limit as int) =~= old_out + (seq![s@[i as int]]
                    + wrap_from(s@, i + 1, limit as int)));
            }
        }
        i = i + 1;
    }
    proof {
        assert(out@ + wrap_from(s@, n as int, limit as int) =~= out@);
    }
    out
}

} // verus!
