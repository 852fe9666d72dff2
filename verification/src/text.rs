//! Text primitives shared by the renderers: decimal numerals and quoted
//! identifiers, each with the sequence of characters it stands for.

use vstd::prelude::*;
use vstd::string::*;

verus! {

/// `String::push` of the standard library appends exactly the given character
/// to the end of the string and leaves what was there before untouched.
pub assume_specification[ std::string::String::push ](s: &mut std::string::String, c: char)
    ensures
        final(s)@ == old(s)@.push(c),
;

/// The character of a decimal digit; `d` is meant to lie in `0..=9`.
pub open spec fn digit_char(d: int) -> char {
    if d == 0 {
        '0'
    } else if d == 1 {
        '1'
    } else if d == 2 {
        '2'
    } else if d == 3 {
        '3'
    } else if d == 4 {
        '4'
    } else if d == 5 {
        '5'
    } else if d == 6 {
        '6'
    } else if d == 7 {
        '7'
    } else if d == 8 {
        '8'
    } else {
        '9'
    }
}

/// The decimal numeral of a natural number: most significant digit first,
/// no leading zero, and `"0"` for zero.
pub open spec fn decimal(n: nat) -> Seq<char>
    decreases n,
{
    if n < 10 {
        seq![digit_char(n as int)]
    } else {
        decimal(n / 10).push(digit_char((n % 10) as int))
    }
}

/// The decimal numeral of an integer: a minus sign in front of the numeral of
/// the magnitude when the integer is negative.
pub open spec fn signed_decimal(i: int) -> Seq<char> {
    if i < 0 {
        seq!['-'] + decimal((-i) as nat)
    } else {
        decimal(i as nat)
    }
}

/// `name` with every occurrence of the quote character `q` doubled.
pub open spec fn escaped(name: Seq<char>, q: char) -> Seq<char>
    decreases name.len(),
{
    if name.len() == 0 {
        name
    } else if name.last() == q {
        escaped(name.drop_last(), q).push(q).push(q)
    } else {
        escaped(name.drop_last(), q).push(name.last())
    }
}

/// A name that holds no quote character is left as it is.
pub proof fn lemma_escaped_without_quote(name: Seq<char>, q: char)
    requires
        !name.contains(q),
    ensures
        escaped(name, q) == name,
    decreases name.len(),
{
    if name.len() > 0 {
        assert(name.last() == name[name.len() - 1]);
        assert forall|c: char| name.drop_last().contains(c) implies name.contains(c) by {
            let i = choose|i: int| 0 <= i < name.drop_last().len() && name.drop_last()[i] == c;
            assert(name[i] == c);
        }
        lemma_escaped_without_quote(name.drop_last(), q);
        assert(name.drop_last().push(name.last()) =~= name);
    }
}

/// `name` as a quoted identifier: wrapped in `q`, with inner `q` doubled.
pub open spec fn quoted(name: Seq<char>, q: char) -> Seq<char> {
    seq![q] + escaped(name, q) + seq![q]
}

fn digit_of(d: u64) -> (c: char)
    requires
        d < 10,
    ensures
        c == digit_char(d as int),
{
    if d == 0 {
        '0'
    } else if d == 1 {
        '1'
    } else if d == 2 {
        '2'
    } else if d == 3 {
        '3'
    } else if d == 4 {
        '4'
    } else if d == 5 {
        '5'
    } else if d == 6 {
        '6'
    } else if d == 7 {
        '7'
    } else if d == 8 {
        '8'
    } else {
        '9'
    }
}

/// Appends the decimal numeral of `n` to `out`.
pub fn write_decimal(n: u64, out: &mut String)
    ensures
        final(out)@ == old(out)@ + decimal(n as nat),
    decreases n,
{
    if n >= 10 {
        write_decimal(n / 10, out);
    }
    out.push(digit_of(n % 10));
    proof {
        if n >= 10 {
            assert(old(out)@ + decimal(n as nat) =~= (old(out)@ + decimal((n / 10) as nat)).push(
                digit_char((n % 10) as int),
            ));
        } else {
            assert(old(out)@ + decimal(n as nat) =~= old(out)@.push(digit_char(n as int)));
        }
    }
}

/// Appends the decimal numeral of `i`, with its sign, to `out`.
pub fn write_signed_decimal(i: i64, out: &mut String)
    ensures
        final(out)@ == old(out)@ + signed_decimal(i as int),
{
    if i < 0 {
        out.push('-');
        // The magnitude of the least `i64` does not fit in an `i64`.
        let magnitude: u64 = ((-(i + 1)) as u64) + 1;
        write_decimal(magnitude, out);
        proof {
            assert(old(out)@ + signed_decimal(i as int) =~= old(out)@.push('-') + decimal(
                magnitude as nat,
            ));
        }
    } else {
        write_decimal(i as u64, out);
    }
}

/// Appends `name` to `out` with every `q` in it doubled.
pub fn write_escaped(name: &str, q: char, out: &mut String)
    ensures
        final(out)@ == old(out)@ + escaped(name@, q),
{
    let ghost start = out@;
    for c in it: name.chars()
        invariant
            it.seq() == name@,
            out@ == start + escaped(name@.take(it.index() as int), q),
    {
        proof {
            let k = it.index() as int;
            assert(name@.take(k + 1).drop_last() =~= name@.take(k));
            assert(name@.take(k + 1).last() == c);
        }
        if c == q {
            out.push(q);
            out.push(q);
        } else {
            out.push(c);
        }
    }
    proof {
        assert(name@.take(name@.len() as int) =~= name@);
    }
}

/// Appends `name` to `out` as an identifier quoted with `q`.
pub fn write_quoted(name: &str, q: char, out: &mut String)
    ensures
        final(out)@ == old(out)@ + quoted(name@, q),
{
    out.push(q);
    write_escaped(name, q, out);
    out.push(q);
    proof {
        assert(out@ =~= old(out)@ + quoted(name@, q));
    }
}

} // verus!
