//! The header of the plain PPM image format.  The body encoding (pixel
//! rows) is the image serializer's concern and lives with the program
//! that writes files; the header is fixed by the canvas dimensions alone.

use vstd::prelude::*;

use vstd::string::StringExecFns;

verus! {

/// The decimal digit character for `d` in 0..10.
pub open spec fn dec_digit(d: int) -> char {
    if d == 0 {
        '0'
    } else if d == 1 {
        '1'
    } else if d == 2 {
        '2'
    } else if d == 3 {
        '3'
    } else if d == 4 {
        '4'
    } else if d == 5 {
        '5'
    } else if d == 6 {
        '6'
    } else if d == 7 {
        '7'
    } else if d == 8 {
        '8'
    } else {
        '9'
    }
}

/// The decimal digits of `n`, most significant first.
pub open spec fn dec_str(n: nat) -> Seq<char>
    decreases n,
{
    if n < 10 {
        seq![dec_digit(n as int)]
    } else {
        dec_str(n / 10).push(dec_digit((n % 10) as int))
    }
}

/// The PPM header: the magic number `P3`, the width and height, and the
/// maximum channel value 255.
pub open spec fn spec_header(width: nat, height: nat) -> Seq<char> {
    seq!['P', '3', '\n'] + dec_str(width) + seq![' '] + dec_str(height) + seq!['\n', '2', '5', '5']
}

/// Appends one decimal digit character.
fn push_digit(s: &mut String, d: usize)
    requires
        d < 10,
    ensures
        final(s)@ == old(s)@ + seq![dec_digit(d as int)],
{
    if d == 0 {
        s.append("0");
        proof {
            reveal_strlit("0");
            assert("0"@ =~= seq![dec_digit(0int)]);
        }
    } else if d == 1 {
        s.append("1");
        proof {
            reveal_strlit("1");
            assert("1"@ =~= seq![dec_digit(1int)]);
        }
    } else if d == 2 {
        s.append("2");
        proof {
            reveal_strlit("2");
            assert("2"@ =~= seq![dec_digit(2int)]);
        }
    } else if d == 3 {
        s.append("3");
        proof {
            reveal_strlit("3");
            assert("3"@ =~= seq![dec_digit(3int)]);
        }
    } else if d == 4 {
        s.append("4");
        proof {
            reveal_strlit("4");
            assert("4"@ =~= seq![dec_digit(4int)]);
        }
    } else if d == 5 {
        s.append("5");
        proof {
            reveal_strlit("5");
            assert("5"@ =~= seq![dec_digit(5int)]);
        }
    } else if d == 6 {
        s.append("6");
        proof {
            reveal_strlit("6");
            assert("6"@ =~= seq![dec_digit(6int)]);
        }
    } else if d == 7 {
        s.append("7");
        proof {
            reveal_strlit("7");
            assert("7"@ =~= seq![dec_digit(7int)]);
        }
    } else if d == 8 {
        s.append("8");
        proof {
            reveal_strlit("8");
            assert("8"@ =~= seq![dec_digit(8int)]);
        }
    } else {
        s.append("9");
        proof {
            reveal_strlit("9");
            assert("9"@ =~= seq![dec_digit(9int)]);
        }
    }
}

/// Appends the decimal digits of `n`, most significant first.
fn push_dec(s: &mut String, n: usize)
    ensures
        final(s)@ == old(s)@ + dec_str(n as nat),
    decreases n,
{
    if n < 10 {
        push_digit(s, n);
    } else {
        push_dec(s, n / 10);
        push_digit(s, n % 10);
        proof {
            assert(old(s)@ + dec_str((n / 10) as nat) + seq![dec_digit((n % 10) as int)] =~= old(
                s,
            )@ + dec_str(n as nat));
        }
    }
}

/// The header of a PPM image of the given dimensions: `P3`, the size,
/// and the maximum channel value.
pub fn header(width: usize, height: usize) -> (r: String)
    ensures
        r@ == spec_header(width as nat, height as nat),
{
    let mut s: String = String::new();
    s.append("P3\n");
    push_dec(&mut s, width);
    s.append(" ");
    push_dec(&mut s, height);
    s.append("\n255");
    proof {
        reveal_strlit("P3\n");
        reveal_strlit(" ");
        reveal_strlit("\n255");
        assert("P3\n"@ =~= seq!['P', '3', '\n']);
        assert(" "@ =~= seq![' ']);
        assert("\n255"@ =~= seq!['\n', '2', '5', '5']);
        assert(s@ =~= spec_header(width as nat, height as nat));
    }
    s
}

} // verus!
