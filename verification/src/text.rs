use vstd::prelude::*;
use vstd::string::StringExecFns;

use crate::geometry::MoveCommand;

verus! {

/// The decimal digit character for `d`, meaningful for `0 <= d <= 9`.
pub open spec fn digit_char(d: int) -> char {
    if d == 0 {
        '0'
    } else if d == 1 {
        '1'
    } else if d == 2 {
        '2'
    } else if d == 3 {
        '3'
    } else if d == 4 {
        '4'
    } else if d == 5 {
        '5'
    } else if d == 6 {
        '6'
    } else if d == 7 {
        '7'
    } else if d == 8 {
        '8'
    } else {
        '9'
    }
}

/// The decimal digits of the nonnegative number `n`, most significant first.
pub open spec fn dec_digits(n: int) -> Seq<char>
    recommends
        n >= 0,
    decreases n,
{
    if n < 10 {
        seq![digit_char(n)]
    } else {
        dec_digits(n / 10) + seq![digit_char(n % 10)]
    }
}

/// The decimal rendering of `v`, with a leading `-` when `v` is negative.
pub open spec fn dec_int(v: int) -> Seq<char> {
    if v < 0 {
        seq!['-'] + dec_digits(-v)
    } else {
        dec_digits(v)
    }
}

/// Returns the one-character string for the decimal digit `d`.
fn digit_str(d: u64) -> (r: &'static str)
    requires
        d < 10,
    ensures
        r@ == seq![digit_char(d as int)],
{
    proof {
        reveal_strlit("0");
        reveal_strlit("1");
        reveal_strlit("2");
        reveal_strlit("3");
        reveal_strlit("4");
        reveal_strlit("5");
        reveal_strlit("6");
        reveal_strlit("7");
        reveal_strlit("8");
        reveal_strlit("9");
        assert("0"@ =~= seq![digit_char(0)]);
        assert("1"@ =~= seq![digit_char(1)]);
        assert("2"@ =~= seq![digit_char(2)]);
        assert("3"@ =~= seq![digit_char(3)]);
        assert("4"@ =~= seq![digit_char(4)]);
        assert("5"@ =~= seq![digit_char(5)]);
        assert("6"@ =~= seq![digit_char(6)]);
        assert("7"@ =~= seq![digit_char(7)]);
        assert("8"@ =~= seq![digit_char(8)]);
        assert("9"@ =~= seq![digit_char(9)]);
    }
    match d {
        0 => "0",
        1 => "1",
        2 => "2",
        3 => "3",
        4 => "4",
        5 => "5",
        6 => "6",
        7 => "7",
        8 => "8",
        _ => "9",
    }
}

/// Renders `n` in decimal, most significant digit first.
pub fn u64_to_decimal(n: u64) -> (r: String)
    ensures
        r@ == dec_digits(n as int),
    decreases n,
{
    if n < 10 {
        String::from_str(digit_str(n))
    } else {
        let mut s = u64_to_decimal(n / 10);
        s.append(digit_str(n % 10));
        s
    }
}

/// Renders `v` in signed decimal.
pub fn i64_to_decimal(v: i64) -> (r: String)
    ensures
        r@ == dec_int(v as int),
{
    if v < 0 {
        let wide: i128 = v as i128;
        let mag: u64 = (-wide) as u64;
        proof {
            reveal_strlit("-");
            assert("-"@ =~= seq!['-']);
        }
        let digits = u64_to_decimal(mag);
        String::from_str("-").concat(digits.as_str())
    } else {
        u64_to_decimal(v as u64)
    }
}

/// Renders `v` in signed decimal.
pub fn i32_to_decimal(v: i32) -> (r: String)
    ensures
        r@ == dec_int(v as int),
{
    i64_to_decimal(v as i64)
}

/// The confirmation text returned after a click at `(x, y)`.
pub open spec fn click_confirmation(x: int, y: int) -> Seq<char> {
    "Clicked at ("@ + dec_int(x) + ", "@ + dec_int(y) + ")"@
}

/// Builds the click confirmation text.
pub fn render_click_confirmation(x: i32, y: i32) -> (r: String)
    ensures
        r@ == click_confirmation(x as int, y as int),
{
    let s = String::from_str("Clicked at (");
    let s = s.concat(i32_to_decimal(x).as_str());
    let s = s.concat(", ");
    let s = s.concat(i32_to_decimal(y).as_str());
    let s = s.concat(")");
    proof {
        assert(s@ =~= click_confirmation(x as int, y as int));
    }
    s
}

/// The confirmation text returned after a completed move gesture, naming
/// both endpoints.
pub open spec fn move_confirmation(cmd: MoveCommand) -> Seq<char> {
    "Moved: ("@ + dec_int(cmd.from.x as int) + ","@ + dec_int(cmd.from.y as int) + ") -> ("@
        + dec_int(cmd.to.x as int) + ","@ + dec_int(cmd.to.y as int) + ")"@
}

/// Builds the move confirmation text.
pub fn render_move_confirmation(cmd: &MoveCommand) -> (r: String)
    ensures
        r@ == move_confirmation(*cmd),
{
    let s = String::from_str("Moved: (");
    let s = s.concat(i32_to_decimal(cmd.from.x).as_str());
    let s = s.concat(",");
    let s = s.concat(i32_to_decimal(cmd.from.y).as_str());
    let s = s.concat(") -> (");
    let s = s.concat(i32_to_decimal(cmd.to.x).as_str());
    let s = s.concat(",");
    let s = s.concat(i32_to_decimal(cmd.to.y).as_str());
    let s = s.concat(")");
    proof {
        assert(s@ =~= move_confirmation(*cmd));
    }
    s
}

} // verus!
