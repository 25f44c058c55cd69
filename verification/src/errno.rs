//! Judging the integer that a foreign routine returns.

use vstd::prelude::*;
use vstd::string::StringExecFns;

verus! {

/// The character of a decimal digit.
pub open spec fn digit(d: nat) -> char {
    ('0' as nat + d) as char
}

/// The decimal numeral of a natural number, without leading zeros.
pub open spec fn digits(n: nat) -> Seq<char>
    decreases n,
{
    if n < 10 {
        seq![digit(n)]
    } else {
        digits(n / 10).push(digit(n % 10))
    }
}

/// The decimal numeral of an integer, with a minus sign where it is negative.
pub open spec fn decimal(i: int) -> Seq<char> {
    if i < 0 {
        seq!['-'] + digits((-i) as nat)
    } else {
        digits(i as nat)
    }
}

/// A foreign routine reported an error: which backend was asked, and the code that came back.
#[derive(Clone, Copy, Debug)]
pub struct Failure {
    pub op: &'static str,
    pub code: i32,
}

impl Failure {
    /// The text that describes the failure.
    pub open spec fn text(self) -> Seq<char> {
        self.op@ + " failed with errno "@ + decimal(self.code as int)
    }

    /// The description of the failure, as in `musl failed with errno 22`.
    pub fn message(&self) -> (text: String)
        ensures
            text@ == self.text(),
    {
        let mut text = String::new();
        text.append(self.op);
        text.append(" failed with errno ");
        append_decimal(&mut text, self.code);
        assert(text@ =~= self.text());
        text
    }
}

/// Accepts the code of a foreign routine exactly when it is zero.
pub fn check_errno(op: &'static str, code: i32) -> (checked: Result<(), Failure>)
    ensures
        code == 0 ==> checked == Ok::<(), Failure>(()),
        code != 0 ==> checked == Err::<(), Failure>(Failure { op, code }),
{
    if code == 0 {
        Ok(())
    } else {
        Err(Failure { op, code })
    }
}

/// Accepts the code of a routine that destroyed an object: any code, unless the build is one for
/// debugging, where it must be zero. A code that is not accepted is handed back.
pub fn check_destroyed(code: i32, debug: bool) -> (checked: Result<(), i32>)
    ensures
        code == 0 || !debug ==> checked == Ok::<(), i32>(()),
        code != 0 && debug ==> checked == Err::<(), i32>(code),
{
    if debug && code != 0 {
        Err(code)
    } else {
        Ok(())
    }
}

/// The numeral of one digit.
fn digit_str(d: u32) -> (s: &'static str)
    requires
        d < 10,
    ensures
        s@ == seq![digit(d as nat)],
{
    proof {
        reveal_strlit("0");
        reveal_strlit("1");
        reveal_strlit("2");
        reveal_strlit("3");
        reveal_strlit("4");
        reveal_strlit("5");
        reveal_strlit("6");
        reveal_strlit("7");
        reveal_strlit("8");
        reveal_strlit("9");
    }
    match d {
        0 => "0",
        1 => "1",
        2 => "2",
        3 => "3",
        4 => "4",
        5 => "5",
        6 => "6",
        7 => "7",
        8 => "8",
        _ => "9",
    }
}

fn append_digits(text: &mut String, n: u32)
    ensures
        final(text)@ == old(text)@ + digits(n as nat),
    decreases n,
{
    if n >= 10 {
        append_digits(text, n / 10);
    }
    text.append(digit_str(n % 10));
    assert(text@ =~= old(text)@ + digits(n as nat));
}

fn append_decimal(text: &mut String, i: i32)
    ensures
        final(text)@ == old(text)@ + decimal(i as int),
{
    if i < 0 {
        proof {
            reveal_strlit("-");
        }
        text.append("-");
        append_digits(text, (-(i as i64)) as u32);
        assert(text@ =~= old(text)@ + decimal(i as int));
    } else {
        append_digits(text, i as u32);
    }
}

/// The number that a string of digits denotes.
spec fn numeral_value(s: Seq<char>) -> int
    decreases s.len(),
{
    if s.len() == 0 {
        0
    } else {
        10 * numeral_value(s.drop_last()) + (s.last() as int - '0' as int)
    }
}

proof fn lemma_digits_value(n: nat)
    ensures
        numeral_value(digits(n)) == n,
        digits(n).len() > 0,
        digits(n)[0] != '-',
    decreases n,
{
    if n < 10 {
        assert(seq![digit(n)].drop_last() =~= Seq::<char>::empty());
        reveal_with_fuel(numeral_value, 2);
    } else {
        lemma_digits_value(n / 10);
        assert(digits(n).drop_last() =~= digits(n / 10));
    }
}

/// Different codes have different numerals.
proof fn lemma_decimal_injective(i: int, j: int)
    requires
        decimal(i) == decimal(j),
    ensures
        i == j,
{
    let m = if i < 0 { (-i) as nat } else { i as nat };
    let n = if j < 0 { (-j) as nat } else { j as nat };
    lemma_digits_value(m);
    lemma_digits_value(n);
    if i < 0 {
        assert(decimal(i)[0] == '-');
        assert(decimal(i).skip(1) =~= digits(m));
    }
    if j < 0 {
        assert(decimal(j)[0] == '-');
        assert(decimal(j).skip(1) =~= digits(n));
    }
}

/// The message of a failure tells its code: of one backend, two failures with the same message
/// have the same code.
pub proof fn message_determines_code(a: Failure, b: Failure)
    requires
        a.op@ == b.op@,
        a.text() == b.text(),
    ensures
        a.code == b.code,
{
    let prefix = a.op@ + " failed with errno "@;
    assert(a.text().skip(prefix.len() as int) =~= decimal(a.code as int));
    assert(b.text().skip(prefix.len() as int) =~= decimal(b.code as int));
    lemma_decimal_injective(a.code as int, b.code as int);
}

/// The message of a code with one digit: the backend, the fixed words, a minus sign where the code
/// is negative, and the digit.
pub proof fn short_codes_are_spelled(failure: Failure, text: String)
    requires
        call_ensures(Failure::message, (&failure,), text),
        -10 < failure.code < 10,
    ensures
        failure.code >= 0 ==> text@ == failure.op@ + " failed with errno "@ + seq![
            ('0' as int + failure.code) as char,
        ],
        failure.code < 0 ==> text@ == failure.op@ + " failed with errno "@ + seq![
            '-',
            ('0' as int - failure.code) as char,
        ],
{
}

/// The message of a longer code: one more digit at the end of the code is that digit at the end of
/// the message, and changes nothing else.
pub proof fn longer_codes_are_spelled(
    short: Failure,
    short_text: String,
    last: int,
    long: Failure,
    long_text: String,
)
    requires
        call_ensures(Failure::message, (&short,), short_text),
        call_ensures(Failure::message, (&long,), long_text),
        short.op@ == long.op@,
        short.code != 0,
        0 <= last < 10,
        long.code == 10 * short.code + (if short.code > 0 {
            last
        } else {
            -last
        }),
    ensures
        long_text@ == short_text@.push(('0' as int + last) as char),
{
    let m = if short.code < 0 {
        (-short.code) as nat
    } else {
        short.code as nat
    };
    let n = if long.code < 0 {
        (-long.code) as nat
    } else {
        long.code as nat
    };
    assert(n == 10 * m + last);
    assert(digits(n) == digits(m).push(('0' as int + last) as char));
    assert(long_text@ =~= short_text@.push(('0' as int + last) as char));
}

} // verus!
