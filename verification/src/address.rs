//! The text of the address that the listener binds: the loopback host, a colon
//! and the port in decimal.

use vstd::prelude::*;
use vstd::string::*;

verus! {

/// The character that stands for the digit `d`.
pub open spec fn digit_char(d: nat) -> char
    recommends
        d < 10,
{
    if d == 0 {
        '0'
    } else if d == 1 {
        '1'
    } else if d == 2 {
        '2'
    } else if d == 3 {
        '3'
    } else if d == 4 {
        '4'
    } else if d == 5 {
        '5'
    } else if d == 6 {
        '6'
    } else if d == 7 {
        '7'
    } else if d == 8 {
        '8'
    } else {
        '9'
    }
}

/// `n` in decimal: no sign, no leading zero, `"0"` for zero.
pub open spec fn decimal(n: nat) -> Seq<char>
    decreases n,
{
    if n < 10 {
        seq![digit_char(n)]
    } else {
        decimal(n / 10).push(digit_char(n % 10))
    }
}

/// The host that the server listens on: loopback only.
pub open spec fn loopback_host() -> Seq<char> {
    seq!['1', '2', '7', '.', '0', '.', '0', '.', '1']
}

/// The bind address for `port`: `127.0.0.1:<port>`.
pub open spec fn bind_address_text(port: u16) -> Seq<char> {
    loopback_host().push(':') + decimal(port as nat)
}

/// The digit that `c` stands for; zero for any other character.
pub open spec fn digit_value(c: char) -> nat {
    if c == '1' {
        1
    } else if c == '2' {
        2
    } else if c == '3' {
        3
    } else if c == '4' {
        4
    } else if c == '5' {
        5
    } else if c == '6' {
        6
    } else if c == '7' {
        7
    } else if c == '8' {
        8
    } else if c == '9' {
        9
    } else {
        0
    }
}

/// Whether `c` is one of the ten decimal digits.
pub open spec fn is_digit(c: char) -> bool {
    c == '0' || digit_value(c) > 0
}

/// The number that a run of decimal digits denotes.
pub open spec fn decimal_value(digits: Seq<char>) -> nat
    decreases digits.len(),
{
    if digits.len() == 0 {
        0
    } else {
        decimal_value(digits.drop_last()) * 10 + digit_value(digits.last())
    }
}

/// The decimal text of a number is made of digits only, has no leading zero
/// unless the number is zero, and has one digit exactly for numbers below ten.
pub proof fn lemma_decimal_shape(n: nat)
    ensures
        decimal(n).len() >= 1,
        forall|i: int| 0 <= i < decimal(n).len() ==> is_digit(#[trigger] decimal(n)[i]),
        n > 0 ==> decimal(n)[0] != '0',
        decimal(n).len() == 1 <==> n < 10,
    decreases n,
{
    if n >= 10 {
        lemma_decimal_shape(n / 10);
        let head = decimal(n / 10);
        assert forall|i: int| 0 <= i < decimal(n).len() implies is_digit(
            #[trigger] decimal(n)[i],
        ) by {
            if i < head.len() {
                assert(decimal(n)[i] == head[i]);
            }
        }
        assert(decimal(n)[0] == head[0]);
    }
}

/// The decimal text of a number denotes that number.
pub proof fn lemma_decimal_round_trip(n: nat)
    ensures
        decimal_value(decimal(n)) == n,
    decreases n,
{
    if n < 10 {
        assert(decimal(n).drop_last().len() == 0);
        assert(decimal_value(decimal(n).drop_last()) == 0);
    } else {
        lemma_decimal_round_trip(n / 10);
        assert(decimal(n).drop_last() =~= decimal(n / 10));
    }
}

/// A port takes between one and five digits.
pub proof fn lemma_port_digits(port: u16)
    ensures
        1 <= decimal(port as nat).len() <= 5,
{
    reveal_with_fuel(decimal, 6);
}

/// The bind address is the loopback host, a colon and the port in decimal,
/// and nothing else.
pub proof fn lemma_bind_address_shape(port: u16)
    ensures
        11 <= bind_address_text(port).len() <= 15,
        bind_address_text(port).subrange(0, 9) == loopback_host(),
        bind_address_text(port)[9] == ':',
        bind_address_text(port).subrange(10, bind_address_text(port).len() as int) == decimal(
            port as nat,
        ),
        decimal_value(decimal(port as nat)) == port,
{
    lemma_port_digits(port);
    lemma_decimal_round_trip(port as nat);
    let text = bind_address_text(port);
    assert(text.subrange(0, 9) =~= loopback_host());
    assert(text.subrange(10, text.len() as int) =~= decimal(port as nat));
}

/// Two ports with the same bind address are the same port.
pub proof fn lemma_bind_address_names_one_port(first: u16, second: u16)
    requires
        bind_address_text(first) == bind_address_text(second),
    ensures
        first == second,
{
    lemma_bind_address_shape(first);
    lemma_bind_address_shape(second);
}

/// The one-character text of the digit `d`.
fn digit_text(d: u16) -> (text: &'static str)
    requires
        d < 10,
    ensures
        text@ == seq![digit_char(d as nat)],
{
    proof {
        reveal_strlit("0");
        reveal_strlit("1");
        reveal_strlit("2");
        reveal_strlit("3");
        reveal_strlit("4");
        reveal_strlit("5");
        reveal_strlit("6");
        reveal_strlit("7");
        reveal_strlit("8");
        reveal_strlit("9");
    }
    let text = if d == 0 {
        "0"
    } else if d == 1 {
        "1"
    } else if d == 2 {
        "2"
    } else if d == 3 {
        "3"
    } else if d == 4 {
        "4"
    } else if d == 5 {
        "5"
    } else if d == 6 {
        "6"
    } else if d == 7 {
        "7"
    } else if d == 8 {
        "8"
    } else {
        "9"
    };
    assert(text@ =~= seq![digit_char(d as nat)]);
    text
}

/// Appends `n` in decimal to `out`.
fn append_decimal(out: &mut String, n: u16)
    ensures
        final(out)@ == old(out)@ + decimal(n as nat),
    decreases n,
{
    if n >= 10 {
        append_decimal(out, n / 10);
    }
    out.append(digit_text(n % 10));
    assert(out@ =~= old(out)@ + decimal(n as nat));
}

/// The text of the address to bind for `port`. Port 0 is not special here: it
/// gives `127.0.0.1:0`, which asks the operating system for a free port.
pub fn bind_address(port: u16) -> (text: String)
    ensures
        text@ == bind_address_text(port),
{
    proof {
        reveal_strlit("127.0.0.1:");
    }
    let mut text = String::from_str("127.0.0.1:");
    assert(text@ =~= loopback_host().push(':'));
    append_decimal(&mut text, port);
    text
}

} // verus!
