//! Where the services listen.
use vstd::prelude::*;

verus! {

/// The digit character of `d` (below ten).
pub open spec fn digit_char(d: nat) -> char {
    ('0' as nat + d) as char
}

/// The decimal numeral of `n`, without leading zeros.
pub open spec fn decimal(n: nat) -> Seq<char>
    decreases n,
{
    if n < 10 {
        seq![digit_char(n)]
    } else {
        decimal(n / 10).push(digit_char(n % 10))
    }
}

/// The number a string of decimal digits spells, most significant digit first
/// (zero for the empty string).
pub open spec fn numeral_value(digits: Seq<char>) -> int
    decreases digits.len(),
{
    if digits.len() == 0 {
        0
    } else {
        numeral_value(digits.drop_last()) * 10 + (digits.last() as int - '0' as int)
    }
}

/// `decimal(n)` is the numeral of `n`: it is not empty, every character is a
/// digit, read back it spells `n`, and it starts with `0` only for zero itself.
pub proof fn lemma_decimal_spells_its_number(n: nat)
    ensures
        decimal(n).len() >= 1,
        forall|i: int| 0 <= i < decimal(n).len() ==> '0' <= #[trigger] decimal(n)[i] && decimal(n)[i] <= '9',
        numeral_value(decimal(n)) == n,
        decimal(n)[0] == '0' ==> n == 0,
    decreases n,
{
    if n < 10 {
        assert(decimal(n) == seq![digit_char(n)]);
        assert(digit_char(n) as int == 48 + n);
        assert(decimal(n).drop_last() =~= Seq::<char>::empty());
        assert(numeral_value(Seq::<char>::empty()) == 0);
        assert(numeral_value(decimal(n)) == n);
    } else {
        let head = decimal(n / 10);
        lemma_decimal_spells_its_number(n / 10);
        assert(decimal(n) == head.push(digit_char(n % 10)));
        assert(digit_char(n % 10) as int == 48 + n % 10);
        assert(decimal(n).drop_last() =~= head);
        assert(decimal(n)[0] == head[0]);
        assert(forall|i: int| 0 <= i < head.len() ==> decimal(n)[i] == #[trigger] head[i]);
        assert(numeral_value(decimal(n)) == numeral_value(head) * 10 + n % 10);
        assert((n / 10) * 10 + n % 10 == n);
    }
}

/// The host the services bind: `localhost` is bound as `127.0.0.1`; any other
/// host as given.
pub open spec fn bind_host(ip: Seq<char>) -> Seq<char> {
    if ip == "localhost"@ { "127.0.0.1"@ } else { ip }
}

fn digit_str(d: u16) -> (r: &'static str)
    requires
        d < 10,
    ensures
        r@ == seq![digit_char(d as nat)],
{
    proof {
        reveal_strlit("0");
        reveal_strlit("1");
        reveal_strlit("2");
        reveal_strlit("3");
        reveal_strlit("4");
        reveal_strlit("5");
        reveal_strlit("6");
        reveal_strlit("7");
        reveal_strlit("8");
        reveal_strlit("9");
    }
    match d {
        0 => "0",
        1 => "1",
        2 => "2",
        3 => "3",
        4 => "4",
        5 => "5",
        6 => "6",
        7 => "7",
        8 => "8",
        _ => "9",
    }
}

fn append_decimal(text: &mut String, n: u16)
    ensures
        final(text)@ == old(text)@ + decimal(n as nat),
    decreases n,
{
    if n >= 10 {
        append_decimal(text, n / 10);
    }
    text.append(digit_str(n % 10));
    assert(text@ == old(text)@ + decimal(n as nat)) by {
        if n >= 10 {
            assert(old(text)@ + decimal(n as nat) =~= old(text)@ + decimal((n / 10) as nat) + seq![digit_char((n % 10) as nat)]);
        } else {
            assert(old(text)@ + decimal(n as nat) =~= old(text)@ + seq![digit_char(n as nat)]);
        }
    }
}

/// The address a service binds: its host (with `localhost` as `127.0.0.1`), a
/// colon and the port in decimal.
pub fn listen_address(ip: &str, port: u16) -> (r: String)
    ensures
        r@ == bind_host(ip@) + ":"@ + decimal(port as nat),
        ip@ == "localhost"@ ==> r@ == "127.0.0.1:"@ + decimal(port as nat),
        ip@ != "localhost"@ ==> r@ == ip@ + ":"@ + decimal(port as nat),
{
    let given = String::from_str(ip);
    let localhost = String::from_str("localhost");
    let mut address = if given == localhost {
        String::from_str("127.0.0.1")
    } else {
        given
    };
    address.append(":");
    append_decimal(&mut address, port);
    proof {
        reveal_strlit("127.0.0.1");
        reveal_strlit(":");
        reveal_strlit("127.0.0.1:");
        assert("127.0.0.1:"@ =~= "127.0.0.1"@ + ":"@);
    }
    address
}

} // verus!
