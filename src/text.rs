use vstd::prelude::*;

verus! {

/// The character of the decimal digit `d`.
pub open spec fn digit_char(d: nat) -> char {
    if d == 0 {
        '0'
    } else if d == 1 {
        '1'
    } else if d == 2 {
        '2'
    } else if d == 3 {
        '3'
    } else if d == 4 {
        '4'
    } else if d == 5 {
        '5'
    } else if d == 6 {
        '6'
    } else if d == 7 {
        '7'
    } else if d == 8 {
        '8'
    } else {
        '9'
    }
}

/// `n` written in base ten, without sign or leading zeros (`0` is "0").
pub open spec fn decimal(n: nat) -> Seq<char>
    decreases n,
{
    if n < 10 {
        seq![digit_char(n)]
    } else {
        decimal(n / 10) + seq![digit_char(n % 10)]
    }
}

fn digit_str(d: u64) -> (r: &'static str)
    requires
        d < 10,
    ensures
        r@ == seq![digit_char(d as nat)],
{
    if d == 0 {
        proof { reveal_strlit("0"); }
        "0"
    } else if d == 1 {
        proof { reveal_strlit("1"); }
        "1"
    } else if d == 2 {
        proof { reveal_strlit("2"); }
        "2"
    } else if d == 3 {
        proof { reveal_strlit("3"); }
        "3"
    } else if d == 4 {
        proof { reveal_strlit("4"); }
        "4"
    } else if d == 5 {
        proof { reveal_strlit("5"); }
        "5"
    } else if d == 6 {
        proof { reveal_strlit("6"); }
        "6"
    } else if d == 7 {
        proof { reveal_strlit("7"); }
        "7"
    } else if d == 8 {
        proof { reveal_strlit("8"); }
        "8"
    } else {
        proof { reveal_strlit("9"); }
        "9"
    }
}

/// Appends `n` in base ten to `out`.
pub fn push_decimal(out: &mut String, n: u64)
    ensures
        final(out)@ == old(out)@ + decimal(n as nat),
    decreases n,
{
    if n >= 10 {
        push_decimal(out, n / 10);
    }
    let d: u64 = n % 10;
    out.append(digit_str(d));
    assert(out@ =~= old(out)@ + decimal(n as nat));
}

/// `n` in base ten.
pub fn decimal_string(n: u64) -> (r: String)
    ensures
        r@ == decimal(n as nat),
{
    let mut s = String::new();
    push_decimal(&mut s, n);
    assert(s@ =~= decimal(n as nat));
    s
}

/// The items of `m` in base ten, separated by a comma and a space.
pub open spec fn byte_items(m: Seq<u8>) -> Seq<char>
    decreases m.len(),
{
    if m.len() == 0 {
        seq![]
    } else if m.len() == 1 {
        decimal(m[0] as nat)
    } else {
        byte_items(m.drop_last()) + seq![',', ' '] + decimal(m.last() as nat)
    }
}

/// The trace record of one inbound message: the timestamp, the bytes as a
/// bracketed list and the length, as in `1234: [144, 64, 127] (len = 3)`.
pub open spec fn trace_text(stamp: nat, m: Seq<u8>) -> Seq<char> {
    decimal(stamp) + seq![':', ' ', '['] + byte_items(m) + seq![']', ' ', '(', 'l', 'e', 'n', ' ', '=', ' ']
        + decimal(m.len()) + seq![')']
}

/// One line of the port listing: the index, a colon, a space and the name.
pub open spec fn listing_text(index: nat, name: Seq<char>) -> Seq<char> {
    decimal(index) + seq![':', ' '] + name
}

/// The trace record of a message delivered at `stamp` with bytes `message`.
pub fn trace_line(stamp: u64, message: &[u8]) -> (r: String)
    ensures
        r@ == trace_text(stamp as nat, message@),
{
    let mut out = String::new();
    push_decimal(&mut out, stamp);
    proof { reveal_strlit(": ["); }
    out.append(": [");
    let ghost head = out@;
    assert(head =~= decimal(stamp as nat) + seq![':', ' ', '[']);
    let mut i: usize = 0;
    while i < message.len()
        invariant
            i <= message@.len(),
            head == decimal(stamp as nat) + seq![':', ' ', '['],
            out@ == head + byte_items(message@.take(i as int)),
        decreases message@.len() - i,
    {
        let ghost before = out@;
        if i > 0 {
            proof { reveal_strlit(", "); }
            out.append(", ");
        }
        push_decimal(&mut out, message[i] as u64);
        i = i + 1;
        proof {
            let t = message@.take(i as int);
            assert(t.drop_last() =~= message@.take(i - 1));
            if i == 1 {
                assert(message@.take(0) =~= Seq::<u8>::empty());
                assert(out@ =~= head + byte_items(t));
            } else {
                assert(out@ =~= head + byte_items(t));
            }
        }
    }
    assert(message@.take(message@.len() as int) =~= message@);
    proof { reveal_strlit("] (len = "); }
    out.append("] (len = ");
    push_decimal(&mut out, message.len() as u64);
    proof { reveal_strlit(")"); }
    out.append(")");
    assert(out@ =~= trace_text(stamp as nat, message@));
    out
}

/// The listing line that offers the port at `index` under `name`.
pub fn listing_line(index: usize, name: &str) -> (r: String)
    ensures
        r@ == listing_text(index as nat, name@),
{
    let mut out = String::new();
    push_decimal(&mut out, index as u64);
    proof { reveal_strlit(": "); }
    out.append(": ");
    out.append(name);
    assert(out@ =~= listing_text(index as nat, name@));
    out
}

} // verus!
