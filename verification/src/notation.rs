//! The written forms that requests and reverse-lookup names are made of:
//! decimal numbers, dot-decimal IPv4 addresses, and the names under which
//! addresses are looked up in reverse.

use vstd::prelude::*;
use vstd::string::StringExecFns;

verus! {

/// The value of a decimal digit, `None` for any other character.
pub open spec fn digit_value(c: char) -> Option<nat> {
    match c {
        '0' => Some(0),
        '1' => Some(1),
        '2' => Some(2),
        '3' => Some(3),
        '4' => Some(4),
        '5' => Some(5),
        '6' => Some(6),
        '7' => Some(7),
        '8' => Some(8),
        '9' => Some(9),
        _ => None,
    }
}

/// The number that a non-empty run of decimal digits denotes, `None` where
/// `s` is empty or holds anything but digits. Leading zeros are digits too.
pub open spec fn decimal_value(s: Seq<char>) -> Option<nat>
    decreases s.len(),
{
    if s.len() == 0 {
        None
    } else if s.len() == 1 {
        digit_value(s[0])
    } else {
        match (decimal_value(s.drop_last()), digit_value(s.last())) {
            (Some(high), Some(low)) => Some(10 * high + low),
            _ => None,
        }
    }
}

/// The number that `s` denotes as an unsigned decimal: one optional `+`, then
/// digits only.
pub open spec fn unsigned_value(s: Seq<char>) -> Option<nat> {
    if s.len() > 0 && s[0] == '+' {
        decimal_value(s.subrange(1, s.len() as int))
    } else {
        decimal_value(s)
    }
}

/// The 16-bit number that `s` denotes, `None` where `s` is no unsigned
/// decimal or denotes more than 65535.
pub open spec fn u16_value(s: Seq<char>) -> Option<u16> {
    match unsigned_value(s) {
        Some(v) => if v <= 0xffff {
            Some(v as u16)
        } else {
            None
        },
        None => None,
    }
}

/// The digit that stands for `d`, for `d` below ten.
pub open spec fn digit_char(d: nat) -> char {
    if d == 0 {
        '0'
    } else if d == 1 {
        '1'
    } else if d == 2 {
        '2'
    } else if d == 3 {
        '3'
    } else if d == 4 {
        '4'
    } else if d == 5 {
        '5'
    } else if d == 6 {
        '6'
    } else if d == 7 {
        '7'
    } else if d == 8 {
        '8'
    } else {
        '9'
    }
}

/// The decimal notation of `n` without leading zeros.
pub open spec fn decimal_text(n: nat) -> Seq<char>
    decreases n,
{
    if n < 10 {
        seq![digit_char(n)]
    } else {
        decimal_text(n / 10).push(digit_char(n % 10))
    }
}

/// The digit that stands for `d`, as a text of one character.
fn digit_str(d: u64) -> (s: &'static str)
    requires
        d < 10,
    ensures
        s@ == seq![digit_char(d as nat)],
{
    proof {
        reveal_strlit("0");
        reveal_strlit("1");
        reveal_strlit("2");
        reveal_strlit("3");
        reveal_strlit("4");
        reveal_strlit("5");
        reveal_strlit("6");
        reveal_strlit("7");
        reveal_strlit("8");
        reveal_strlit("9");
    }
    let s = if d == 0 {
        "0"
    } else if d == 1 {
        "1"
    } else if d == 2 {
        "2"
    } else if d == 3 {
        "3"
    } else if d == 4 {
        "4"
    } else if d == 5 {
        "5"
    } else if d == 6 {
        "6"
    } else if d == 7 {
        "7"
    } else if d == 8 {
        "8"
    } else {
        "9"
    };
    assert(s@ =~= seq![digit_char(d as nat)]);
    s
}

/// Writes `n` in decimal, without leading zeros.
pub fn decimal(n: u64) -> (text: String)
    ensures
        text@ == decimal_text(n as nat),
    decreases n,
{
    if n < 10 {
        digit_str(n).to_owned()
    } else {
        let mut text = decimal(n / 10);
        text.append(digit_str(n % 10));
        assert(text@ =~= decimal_text((n / 10) as nat).push(digit_char((n % 10) as nat)));
        text
    }
}

/// The dot-decimal notation of an IPv4 address: its four octets in decimal,
/// without leading zeros, with a dot between them.
pub open spec fn ipv4_text(octets: Seq<u8>) -> Seq<char>
    recommends
        octets.len() == 4,
{
    decimal_text(octets[0] as nat) + seq!['.'] + decimal_text(octets[1] as nat) + seq!['.']
        + decimal_text(octets[2] as nat) + seq!['.'] + decimal_text(octets[3] as nat)
}

/// The octets of the IPv4 address that `s` is the dot-decimal notation of,
/// `None` where `s` is the notation of none. Every text is the notation of
/// one address at most ([`lemma_ipv4_text_injective`]).
pub open spec fn ipv4_value(s: Seq<char>) -> Option<Seq<u8>> {
    if exists|octets: Seq<u8>| octets.len() == 4 && #[trigger] ipv4_text(octets) == s {
        Some(choose|octets: Seq<u8>| octets.len() == 4 && #[trigger] ipv4_text(octets) == s)
    } else {
        None
    }
}

/// True of a text that holds no dot.
pub open spec fn dot_free(s: Seq<char>) -> bool {
    forall|i: int| 0 <= i < s.len() ==> s[i] != '.'
}

/// The decimal notation of a number is not empty, holds no dot, and denotes
/// that number.
pub proof fn lemma_decimal_text_denotes(n: nat)
    ensures
        decimal_text(n).len() >= 1,
        dot_free(decimal_text(n)),
        decimal_value(decimal_text(n)) == Some(n),
    decreases n,
{
    if n >= 10 {
        lemma_decimal_text_denotes(n / 10);
        let text = decimal_text(n);
        assert(text.drop_last() =~= decimal_text(n / 10));
        assert(text.last() == digit_char(n % 10));
        assert(digit_value(digit_char(n % 10)) == Some(n % 10));
    } else {
        assert(digit_value(digit_char(n)) == Some(n));
    }
}

/// Two texts that begin with a run without a dot, followed by a dot, are the
/// same text only where the two runs are, and what follows the dot.
pub proof fn lemma_split_at_first_dot(
    head: Seq<char>,
    tail: Seq<char>,
    other_head: Seq<char>,
    other_tail: Seq<char>,
)
    requires
        dot_free(head),
        dot_free(other_head),
        head + seq!['.'] + tail == other_head + seq!['.'] + other_tail,
    ensures
        head == other_head,
        tail == other_tail,
{
    let whole = head + seq!['.'] + tail;
    let other = other_head + seq!['.'] + other_tail;
    assert(whole[head.len() as int] == '.');
    assert(other[other_head.len() as int] == '.');
    if head.len() < other_head.len() {
        assert(other[head.len() as int] == other_head[head.len() as int]);
        assert(false);
    }
    if other_head.len() < head.len() {
        assert(whole[other_head.len() as int] == head[other_head.len() as int]);
        assert(false);
    }
    assert forall|i: int| 0 <= i < head.len() implies head[i] == other_head[i] by {
        assert(whole[i] == head[i]);
        assert(other[i] == other_head[i]);
    }
    assert(head =~= other_head);
    assert(whole.len() == other.len());
    assert forall|i: int| 0 <= i < tail.len() implies tail[i] == other_tail[i] by {
        assert(whole[head.len() + 1 + i] == tail[i]);
        assert(other[head.len() + 1 + i] == other_tail[i]);
    }
    assert(tail =~= other_tail);
}

/// Two addresses with one dot-decimal notation are one address.
pub proof fn lemma_ipv4_text_injective(a: Seq<u8>, b: Seq<u8>)
    requires
        a.len() == 4,
        b.len() == 4,
        ipv4_text(a) == ipv4_text(b),
    ensures
        a == b,
{
    let dot = seq!['.'];
    let a0 = decimal_text(a[0] as nat);
    let a1 = decimal_text(a[1] as nat);
    let a2 = decimal_text(a[2] as nat);
    let a3 = decimal_text(a[3] as nat);
    let b0 = decimal_text(b[0] as nat);
    let b1 = decimal_text(b[1] as nat);
    let b2 = decimal_text(b[2] as nat);
    let b3 = decimal_text(b[3] as nat);
    lemma_decimal_text_denotes(a[0] as nat);
    lemma_decimal_text_denotes(a[1] as nat);
    lemma_decimal_text_denotes(a[2] as nat);
    lemma_decimal_text_denotes(a[3] as nat);
    lemma_decimal_text_denotes(b[0] as nat);
    lemma_decimal_text_denotes(b[1] as nat);
    lemma_decimal_text_denotes(b[2] as nat);
    lemma_decimal_text_denotes(b[3] as nat);
    assert(ipv4_text(a) =~= a0 + dot + (a1 + dot + (a2 + dot + a3)));
    assert(ipv4_text(b) =~= b0 + dot + (b1 + dot + (b2 + dot + b3)));
    lemma_split_at_first_dot(a0, a1 + dot + (a2 + dot + a3), b0, b1 + dot + (b2 + dot + b3));
    lemma_split_at_first_dot(a1, a2 + dot + a3, b1, b2 + dot + b3);
    lemma_split_at_first_dot(a2, a3, b2, b3);
    assert(a =~= b);
}

/// The dot-decimal notation of an address denotes that address.
pub proof fn lemma_ipv4_value_of_text(octets: Seq<u8>)
    requires
        octets.len() == 4,
    ensures
        ipv4_value(ipv4_text(octets)) == Some(octets),
{
    let found = ipv4_value(ipv4_text(octets))->0;
    lemma_ipv4_text_injective(found, octets);
}

/// A text that denotes an address is the dot-decimal notation of that
/// address, and the address has four octets.
pub proof fn lemma_ipv4_text_of_value(s: Seq<char>)
    requires
        ipv4_value(s) is Some,
    ensures
        ipv4_value(s)->0.len() == 4,
        ipv4_text(ipv4_value(s)->0) == s,
{
}

/// The name under which an IPv4 address is looked up in reverse: its octets
/// in decimal, last octet first, under `in-addr.arpa.`.
pub open spec fn ipv4_reverse_text(octets: Seq<u8>) -> Seq<char>
    recommends
        octets.len() == 4,
{
    decimal_text(octets[3] as nat) + seq!['.'] + decimal_text(octets[2] as nat) + seq!['.']
        + decimal_text(octets[1] as nat) + seq!['.'] + decimal_text(octets[0] as nat)
        + ".in-addr.arpa."@
}

/// The lower-case hexadecimal digit that stands for `d`, for `d` below sixteen.
pub open spec fn hex_char(d: nat) -> char {
    if d < 10 {
        digit_char(d)
    } else if d == 10 {
        'a'
    } else if d == 11 {
        'b'
    } else if d == 12 {
        'c'
    } else if d == 13 {
        'd'
    } else if d == 14 {
        'e'
    } else {
        'f'
    }
}

/// The `k`-th group of four bits of an IPv6 address, counted from its end:
/// group 0 holds the lowest four bits of the last segment, group 31 the
/// highest four bits of the first.
pub open spec fn ipv6_nibble(segments: Seq<u16>, k: int) -> nat
    recommends
        segments.len() == 8,
        0 <= k < 32,
{
    let segment = segments[7 - k / 4] as nat;
    let place = k % 4;
    if place == 0 {
        segment % 16
    } else if place == 1 {
        (segment / 16) % 16
    } else if place == 2 {
        (segment / 256) % 16
    } else {
        (segment / 4096) % 16
    }
}

/// The name under which an IPv6 address is looked up in reverse: its 32
/// groups of four bits as hexadecimal digits, last group first, each followed
/// by a dot, under `ip6.arpa.`.
pub open spec fn ipv6_reverse_text(segments: Seq<u16>) -> Seq<char>
    recommends
        segments.len() == 8,
{
    Seq::new(
        64,
        |i: int|
            if i % 2 == 0 {
                hex_char(ipv6_nibble(segments, i / 2))
            } else {
                '.'
            },
    ) + "ip6.arpa."@
}

} // verus!
