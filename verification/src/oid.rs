//! Object identifiers, held as their arcs, and their dot notation.

use vstd::prelude::*;

verus! {

/// An object identifier, held as its arcs in order (for example
/// `[2, 5, 4, 3]` for id-at-commonName). Its arcs always form an OID that
/// the `der` crates accept (see [`is_valid_oid`]).
pub struct Oid {
    arcs: Vec<u32>,
}

/// Number of bytes that `arc` takes in base 128.
pub open spec fn base128_len(arc: u32) -> nat {
    if arc < 0x80 {
        1
    } else if arc < 0x4000 {
        2
    } else if arc < 0x20_0000 {
        3
    } else if arc < 0x1000_0000 {
        4
    } else {
        5
    }
}

/// Number of bytes that `arcs` take in base 128, one after the other.
pub open spec fn base128_total(arcs: Seq<u32>) -> nat
    decreases arcs.len(),
{
    if arcs.len() == 0 {
        0
    } else {
        base128_total(arcs.drop_last()) + base128_len(arcs.last())
    }
}

/// Whether `arcs` form a valid OID: at least three arcs, the first at most
/// 2, the second at most 39, and a BER encoding (one byte for the first two
/// arcs, base 128 for the others) shorter than 39 bytes.
pub open spec fn is_valid_oid(arcs: Seq<u32>) -> bool {
    &&& arcs.len() >= 3
    &&& arcs[0] <= 2
    &&& arcs[1] <= 39
    &&& 1 + base128_total(arcs.subrange(2, arcs.len() as int)) < 39
}

proof fn lemma_base128_total_prefix(arcs: Seq<u32>, k: int)
    requires
        0 <= k <= arcs.len(),
    ensures
        base128_total(arcs.take(k)) <= base128_total(arcs),
    decreases arcs.len(),
{
    if k < arcs.len() {
        assert(arcs.drop_last().take(k) =~= arcs.take(k));
        lemma_base128_total_prefix(arcs.drop_last(), k);
    } else {
        assert(arcs.take(k) =~= arcs);
    }
}

fn base128_len_of(arc: u32) -> (n: usize)
    ensures
        n == base128_len(arc),
{
    if arc < 0x80 {
        1
    } else if arc < 0x4000 {
        2
    } else if arc < 0x20_0000 {
        3
    } else if arc < 0x1000_0000 {
        4
    } else {
        5
    }
}

impl View for Oid {
    type V = Seq<u32>;

    closed spec fn view(&self) -> Seq<u32> {
        self.arcs@
    }
}

impl Oid {
    #[verifier::type_invariant]
    spec fn well_formed(self) -> bool {
        is_valid_oid(self.arcs@)
    }

    /// The OID with these arcs, or `None` when they form no valid OID.
    pub fn new(arcs: Vec<u32>) -> (oid: Option<Oid>)
        ensures
            oid is Some <==> is_valid_oid(arcs@),
            oid matches Some(o) ==> o@ == arcs@,
    {
        let n: usize = arcs.len();
        if n < 3 || arcs[0] > 2 || arcs[1] > 39 {
            return None;
        }
        let ghost body = arcs@.subrange(2, n as int);
        let mut len: usize = 1;
        let mut i: usize = 2;
        assert(arcs@.subrange(2, 2) =~= Seq::<u32>::empty());
        while i < n
            invariant
                n == arcs@.len(),
                2 <= i <= n,
                body == arcs@.subrange(2, n as int),
                len == 1 + base128_total(arcs@.subrange(2, i as int)),
                len < 39,
            decreases n - i,
        {
            assert(arcs@.subrange(2, i + 1).drop_last() =~= arcs@.subrange(2, i as int));
            len = len + base128_len_of(arcs[i]);
            if len >= 39 {
                proof {
                    assert(body.take(i + 1 - 2) =~= arcs@.subrange(2, i + 1));
                    lemma_base128_total_prefix(body, i + 1 - 2);
                }
                return None;
            }
            i = i + 1;
        }
        assert(arcs@.subrange(2, n as int) =~= body);
        Some(Oid { arcs })
    }

    /// The arcs of the OID, which always form a valid OID.
    pub fn arcs(&self) -> (arcs: &[u32])
        ensures
            arcs@ == self@,
            is_valid_oid(arcs@),
    {
        proof {
            use_type_invariant(self);
        }
        self.arcs.as_slice()
    }
}

/// The decimal digit `d` (for `d < 10`) as a character.
pub open spec fn digit_char(d: nat) -> char {
    (48 + d) as char
}

/// `n` written in decimal, without leading zeros.
pub open spec fn decimal(n: nat) -> Seq<char>
    decreases n,
{
    if n < 10 {
        seq![digit_char(n)]
    } else {
        decimal(n / 10).push(digit_char(n % 10))
    }
}

/// The arcs written in decimal and joined by dots, as in `2.5.4.3`.
pub open spec fn dotted(arcs: Seq<u32>) -> Seq<char>
    decreases arcs.len(),
{
    if arcs.len() == 0 {
        Seq::empty()
    } else if arcs.len() == 1 {
        decimal(arcs[0] as nat)
    } else {
        dotted(arcs.drop_last()) + seq!['.'] + decimal(arcs.last() as nat)
    }
}

/// Whether `c` is one of the decimal digits `'0'` to `'9'`.
pub open spec fn is_decimal_digit(c: char) -> bool {
    48 <= c as u32 <= 57
}

/// The number that the decimal digits `digits` stand for, read from the
/// most significant digit on.
pub open spec fn decimal_value(digits: Seq<char>) -> int
    decreases digits.len(),
{
    if digits.len() == 0 {
        0
    } else {
        decimal_value(digits.drop_last()) * 10 + (digits.last() as u32 - 48)
    }
}

/// The dot notation of an arc is the ordinary decimal numeral for it: at
/// least one character, each of them a decimal digit, read back as the
/// arc's value, and without a leading zero unless the arc is 0.
pub proof fn lemma_decimal_reads_back(n: nat)
    ensures
        decimal(n).len() > 0,
        forall|i: int| 0 <= i < decimal(n).len() ==> is_decimal_digit(#[trigger] decimal(n)[i]),
        decimal_value(decimal(n)) == n,
        n > 0 ==> decimal(n)[0] != '0',
    decreases n,
{
    if n < 10 {
        let d = digit_char(n);
        assert(d as u32 == 48 + n);
        assert(decimal(n).drop_last() =~= Seq::<char>::empty());
        assert(decimal_value(decimal(n).drop_last()) == 0);
        assert(decimal(n).last() == d);
    } else {
        lemma_decimal_reads_back(n / 10);
        let d = digit_char(n % 10);
        assert(d as u32 == 48 + n % 10);
        let s = decimal(n);
        assert(s.drop_last() =~= decimal(n / 10));
        assert(s[0] == decimal(n / 10)[0]);
        assert(s.last() == d);
        assert(decimal_value(s) == decimal_value(decimal(n / 10)) * 10 + (n % 10));
        assert((n / 10) * 10 + n % 10 == n);
        assert forall|i: int| 0 <= i < s.len() implies is_decimal_digit(#[trigger] s[i]) by {
            if i < s.len() - 1 {
                assert(s[i] == decimal(n / 10)[i]);
            }
        }
    }
}

/// Dot notation joins the notations of its parts with a dot: one arc is
/// written alone, in decimal, and the arcs `front` followed by the arcs
/// `back` are written as `front`'s notation, a dot, then `back`'s.
pub proof fn lemma_dotted_joins(front: Seq<u32>, back: Seq<u32>)
    requires
        front.len() > 0,
        back.len() > 0,
    ensures
        dotted(seq![front[0]]) == decimal(front[0] as nat),
        dotted(front + back) == dotted(front) + seq!['.'] + dotted(back),
    decreases back.len(),
{
    let joined = front + back;
    if back.len() == 1 {
        assert(joined.drop_last() =~= front);
        assert(joined.last() == back[0]);
    } else {
        assert(joined.drop_last() =~= front + back.drop_last());
        assert(joined.last() == back.last());
        lemma_dotted_joins(front, back.drop_last());
        assert(dotted(joined) =~= dotted(front) + seq!['.'] + dotted(back));
    }
}

fn digit_str(d: u32) -> (s: &'static str)
    requires
        d < 10,
    ensures
        s@ == seq![digit_char(d as nat)],
{
    proof {
        reveal_strlit("0");
        reveal_strlit("1");
        reveal_strlit("2");
        reveal_strlit("3");
        reveal_strlit("4");
        reveal_strlit("5");
        reveal_strlit("6");
        reveal_strlit("7");
        reveal_strlit("8");
        reveal_strlit("9");
    }
    match d {
        0 => "0",
        1 => "1",
        2 => "2",
        3 => "3",
        4 => "4",
        5 => "5",
        6 => "6",
        7 => "7",
        8 => "8",
        _ => "9",
    }
}

fn append_decimal(text: &mut String, n: u32)
    ensures
        final(text)@ == old(text)@ + decimal(n as nat),
    decreases n,
{
    if n < 10 {
        text.append(digit_str(n));
    } else {
        append_decimal(text, n / 10);
        text.append(digit_str(n % 10));
        assert(decimal(n as nat) == decimal((n / 10) as nat).push(digit_char((n % 10) as nat)));
    }
}

/// The OID in dot notation: its arcs in decimal, joined by dots.
pub fn to_dotted_string(oid: &Oid) -> (text: String)
    ensures
        text@ == dotted(oid@),
{
    let ghost arcs_v = oid@;
    let mut text = String::new();
    let n: usize = oid.arcs.len();
    let mut i: usize = 0;
    while i < n
        invariant
            arcs_v == oid.arcs@,
            n == arcs_v.len(),
            i <= n,
            text@ == dotted(arcs_v.take(i as int)),
        decreases n - i,
    {
        let ghost before = arcs_v.take(i as int);
        let ghost after = arcs_v.take(i + 1);
        proof {
            assert(after.drop_last() =~= before);
            assert(after.last() == arcs_v[i as int]);
        }
        if i > 0 {
            proof {
                reveal_strlit(".");
            }
            text.append(".");
        }
        append_decimal(&mut text, oid.arcs[i]);
        proof {
            if i == 0 {
                assert(before =~= Seq::<u32>::empty());
                assert(text@ =~= decimal(arcs_v[0] as nat));
            } else {
                assert(text@ =~= dotted(before) + seq!['.'] + decimal(arcs_v[i as int] as nat));
            }
        }
        i = i + 1;
    }
    proof {
        assert(arcs_v.take(n as int) =~= arcs_v);
    }
    text
}

} // verus!
