use vstd::prelude::*;
use vstd::string::StringExecFns;

verus! {

/// An amount of money in euro cents.
#[derive(Debug, Clone, Copy, PartialEq, Eq, Structural, PartialOrd, Ord, Hash)]
pub struct EuroCent(pub u64);

/// The character of a decimal digit.
pub open spec fn digit_char(d: nat) -> char {
    if d == 0 { '0' }
    else if d == 1 { '1' }
    else if d == 2 { '2' }
    else if d == 3 { '3' }
    else if d == 4 { '4' }
    else if d == 5 { '5' }
    else if d == 6 { '6' }
    else if d == 7 { '7' }
    else if d == 8 { '8' }
    else { '9' }
}

/// The decimal digits of `n`, most significant first, without leading zeros.
pub open spec fn decimal(n: nat) -> Seq<char>
    decreases n,
{
    if n < 10 {
        seq![digit_char(n)]
    } else {
        decimal(n / 10) + seq![digit_char(n % 10)]
    }
}

/// How an amount is shown: whole euros, a point, exactly two cent digits and
/// the euro sign, as in `666.07€`.
pub open spec fn display(cents: nat) -> Seq<char> {
    decimal(cents / 100) + seq!['.', digit_char((cents % 100) / 10), digit_char(cents % 10), '€']
}

fn digit_str(d: u64) -> (r: &'static str)
    requires
        d < 10,
    ensures
        r@ == seq![digit_char(d as nat)],
{
    proof {
        reveal_strlit("0");
        reveal_strlit("1");
        reveal_strlit("2");
        reveal_strlit("3");
        reveal_strlit("4");
        reveal_strlit("5");
        reveal_strlit("6");
        reveal_strlit("7");
        reveal_strlit("8");
        reveal_strlit("9");
    }
    match d {
        0 => "0",
        1 => "1",
        2 => "2",
        3 => "3",
        4 => "4",
        5 => "5",
        6 => "6",
        7 => "7",
        8 => "8",
        _ => "9",
    }
}

fn push_decimal(s: &mut String, n: u64)
    ensures
        final(s)@ == old(s)@ + decimal(n as nat),
    decreases n,
{
    if n >= 10 {
        push_decimal(s, n / 10);
    }
    s.append(digit_str(n % 10));
    assert(final(s)@ =~= old(s)@ + decimal(n as nat));
}

impl EuroCent {
    /// Zero euros.
    pub fn zero() -> (r: EuroCent)
        ensures
            r.0 == 0,
    {
        EuroCent(0)
    }

    /// The sum of two amounts, or `None` where it does not fit in a `u64`.
    pub fn checked_add(self, other: EuroCent) -> (r: Option<EuroCent>)
        ensures
            self.0 + other.0 <= u64::MAX ==> r == Some(EuroCent((self.0 + other.0) as u64)),
            self.0 + other.0 > u64::MAX ==> r is None,
    {
        match self.0.checked_add(other.0) {
            Some(v) => Some(EuroCent(v)),
            None => None,
        }
    }

    /// The difference of two amounts, or `None` where it would be negative.
    pub fn checked_sub(self, other: EuroCent) -> (r: Option<EuroCent>)
        ensures
            other.0 <= self.0 ==> r == Some(EuroCent((self.0 - other.0) as u64)),
            other.0 > self.0 ==> r is None,
    {
        if other.0 <= self.0 {
            Some(EuroCent(self.0 - other.0))
        } else {
            None
        }
    }

    /// The amount as text, such as `123.05€`.
    pub fn to_string(&self) -> (r: String)
        ensures
            r@ == display(self.0 as nat),
    {
        let eur = self.0 / 100;
        let cent = self.0 % 100;
        let mut s = String::new();
        push_decimal(&mut s, eur);
        proof {
            reveal_strlit(".");
            reveal_strlit("€");
        }
        s.append(".");
        s.append(digit_str(cent / 10));
        s.append(digit_str(cent % 10));
        s.append("€");
        assert(s@ =~= display(self.0 as nat));
        s
    }
}

impl Default for EuroCent {
    fn default() -> (r: EuroCent)
        ensures
            r.0 == 0,
    {
        EuroCent(0)
    }
}

impl From<u64> for EuroCent {
    fn from(value: u64) -> (r: EuroCent) {
        EuroCent(value)
    }
}

impl vstd::std_specs::convert::FromSpecImpl<u64> for EuroCent {
    open spec fn obeys_from_spec() -> bool {
        true
    }

    open spec fn from_spec(v: u64) -> EuroCent {
        EuroCent(v)
    }
}

} // verus!
