//! Natural numbers in decimal: the numerals that a report prints.
use vstd::prelude::*;
use vstd::string::*;

verus! {

/// The character of one decimal digit.
pub open spec fn digit_char(d: nat) -> char {
    if d == 0 {
        '0'
    } else if d == 1 {
        '1'
    } else if d == 2 {
        '2'
    } else if d == 3 {
        '3'
    } else if d == 4 {
        '4'
    } else if d == 5 {
        '5'
    } else if d == 6 {
        '6'
    } else if d == 7 {
        '7'
    } else if d == 8 {
        '8'
    } else {
        '9'
    }
}

/// The decimal numeral of `n`, most significant digit first, without leading
/// zeros.
pub open spec fn decimal_digits(n: nat) -> Seq<char>
    decreases n,
{
    if n < 10 {
        seq![digit_char(n)]
    } else {
        decimal_digits(n / 10).push(digit_char(n % 10))
    }
}

/// The number whose lowest decimal digits are `low`, least significant first,
/// and whose remaining digits make up `high`.
pub open spec fn compose(low: Seq<u8>, high: nat) -> nat
    decreases low.len(),
{
    if low.len() == 0 {
        high
    } else {
        low[0] as nat + 10 * compose(low.drop_first(), high)
    }
}

/// Digits, least significant first, that form a numeral: at least one digit,
/// each below ten, and no zero in the leading place unless it stands alone.
pub open spec fn is_numeral(digits: Seq<u8>) -> bool {
    &&& digits.len() >= 1
    &&& forall|i: int| 0 <= i < digits.len() ==> digits[i] < 10
    &&& digits.len() >= 2 ==> digits[digits.len() - 1] != 0
}

/// The digits as characters, most significant first.
pub open spec fn numeral_text(digits: Seq<u8>) -> Seq<char> {
    Seq::new(digits.len(), |i: int| digit_char(digits[digits.len() - 1 - i] as nat))
}

/// One more digit above `low` is the lowest digit of what lies above.
pub proof fn lemma_compose_push(low: Seq<u8>, d: u8, high: nat)
    ensures
        compose(low.push(d), high) == compose(low, d as nat + 10 * high),
    decreases low.len(),
{
    let longer = low.push(d);
    if low.len() == 0 {
        assert(longer.drop_first() =~= low);
        assert(compose(longer, high) == d as nat + 10 * compose(longer.drop_first(), high));
    } else {
        assert(longer.drop_first() =~= low.drop_first().push(d));
        assert(longer[0] == low[0]);
        lemma_compose_push(low.drop_first(), d, high);
    }
}

proof fn lemma_numeral_positive(digits: Seq<u8>)
    requires
        is_numeral(digits),
        digits.len() >= 2 || digits[0] != 0,
    ensures
        compose(digits, 0) > 0,
    decreases digits.len(),
{
    let rest = digits.drop_first();
    if digits.len() == 1 {
        assert(rest.len() == 0);
        assert(compose(rest, 0) == 0);
    } else {
        assert(rest[rest.len() - 1] == digits[digits.len() - 1]);
        lemma_numeral_positive(rest);
    }
}

/// A numeral reads as the decimal digits of its value.
pub proof fn lemma_numeral_text(digits: Seq<u8>)
    requires
        is_numeral(digits),
    ensures
        decimal_digits(compose(digits, 0)) == numeral_text(digits),
    decreases digits.len(),
{
    let rest = digits.drop_first();
    if digits.len() == 1 {
        assert(rest.len() == 0);
        assert(compose(rest, 0) == 0);
        assert(compose(digits, 0) == digits[0]);
        assert(numeral_text(digits) =~= seq![digit_char(digits[0] as nat)]);
    } else {
        assert(rest[rest.len() - 1] == digits[digits.len() - 1]);
        lemma_numeral_positive(rest);
        lemma_numeral_text(rest);
        let above = compose(rest, 0);
        let value = compose(digits, 0);
        assert(value == digits[0] + 10 * above);
        assert(value / 10 == above && value % 10 == digits[0]);
        assert(numeral_text(digits) =~= numeral_text(rest).push(digit_char(digits[0] as nat)));
    }
}

/// The text of one decimal digit.
pub fn digit_str(d: u8) -> (text: &'static str)
    requires
        d < 10,
    ensures
        text@ == seq![digit_char(d as nat)],
{
    proof {
        reveal_strlit("0");
        reveal_strlit("1");
        reveal_strlit("2");
        reveal_strlit("3");
        reveal_strlit("4");
        reveal_strlit("5");
        reveal_strlit("6");
        reveal_strlit("7");
        reveal_strlit("8");
        reveal_strlit("9");
    }
    let text = if d == 0 {
        "0"
    } else if d == 1 {
        "1"
    } else if d == 2 {
        "2"
    } else if d == 3 {
        "3"
    } else if d == 4 {
        "4"
    } else if d == 5 {
        "5"
    } else if d == 6 {
        "6"
    } else if d == 7 {
        "7"
    } else if d == 8 {
        "8"
    } else {
        "9"
    };
    assert(text@ =~= seq![digit_char(d as nat)]);
    text
}

/// A natural number of any size, held as its decimal digits.
pub struct Numeral {
    /// The digits, least significant first.
    pub digits: Vec<u8>,
}

impl Numeral {
    /// The digits form a numeral.
    pub open spec fn wf(&self) -> bool {
        is_numeral(self.digits@)
    }

    /// The number that the digits denote.
    pub open spec fn value(&self) -> nat {
        compose(self.digits@, 0)
    }

    /// The numeral of `n`.
    pub fn from_u64(n: u64) -> (numeral: Numeral)
        ensures
            numeral.wf(),
            numeral.value() == n,
    {
        let mut digits: Vec<u8> = Vec::new();
        if n == 0 {
            digits.push(0);
            assert(compose(digits@.drop_first(), 0) == 0);
            return Numeral { digits };
        }
        let mut rest: u64 = n;
        while rest > 0
            invariant
                compose(digits@, rest as nat) == n,
                forall|i: int| 0 <= i < digits.len() ==> digits[i] < 10,
                rest == 0 ==> digits.len() >= 1 && digits[digits.len() - 1] != 0,
            decreases rest,
        {
            let d: u8 = (rest % 10) as u8;
            proof {
                lemma_compose_push(digits@, d, (rest / 10) as nat);
            }
            digits.push(d);
            rest = rest / 10;
        }
        Numeral { digits }
    }

    /// Doubles the number in place.
    pub fn double(&mut self)
        requires
            old(self).wf(),
        ensures
            final(self).wf(),
            final(self).value() == 2 * old(self).value(),
    {
        let ghost before = self.digits@;
        let n: usize = self.digits.len();
        let mut carry: u8 = 0;
        let mut i: usize = 0;
        assert(before.take(0) =~= Seq::<u8>::empty());
        assert(before.skip(0) =~= before);
        while i < n
            invariant
                i <= n,
                n == before.len(),
                self.digits.len() == n,
                carry <= 1,
                forall|j: int| 0 <= j < n ==> self.digits[j] < 10,
                forall|j: int| i <= j < n ==> self.digits[j] == before[j],
                compose(self.digits@.take(i as int), 2 * compose(before.skip(i as int), 0) + carry as nat)
                    == 2 * compose(before, 0),
                i > 0 && carry == 0 && before[i - 1] != 0 ==> self.digits[i - 1] != 0,
            decreases n - i,
        {
            let ghost done = self.digits@.take(i as int);
            let x: u8 = 2 * self.digits[i] + carry;
            let low: u8 = x % 10;
            self.digits.set(i, low);
            proof {
                let above = compose(before.skip(i as int + 1), 0);
                assert(before.skip(i as int).drop_first() =~= before.skip(i as int + 1));
                assert(compose(before.skip(i as int), 0) == before[i as int] + 10 * above);
                assert(self.digits@.take(i as int + 1) =~= done.push(low));
                lemma_compose_push(done, low, 2 * above + (x / 10) as nat);
            }
            carry = x / 10;
            i = i + 1;
        }
        proof {
            assert(before.skip(n as int).len() == 0);
            assert(self.digits@.take(n as int) =~= self.digits@);
            lemma_compose_push(self.digits@, carry, 0);
        }
        if carry > 0 {
            self.digits.push(carry);
        }
    }

    /// The decimal numeral of the number.
    pub fn to_text(&self) -> (text: String)
        requires
            self.wf(),
        ensures
            text@ == decimal_digits(self.value()),
    {
        let n: usize = self.digits.len();
        let mut text = String::new();
        let mut i: usize = n;
        while i > 0
            invariant
                i <= n,
                n == self.digits.len(),
                self.wf(),
                text@ == numeral_text(self.digits@).take(n - i),
            decreases i,
        {
            i = i - 1;
            text.append(digit_str(self.digits[i]));
            assert(text@ =~= numeral_text(self.digits@).take(n - i));
        }
        proof {
            assert(numeral_text(self.digits@).take(n as int) =~= numeral_text(self.digits@));
            lemma_numeral_text(self.digits@);
        }
        text
    }
}

} // verus!
