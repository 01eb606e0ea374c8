//! Text as the program stores it: UTF-8 bytes.  The numbered token names that
//! the mint instruction gives out are built here.
use vstd::prelude::*;

verus! {

/// The ASCII decimal digits of `n`, most significant first, with no leading zero.
pub open spec fn decimal(n: nat) -> Seq<u8>
    decreases n,
{
    if n < 10 {
        seq![(48 + n) as u8]
    } else {
        decimal(n / 10).push((48 + n % 10) as u8)
    }
}

/// The number that a string of ASCII decimal digits spells.
pub open spec fn digits_value(s: Seq<u8>) -> int
    decreases s.len(),
{
    if s.len() == 0 {
        0
    } else {
        digits_value(s.drop_last()) * 10 + (s.last() - 48)
    }
}

/// `name`, a space, `#` and the decimal digits of `n`: what `format!("{} #{}", name, n)` gives.
pub open spec fn numbered_name(name: Seq<u8>, n: nat) -> Seq<u8> {
    name + seq![32u8, 35u8] + decimal(n)
}

/// Reading the digits of `n` back gives `n`.
pub proof fn lemma_decimal_value(n: nat)
    ensures
        digits_value(decimal(n)) == n,
        decimal(n).len() >= 1,
    decreases n,
{
    if n >= 10 {
        lemma_decimal_value(n / 10);
        let d = decimal(n);
        assert(d.drop_last() =~= decimal(n / 10));
        assert(d.last() == 48 + n % 10);
        assert((n / 10) * 10 + n % 10 == n) by (nonlinear_arith);
        assert(digits_value(d) == digits_value(d.drop_last()) * 10 + (d.last() - 48));
    } else {
        let d = decimal(n);
        assert(d.drop_last() =~= Seq::<u8>::empty());
        assert(digits_value(d.drop_last()) == 0);
        assert(d.last() == 48 + n);
        assert(digits_value(d) == digits_value(d.drop_last()) * 10 + (d.last() - 48));
    }
}

/// The decimal spelling of `n` is made of ASCII digits only, and starts
/// with `0` only when `n` is zero.
pub proof fn lemma_decimal_digits(n: nat)
    ensures
        forall|i: int| 0 <= i < decimal(n).len() ==> 48 <= #[trigger] decimal(n)[i] <= 57,
        decimal(n).len() >= 1,
        decimal(n)[0] == 48 <==> n == 0,
    decreases n,
{
    if n >= 10 {
        lemma_decimal_digits(n / 10);
        assert(n / 10 > 0);
        let d = decimal(n);
        assert(d == decimal(n / 10).push((48 + n % 10) as u8));
        assert forall|i: int| 0 <= i < d.len() implies 48 <= #[trigger] d[i] <= 57 by {
            if i < d.len() - 1 {
                assert(d[i] == decimal(n / 10)[i]);
            }
        }
        assert(d[0] == decimal(n / 10)[0]);
    }
}

/// A numbered name reads back as the name, a space, `#`, and the decimal
/// digits of the number, with no leading zero: what `format!("{} #{}",
/// name, n)` writes.
pub proof fn lemma_numbered_name_reads_back(name: Seq<u8>, n: nat)
    ensures
        ({
            let t = numbered_name(name, n);
            let digits = t.skip(name.len() + 2int);
            &&& t.len() >= name.len() + 3
            &&& t.take(name.len() as int) == name
            &&& t[name.len() as int] == 32
            &&& t[name.len() + 1int] == 35
            &&& forall|i: int| 0 <= i < digits.len() ==> 48 <= #[trigger] digits[i] <= 57
            &&& (digits[0] == 48 <==> n == 0)
            &&& digits_value(digits) == n
        }),
{
    lemma_decimal_value(n);
    lemma_decimal_digits(n);
    let t = numbered_name(name, n);
    assert(t.take(name.len() as int) =~= name);
    assert(t.skip(name.len() + 2int) =~= decimal(n));
}

/// Distinct numbers have distinct decimal spellings.
pub proof fn lemma_decimal_injective(a: nat, b: nat)
    requires
        decimal(a) == decimal(b),
    ensures
        a == b,
{
    lemma_decimal_value(a);
    lemma_decimal_value(b);
}

/// Two tokens numbered differently under one name get different names.
pub proof fn lemma_numbered_names_distinct(name: Seq<u8>, a: nat, b: nat)
    requires
        a != b,
    ensures
        numbered_name(name, a) != numbered_name(name, b),
{
    if numbered_name(name, a) == numbered_name(name, b) {
        let k = name.len() + 2;
        assert(numbered_name(name, a).skip(k as int) =~= decimal(a));
        assert(numbered_name(name, b).skip(k as int) =~= decimal(b));
        lemma_decimal_injective(a, b);
    }
}

/// Appends the decimal digits of `n` to `out`.
fn push_decimal(out: &mut Vec<u8>, n: u64)
    ensures
        final(out)@ == old(out)@ + decimal(n as nat),
    decreases n,
{
    if n >= 10 {
        push_decimal(out, n / 10);
    }
    let digit: u8 = (n % 10) as u8;
    out.push(48 + digit);
    proof {
        if n >= 10 {
            assert(decimal(n as nat) == decimal((n / 10) as nat).push((48 + n % 10) as u8));
        }
    }
    assert(final(out)@ =~= old(out)@ + decimal(n as nat));
}

/// The name of the `n`-th token minted under `name`.
pub fn token_name(name: &Vec<u8>, n: u64) -> (res: Vec<u8>)
    ensures
        res@ == numbered_name(name@, n as nat),
{
    let mut out = copy_bytes(name);
    out.push(32);
    out.push(35);
    push_decimal(&mut out, n);
    assert(out@ =~= numbered_name(name@, n as nat));
    out
}

/// For bytes, the deep view is the view.
pub proof fn lemma_bytes_deep_view(v: Vec<u8>)
    ensures
        v.deep_view() == v@,
{
    assert(v.deep_view() =~= v@);
}

/// For a list of byte strings, the deep view lists the views.
pub proof fn lemma_byte_lists_deep_view(v: Vec<Vec<u8>>)
    ensures
        v.deep_view().len() == v@.len(),
        forall|i: int| 0 <= i < v@.len() ==> #[trigger] v.deep_view()[i] == v@[i]@,
{
    assert forall|i: int| 0 <= i < v@.len() implies #[trigger] v.deep_view()[i] == v@[i]@ by {
        lemma_bytes_deep_view(v@[i]);
    }
}

/// A byte-for-byte copy.
pub fn copy_bytes(v: &Vec<u8>) -> (res: Vec<u8>)
    ensures
        res@ == v@,
{
    vstd::slice::slice_to_vec(v.as_slice())
}

} // verus!
