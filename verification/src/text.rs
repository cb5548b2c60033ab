//! Decimal and list rendering for messages.
use vstd::prelude::*;

verus! {

/// The character of a decimal digit.
pub open spec fn digit_char(d: nat) -> char {
    (('0' as u32) + d) as char
}

/// Decimal representation of a natural number, most significant digit first.
pub open spec fn decimal(n: nat) -> Seq<char>
    decreases n,
{
    if n < 10 {
        seq![digit_char(n)]
    } else {
        decimal(n / 10) + seq![digit_char(n % 10)]
    }
}

/// Decimal representation of an integer.
pub open spec fn signed_decimal(n: int) -> Seq<char> {
    if n < 0 {
        "-"@ + decimal((-n) as nat)
    } else {
        decimal(n as nat)
    }
}

/// Elements of a list up to `count`, separated by a comma and a space.
pub open spec fn joined(dims: Seq<usize>, count: nat) -> Seq<char>
    decreases count,
{
    if count == 0 {
        Seq::empty()
    } else if count == 1 {
        decimal(dims[0] as nat)
    } else {
        joined(dims, (count - 1) as nat) + ", "@ + decimal(dims[count - 1] as nat)
    }
}

/// A bracketed list such as `[2, 3]`.
pub open spec fn bracketed(dims: Seq<usize>) -> Seq<char> {
    "["@ + joined(dims, dims.len()) + "]"@
}

fn digit(d: u64) -> (s: &'static str)
    requires
        d < 10,
    ensures
        s@ == seq![digit_char(d as nat)],
{
    proof {
        reveal_strlit("0");
        reveal_strlit("1");
        reveal_strlit("2");
        reveal_strlit("3");
        reveal_strlit("4");
        reveal_strlit("5");
        reveal_strlit("6");
        reveal_strlit("7");
        reveal_strlit("8");
        reveal_strlit("9");
    }
    let s: &'static str = match d {
        0 => "0",
        1 => "1",
        2 => "2",
        3 => "3",
        4 => "4",
        5 => "5",
        6 => "6",
        7 => "7",
        8 => "8",
        _ => "9",
    };
    assert(s@ =~= seq![digit_char(d as nat)]);
    s
}

/// Appends the decimal representation of `n`.
pub fn push_u64(out: &mut String, n: u64)
    ensures
        final(out)@ == old(out)@ + decimal(n as nat),
    decreases n,
{
    if n < 10 {
        out.append(digit(n));
    } else {
        push_u64(out, n / 10);
        out.append(digit(n % 10));
        assert(out@ =~= old(out)@ + (decimal((n / 10) as nat) + seq![digit_char((n % 10) as nat)]));
    }
}

/// Appends the decimal representation of `n`.
pub fn push_usize(out: &mut String, n: usize)
    ensures
        final(out)@ == old(out)@ + decimal(n as nat),
{
    push_u64(out, n as u64);
}

/// Appends the decimal representation of a signed `n`.
pub fn push_i32(out: &mut String, n: i32)
    ensures
        final(out)@ == old(out)@ + signed_decimal(n as int),
{
    if n < 0 {
        out.append("-");
        let magnitude: i64 = -(n as i64);
        push_u64(out, magnitude as u64);
        assert(out@ =~= old(out)@ + ("-"@ + decimal((-n) as nat)));
    } else {
        push_u64(out, n as u64);
    }
}

/// Appends a bracketed list.
pub fn push_dims(out: &mut String, dims: &Vec<usize>)
    ensures
        final(out)@ == old(out)@ + bracketed(dims@),
{
    let ghost start = out@;
    out.append("[");
    let mut i: usize = 0;
    assert(out@ =~= start + "["@ + joined(dims@, 0));
    while i < dims.len()
        invariant
            i <= dims.len(),
            out@ == start + "["@ + joined(dims@, i as nat),
        decreases dims.len() - i,
    {
        let ghost before = out@;
        if i > 0 {
            out.append(", ");
        }
        push_usize(out, dims[i]);
        assert(out@ =~= start + "["@ + joined(dims@, (i + 1) as nat));
        i += 1;
    }
    out.append("]");
    assert(out@ =~= start + bracketed(dims@));
}

/// Whether two texts are the same.
pub fn same_text(a: &str, b: &str) -> (same: bool)
    ensures
        same == (a@ == b@),
{
    let count: usize = a.unicode_len();
    if count != b.unicode_len() {
        return false;
    }
    let mut i: usize = 0;
    while i < count
        invariant
            i <= count,
            count == a@.len(),
            count == b@.len(),
            forall|j: int| 0 <= j < i ==> a@[j] == b@[j],
        decreases count - i,
    {
        if a.get_char(i) != b.get_char(i) {
            return false;
        }
        i = i + 1;
    }
    assert(a@ =~= b@);
    true
}

/// The number that decimal digits stand for.
pub open spec fn number(digits: Seq<char>) -> int
    decreases digits.len(),
{
    if digits.len() == 0 {
        0
    } else {
        number(digits.drop_last()) * 10 + (digits.last() as int - '0' as int)
    }
}

/// A decimal representation reads back as its number, consists of digits, and
/// starts with a zero only where it is the number zero.
pub proof fn law_decimals_read_back_as_their_number(n: nat)
    ensures
        number(decimal(n)) == n,
        decimal(n).len() > 0,
        forall|i: int| 0 <= i < decimal(n).len() ==> '0' <= #[trigger] decimal(n)[i] <= '9',
        decimal(n)[0] == '0' <==> n == 0,
    decreases n,
{
    if n < 10 {
        let s = decimal(n);
        assert(s.drop_last() =~= Seq::<char>::empty());
        assert(number(s.drop_last()) == 0);
    } else {
        law_decimals_read_back_as_their_number(n / 10);
        assert(decimal(n).drop_last() =~= decimal(n / 10));
        assert(decimal(n).last() == digit_char(n % 10));
        assert(decimal(n)[0] == decimal(n / 10)[0]);
        assert forall|i: int| 0 <= i < decimal(n).len() implies '0' <= #[trigger] decimal(n)[i] <= '9' by {
            if i < decimal(n / 10).len() {
                assert(decimal(n)[i] == decimal(n / 10)[i]);
            }
        }
    }
}

/// The representation of an integer reads back as it: a minus sign in front of
/// its magnitude where it is negative, and its digits alone where it is not.
pub proof fn law_signed_decimals_read_back_as_their_number(n: int)
    ensures
        n >= 0 ==> number(signed_decimal(n)) == n,
        n < 0 ==> signed_decimal(n)[0] == '-' && number(signed_decimal(n).skip(1)) == -n,
{
    if n < 0 {
        reveal_strlit("-");
        law_decimals_read_back_as_their_number((-n) as nat);
        assert(signed_decimal(n).skip(1) =~= decimal((-n) as nat));
    } else {
        law_decimals_read_back_as_their_number(n as nat);
    }
}

/// A list can be cut at any element: it is what stands before the element, a
/// comma and a space, and what starts with it. A single element is its number.
pub proof fn law_lists_are_cut_between_elements(dims: Seq<usize>, cut: nat, count: nat)
    requires
        0 < cut < count <= dims.len(),
    ensures
        joined(dims, count) == joined(dims, cut) + seq![',', ' '] + joined(
            dims.skip(cut as int),
            (count - cut) as nat,
        ),
        number(joined(dims, 1)) == dims[0],
    decreases count,
{
    reveal_strlit(", ");
    assert(", "@ =~= seq![',', ' ']);
    law_decimals_read_back_as_their_number(dims[0] as nat);
    let rest = dims.skip(cut as int);
    assert(rest[count - cut - 1] == dims[count - 1]);
    if count > cut + 1 {
        law_lists_are_cut_between_elements(dims, cut, (count - 1) as nat);
    }
    assert(joined(dims, count) =~= joined(dims, cut) + seq![',', ' '] + joined(
        rest,
        (count - cut) as nat,
    ));
}

/// A bracketed list is the list between brackets, and nothing but the brackets
/// where there are no elements.
pub proof fn law_lists_stand_between_brackets(dims: Seq<usize>)
    ensures
        ({
            let text = bracketed(dims);
            &&& text.len() >= 2
            &&& text.first() == '['
            &&& text.last() == ']'
            &&& text.subrange(1, text.len() - 1) == joined(dims, dims.len())
            &&& dims.len() == 0 <==> text.len() == 2
        }),
{
    reveal_strlit("[");
    reveal_strlit("]");
    assert(bracketed(dims).subrange(1, bracketed(dims).len() - 1) =~= joined(dims, dims.len()));
    if dims.len() > 0 {
        law_decimals_read_back_as_their_number(dims[0] as nat);
        lemma_joined_is_not_empty(dims, dims.len());
    }
}

proof fn lemma_joined_is_not_empty(dims: Seq<usize>, count: nat)
    requires
        0 < count <= dims.len(),
    ensures
        joined(dims, count).len() > 0,
    decreases count,
{
    if count == 1 {
        law_decimals_read_back_as_their_number(dims[0] as nat);
    } else {
        lemma_joined_is_not_empty(dims, (count - 1) as nat);
    }
}

} // verus!
