use vstd::prelude::*;

verus! {

/// `s` with every `/` replaced by `_`.
pub open spec fn slashes_replaced(s: Seq<char>) -> Seq<char> {
    Seq::new(s.len(), |i: int| if s[i] == '/' { '_' } else { s[i] })
}

/// The ASCII digit for `d`, below ten.
pub open spec fn digit_char(d: nat) -> char {
    (('0' as u8) + (d % 10) as u8) as char
}

/// The decimal digits of `n`, most significant first, without leading zeros.
pub open spec fn decimal_of(n: nat) -> Seq<char>
    decreases n,
{
    if n < 10 {
        seq![digit_char(n)]
    } else {
        decimal_of(n / 10).push(digit_char(n % 10))
    }
}

/// Whether the two strings hold the same characters.
pub fn same_text(a: &str, b: &str) -> (r: bool)
    ensures
        r == (a@ == b@),
{
    let n = a.unicode_len();
    if n != b.unicode_len() {
        return false;
    }
    let mut i: usize = 0;
    while i < n
        invariant
            n == a@.len(),
            n == b@.len(),
            i <= n,
            a@.subrange(0, i as int) == b@.subrange(0, i as int),
        decreases n - i,
    {
        if a.get_char(i) != b.get_char(i) {
            return false;
        }
        assert(a@.subrange(0, i + 1) == a@.subrange(0, i as int).push(a@[i as int]));
        assert(b@.subrange(0, i + 1) == b@.subrange(0, i as int).push(b@[i as int]));
        i = i + 1;
    }
    assert(a@ == a@.subrange(0, n as int));
    assert(b@ == b@.subrange(0, n as int));
    true
}

/// Appends the character of `s` at position `i` to `out`.
pub fn push_char_of(out: &mut String, s: &str, i: usize)
    requires
        i < s@.len() <= usize::MAX,
    ensures
        final(out)@ == old(out)@.push(s@[i as int]),
{
    let one = s.substring_char(i, i + 1);
    out.append(one);
    assert(one@ == seq![s@[i as int]]);
}

/// `s` with every `/` replaced by `_`, so that ratio text can stand in a path.
pub fn replace_slashes(s: &str) -> (r: String)
    ensures
        r@ == slashes_replaced(s@),
{
    let n = s.unicode_len();
    let mut out = String::new();
    let mut i: usize = 0;
    while i < n
        invariant
            n == s@.len(),
            i <= n,
            out@ == slashes_replaced(s@.subrange(0, i as int)),
        decreases n - i,
    {
        if s.get_char(i) == '/' {
            out.append("_");
            proof {
                reveal_strlit("_");
            }
        } else {
            push_char_of(&mut out, s, i);
        }
        assert(slashes_replaced(s@.subrange(0, i + 1)) == slashes_replaced(
            s@.subrange(0, i as int),
        ).push(if s@[i as int] == '/' { '_' } else { s@[i as int] }));
        i = i + 1;
    }
    assert(s@.subrange(0, n as int) == s@);
    out
}

/// The decimal digits of `n`.
pub fn decimal(n: u32) -> (r: String)
    ensures
        r@ == decimal_of(n as nat),
    decreases n,
{
    let digits = "0123456789";
    proof {
        reveal_strlit("0123456789");
    }
    let d = (n % 10) as usize;
    let mut out = if n < 10 {
        String::new()
    } else {
        decimal(n / 10)
    };
    push_char_of(&mut out, digits, d);
    assert(digits@[d as int] == digit_char(d as nat));
    assert((n as nat) % 10 == d as nat);
    if n < 10 {
        assert(out@ == seq![digit_char(n as nat)]);
    }
    out
}

} // verus!
