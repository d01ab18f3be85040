use vstd::prelude::*;

verus! {

/// ASCII decimal digits of `n`, most significant first, no leading zeros
/// (a lone `0` for zero itself).
pub open spec fn decimal_digits(n: nat) -> Seq<u8>
    decreases n,
{
    if n < 10 {
        seq![(48 + n) as u8]
    } else {
        decimal_digits(n / 10).push((48 + n % 10) as u8)
    }
}

/// Appends the decimal digits of `n` to `out`, most significant first.
fn push_decimal(n: u32, out: &mut Vec<u8>)
    ensures
        final(out)@ == old(out)@ + decimal_digits(n as nat),
    decreases n,
{
    if n >= 10 {
        push_decimal(n / 10, out);
    }
    let d: u8 = 48 + (n % 10) as u8;
    out.push(d);
    proof {
        assert(out@ =~= old(out)@ + decimal_digits(n as nat));
    }
}

/// The bytes of the pidfile: the wrapper's process id in ASCII decimal.
pub fn pid_file_bytes(pid: u32) -> (r: Vec<u8>)
    ensures
        r@ == decimal_digits(pid as nat),
{
    let mut out: Vec<u8> = Vec::new();
    push_decimal(pid, &mut out);
    out
}

} // verus!
