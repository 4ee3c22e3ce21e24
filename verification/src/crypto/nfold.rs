//! The n-fold function: it stretches or shrinks a string of bytes to a given
//! length so that every bit of the input bears on the output.

use vstd::prelude::*;

verus! {

/// Longest input and longest output that `nfold` takes.
pub const NFOLD_MAX_LEN: usize = 1024;

/// The greatest common divisor.
pub open spec fn spec_gcd(a: nat, b: nat) -> nat
    decreases b,
{
    if b == 0 {
        a
    } else {
        spec_gcd(b, a % b)
    }
}

/// The number of bytes after which copies of `a` bytes and pieces of `b` bytes
/// end together.
pub open spec fn spec_fold_span(a: nat, b: nat) -> nat {
    if spec_gcd(a, b) == 0 {
        0
    } else {
        (a / spec_gcd(a, b)) * b
    }
}

/// Two to the power of `shift`, for the shifts that take a byte out of two.
pub open spec fn spec_shift_divisor(shift: nat) -> nat {
    if shift == 1 {
        2
    } else if shift == 2 {
        4
    } else if shift == 3 {
        8
    } else if shift == 4 {
        16
    } else if shift == 5 {
        32
    } else if shift == 6 {
        64
    } else if shift == 7 {
        128
    } else {
        256
    }
}

/// Byte `i` of the endless string that the input is folded from: the input,
/// then the input rotated right by 13 bits, then by 26 bits, and so on.
pub open spec fn spec_stream_byte(input: Seq<u8>, i: nat) -> nat
    recommends
        input.len() > 0,
{
    let len = input.len() as int;
    let at = i as int;
    let bit = ((len * 8 - 1) + (len * 8 + 13) * (at / len) + (len - at % len) * 8) % (len * 8);
    let high = input[(len - 1 - bit / 8) % len] as int;
    let low = input[(len - bit / 8) % len] as int;
    (((high * 256 + low) / (spec_shift_divisor((bit % 8 + 1) as nat) as int)) % 256) as nat
}

/// For each of the `out_len` columns, the sum of the first `count` bytes of the
/// stream that fall into it.
pub open spec fn spec_column_sums(input: Seq<u8>, out_len: nat, count: nat) -> Seq<nat>
    decreases count,
{
    if count == 0 {
        Seq::new(out_len, |i: int| 0nat)
    } else {
        let before = spec_column_sums(input, out_len, (count - 1) as nat);
        let column = (count - 1) % (out_len as int);
        before.update(column, before[column] + spec_stream_byte(input, (count - 1) as nat))
    }
}

/// Adds `carry` into the last column and carries on to the left: the digits
/// that result, and the carry that leaves the first column.
pub open spec fn spec_carry(sums: Seq<nat>, carry: nat) -> (Seq<u8>, nat)
    decreases sums.len(),
{
    if sums.len() == 0 {
        (Seq::empty(), carry)
    } else {
        let total = sums.last() + carry;
        let (front, out) = spec_carry(sums.drop_last(), total / 256);
        (front.push((total % 256) as u8), out)
    }
}

/// The digits as numbers.
pub open spec fn spec_widen(digits: Seq<u8>) -> Seq<nat> {
    Seq::new(digits.len(), |i: int| digits[i] as nat)
}

/// The input folded to `out_len` bytes: the stream is cut into pieces of
/// `out_len` bytes up to the point where a copy of the input and a piece end
/// together, and the pieces are added as numbers in ones' complement, that is,
/// a carry out of the first byte is added in again at the last.
pub open spec fn spec_nfold(input: Seq<u8>, out_len: nat) -> Seq<u8> {
    let span = spec_fold_span(input.len(), out_len);
    let (first, carry1) = spec_carry(spec_column_sums(input, out_len, span), 0);
    let (second, carry2) = spec_carry(spec_widen(first), carry1);
    let (third, carry3) = spec_carry(spec_widen(second), carry2);
    third
}

/// The digits that carrying leaves are as many as the columns.
proof fn lemma_carry_len(sums: Seq<nat>, carry: nat)
    ensures
        spec_carry(sums, carry).0.len() == sums.len(),
    decreases sums.len(),
{
    if sums.len() > 0 {
        lemma_carry_len(sums.drop_last(), (sums.last() + carry) / 256);
    }
}

/// The column sums are as many as the columns, and none exceeds 255 for each
/// byte added.
proof fn lemma_column_sums_bound(input: Seq<u8>, out_len: nat, count: nat)
    requires
        input.len() > 0,
        out_len > 0,
    ensures
        spec_column_sums(input, out_len, count).len() == out_len,
        forall|c: int|
            0 <= c < out_len ==> #[trigger] spec_column_sums(input, out_len, count)[c] <= 255
                * count,
    decreases count,
{
    if count > 0 {
        lemma_column_sums_bound(input, out_len, (count - 1) as nat);
    }
}

/// The greatest common divisor of a positive number and any other is
/// positive and divides the first.
proof fn lemma_gcd_divides(a: nat, b: nat)
    requires
        a > 0 || b > 0,
    ensures
        spec_gcd(a, b) > 0,
        a % spec_gcd(a, b) == 0,
        b % spec_gcd(a, b) == 0,
        spec_gcd(a, b) <= a || a == 0,
    decreases b,
{
    if b != 0 {
        lemma_gcd_divides(b, a % b);
        let g = spec_gcd(b, a % b);
        // a = (a / b) * b + a % b, and g divides both b and a % b
        let q = a / b;
        let r = a % b;
        assert(a == q * b + r) by (nonlinear_arith)
            requires
                b > 0,
                q == a / b,
                r == a % b,
        ;
        let kb = b / g;
        let kr = r / g;
        assert(b == kb * g && r == kr * g) by (nonlinear_arith)
            requires
                g > 0,
                b % g == 0,
                r % g == 0,
                kb == b / g,
                kr == r / g,
        ;
        assert(a == (q * kb + kr) * g) by (nonlinear_arith)
            requires
                a == q * b + r,
                b == kb * g,
                r == kr * g,
        ;
        assert(a % g == 0) by (nonlinear_arith)
            requires
                g > 0,
                a == (q * kb + kr) * g,
        ;
        if a > 0 {
            assert(g <= a) by (nonlinear_arith)
                requires
                    g > 0,
                    a > 0,
                    a == (q * kb + kr) * g,
            ;
        }
    }
}

/// The greatest common divisor.
pub fn gcd(a: usize, b: usize) -> (g: usize)
    ensures
        g == spec_gcd(a as nat, b as nat),
{
    let mut x = a;
    let mut y = b;
    while y != 0
        invariant
            spec_gcd(x as nat, y as nat) == spec_gcd(a as nat, b as nat),
        decreases y,
    {
        let r = x % y;
        x = y;
        y = r;
    }
    x
}

/// Two to the power of `shift`.
fn shift_divisor(shift: usize) -> (d: usize)
    requires
        1 <= shift <= 8,
    ensures
        d == spec_shift_divisor(shift as nat),
        d > 0,
{
    if shift == 1 {
        2
    } else if shift == 2 {
        4
    } else if shift == 3 {
        8
    } else if shift == 4 {
        16
    } else if shift == 5 {
        32
    } else if shift == 6 {
        64
    } else if shift == 7 {
        128
    } else {
        256
    }
}

/// Byte `i` of the stream that the input is folded from.
fn stream_byte(input: &[u8], i: usize) -> (b: u32)
    requires
        0 < input.len() <= NFOLD_MAX_LEN,
        i < NFOLD_MAX_LEN * NFOLD_MAX_LEN,
    ensures
        b == spec_stream_byte(input@, i as nat),
        b <= 255,
{
    let len: u64 = input.len() as u64;
    let at: u64 = i as u64;
    let turn: u64 = at / len;
    let step: u64 = len * 8 + 13;
    assert(turn <= at);
    assert(step * turn <= 8205 * (1024 * 1024)) by (nonlinear_arith)
        requires
            step <= 8205,
            turn <= 1024 * 1024,
    ;
    let bit: u64 = ((len * 8 - 1) + step * turn + (len - at % len) * 8) % (len * 8);
    let high = input[((len - 1 - bit / 8) % len) as usize] as u64;
    let low = input[((len - bit / 8) % len) as usize] as u64;
    let d = shift_divisor((bit % 8 + 1) as usize) as u64;
    (((high * 256 + low) / d) % 256) as u32
}

/// Adds `carry` into the last column and carries on to the left.
fn carry_through(sums: &Vec<u32>, carry: u32) -> (r: (Vec<u8>, u32))
    requires
        forall|i: int| 0 <= i < sums.len() ==> #[trigger] sums@[i] <= 0x0fff_ffff,
        carry <= 0x0fff_ffff,
    ensures
        (r.0@, r.1 as nat) == spec_carry(Seq::new(sums@.len(), |i: int| sums@[i] as nat),
            carry as nat),
        r.0.len() == sums.len(),
        r.1 <= 0x0fff_ffff,
{
    let ghost wide = Seq::new(sums@.len(), |i: int| sums@[i] as nat);
    let n = sums.len();
    let mut digits: Vec<u8> = Vec::new();
    let mut k: usize = 0;
    while k < n
        invariant
            k <= n,
            n == sums.len(),
            digits.len() == k,
        decreases n - k,
    {
        digits.push(0u8);
        k = k + 1;
    }
    let mut pos: usize = n;
    let mut c: u32 = carry;
    assert(wide.take(n as int) =~= wide);
    while pos > 0
        invariant
            pos <= n,
            n == sums.len(),
            digits.len() == n,
            c <= 0x0fff_ffff,
            wide == Seq::new(sums@.len(), |i: int| sums@[i] as nat),
            forall|i: int| 0 <= i < sums.len() ==> #[trigger] sums@[i] <= 0x0fff_ffff,
            spec_carry(wide, carry as nat) == ({
                let (front, out) = spec_carry(wide.take(pos as int), c as nat);
                (front + digits@.subrange(pos as int, n as int), out)
            }),
        decreases pos,
    {
        let total: u32 = sums[pos - 1] + c;
        proof {
            let here = wide.take(pos as int);
            assert(here.last() == sums@[pos - 1] as nat);
            assert(here.drop_last() =~= wide.take(pos - 1));
            let (front, out) = spec_carry(wide.take(pos - 1), (total / 256) as nat);
            assert(spec_carry(here, c as nat) == (front.push((total % 256) as u8), out));
            assert(front.push((total % 256) as u8) + digits@.subrange(pos as int, n as int)
                =~= front + digits@.update(pos - 1, (total % 256) as u8).subrange(
                pos - 1,
                n as int,
            )) by {
                lemma_carry_len(wide.take(pos - 1), (total / 256) as nat);
            }
        }
        digits[pos - 1] = (total % 256) as u8;
        c = total / 256;
        pos = pos - 1;
    }
    proof {
        assert(wide.take(0) =~= Seq::<nat>::empty());
        assert(Seq::<u8>::empty() + digits@.subrange(0, n as int) =~= digits@);
    }
    (digits, c)
}

/// The digits as numbers.
fn widen(digits: &Vec<u8>) -> (wide: Vec<u32>)
    ensures
        wide.len() == digits.len(),
        Seq::new(wide@.len(), |i: int| wide@[i] as nat) == spec_widen(digits@),
        forall|i: int| 0 <= i < wide.len() ==> #[trigger] wide@[i] <= 255,
{
    let mut wide: Vec<u32> = Vec::new();
    let mut i: usize = 0;
    while i < digits.len()
        invariant
            i <= digits.len(),
            wide.len() == i,
            forall|j: int| 0 <= j < i ==> #[trigger] wide@[j] == digits@[j] as u32,
        decreases digits.len() - i,
    {
        wide.push(digits[i] as u32);
        i = i + 1;
    }
    assert(Seq::new(wide@.len(), |i: int| wide@[i] as nat) =~= spec_widen(digits@));
    wide
}

/// Folds `input` to `out_len` bytes, where both lengths are within bounds.
pub(crate) fn fold(input: &[u8], out_len: usize) -> (out: Vec<u8>)
    requires
        0 < input.len() <= NFOLD_MAX_LEN,
        0 < out_len <= NFOLD_MAX_LEN,
    ensures
        out@ == spec_nfold(input@, out_len as nat),
        out.len() == out_len,
{
    let len = input.len();
    let g = gcd(len, out_len);
    proof {
        lemma_gcd_divides(len as nat, out_len as nat);
    }
    let per = len / g;
    assert(per * out_len <= 1024 * 1024) by (nonlinear_arith)
        requires
            per <= 1024,
            out_len <= 1024,
    ;
    let span: usize = per * out_len;
    let mut sums: Vec<u32> = Vec::new();
    let mut k: usize = 0;
    while k < out_len
        invariant
            k <= out_len,
            sums.len() == k,
            forall|j: int| 0 <= j < k ==> #[trigger] sums@[j] == 0,
        decreases out_len - k,
    {
        sums.push(0u32);
        k = k + 1;
    }
    assert(Seq::new(sums@.len(), |i: int| sums@[i] as nat) =~= spec_column_sums(
        input@,
        out_len as nat,
        0,
    ));
    let mut i: usize = 0;
    while i < span
        invariant
            i <= span,
            span <= 1024 * 1024,
            0 < input.len() <= NFOLD_MAX_LEN,
            0 < out_len <= NFOLD_MAX_LEN,
            sums.len() == out_len,
            Seq::new(sums@.len(), |j: int| sums@[j] as nat) == spec_column_sums(
                input@,
                out_len as nat,
                i as nat,
            ),
        decreases span - i,
    {
        let b = stream_byte(input, i);
        let column = i % out_len;
        proof {
            lemma_column_sums_bound(input@, out_len as nat, i as nat);
            let before = spec_column_sums(input@, out_len as nat, i as nat);
            assert(before[column as int] == sums@[column as int] as nat);
            assert(before[column as int] <= 255 * i);
        }
        let ghost old_sums = sums@;
        let sum: u32 = sums[column] + b;
        sums[column] = sum;
        proof {
            let before = spec_column_sums(input@, out_len as nat, i as nat);
            assert(Seq::new(sums@.len(), |j: int| sums@[j] as nat) =~= before.update(
                column as int,
                before[column as int] + spec_stream_byte(input@, i as nat),
            )) by {
                assert forall|j: int| 0 <= j < out_len implies (#[trigger] sums@[j]) as nat
                    == before.update(
                    column as int,
                    before[column as int] + spec_stream_byte(input@, i as nat),
                )[j] by {
                    if j != column {
                        assert(sums@[j] == old_sums[j]);
                        assert(before[j] == old_sums[j] as nat);
                    }
                }
            }
        }
        i = i + 1;
    }
    proof {
        lemma_column_sums_bound(input@, out_len as nat, span as nat);
        let all = spec_column_sums(input@, out_len as nat, span as nat);
        assert forall|j: int| 0 <= j < sums.len() implies #[trigger] sums@[j] <= 0x0fff_ffff by {
            assert(all[j] == sums@[j] as nat);
        }
    }
    let (first, carry1) = carry_through(&sums, 0);
    let wide1 = widen(&first);
    let (second, carry2) = carry_through(&wide1, carry1);
    let wide2 = widen(&second);
    let (third, carry3) = carry_through(&wide2, carry2);
    third
}

/// Folds `input` to `out_len` bytes. There is nothing to fold where a length
/// is zero, and lengths over `NFOLD_MAX_LEN` are not taken.
pub fn nfold(input: &[u8], out_len: usize) -> (out: Option<Vec<u8>>)
    ensures
        match out {
            Some(folded) => {
                &&& 0 < input.len() <= NFOLD_MAX_LEN
                &&& 0 < out_len <= NFOLD_MAX_LEN
                &&& folded@ == spec_nfold(input@, out_len as nat)
                &&& folded.len() == out_len
            },
            None => input.len() == 0 || input.len() > NFOLD_MAX_LEN || out_len == 0 || out_len
                > NFOLD_MAX_LEN,
        },
{
    if input.len() == 0 || input.len() > NFOLD_MAX_LEN || out_len == 0 || out_len
        > NFOLD_MAX_LEN {
        None
    } else {
        Some(fold(input, out_len))
    }
}

} // verus!
