//! The fallback path for legacy vector markup: preparing the text handed to the
//! external rasterizer, naming its scratch files, and caching its output.
use vstd::prelude::*;

use crate::pixels::Rgba;

verus! {

/// The token of legacy markup that stands for the foreground colour.
pub open spec fn opaque_token() -> Seq<u8> {
    seq![111u8, 112u8, 97u8, 113u8, 117u8, 101u8]
}

/// Upper-case hexadecimal digit of `d < 16`.
pub open spec fn hex_digit(d: nat) -> u8 {
    if d < 10 { (48 + d) as u8 } else { (55 + d) as u8 }
}

/// The two upper-case hexadecimal digits of a byte, high digit first.
pub open spec fn hex_byte(v: u8) -> Seq<u8> {
    seq![hex_digit((v / 16) as nat), hex_digit((v % 16) as nat)]
}

/// `#RRGGBB`: the colour's red, green and blue as two hexadecimal digits each.
pub open spec fn color_hex(c: Rgba) -> Seq<u8> {
    seq![35u8] + hex_byte(c.r) + hex_byte(c.g) + hex_byte(c.b)
}

/// `s` with each occurrence of `pat`, found left to right without overlap, replaced by `rep`.
pub open spec fn replace_all(s: Seq<u8>, pat: Seq<u8>, rep: Seq<u8>) -> Seq<u8>
    decreases s.len(),
{
    if s.len() == 0 {
        seq![]
    } else if 0 < pat.len() <= s.len() && s.subrange(0, pat.len() as int) == pat {
        rep + replace_all(s.subrange(pat.len() as int, s.len() as int), pat, rep)
    } else {
        seq![s[0]] + replace_all(s.subrange(1, s.len() as int), pat, rep)
    }
}

/// Decimal digits of `n`.
pub open spec fn dec_of(n: nat) -> Seq<u8>
    decreases n,
{
    if n < 10 { seq![(48 + n) as u8] } else { dec_of(n / 10).push((48 + n % 10) as u8) }
}

/// Decimal digits of `n`, left-padded with zeros to at least four digits.
pub open spec fn dec4_of(n: nat) -> Seq<u8> {
    if dec_of(n).len() < 4 {
        Seq::new((4 - dec_of(n).len()) as nat, |k: int| 48u8) + dec_of(n)
    } else {
        dec_of(n)
    }
}

/// The scratch file name `img-NNNN.<suffix>` of attempt `i`.
pub open spec fn scratch_name(i: nat, suffix: Seq<u8>) -> Seq<u8> {
    seq![105u8, 109u8, 103u8, 45u8] + dec4_of(i) + seq![46u8] + suffix
}

fn push_hex(out: &mut Vec<u8>, v: u8)
    ensures
        final(out)@ == old(out)@ + hex_byte(v),
{
    let hi = v / 16;
    out.push(if hi < 10 { 48 + hi } else { 55 + hi });
    let lo = v % 16;
    out.push(if lo < 10 { 48 + lo } else { 55 + lo });
    assert(final(out)@ =~= old(out)@ + hex_byte(v));
}

/// The colour written as `#RRGGBB` in upper-case hexadecimal, alpha left out.
pub fn color_hex_string(c: Rgba) -> (r: Vec<u8>)
    ensures
        r@ == color_hex(c),
{
    let mut out: Vec<u8> = Vec::new();
    out.push(35u8);
    push_hex(&mut out, c.r);
    push_hex(&mut out, c.g);
    push_hex(&mut out, c.b);
    assert(out@ =~= color_hex(c));
    out
}

/// Whether `pat` occurs in `s` at byte `i`.
fn occurs_at(s: &Vec<u8>, i: usize, pat: &Vec<u8>) -> (r: bool)
    requires
        i <= s@.len(),
    ensures
        r == (pat@.len() <= s@.len() - i && s@.subrange(i as int, i + pat@.len()) == pat@),
{
    if pat.len() > s.len() - i {
        return false;
    }
    let mut k: usize = 0;
    while k < pat.len()
        invariant
            k <= pat@.len(),
            pat@.len() <= s@.len() - i,
            s@.len() <= usize::MAX,
            forall|j: int| 0 <= j < k ==> s@[i + j] == pat@[j],
        decreases pat@.len() - k,
    {
        if s[i + k] != pat[k] {
            assert(s@.subrange(i as int, i + pat@.len())[k as int] != pat@[k as int]);
            return false;
        }
        k += 1;
    }
    assert(s@.subrange(i as int, i + pat@.len()) =~= pat@);
    true
}

/// `s` with every occurrence of `pat` (non-empty) replaced by `rep`, left to right.
pub fn replace_bytes(s: &Vec<u8>, pat: &Vec<u8>, rep: &Vec<u8>) -> (r: Vec<u8>)
    requires
        pat@.len() > 0,
    ensures
        r@ == replace_all(s@, pat@, rep@),
{
    let mut out: Vec<u8> = Vec::new();
    let mut i: usize = 0;
    assert(out@ + replace_all(s@.subrange(0, s@.len() as int), pat@, rep@) =~= replace_all(s@, pat@, rep@)) by {
        assert(s@.subrange(0, s@.len() as int) =~= s@);
    }
    while i < s.len()
        invariant
            i <= s@.len(),
            pat@.len() > 0,
            out@ + replace_all(s@.subrange(i as int, s@.len() as int), pat@, rep@) == replace_all(s@, pat@, rep@),
        decreases s@.len() - i,
    {
        let ghost rest = s@.subrange(i as int, s@.len() as int);
        if occurs_at(s, i, pat) {
            assert(rest.subrange(0, pat@.len() as int) =~= s@.subrange(i as int, i + pat@.len()));
            assert(rest.subrange(pat@.len() as int, rest.len() as int) =~= s@.subrange(i + pat@.len(), s@.len() as int));
            let mut k: usize = 0;
            let ghost start = out@;
            while k < rep.len()
                invariant
                    k <= rep@.len(),
                    out@ == start + rep@.subrange(0, k as int),
                decreases rep@.len() - k,
            {
                out.push(rep[k]);
                assert(out@ =~= start + rep@.subrange(0, k + 1));
                k += 1;
            }
            assert(rep@.subrange(0, rep@.len() as int) =~= rep@);
            assert(start + replace_all(rest, pat@, rep@) =~= out@ + replace_all(s@.subrange(i + pat@.len(), s@.len() as int), pat@, rep@));
            i = i + pat.len();
        } else {
            proof {
                if 0 < pat@.len() <= rest.len() {
                    assert(rest.subrange(0, pat@.len() as int) =~= s@.subrange(i as int, i + pat@.len()));
                }
            }
            assert(rest.subrange(1, rest.len() as int) =~= s@.subrange(i + 1, s@.len() as int));
            let ghost start = out@;
            out.push(s[i]);
            assert(start + replace_all(rest, pat@, rep@) =~= out@ + replace_all(s@.subrange(i + 1, s@.len() as int), pat@, rep@));
            i = i + 1;
        }
    }
    assert(out@ =~= out@ + replace_all(s@.subrange(i as int, s@.len() as int), pat@, rep@));
    out
}

/// The markup handed to the rasterizer: every `opaque` token of `data` replaced by
/// the foreground colour in hexadecimal.
pub fn prepare_raster_input(data: &Vec<u8>, foreground: Rgba) -> (r: Vec<u8>)
    ensures
        r@ == replace_all(data@, opaque_token(), color_hex(foreground)),
{
    let token: Vec<u8> = vec![111u8, 112u8, 97u8, 113u8, 117u8, 101u8];
    assert(token@ =~= opaque_token());
    let hex = color_hex_string(foreground);
    replace_bytes(data, &token, &hex)
}

fn push_dec(out: &mut Vec<u8>, n: u32)
    ensures
        final(out)@ == old(out)@ + dec_of(n as nat),
    decreases n,
{
    if n >= 10 {
        push_dec(out, n / 10);
    }
    out.push(48 + (n % 10) as u8);
    assert(final(out)@ =~= old(out)@ + dec_of(n as nat));
}

proof fn lemma_dec_len(n: nat)
    ensures
        n < 10 ==> dec_of(n).len() == 1,
        10 <= n < 100 ==> dec_of(n).len() == 2,
        100 <= n < 1000 ==> dec_of(n).len() == 3,
        1000 <= n ==> dec_of(n).len() >= 4,
    decreases n,
{
    if n >= 10 {
        lemma_dec_len(n / 10);
    }
}

/// The name of scratch file `i`: `img-`, `i` in at least four decimal digits, `.`,
/// and `suffix`.
pub fn scratch_file_name(i: u32, suffix: &Vec<u8>) -> (r: Vec<u8>)
    ensures
        r@ == scratch_name(i as nat, suffix@),
{
    let mut out: Vec<u8> = vec![105u8, 109u8, 103u8, 45u8];
    proof {
        lemma_dec_len(i as nat);
    }
    let ghost head = out@;
    let zeros: usize = if i < 10 { 3 } else if i < 100 { 2 } else if i < 1000 { 1 } else { 0 };
    let mut k: usize = 0;
    while k < zeros
        invariant
            k <= zeros,
            out@ == head + Seq::new(k as nat, |j: int| 48u8),
        decreases zeros - k,
    {
        out.push(48u8);
        assert(out@ =~= head + Seq::new((k + 1) as nat, |j: int| 48u8));
        k += 1;
    }
    push_dec(&mut out, i);
    assert(out@ =~= head + dec4_of(i as nat));
    out.push(46u8);
    let mut m: usize = 0;
    let ghost dotted = out@;
    while m < suffix.len()
        invariant
            m <= suffix@.len(),
            out@ == dotted + suffix@.subrange(0, m as int),
        decreases suffix@.len() - m,
    {
        out.push(suffix[m]);
        assert(out@ =~= dotted + suffix@.subrange(0, m + 1));
        m += 1;
    }
    assert(out@ =~= scratch_name(i as nat, suffix@));
    out
}

} // verus!
