//! The latency artifact. Each worker's record is flushed at termination to a
//! durable per-worker destination as one line per sample: the duration in
//! nanoseconds, written in decimal, in the order recorded. The bytes of that
//! artifact are built here; only the write itself is left to the caller.

use vstd::prelude::*;

verus! {

/// The decimal digits of `n`, most significant first, as ASCII bytes.
pub open spec fn dec_digits(n: nat) -> Seq<u8>
    decreases n,
{
    if n < 10 {
        seq![(48 + n) as u8]
    } else {
        dec_digits(n / 10).push((48 + n % 10) as u8)
    }
}

/// The whole artifact for a sample sequence: each sample's digits followed by
/// a line feed, in the order recorded.
pub open spec fn latency_lines(samples: Seq<u64>) -> Seq<u8>
    decreases samples.len(),
{
    if samples.len() == 0 {
        Seq::empty()
    } else {
        latency_lines(samples.drop_last()) + dec_digits(samples.last() as nat) + seq![10u8]
    }
}

/// Append the decimal digits of `n` to `out`, most significant first.
fn push_digits(n: u64, out: &mut Vec<u8>)
    ensures
        final(out)@ == old(out)@ + dec_digits(n as nat),
    decreases n,
{
    if n < 10 {
        out.push(48 + (n as u8));
        proof {
            assert(out@ =~= old(out)@ + dec_digits(n as nat));
        }
    } else {
        push_digits(n / 10, out);
        out.push(48 + ((n % 10) as u8));
        proof {
            assert(out@ =~= old(out)@ + dec_digits(n as nat));
        }
    }
}

proof fn lemma_latency_lines_take_succ(samples: Seq<u64>, i: int)
    requires
        0 <= i < samples.len(),
    ensures
        latency_lines(samples.take(i + 1)) == latency_lines(samples.take(i)) + dec_digits(
            samples[i] as nat,
        ) + seq![10u8],
{
    assert(samples.take(i + 1).drop_last() =~= samples.take(i));
    assert(samples.take(i + 1).last() == samples[i]);
}

/// Render a worker's latency record as the bytes of its artifact: one decimal
/// line per sample, in the order recorded.
pub fn render_latency_lines(samples: &Vec<u64>) -> (r: Vec<u8>)
    ensures
        r@ == latency_lines(samples@),
{
    let mut out: Vec<u8> = Vec::new();
    let mut i: usize = 0;
    while i < samples.len()
        invariant
            i <= samples@.len(),
            out@ == latency_lines(samples@.take(i as int)),
        decreases samples@.len() - i,
    {
        proof {
            lemma_latency_lines_take_succ(samples@, i as int);
        }
        push_digits(samples[i], &mut out);
        out.push(10);
        i = i + 1;
    }
    proof {
        assert(samples@.take(samples@.len() as int) =~= samples@);
    }
    out
}

} // verus!
