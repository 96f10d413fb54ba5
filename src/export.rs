use vstd::prelude::*;

verus! {

/// The four bytes of `x`, least significant first.
pub open spec fn le_bytes(x: u32) -> Seq<u8> {
    seq![
        (x & 0xff) as u8,
        ((x >> 8) & 0xff) as u8,
        ((x >> 16) & 0xff) as u8,
        ((x >> 24) & 0xff) as u8,
    ]
}

/// The binary image of a block of I/Q samples, each given as the bit
/// patterns of its in-phase and quadrature parts as 32-bit floats: eight
/// bytes per sample, the in-phase part first, each little-endian.
pub open spec fn iq_frame(samples: Seq<(u32, u32)>) -> Seq<u8>
    decreases samples.len(),
{
    if samples.len() == 0 {
        Seq::empty()
    } else {
        iq_frame(samples.drop_last()) + le_bytes(samples.last().0) + le_bytes(samples.last().1)
    }
}

/// Each sample takes exactly eight bytes of the image.
pub proof fn lemma_iq_frame_len(samples: Seq<(u32, u32)>)
    ensures
        iq_frame(samples).len() == 8 * samples.len(),
    decreases samples.len(),
{
    if samples.len() > 0 {
        lemma_iq_frame_len(samples.drop_last());
    }
}

/// Appends the little-endian bytes of `x`.
fn push_le_u32(out: &mut Vec<u8>, x: u32)
    ensures
        final(out)@ == old(out)@ + le_bytes(x),
{
    out.push((x & 0xff) as u8);
    out.push(((x >> 8) & 0xff) as u8);
    out.push(((x >> 16) & 0xff) as u8);
    out.push(((x >> 24) & 0xff) as u8);
    assert(final(out)@ =~= old(out)@ + le_bytes(x));
}

/// Lays out a block of samples, given as the bit patterns of their parts as
/// 32-bit floats, as the flat little-endian binary export format.
pub fn frame_iq_le(samples: &Vec<(u32, u32)>) -> (r: Vec<u8>)
    ensures
        r@ == iq_frame(samples@),
        r@.len() == 8 * samples@.len(),
{
    let mut out: Vec<u8> = Vec::new();
    let mut i: usize = 0;
    while i < samples.len()
        invariant
            i <= samples@.len(),
            out@ == iq_frame(samples@.subrange(0, i as int)),
        decreases samples@.len() - i,
    {
        let (re, im) = samples[i];
        push_le_u32(&mut out, re);
        push_le_u32(&mut out, im);
        proof {
            let next = samples@.subrange(0, i + 1);
            assert(next.drop_last() =~= samples@.subrange(0, i as int));
            assert(next.last() == samples@[i as int]);
        }
        i = i + 1;
    }
    assert(samples@.subrange(0, samples@.len() as int) =~= samples@);
    proof {
        lemma_iq_frame_len(samples@);
    }
    out
}

} // verus!
