use vstd::prelude::*;

verus! {

/// The eight bytes of `w`, least significant first.
pub open spec fn word_le_bytes(w: u64) -> Seq<u8> {
    seq![
        w as u8,
        (w >> 8) as u8,
        (w >> 16) as u8,
        (w >> 24) as u8,
        (w >> 32) as u8,
        (w >> 40) as u8,
        (w >> 48) as u8,
        (w >> 56) as u8,
    ]
}

/// The words of `ws` expanded to bytes, each least significant byte first.
pub open spec fn words_le_bytes(ws: Seq<u64>) -> Seq<u8>
    decreases ws.len(),
{
    if ws.len() == 0 {
        Seq::empty()
    } else {
        words_le_bytes(ws.drop_last()) + word_le_bytes(ws.last())
    }
}

/// Appends the bytes of `w` to `out`, least significant first.
pub fn push_word_le(out: &mut Vec<u8>, w: u64)
    ensures
        final(out)@ == old(out)@ + word_le_bytes(w),
{
    out.push(w as u8);
    out.push((w >> 8) as u8);
    out.push((w >> 16) as u8);
    out.push((w >> 24) as u8);
    out.push((w >> 32) as u8);
    out.push((w >> 40) as u8);
    out.push((w >> 48) as u8);
    out.push((w >> 56) as u8);
    assert(final(out)@ =~= old(out)@ + word_le_bytes(w));
}

/// The words of `ws` from index `from` on, expanded to little-endian bytes.
pub fn words_to_le_bytes(ws: &[u64], from: usize) -> (r: Vec<u8>)
    requires
        from <= ws@.len(),
    ensures
        r@ == words_le_bytes(ws@.subrange(from as int, ws@.len() as int)),
{
    let mut out: Vec<u8> = Vec::new();
    let mut i: usize = from;
    while i < ws.len()
        invariant
            from <= i <= ws@.len(),
            out@ == words_le_bytes(ws@.subrange(from as int, i as int)),
        decreases ws@.len() - i,
    {
        push_word_le(&mut out, ws[i]);
        proof {
            let s = ws@.subrange(from as int, i + 1);
            assert(s.drop_last() =~= ws@.subrange(from as int, i as int));
        }
        i = i + 1;
    }
    out
}

} // verus!
