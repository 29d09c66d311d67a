//! The wire a link session's packets cross. TCP is a stream, so the boundary between two
//! packets has to be ours: each goes out behind its length, two bytes, big endian. The socket
//! and the thread that reads it are the binary's.

use vstd::prelude::*;

verus! {

/// The longest packet a header can say.
pub const FRAME_MAX: usize = 0xffff;

/// A packet on the wire: its length, high byte first, then the packet.
pub open spec fn framed(p: Seq<u8>) -> Seq<u8> {
    seq![(p.len() / 256) as u8, (p.len() % 256) as u8] + p
}

/// The length a header says.
pub open spec fn said(header: [u8; 2]) -> nat {
    header@[0] as nat * 256 + header@[1] as nat
}

/// A packet ready for the wire, or `None` for one longer than a header can say. GBA serial
/// hardware cannot produce one, so refusing it is better than truncating it.
pub fn frame(buf: &[u8]) -> (r: Option<Vec<u8>>)
    ensures
        r is Some <==> buf@.len() <= FRAME_MAX,
        r matches Some(v) ==> v@ == framed(buf@),
{
    let len = buf.len();
    if len > FRAME_MAX {
        return None;
    }
    let mut out: Vec<u8> = Vec::new();
    out.push((len / 256) as u8);
    out.push((len % 256) as u8);
    let mut i: usize = 0;
    while i < len
        invariant
            len == buf@.len(),
            len <= FRAME_MAX,
            i <= len,
            out@ == seq![(len / 256) as u8, (len % 256) as u8] + buf@.subrange(0, i as int),
        decreases len - i,
    {
        out.push(buf[i]);
        i += 1;
        assert(out@ =~= seq![(len / 256) as u8, (len % 256) as u8] + buf@.subrange(0, i as int));
    }
    assert(buf@.subrange(0, len as int) =~= buf@);
    Some(out)
}

/// How many bytes of packet follow a header.
pub fn frame_len(header: [u8; 2]) -> (r: usize)
    ensures
        r == said(header),
        r <= FRAME_MAX,
{
    (header[0] as usize) * 256 + header[1] as usize
}

/// What one end frames the other reads back whole: the header says exactly the packet that
/// follows it.
pub proof fn law_a_frame_reads_back(p: Seq<u8>)
    requires
        p.len() <= FRAME_MAX,
    ensures
        said([framed(p)[0], framed(p)[1]]) == p.len(),
        framed(p).subrange(2, framed(p).len() as int) == p,
{
    assert(framed(p).subrange(2, framed(p).len() as int) =~= p);
    assert([framed(p)[0], framed(p)[1]]@ =~= seq![framed(p)[0], framed(p)[1]]);
}

} // verus!
