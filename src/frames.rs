//! Extraction of server-sent frames from a byte stream that arrives in
//! arbitrary chunks. A frame ends at a blank line (two newlines); a frame
//! that starts with `data: ` carries the rest of it as its payload.
use vstd::prelude::*;

verus! {

/// The first index at or after `k` where two newlines start.
pub open spec fn boundary_from(s: Seq<u8>, k: nat) -> Option<nat>
    decreases s.len() - k,
{
    if k + 2 > s.len() {
        None
    } else if s[k as int] == 10u8 && s[k + 1int] == 10u8 {
        Some(k)
    } else {
        boundary_from(s, k + 1)
    }
}

/// A boundary found from `k` lies at or after `k` and leaves room for both
/// newlines.
pub proof fn lemma_boundary_in_range(s: Seq<u8>, k: nat)
    ensures
        boundary_from(s, k) matches Some(i) ==> k <= i && i + 2 <= s.len(),
    decreases s.len() - k,
{
    if k + 2 <= s.len() && !(s[k as int] == 10u8 && s[k + 1int] == 10u8) {
        lemma_boundary_in_range(s, k + 1);
    }
}

/// The prefix that marks a data frame: `data: `.
pub open spec fn data_prefix() -> Seq<u8> {
    seq![100u8, 97u8, 116u8, 97u8, 58u8, 32u8]
}

/// The payload of a frame, when it is a data frame.
pub open spec fn payload_of(m: Seq<u8>) -> Option<Seq<u8>> {
    if m.len() >= 6 && m.subrange(0, 6) == data_prefix() {
        Some(m.subrange(6, m.len() as int))
    } else {
        None
    }
}

/// The payloads of the complete data frames in `s`, in order.
pub open spec fn payloads(s: Seq<u8>) -> Seq<Seq<u8>>
    decreases s.len(),
{
    match boundary_from(s, 0) {
        Some(i) => if i + 2 <= s.len() {
            let rest = payloads(s.subrange(i + 2int, s.len() as int));
            match payload_of(s.subrange(0, i as int)) {
                Some(p) => seq![p] + rest,
                None => rest,
            }
        } else {
            Seq::empty()
        },
        None => Seq::empty(),
    }
}

/// What stays of `s` once every complete frame was taken out.
pub open spec fn remainder(s: Seq<u8>) -> Seq<u8>
    decreases s.len(),
{
    match boundary_from(s, 0) {
        Some(i) => if i + 2 <= s.len() {
            remainder(s.subrange(i + 2int, s.len() as int))
        } else {
            s
        },
        None => s,
    }
}

/// A boundary found in `s` is found at the same place once more bytes follow.
pub proof fn lemma_boundary_kept(s: Seq<u8>, t: Seq<u8>, k: nat)
    ensures
        boundary_from(s, k) matches Some(i) ==> boundary_from(s + t, k) == Some(i),
    decreases s.len() - k,
{
    if k + 2 <= s.len() {
        assert((s + t)[k as int] == s[k as int]);
        assert((s + t)[k + 1int] == s[k + 1int]);
        if !(s[k as int] == 10u8 && s[k + 1int] == 10u8) {
            lemma_boundary_kept(s, t, k + 1);
        }
    }
}

/// Framing does not depend on how the stream is cut into chunks: the frames
/// of `s` followed by `t` are the frames of `s`, then those of what `s` left
/// over followed by `t`; and the same bytes stay over either way.
pub proof fn lemma_chunking_irrelevant(s: Seq<u8>, t: Seq<u8>)
    ensures
        payloads(s + t) == payloads(s) + payloads(remainder(s) + t),
        remainder(s + t) == remainder(remainder(s) + t),
    decreases s.len(),
{
    lemma_boundary_in_range(s, 0);
    lemma_boundary_kept(s, t, 0);
    match boundary_from(s, 0) {
        Some(i) => {
            let rest = s.subrange(i + 2int, s.len() as int);
            lemma_chunking_irrelevant(rest, t);
            lemma_boundary_in_range(s + t, 0);
            assert((s + t).subrange(i + 2int, (s + t).len() as int) =~= rest + t);
            assert((s + t).subrange(0, i as int) =~= s.subrange(0, i as int));
            match payload_of(s.subrange(0, i as int)) {
                Some(p) => {
                    assert(seq![p] + (payloads(rest) + payloads(remainder(rest) + t)) =~= seq![p]
                        + payloads(rest) + payloads(remainder(rest) + t));
                },
                None => {},
            }
        },
        None => {
            assert(Seq::<Seq<u8>>::empty() + payloads(s + t) =~= payloads(s + t));
        },
    }
}

pub open spec fn views(v: Seq<Vec<u8>>) -> Seq<Seq<u8>> {
    v.map_values(|x: Vec<u8>| x@)
}

/// Bytes received but not yet split into frames.
pub struct FrameBuffer {
    pub pending: Vec<u8>,
}

/// The payload of a data frame, or `None` for a frame of another kind.
pub fn data_payload(m: &[u8]) -> (r: Option<Vec<u8>>)
    ensures
        match payload_of(m@) {
            Some(p) => r matches Some(v) && v@ == p,
            None => r is None,
        },
{
    let prefix: [u8; 6] = [100u8, 97u8, 116u8, 97u8, 58u8, 32u8];
    if m.len() < 6 {
        return None;
    }
    let mut k: usize = 0;
    while k < 6
        invariant
            k <= 6,
            m@.len() >= 6,
            forall|j: int| 0 <= j < k ==> m@[j] == data_prefix()[j],
            prefix@ == data_prefix(),
        decreases 6 - k,
    {
        if m[k] != prefix[k] {
            assert(m@.subrange(0, 6)[k as int] != data_prefix()[k as int]);
            return None;
        }
        k = k + 1;
    }
    assert(m@.subrange(0, 6) =~= data_prefix());
    let mut out: Vec<u8> = Vec::new();
    let mut i: usize = 6;
    while i < m.len()
        invariant
            6 <= i <= m@.len(),
            out@ =~= m@.subrange(6, i as int),
        decreases m@.len() - i,
    {
        out.push(m[i]);
        i = i + 1;
    }
    Some(out)
}

impl FrameBuffer {
    pub fn new() -> (r: FrameBuffer)
        ensures
            r.pending@.len() == 0,
    {
        FrameBuffer { pending: Vec::new() }
    }

    /// Appends a chunk of the stream.
    pub fn push_chunk(&mut self, chunk: &[u8])
        ensures
            final(self).pending@ == old(self).pending@ + chunk@,
    {
        let mut i: usize = 0;
        while i < chunk.len()
            invariant
                i <= chunk@.len(),
                self.pending@ == old(self).pending@ + chunk@.subrange(0, i as int),
            decreases chunk@.len() - i,
        {
            self.pending.push(chunk[i]);
            i = i + 1;
            assert(chunk@.subrange(0, i as int) =~= chunk@.subrange(0, i - 1) + seq![chunk@[i - 1]]);
        }
        assert(chunk@.subrange(0, i as int) =~= chunk@);
    }

    /// Takes the first complete frame out of the buffer, without its
    /// terminating blank line; `None` while no frame is complete.
    pub fn next_frame(&mut self) -> (r: Option<Vec<u8>>)
        ensures
            match boundary_from(old(self).pending@, 0) {
                Some(i) => r matches Some(m) && m@ == old(self).pending@.subrange(0, i as int)
                    && final(self).pending@ == old(self).pending@.subrange(
                    i + 2int,
                    old(self).pending@.len() as int,
                ),
                None => r is None && final(self).pending@ == old(self).pending@,
            },
    {
        let ghost s = self.pending@;
        let n = self.pending.len();
        let mut i: usize = 0;
        while n >= 2 && i <= n - 2
            invariant
                self.pending@ == s,
                s == old(self).pending@,
                n == s.len(),
                i <= n,
                boundary_from(s, 0) == boundary_from(s, i as nat),
            decreases n - i,
        {
            if self.pending[i] == 10u8 && self.pending[i + 1] == 10u8 {
                let mut head = self.pending.split_off(0);
                let rest = head.split_off(i + 2);
                head.truncate(i);
                assert(head@ =~= s.subrange(0, i as int));
                assert(rest@ =~= s.subrange(i + 2, n as int));
                assert(boundary_from(s, i as nat) == Some(i as nat));
                self.pending = rest;
                return Some(head);
            }
            i = i + 1;
        }
        None
    }

    /// Takes every complete frame out of the buffer and returns the payloads
    /// of the data frames among them, in order; an incomplete frame stays.
    pub fn take_payloads(&mut self) -> (r: Vec<Vec<u8>>)
        ensures
            views(r@) == payloads(old(self).pending@),
            final(self).pending@ == remainder(old(self).pending@),
    {
        let ghost s0 = self.pending@;
        let mut out: Vec<Vec<u8>> = Vec::new();
        loop
            invariant
                payloads(s0) == views(out@) + payloads(self.pending@),
                remainder(s0) == remainder(self.pending@),
            ensures
                payloads(s0) == views(out@),
                remainder(s0) == self.pending@,
            decreases self.pending@.len(),
        {
            let ghost before = self.pending@;
            match self.next_frame() {
                Some(m) => {
                    proof {
                        lemma_boundary_in_range(before, 0);
                    }
                    let ghost out0 = out@;
                    let ghost rest = payloads(self.pending@);
                    match data_payload(&m) {
                        Some(p) => {
                            out.push(p);
                            assert(views(out@) =~= views(out0) + seq![p@]);
                            assert(views(out0) + (seq![p@] + rest) =~= views(out0) + seq![p@]
                                + rest);
                        },
                        None => {},
                    }
                },
                None => {
                    assert(payloads(self.pending@) == Seq::<Seq<u8>>::empty());
                    assert(views(out@) + Seq::<Seq<u8>>::empty() =~= views(out@));
                    break;
                },
            }
        }
        out
    }
}

} // verus!
