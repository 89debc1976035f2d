use vstd::prelude::*;

verus! {

/// The bytes of frame `i`, where `region` holds frames of `frame_len` bytes, one after the other.
pub open spec fn frame_bytes(region: Seq<u8>, frame_len: nat, i: int) -> Seq<u8> {
    region.subrange(i * frame_len, (i + 1) * frame_len)
}

pub(crate) proof fn lemma_frame_bounds(i: int, frame_num: int, frame_len: int)
    by (nonlinear_arith)
    requires
        0 <= i < frame_num,
        0 <= frame_len,
    ensures
        0 <= i * frame_len,
        i * frame_len + frame_len == (i + 1) * frame_len,
        (i + 1) * frame_len <= frame_num * frame_len,
{
}

/// Cutting a frame off what follows the first `i` frames of a region leaves what follows the first
/// `i + 1`.
proof fn lemma_cut(frame_len: nat, i: int)
    requires
        0 <= i,
    ensures
        forall|region: Seq<u8>, head: Seq<u8>, tail: Seq<u8>|
            #![trigger region.skip(i * frame_len), head + tail]
            i * frame_len <= region.len() && head.len() == frame_len && head + tail == region.skip(
                i * frame_len,
            ) ==> {
                &&& (i + 1) * frame_len <= region.len()
                &&& head == frame_bytes(region, frame_len, i)
                &&& tail == region.skip((i + 1) * frame_len)
            },
{
    assert(0 <= i * frame_len && i * frame_len + frame_len == (i + 1) * frame_len)
        by (nonlinear_arith)
        requires
            0 <= i,
            0 <= frame_len,
    ;
    assert forall|region: Seq<u8>, head: Seq<u8>, tail: Seq<u8>|
        #![trigger region.skip(i * frame_len), head + tail]
        i * frame_len <= region.len() && head.len() == frame_len && head + tail == region.skip(
            i * frame_len,
        ) implies {
        &&& (i + 1) * frame_len <= region.len()
        &&& head == frame_bytes(region, frame_len, i)
        &&& tail == region.skip((i + 1) * frame_len)
    } by {
        let rest = region.skip(i * frame_len);
        assert(rest.len() == frame_len + tail.len());
        assert(head == rest.take(frame_len as int));
        assert(tail == rest.skip(frame_len as int));
        assert(head == frame_bytes(region, frame_len, i));
        assert(tail == region.skip((i + 1) * frame_len));
    }
}

/// Cuts `memory` into `frame_num` frames of `frame_len` bytes, in address order.
///
/// What is later written through a frame lands in its own part of `memory`, and nowhere else. That
/// clause is guarded by the frames keeping their length, which slices always do.
pub fn split_frames<'a>(
    memory: &'a mut [u8],
    frame_num: usize,
    frame_len: usize,
) -> (frames: Vec<&'a mut [u8]>)
    requires
        old(memory)@.len() == frame_num * frame_len,
    ensures
        frames@.len() == frame_num,
        forall|i: int|
            0 <= i < frame_num ==> {
                &&& frames@[i]@ == #[trigger] frame_bytes(old(memory)@, frame_len as nat, i)
                &&& frames@[i]@ == old(memory)@.subrange(i * frame_len, (i + 1) * frame_len)
            },
        (forall|i: int| 0 <= i < frame_num ==> (#[trigger] final(frames@[i]))@.len() == frame_len)
            ==> (final(memory)@.len() == frame_num * frame_len && forall|i: int|
            0 <= i < frame_num ==> (#[trigger] final(frames@[i]))@ == frame_bytes(
                final(memory)@,
                frame_len as nat,
                i,
            )),
{
    let ghost before = memory@;
    let ghost whole = memory;
    let mut frames: Vec<&'a mut [u8]> = Vec::with_capacity(frame_num);
    let mut rest: &'a mut [u8] = memory;
    let mut i: usize = 0;
    while i < frame_num
        invariant
            i <= frame_num,
            frames@.len() == i,
            before.len() == frame_num * frame_len,
            0 <= i * frame_len <= before.len(),
            rest@ == before.skip(i * frame_len),
            forall|j: int|
                0 <= j < i ==> frames@[j]@ == #[trigger] frame_bytes(before, frame_len as nat, j),
            (forall|j: int| 0 <= j < i ==> (#[trigger] final(frames@[j]))@.len() == frame_len) ==> {
                &&& i * frame_len <= final(whole)@.len()
                &&& final(rest)@ == final(whole)@.skip(i * frame_len)
                &&& forall|j: int|
                    0 <= j < i ==> (#[trigger] final(frames@[j]))@ == frame_bytes(
                        final(whole)@,
                        frame_len as nat,
                        j,
                    )
            },
        decreases frame_num - i,
    {
        proof {
            lemma_frame_bounds(i as int, frame_num as int, frame_len as int);
        }
        let ghost frames_before = frames@;
        let ghost rest_before = rest;
        let (head, tail) = rest.split_at_mut(frame_len);
        let ghost head_ref = head;
        frames.push(head);
        proof {
            assert(head_ref@ == frame_bytes(before, frame_len as nat, i as int));
            assert(forall|j: int| 0 <= j < i ==> #[trigger] frames@[j] == frames_before[j]);
            lemma_cut(frame_len as nat, i as int);
            assert(final(rest_before)@ == final(head_ref)@ + final(tail)@);
            assert(final(frames@[i as int])@ == final(head_ref)@);
            assert(forall|j: int|
                0 <= j < i ==> (#[trigger] final(frames@[j]))@ == final(frames_before[j])@);
            assert((forall|j: int|
                0 <= j < i + 1 ==> (#[trigger] final(frames@[j]))@.len() == frame_len) ==> (forall|
                j: int,
            |
                0 <= j < i ==> (#[trigger] final(frames_before[j]))@.len() == frame_len));
        }
        rest = tail;
        i += 1;
    }
    frames
}

/// The frames of a region do not overlap, and each of them lies inside the region.
pub proof fn law_frames_are_disjoint(frame_num: nat, frame_len: nat, i: int, j: int)
    requires
        0 <= i < j < frame_num,
    ensures
        0 <= i * frame_len,
        (i + 1) * frame_len <= j * frame_len,
        (j + 1) * frame_len <= frame_num * frame_len,
{
    lemma_frame_bounds(i, j, frame_len as int);
    lemma_frame_bounds(j, frame_num as int, frame_len as int);
}

/// Each byte of a region is in exactly one place of one frame.
pub proof fn law_frames_cover_region(region: Seq<u8>, frame_num: nat, frame_len: nat, k: int)
    requires
        region.len() == frame_num * frame_len,
        0 <= k < region.len(),
    ensures
        0 <= k / (frame_len as int) < frame_num,
        0 <= k % (frame_len as int) < frame_len,
        frame_bytes(region, frame_len, k / (frame_len as int))[k % (frame_len as int)] == region[k],
{
    let len = frame_len as int;
    assert(len > 0) by (nonlinear_arith)
        requires
            0 <= k < frame_num * len,
            0 <= frame_num,
            0 <= len,
    ;
    let i = k / len;
    let rest = k % len;
    assert(k == i * len + rest && 0 <= rest < len && 0 <= i) by (nonlinear_arith)
        requires
            len > 0,
            k >= 0,
            i == k / len,
            rest == k % len,
    ;
    assert(i < frame_num) by (nonlinear_arith)
        requires
            i * len <= k < frame_num * len,
            len > 0,
    ;
    lemma_frame_bounds(i, frame_num as int, len);
}

/// The frames of a region determine the region: nothing of it is outside of them.
pub proof fn law_frames_determine_region(
    one: Seq<u8>,
    other: Seq<u8>,
    frame_num: nat,
    frame_len: nat,
)
    requires
        one.len() == frame_num * frame_len,
        other.len() == frame_num * frame_len,
        forall|i: int|
            0 <= i < frame_num ==> #[trigger] frame_bytes(one, frame_len, i) == frame_bytes(
                other,
                frame_len,
                i,
            ),
    ensures
        one == other,
{
    assert forall|k: int| 0 <= k < one.len() implies one[k] == other[k] by {
        law_frames_cover_region(one, frame_num, frame_len, k);
        law_frames_cover_region(other, frame_num, frame_len, k);
    }
}

/// What is written to one frame is read back from it, and shows in no other frame.
pub proof fn law_written_frame_is_read_back(
    before: Seq<u8>,
    after: Seq<u8>,
    frame_num: nat,
    frame_len: nat,
    written: int,
    data: Seq<u8>,
    read: int,
)
    requires
        before.len() == frame_num * frame_len,
        0 <= written < frame_num,
        0 <= read < frame_num,
        data.len() == frame_len,
        after == before.take(written * frame_len) + data + before.skip((written + 1) * frame_len),
    ensures
        after.len() == before.len(),
        frame_bytes(after, frame_len, read) == if read == written {
            data
        } else {
            frame_bytes(before, frame_len, read)
        },
{
    lemma_frame_bounds(written, frame_num as int, frame_len as int);
    lemma_frame_bounds(read, frame_num as int, frame_len as int);
    if read < written {
        law_frames_are_disjoint(frame_num, frame_len, read, written);
    } else if written < read {
        law_frames_are_disjoint(frame_num, frame_len, written, read);
    }
}

/// Frame `i` has `frame_len` bytes, and its byte `k` is the byte of the region `k` places behind the
/// first `i` frames.
pub proof fn law_frame_is_part_of_region(
    region: Seq<u8>,
    frame_num: nat,
    frame_len: nat,
    i: int,
    k: int,
)
    requires
        region.len() == frame_num * frame_len,
        0 <= i < frame_num,
    ensures
        frame_bytes(region, frame_len, i).len() == frame_len,
        0 <= k < frame_len ==> frame_bytes(region, frame_len, i)[k] == region[i * frame_len + k],
{
    lemma_frame_bounds(i, frame_num as int, frame_len as int);
}

}
