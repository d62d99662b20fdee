use vstd::prelude::*;

verus! {

/// Frames per colour change of the test pattern.
pub const FRAMES_PER_COLOR: u64 = 60;

/// The colour of the test pattern in frame `frame_count`: red for the first
/// sixty frames, blue for the next sixty, and so on.
pub open spec fn spec_frame_color(frame_count: u64) -> Seq<u8> {
    if (frame_count / 60) % 2 == 0 {
        seq![0xffu8, 0x00u8, 0x00u8, 0xffu8]
    } else {
        seq![0x00u8, 0x00u8, 0xffu8, 0xffu8]
    }
}

/// RGBA colour of the test pattern in frame `frame_count`.
pub fn frame_color(frame_count: u64) -> (color: [u8; 4])
    ensures
        color@ == spec_frame_color(frame_count),
{
    if (frame_count / FRAMES_PER_COLOR) % 2 == 0 {
        [0xff, 0x00, 0x00, 0xff]
    } else {
        [0x00, 0x00, 0xff, 0xff]
    }
}

/// `frame` after every whole four-byte pixel is painted with `color`; the
/// bytes of a trailing partial pixel stay as they were.
pub open spec fn spec_filled(frame: Seq<u8>, color: Seq<u8>) -> Seq<u8> {
    Seq::new(
        frame.len(),
        |i: int|
            if i < frame.len() - frame.len() % 4 {
                color[i % 4]
            } else {
                frame[i]
            },
    )
}

/// Paints every whole four-byte pixel of `frame` with `color`.
pub fn fill_frame(frame: &mut [u8], color: &[u8; 4])
    ensures
        final(frame)@ == spec_filled(old(frame)@, color@),
{
    broadcast use vstd::array::group_array_axioms;

    let len = frame.len();
    let whole = len - len % 4;
    let mut i: usize = 0;
    while i < whole
        invariant
            whole == len - len % 4,
            len == old(frame)@.len(),
            frame@.len() == len,
            i % 4 == 0,
            i <= whole,
            color@.len() == 4,
            forall|j: int| 0 <= j < i ==> frame@[j] == color@[j % 4],
            forall|j: int| i <= j < len ==> frame@[j] == old(frame)@[j],
        decreases whole - i,
    {
        frame[i] = color[0];
        frame[i + 1] = color[1];
        frame[i + 2] = color[2];
        frame[i + 3] = color[3];
        i = i + 4;
    }
    assert(frame@ =~= spec_filled(old(frame)@, color@));
}

/// The colour changes every sixty frames and repeats every hundred and
/// twenty.
pub proof fn lemma_frame_color_period(frame_count: u64)
    ensures
        frame_count + 120 <= u64::MAX ==> spec_frame_color(frame_count) == spec_frame_color(
            (frame_count + 120) as u64,
        ),
        frame_count + 60 <= u64::MAX ==> spec_frame_color(frame_count) != spec_frame_color(
            (frame_count + 60) as u64,
        ),
{
    if frame_count + 60 <= u64::MAX {
        let a = spec_frame_color(frame_count);
        let b = spec_frame_color((frame_count + 60) as u64);
        assert(a[0] != b[0]);
    }
}

} // verus!
