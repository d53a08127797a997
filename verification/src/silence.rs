//! The silent output that drives the unit's duplex cycle: it never plays anything, so captured
//! system audio is never fed back into the speakers.
use vstd::prelude::*;

use crate::native::{NO_ERR, OsStatus, RENDER_ACTION_OUTPUT_IS_SILENCE};

verus! {

/// One buffer of the output bus: its bytes, where it has memory.
pub struct OutputBuffer<'a> {
    pub data: Option<&'a mut [u8]>,
}

/// `len` zero bytes.
pub open spec fn silent_bytes(len: nat) -> Seq<u8> {
    Seq::new(len, |i: int| 0u8)
}

/// The flags of a cycle, with the output marked as silent.
pub open spec fn silent_flags(flags: u32) -> u32 {
    flags | RENDER_ACTION_OUTPUT_IS_SILENCE
}

/// `after` is `before` with every byte zero.
pub open spec fn silenced(before: OutputBuffer<'_>, after: OutputBuffer<'_>) -> bool {
    match (before.data, after.data) {
        (Some(was), Some(is)) => is@ == silent_bytes(was@.len()),
        (None, None) => true,
        _ => false,
    }
}

/// `after` is the list `before` with every byte of every buffer zero.
pub open spec fn list_silenced(
    before: Seq<OutputBuffer<'_>>,
    after: Seq<OutputBuffer<'_>>,
) -> bool {
    &&& after.len() == before.len()
    &&& forall|i: int|
        0 <= i < before.len() ==> silenced(before[i], #[trigger] after[i])
}

/// Zeroes the bytes.
fn silence_bytes(data: &mut [u8])
    ensures
        final(data)@ == silent_bytes(old(data)@.len()),
{
    let len: usize = data.len();
    let mut i: usize = 0;
    while i < len
        invariant
            i <= len,
            len == data@.len(),
            len == old(data)@.len(),
            forall|j: int| 0 <= j < i ==> data@[j] == 0,
        decreases len - i,
    {
        data[i] = 0;
        i = i + 1;
    }
}

/// Fills the output with silence: zeroes every buffer that has memory, where there are buffers at
/// all, and marks the output as silent. Always succeeds.
pub fn silent_render(flags: &mut u32, buffers: Option<&mut [OutputBuffer<'_>]>) -> (status: OsStatus)
    ensures
        status == NO_ERR,
        status == 0,
        *final(flags) == *old(flags) | RENDER_ACTION_OUTPUT_IS_SILENCE,
        *final(flags) == *old(flags) | 16,
        *final(flags) == silent_flags(*old(flags)),
        buffers matches Some(list) ==> {
            &&& final(list)@.len() == list@.len()
            &&& forall|i: int|
                #![trigger final(list)@[i]]
                0 <= i < list@.len() ==> (final(list)@[i].data is Some <==> list@[i].data is Some)
            &&& forall|i: int|
                #![trigger final(list)@[i]]
                0 <= i < list@.len() && list@[i].data is Some ==> final(list)@[i].data->0@.len()
                    == list@[i].data->0@.len()
            &&& forall|i: int, j: int|
                0 <= i < list@.len() && list@[i].data is Some && 0 <= j
                    < list@[i].data->0@.len() ==> #[trigger] final(list)@[i].data->0@[j] == 0
        },
        buffers matches Some(list) ==> {
            &&& list_silenced(list@, final(list)@)
            // Each buffer still is the same memory.
            &&& forall|i: int|
                #![trigger final(list)@[i]]
                0 <= i < list@.len() && list@[i].data is Some ==> final(list@[i].data->0)@
                    == final(final(list)@[i].data->0)@
        },
{
    if let Some(list) = buffers {
        let len: usize = list.len();
        let ghost before = list@;
        let mut i: usize = 0;
        while i < len
            invariant
                i <= len,
                len == list@.len(),
                len == before.len(),
                forall|j: int| i <= j < len ==> list@[j] == before[j],
                forall|j: int|
                    0 <= j < i ==> silenced(before[j], #[trigger] list@[j]),
                forall|j: int|
                    #![trigger list@[j]]
                    0 <= j < i && before[j].data is Some ==> final(before[j].data->0)@
                        == final(list@[j].data->0)@,
            decreases len - i,
        {
            match &mut list[i].data {
                Some(data) => silence_bytes(data),
                None => {},
            }
            i = i + 1;
        }
    }
    *flags |= RENDER_ACTION_OUTPUT_IS_SILENCE;
    NO_ERR
}

/// The flags of a silent cycle: the silence bit is set, every other bit is kept, and marking a
/// cycle twice is marking it once.
pub proof fn law_silence_flag(flags: u32)
    ensures
        (flags | RENDER_ACTION_OUTPUT_IS_SILENCE) & RENDER_ACTION_OUTPUT_IS_SILENCE
            == RENDER_ACTION_OUTPUT_IS_SILENCE,
        (flags | RENDER_ACTION_OUTPUT_IS_SILENCE) & !RENDER_ACTION_OUTPUT_IS_SILENCE == flags
            & !RENDER_ACTION_OUTPUT_IS_SILENCE,
        (flags | RENDER_ACTION_OUTPUT_IS_SILENCE) | RENDER_ACTION_OUTPUT_IS_SILENCE == flags
            | RENDER_ACTION_OUTPUT_IS_SILENCE,
        RENDER_ACTION_OUTPUT_IS_SILENCE == 16,
        silent_flags(flags) & 16 == 16,
        silent_flags(flags) & !16u32 == flags & !16u32,
        silent_flags(silent_flags(flags)) == silent_flags(flags),
        silent_flags(flags) == flags <==> flags & 16 == 16,
{
    assert((flags | 16) & 16 == 16) by (bit_vector);
    assert((flags | 16) & !16u32 == flags & !16u32) by (bit_vector);
    assert((flags | 16) | 16 == flags | 16) by (bit_vector);
    assert(flags | 16 == flags <==> flags & 16 == 16) by (bit_vector);
}

/// Silencing a list in two parts, one after the other, is silencing all of it.
pub proof fn law_silencing_is_piecewise(
    first: Seq<OutputBuffer<'_>>,
    second: Seq<OutputBuffer<'_>>,
    first_after: Seq<OutputBuffer<'_>>,
    second_after: Seq<OutputBuffer<'_>>,
)
    requires
        list_silenced(first, first_after),
        list_silenced(second, second_after),
    ensures
        list_silenced(first + second, first_after + second_after),
{
    let before = first + second;
    let after = first_after + second_after;
    assert forall|i: int| 0 <= i < before.len() implies silenced(
        before[i],
        #[trigger] after[i],
    ) by {
        if i < first.len() {
            assert(silenced(first[i], first_after[i]));
        } else {
            let j = i - first.len();
            assert(silenced(second[j], second_after[j]));
        }
    }
}

/// What is played does not depend on what the buffers held: buffers of the same sizes come out the
/// same.
pub proof fn law_output_ignores_contents(
    first: OutputBuffer<'_>,
    second: OutputBuffer<'_>,
    first_after: OutputBuffer<'_>,
    second_after: OutputBuffer<'_>,
)
    requires
        silenced(first, first_after),
        silenced(second, second_after),
        first.data is Some,
        second.data is Some,
        first.data->0@.len() == second.data->0@.len(),
    ensures
        first_after.data->0@ == second_after.data->0@,
{
}

/// Silence is zeros and nothing else: a silenced list has as many buffers as
/// before, each with memory where there was memory, of the same size, and every byte of it zero.
pub proof fn law_silence_is_zeros(
    before: Seq<OutputBuffer<'_>>,
    after: Seq<OutputBuffer<'_>>,
)
    requires
        list_silenced(before, after),
    ensures
        after.len() == before.len(),
        forall|i: int|
            #![trigger after[i]]
            0 <= i < before.len() ==> (after[i].data is Some <==> before[i].data is Some),
        forall|i: int|
            #![trigger after[i]]
            0 <= i < before.len() && before[i].data is Some ==> after[i].data->0@.len()
                == before[i].data->0@.len(),
        forall|i: int, j: int|
            0 <= i < before.len() && before[i].data is Some && 0 <= j
                < before[i].data->0@.len() ==> #[trigger] after[i].data->0@[j] == 0,
{
    assert forall|i: int|
        #![trigger after[i]]
        0 <= i < before.len() implies silenced(before[i], after[i]) by {}
}

} // verus!
