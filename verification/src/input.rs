//! The preallocated storage behind the capture callback.
//!
//! Voice processing hands over a varying number of frames per callback. The storage is sized once
//! for the largest number, so that no callback ever allocates.
use vstd::prelude::*;

use crate::native::{OsStatus, StreamFormat, TOO_MANY_FRAMES_TO_PROCESS};

verus! {

/// The most bytes of capture storage that a unit may ask for: 16 MiB.
pub const MAX_STORAGE_BYTES: usize = 16_777_216;

/// The bytes that `frames` frames take.
pub open spec fn frame_bytes(frames: int, bytes_per_frame: int) -> int {
    frames * bytes_per_frame
}

/// Whether capture storage of this many bytes is given out.
pub open spec fn storage_supported(bytes: int) -> bool {
    0 < bytes <= MAX_STORAGE_BYTES
}

/// The eight-byte words that hold `bytes` bytes: as few as possible.
pub open spec fn storage_words(bytes: int) -> int {
    (bytes + 7) / 8
}

/// `words` cut, or filled up with zeros, to length `len`.
pub open spec fn resized(words: Seq<u64>, len: nat) -> Seq<u64> {
    Seq::new(
        len,
        |i: int|
            if i < words.len() {
                words[i]
            } else {
                0u64
            },
    )
}

/// One buffer of samples. `data` is the memory itself, of which the first `data_byte_size` bytes
/// carry samples.
pub struct AudioBuffer<'a> {
    pub number_channels: u32,
    pub data_byte_size: u32,
    pub data: &'a mut [u64],
}

/// The list of buffers handed to a render call. Interleaved capture always has one.
pub struct AudioBufferList<'a> {
    pub number_buffers: u32,
    pub buffer: AudioBuffer<'a>,
}

/// What the capture callback works on. `client` is whatever the owner needs there besides.
pub struct Input<C> {
    pub client: C,
    /// Eight-byte alignment supports every PCM sample type.
    pub storage: Vec<u64>,
    pub bytes_per_frame: usize,
    pub channels: u32,
    pub max_frames: u32,
}

impl<C> Input<C> {
    /// The storage is exactly what `max_frames` frames need, and is within the limit.
    pub open spec fn wf(self) -> bool {
        let bytes = frame_bytes(self.max_frames as int, self.bytes_per_frame as int);
        &&& storage_supported(bytes)
        &&& self.storage@.len() == storage_words(bytes)
    }

    /// An input as it is when just allocated: zeroed, for this format and this frame limit.
    pub open spec fn is_fresh(self, client: C, format: StreamFormat, max_frames: u32) -> bool {
        let bytes = frame_bytes(max_frames as int, format.bytes_per_frame as int);
        &&& self.client == client
        &&& self.bytes_per_frame == format.bytes_per_frame
        &&& self.channels == format.channels_per_frame
        &&& self.max_frames == max_frames
        &&& self.storage@ == Seq::new(storage_words(bytes) as nat, |i: int| 0u64)
    }

    /// `after` is this input, with its storage adapted to a new frame limit.
    pub open spec fn refreshed(self, max_frames: u32, after: Self) -> bool {
        let bytes = frame_bytes(max_frames as int, self.bytes_per_frame as int);
        &&& after.client == self.client
        &&& after.bytes_per_frame == self.bytes_per_frame
        &&& after.channels == self.channels
        &&& after.max_frames == max_frames
        &&& after.storage@ == resized(self.storage@, storage_words(bytes) as nat)
    }

    /// Allocates zeroed storage for `max_frames` frames of `format`. Gives `None` where that would
    /// be no bytes, or more than the limit.
    pub fn allocate(client: C, format: StreamFormat, max_frames: u32) -> (input: Option<Self>)
        ensures
            input is Some <==> storage_supported(
                frame_bytes(max_frames as int, format.bytes_per_frame as int),
            ),
            input is Some <==> 0 < max_frames * format.bytes_per_frame <= 16_777_216,
            input matches Some(input) ==> input.wf() && input.is_fresh(client, format, max_frames),
            input matches Some(input) ==> {
                &&& input.client == client
                &&& input.bytes_per_frame == format.bytes_per_frame
                &&& input.channels == format.channels_per_frame
                &&& input.max_frames == max_frames
                &&& max_frames * format.bytes_per_frame <= 8 * input.storage@.len()
                &&& 8 * input.storage@.len() < max_frames * format.bytes_per_frame + 8
                &&& forall|i: int| 0 <= i < input.storage@.len() ==> input.storage@[i] == 0
            },
    {
        let bytes_per_frame: usize = format.bytes_per_frame as usize;
        match supported_bytes(max_frames, bytes_per_frame) {
            None => None,
            Some(bytes) => {
                let storage: Vec<u64> = vec![0u64; (bytes + 7) / 8];
                assert(storage@ =~= Seq::new(storage_words(bytes as int) as nat, |i: int| 0u64));
                Some(
                    Input {
                        client,
                        storage,
                        bytes_per_frame,
                        channels: format.channels_per_frame,
                        max_frames,
                    },
                )
            },
        }
    }

    /// Adapts the storage to a new frame limit. Where the limit would need no bytes, or too many,
    /// gives `false` and changes nothing.
    pub fn refresh(&mut self, max_frames: u32) -> (supported: bool)
        ensures
            supported <==> storage_supported(
                frame_bytes(max_frames as int, old(self).bytes_per_frame as int),
            ),
            supported ==> final(self).wf() && old(self).refreshed(max_frames, *final(self)),
            !supported ==> *final(self) == *old(self),
            supported <==> 0 < max_frames * old(self).bytes_per_frame <= 16_777_216,
            supported ==> {
                &&& final(self).client == old(self).client
                &&& final(self).bytes_per_frame == old(self).bytes_per_frame
                &&& final(self).channels == old(self).channels
                &&& final(self).max_frames == max_frames
                &&& max_frames * old(self).bytes_per_frame <= 8 * final(self).storage@.len()
                &&& 8 * final(self).storage@.len() < max_frames * old(self).bytes_per_frame + 8
                &&& forall|i: int|
                    0 <= i < final(self).storage@.len() && i < old(self).storage@.len()
                        ==> final(self).storage@[i] == old(self).storage@[i]
                &&& forall|i: int|
                    old(self).storage@.len() <= i < final(self).storage@.len()
                        ==> final(self).storage@[i] == 0
            },
    {
        match supported_bytes(max_frames, self.bytes_per_frame) {
            None => false,
            Some(bytes) => {
                let words: usize = (bytes + 7) / 8;
                self.storage.resize(words, 0);
                self.max_frames = max_frames;
                assert(self.storage@ =~= resized(old(self).storage@, words as nat)) by {
                    let before = old(self).storage@;
                    if words > before.len() {
                        assert forall|i: int| 0 <= i < before.len() implies self.storage@[i]
                            == before[i] by {
                            assert(self.storage@.subrange(0, before.len() as int)[i] == before[i]);
                        }
                    }
                }
                true
            },
        }
    }

    /// The buffers to render `frames` frames into: always the one preallocated storage, of which
    /// as many bytes count as the frames need. More frames than the storage was sized for are
    /// refused.
    pub fn buffer_list(&mut self, frames: u32) -> (list: Result<AudioBufferList<'_>, OsStatus>)
        requires
            old(self).wf(),
        ensures
            list is Ok <==> frames <= old(self).max_frames,
            match list {
                Ok(list) => {
                    &&& list.number_buffers == 1
                    &&& list.buffer.number_channels == old(self).channels
                    &&& list.buffer.data_byte_size == frame_bytes(
                        frames as int,
                        old(self).bytes_per_frame as int,
                    )
                    &&& list.buffer.data_byte_size == frames * old(self).bytes_per_frame
                    &&& list.buffer.data_byte_size <= 8 * list.buffer.data@.len()
                    &&& list.buffer.data@ == old(self).storage@
                    &&& final(self).storage@ == final(list.buffer.data)@
                    &&& final(self).client == old(self).client
                    &&& final(self).bytes_per_frame == old(self).bytes_per_frame
                    &&& final(self).channels == old(self).channels
                    &&& final(self).max_frames == old(self).max_frames
                    &&& final(list.buffer.data)@.len() == old(self).storage@.len() ==> final(self).wf()
                },
                Err(status) => {
                    &&& status == TOO_MANY_FRAMES_TO_PROCESS
                    &&& status == -10874
                    &&& *final(self) == *old(self)
                },
            },
    {
        if frames > self.max_frames {
            return Err(TOO_MANY_FRAMES_TO_PROCESS);
        }
        proof {
            law_accepted_frames_fit(*self, frames);
        }
        let bytes: usize = frames as usize * self.bytes_per_frame;
        Ok(
            AudioBufferList {
                number_buffers: 1,
                buffer: AudioBuffer {
                    number_channels: self.channels,
                    data_byte_size: bytes as u32,
                    data: self.storage.as_mut_slice(),
                },
            },
        )
    }
}

/// The bytes of storage for `max_frames` frames, where that is an amount to give out.
fn supported_bytes(max_frames: u32, bytes_per_frame: usize) -> (bytes: Option<usize>)
    ensures
        match bytes {
            Some(bytes) => {
                &&& bytes == frame_bytes(max_frames as int, bytes_per_frame as int)
                &&& storage_supported(bytes as int)
            },
            None => !storage_supported(frame_bytes(max_frames as int, bytes_per_frame as int)),
        },
        bytes is Some <==> 0 < max_frames * bytes_per_frame <= 16_777_216,
        bytes matches Some(bytes) ==> bytes == max_frames * bytes_per_frame,
{
    match (max_frames as usize).checked_mul(bytes_per_frame) {
        Some(bytes) if bytes > 0 && bytes <= MAX_STORAGE_BYTES => Some(bytes),
        _ => None,
    }
}

/// Every number of frames that an input accepts lies within its storage, and its byte size is a
/// proper `u32`: no accepted callback can run past the preallocated memory.
pub proof fn law_accepted_frames_fit<C>(input: Input<C>, frames: u32)
    requires
        input.wf(),
        frames <= input.max_frames,
    ensures
        0 <= frame_bytes(frames as int, input.bytes_per_frame as int) <= 8 * input.storage@.len(),
        frame_bytes(frames as int, input.bytes_per_frame as int) <= MAX_STORAGE_BYTES,
        0 <= frames * input.bytes_per_frame <= 8 * input.storage@.len(),
        frames * input.bytes_per_frame <= 16_777_216,
{
    assert(0 <= frames * input.bytes_per_frame <= input.max_frames * input.bytes_per_frame)
        by (nonlinear_arith)
        requires
            0 <= frames <= input.max_frames,
            0 <= input.bytes_per_frame,
    ;
}

/// The storage wastes less than one word.
pub proof fn law_storage_is_tight<C>(input: Input<C>)
    requires
        input.wf(),
    ensures
        8 * input.storage@.len() < frame_bytes(
            input.max_frames as int,
            input.bytes_per_frame as int,
        ) + 8,
{
}

/// An input that is allocated for one frame limit, and then adapted to another before anything was
/// captured, is what would have been allocated for the other at once.
pub proof fn law_refresh_of_fresh<C>(
    client: C,
    format: StreamFormat,
    first: u32,
    second: u32,
    allocated: Input<C>,
    adapted: Input<C>,
)
    requires
        allocated.is_fresh(client, format, first),
        allocated.refreshed(second, adapted),
    ensures
        adapted.is_fresh(client, format, second),
{
    let bytes = frame_bytes(second as int, format.bytes_per_frame as int);
    assert(adapted.storage@ =~= Seq::new(storage_words(bytes) as nat, |i: int| 0u64));
}

/// Adapting an input to the limit that it has already changes nothing.
pub proof fn law_refresh_to_same_limit<C>(input: Input<C>, adapted: Input<C>)
    requires
        input.wf(),
        input.refreshed(input.max_frames, adapted),
    ensures
        adapted.client == input.client,
        adapted.storage@ == input.storage@,
        adapted.bytes_per_frame == input.bytes_per_frame,
        adapted.channels == input.channels,
        adapted.max_frames == input.max_frames,
{
    assert(adapted.storage@ =~= input.storage@);
}

/// Adapting an input to a larger limit keeps what the storage holds, and everything that was
/// accepted before stays accepted.
pub proof fn law_growing_keeps_contents<C>(input: Input<C>, max_frames: u32, adapted: Input<C>)
    requires
        input.wf(),
        input.max_frames <= max_frames,
        input.refreshed(max_frames, adapted),
    ensures
        input.max_frames <= adapted.max_frames,
        input.storage@ =~= adapted.storage@.subrange(0, input.storage@.len() as int),
{
    let per_frame = input.bytes_per_frame as int;
    assert(frame_bytes(input.max_frames as int, per_frame) <= frame_bytes(
        max_frames as int,
        per_frame,
    )) by (nonlinear_arith)
        requires
            0 <= input.max_frames <= max_frames,
            0 <= per_frame,
    ;
}

/// An input is well formed exactly when its frame limit takes at least one byte and at most 16 MiB,
/// and its words are the fewest that hold those bytes. Neither the number of channels, nor the
/// client, nor what the words hold has any part in it.
pub proof fn law_well_formed_inputs<C>(input: Input<C>)
    ensures
        input.wf() <==> {
            &&& 0 < input.max_frames * input.bytes_per_frame <= 16_777_216
            &&& input.max_frames * input.bytes_per_frame <= 8 * input.storage@.len()
            &&& 8 * input.storage@.len() < input.max_frames * input.bytes_per_frame + 8
        },
{
}

/// A fresh input carries the client, the format and the limit that it was asked for, and the fewest
/// words that hold all those frames, each of them zero.
pub proof fn law_fresh_inputs<C>(
    input: Input<C>,
    client: C,
    format: StreamFormat,
    max_frames: u32,
)
    requires
        input.is_fresh(client, format, max_frames),
    ensures
        input.client == client,
        input.bytes_per_frame == format.bytes_per_frame,
        input.channels == format.channels_per_frame,
        input.max_frames == max_frames,
        max_frames * format.bytes_per_frame <= 8 * input.storage@.len(),
        8 * input.storage@.len() < max_frames * format.bytes_per_frame + 8,
        forall|i: int| 0 <= i < input.storage@.len() ==> input.storage@[i] == 0,
{
    assert(0 <= max_frames * format.bytes_per_frame) by (nonlinear_arith)
        requires
            0 <= max_frames,
            0 <= format.bytes_per_frame,
    ;
}

/// An adapted input has the new limit and the fewest words that hold that many frames. The words
/// that fit keep what they held, further words are zero, and all else stays.
pub proof fn law_refreshed_inputs<C>(input: Input<C>, max_frames: u32, adapted: Input<C>)
    requires
        input.refreshed(max_frames, adapted),
    ensures
        adapted.client == input.client,
        adapted.bytes_per_frame == input.bytes_per_frame,
        adapted.channels == input.channels,
        adapted.max_frames == max_frames,
        max_frames * input.bytes_per_frame <= 8 * adapted.storage@.len(),
        8 * adapted.storage@.len() < max_frames * input.bytes_per_frame + 8,
        forall|i: int|
            0 <= i < adapted.storage@.len() && i < input.storage@.len() ==> adapted.storage@[i]
                == input.storage@[i],
        forall|i: int|
            input.storage@.len() <= i < adapted.storage@.len() ==> adapted.storage@[i] == 0,
{
    assert(0 <= max_frames * input.bytes_per_frame) by (nonlinear_arith)
        requires
            0 <= max_frames,
            0 <= input.bytes_per_frame,
    ;
}

/// Which limit an input had in between leaves no trace: adapting a fresh input twice gives the
/// same words as adapting it to the second limit at once.
pub proof fn law_refresh_forgets_the_way<C>(
    client: C,
    format: StreamFormat,
    first: u32,
    between: u32,
    last: u32,
    fresh: Input<C>,
    halfway: Input<C>,
    twice: Input<C>,
    once: Input<C>,
)
    requires
        fresh.is_fresh(client, format, first),
        fresh.refreshed(between, halfway),
        halfway.refreshed(last, twice),
        fresh.refreshed(last, once),
    ensures
        twice.storage@ == once.storage@,
        twice.max_frames == once.max_frames,
        twice.bytes_per_frame == once.bytes_per_frame,
        twice.channels == once.channels,
        twice.client == once.client,
{
    assert(twice.storage@ =~= once.storage@);
}

} // verus!
