use vpio::input::{Input, MAX_STORAGE_BYTES};
use vpio::native::{StreamFormat, TOO_MANY_FRAMES_TO_PROCESS};

fn format(bytes_per_frame: u32, channels_per_frame: u32) -> StreamFormat {
    StreamFormat {
        bytes_per_frame,
        channels_per_frame,
    }
}

#[test]
fn variable_frames_reuse_aligned_storage_and_reject_overflow() {
    let mut input = Input {
        client: (),
        storage: vec![0u64; 2400],
        bytes_per_frame: 8,
        channels: 2,
        max_frames: 2400,
    };
    let address = input.storage.as_mut_ptr();
    let capacity = input.storage.capacity();
    for frames in [0, 511, 512, 160, 1024, 2400, 512] {
        let buffers = input.buffer_list(frames).unwrap();
        assert_eq!(buffers.number_buffers, 1);
        assert_eq!(buffers.buffer.data.as_mut_ptr(), address);
        assert_eq!(buffers.buffer.data_byte_size, frames * 8);
        assert_eq!(buffers.buffer.number_channels, 2);
        assert_eq!(input.storage.capacity(), capacity);
    }
    assert_eq!(
        input.buffer_list(2401).err(),
        Some(TOO_MANY_FRAMES_TO_PROCESS)
    );
    assert_eq!(TOO_MANY_FRAMES_TO_PROCESS, -10874);
    assert_eq!(address as usize % 8, 0);
}

#[test]
fn rendered_samples_land_in_the_storage() {
    let mut input = Input::allocate("mic", format(4, 1), 5).unwrap();
    assert_eq!(input.storage, vec![0, 0, 0]);
    let buffers = input.buffer_list(3).unwrap();
    assert_eq!(buffers.buffer.data_byte_size, 12);
    assert_eq!(buffers.buffer.number_channels, 1);
    buffers.buffer.data[1] = 7;
    assert_eq!(input.storage, vec![0, 7, 0]);
    assert_eq!(input.client, "mic");
    assert_eq!(input.max_frames, 5);
    assert_eq!(input.bytes_per_frame, 4);
}

#[test]
fn refused_frames_leave_the_storage_alone() {
    let mut input = Input::allocate((), format(8, 2), 2).unwrap();
    input.storage[0] = 9;
    assert_eq!(input.buffer_list(3).err(), Some(-10874));
    assert_eq!(input.buffer_list(u32::MAX).err(), Some(-10874));
    assert_eq!(input.storage, vec![9, 0]);
}

#[test]
fn storage_is_rounded_up_to_words() {
    for (frames, bytes_per_frame, words) in [(1, 1, 1), (8, 1, 1), (9, 1, 2), (3, 6, 3), (512, 4, 256)] {
        let input = Input::allocate((), format(bytes_per_frame, 1), frames).unwrap();
        assert_eq!(input.storage.len(), words);
    }
}

#[test]
fn storage_is_limited() {
    assert_eq!(MAX_STORAGE_BYTES, 16 * 1024 * 1024);
    assert!(Input::allocate((), format(0, 1), 512).is_none());
    assert!(Input::allocate((), format(4, 1), 0).is_none());
    assert!(Input::allocate((), format(u32::MAX, 1), u32::MAX).is_none());
    let largest = Input::allocate((), format(16, 4), 1 << 20).unwrap();
    assert_eq!(largest.storage.len(), 2 << 20);
    assert!(Input::allocate((), format(16, 4), (1 << 20) + 1).is_none());
    assert!(Input::allocate((), format(16_777_217, 4), 1).is_none());
}

#[test]
fn refreshing_grows_and_shrinks_the_storage() {
    let mut input = Input::allocate((), format(8, 2), 2).unwrap();
    input.storage[0] = 1;
    input.storage[1] = 2;
    assert!(input.refresh(4));
    assert_eq!(input.storage, vec![1, 2, 0, 0]);
    assert_eq!(input.max_frames, 4);
    assert!(input.buffer_list(4).is_ok());
    assert!(input.refresh(1));
    assert_eq!(input.storage, vec![1]);
    assert_eq!(input.buffer_list(2).err(), Some(-10874));
}

#[test]
fn refreshing_to_the_same_limit_changes_nothing() {
    let mut input = Input::allocate('c', format(8, 2), 2).unwrap();
    input.storage[1] = 5;
    assert!(input.refresh(2));
    assert_eq!(input.storage, vec![0, 5]);
    assert_eq!((input.client, input.channels, input.max_frames), ('c', 2, 2));
}

#[test]
fn refreshing_a_fresh_input_is_allocating_for_the_new_limit() {
    let mut adapted = Input::allocate((), format(4, 1), 512).unwrap();
    assert!(adapted.refresh(1115));
    let at_once = Input::allocate((), format(4, 1), 1115).unwrap();
    assert_eq!(adapted.storage, at_once.storage);
    assert_eq!(adapted.max_frames, at_once.max_frames);
}

#[test]
fn unsupported_refresh_changes_nothing() {
    let mut input = Input::allocate((), format(8, 2), 2).unwrap();
    input.storage[0] = 3;
    assert!(!input.refresh(0));
    assert!(!input.refresh(2_097_153));
    assert_eq!(input.storage, vec![3, 0]);
    assert_eq!(input.max_frames, 2);
}

#[test]
fn accepted_frames_fit_tightly() {
    let mut input = Input::allocate((), format(6, 3), 7).unwrap();
    assert_eq!(input.storage.len(), 6);
    for frames in 0..=7 {
        let buffers = input.buffer_list(frames).unwrap();
        assert!(buffers.buffer.data_byte_size as usize <= 8 * buffers.buffer.data.len());
    }
    assert!(8 * input.storage.len() < 6 * 7 + 8);
}
