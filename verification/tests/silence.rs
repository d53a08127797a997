use vpio::silence::{silent_render, OutputBuffer};

#[test]
fn every_buffer_is_silenced_and_marked() {
    let mut left = vec![1u8, 2, 3];
    let mut right = vec![255u8; 9];
    let mut flags = 0x103;
    let mut list = [
        OutputBuffer {
            data: Some(&mut left),
        },
        OutputBuffer { data: None },
        OutputBuffer {
            data: Some(&mut right[..8]),
        },
    ];
    assert_eq!(silent_render(&mut flags, Some(&mut list)), 0);
    assert_eq!(flags, 0x113);
    assert_eq!(left, vec![0; 3]);
    assert_eq!(right, vec![0, 0, 0, 0, 0, 0, 0, 0, 255]);
}

#[test]
fn no_buffers_are_marked_silent_all_the_same() {
    let mut flags = 0;
    assert_eq!(silent_render(&mut flags, None), 0);
    assert_eq!(flags, 16);
    assert_eq!(silent_render(&mut flags, Some(&mut [])), 0);
    assert_eq!(flags, 16);
}

#[test]
fn silencing_in_parts_is_silencing_all() {
    let mut whole = [vec![1u8, 2], vec![3u8]];
    let mut parts = whole.clone();
    let mut flags = 1;
    let mut list: Vec<OutputBuffer> = whole
        .iter_mut()
        .map(|bytes| OutputBuffer { data: Some(bytes) })
        .collect();
    silent_render(&mut flags, Some(&mut list));
    let mut part_flags = 1;
    for bytes in parts.iter_mut() {
        let mut one = [OutputBuffer { data: Some(bytes) }];
        silent_render(&mut part_flags, Some(&mut one));
    }
    assert_eq!(whole, parts);
    assert_eq!(flags, part_flags);
}

#[test]
fn output_does_not_depend_on_contents() {
    let mut loud = vec![200u8; 5];
    let mut quiet = vec![1u8; 5];
    for bytes in [&mut loud, &mut quiet] {
        let mut flags = 0;
        silent_render(&mut flags, Some(&mut [OutputBuffer { data: Some(bytes) }]));
    }
    assert_eq!(loud, quiet);
}
