use mira_sharer::audio::{read_buffer_data, sample_format_name, write_samples, SampleKind};

#[test]
fn sample_formats_use_encoder_names() {
    assert_eq!(sample_format_name(SampleKind::F32), "flt");
    assert_eq!(sample_format_name(SampleKind::I16), "s16");
    assert_eq!(sample_format_name(SampleKind::I32), "s32");
}

#[test]
fn planar_channels_are_interleaved() {
    let planes = vec![vec![1i16, 2, 3], vec![10, 20, 30]];
    assert_eq!(read_buffer_data(&planes, 1, 2, 3), vec![1, 10, 2, 20, 3, 30]);
}

#[test]
fn interleaved_data_is_copied_in_order() {
    let planes = vec![vec![1i32, 2, 3, 4, 5, 6, 7]];
    assert_eq!(read_buffer_data(&planes, 2, 2, 3), vec![1, 2, 3, 4, 5, 6]);
}

#[test]
fn mono_data_is_copied_in_order() {
    let planes = vec![vec![0.5f32, -0.5, 0.25]];
    assert_eq!(read_buffer_data(&planes, 1, 1, 2), vec![0.5, -0.5]);
}

#[test]
fn planar_reads_only_the_frames_asked_for() {
    let planes = vec![vec![1u8, 2, 3], vec![4, 5, 6], vec![7, 8, 9]];
    assert_eq!(read_buffer_data(&planes, 0, 3, 2), vec![1, 4, 7, 2, 5, 8]);
    assert_eq!(read_buffer_data(&planes, 0, 3, 0), Vec::<u8>::new());
}

#[test]
fn samples_overwrite_the_start_of_the_plane() {
    let mut plane = vec![0i16; 5];
    write_samples(&mut plane, &[3, -4, 5]);
    assert_eq!(plane, vec![3, -4, 5, 0, 0]);
    write_samples(&mut plane, &[]);
    assert_eq!(plane, vec![3, -4, 5, 0, 0]);
    write_samples(&mut plane, &[1, 1, 1, 1, 1]);
    assert_eq!(plane, vec![1, 1, 1, 1, 1]);
}
