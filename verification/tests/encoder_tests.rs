use mira_sharer::encoder::{
    copy_nv12, next_picture_type, write_frame, FrameData, FramePool, PictureType, YUVFrame,
};

#[test]
fn equal_strides_copy_the_whole_plane() {
    let src = [1u8, 2, 3, 4, 5, 6];
    let mut dst = vec![0u8; 6];
    copy_nv12(&src, 3, 3, 2, &mut dst);
    assert_eq!(dst, vec![1, 2, 3, 4, 5, 6]);
}

#[test]
fn rows_are_copied_to_the_encoder_line_size() {
    // two rows of 4 bytes, 3 of them picture, into rows 5 bytes apart
    let src = [1u8, 2, 3, 9, 4, 5, 6, 9];
    let mut dst = vec![0u8; 10];
    copy_nv12(&src, 4, 5, 3, &mut dst);
    assert_eq!(dst, vec![1, 2, 3, 0, 0, 4, 5, 6, 0, 0]);
}

#[test]
fn later_rows_overwrite_earlier_ones_when_wider_than_the_line_size() {
    let src = [1u8, 2, 3, 9, 4, 5, 6, 9];
    let mut dst = vec![0u8; 6];
    copy_nv12(&src, 4, 2, 3, &mut dst);
    assert_eq!(dst, vec![1, 2, 4, 5, 6, 0]);
}

#[test]
fn a_zero_line_size_writes_every_row_over_the_first() {
    let src = [1u8, 2, 3, 4, 5, 6];
    let mut dst = vec![0u8; 3];
    copy_nv12(&src, 3, 0, 2, &mut dst);
    assert_eq!(dst, vec![4, 5, 0]);
}

#[test]
fn a_short_last_row_is_copied() {
    let src = [1u8, 2, 7, 3, 4];
    let mut dst = vec![0u8; 4];
    copy_nv12(&src, 3, 2, 2, &mut dst);
    assert_eq!(dst, vec![1, 2, 3, 4]);
}

#[test]
fn nv12_frames_fill_both_planes() {
    let frame = YUVFrame {
        display_time: 0,
        width: 2,
        height: 2,
        luminance_bytes: vec![10, 11, 99, 12, 13, 99],
        luminance_stride: 3,
        chrominance_bytes: vec![20, 21, 99, 22, 23, 99],
        chrominance_stride: 3,
    };
    let mut p0 = vec![0u8; 4];
    let mut p1 = vec![0u8; 4];
    write_frame(&FrameData::NV12(&frame), "nv12", 2, 2, &mut p0, &mut p1);
    assert_eq!(p0, vec![10, 11, 12, 13]);
    assert_eq!(p1, vec![20, 21, 22, 23]);
}

#[test]
fn bgr0_buffers_fill_the_first_plane() {
    let pixels = [1u8, 2, 3, 0, 4, 5, 6, 0];
    let mut p0 = vec![0u8; 8];
    let mut p1 = vec![7u8; 2];
    write_frame(&FrameData::BGR0(&pixels), "bgra", 2, 1, &mut p0, &mut p1);
    assert_eq!(p0, pixels.to_vec());
    assert_eq!(p1, vec![7, 7]);
}

#[test]
fn pool_reuses_frames_oldest_first() {
    let mut pool: FramePool<u32> = FramePool::new(1280, 720);
    assert_eq!((pool.width(), pool.height()), (1280, 720));
    assert_eq!(pool.take(), None);
    pool.put(1);
    pool.put(2);
    assert_eq!(pool.take(), Some(1));
    pool.give_back(1);
    assert_eq!(pool.take(), Some(1));
    assert_eq!(pool.take(), Some(2));
    assert_eq!(pool.take(), None);
}

#[test]
fn an_intra_frame_request_is_used_once() {
    let mut force = true;
    assert_eq!(next_picture_type(&mut force), PictureType::Intra);
    assert!(!force);
    assert_eq!(next_picture_type(&mut force), PictureType::Unspecified);
}
