use mira_sharer::yuv::BGR0YUVConverter;

fn bgr0(pixels: &[(u8, u8, u8)]) -> Vec<u8> {
    let mut v = Vec::new();
    for &(r, g, b) in pixels {
        v.extend_from_slice(&[b, g, r, 0]);
    }
    v
}

#[test]
fn primary_colours_convert_to_bt601_values() {
    // line 0: black, white; line 1: red, green
    let rgb = bgr0(&[(0, 0, 0), (255, 255, 255), (255, 0, 0), (0, 255, 0)]);
    let mut conv = BGR0YUVConverter::new(2, 2);
    let (mut y, mut u, mut v) = (vec![0u8; 4], vec![0u8; 1], vec![0u8; 1]);
    conv.convert(&rgb, &mut y, &mut u, &mut v);
    assert_eq!(y, vec![16, 235, 81, 144]);
    // chroma of the first pixel of the pair on the odd line (red)
    assert_eq!(u, vec![90]);
    assert_eq!(v, vec![239]);
}

#[test]
fn blue_and_grey_pixels() {
    let rgb = bgr0(&[(7, 7, 7), (7, 7, 7), (0, 0, 255), (9, 9, 9)]);
    let mut conv = BGR0YUVConverter::new(2, 2);
    let (mut y, mut u, mut v) = (vec![0u8; 4], vec![0u8; 1], vec![0u8; 1]);
    conv.convert(&rgb, &mut y, &mut u, &mut v);
    assert_eq!(y[2], 40);
    assert_eq!(u, vec![239]);
    assert_eq!(v, vec![110]);
    // grey: (66+129+25)*7/256 + 16 = 22
    assert_eq!(y[0], 22);
}

#[test]
fn grey_pixels_have_neutral_chroma() {
    let rgb = bgr0(&[(200, 200, 200); 4]);
    let mut conv = BGR0YUVConverter::new(2, 2);
    let (mut y, mut u, mut v) = (vec![0u8; 4], vec![0u8; 1], vec![0u8; 1]);
    conv.convert(&rgb, &mut y, &mut u, &mut v);
    assert_eq!(u, vec![128]);
    assert_eq!(v, vec![128]);
}

#[test]
fn bytes_past_the_frame_are_untouched() {
    let rgb = bgr0(&[(0, 0, 0); 4]);
    let mut conv = BGR0YUVConverter::new(2, 2);
    let (mut y, mut u, mut v) = (vec![1u8; 6], vec![2u8; 3], vec![3u8; 2]);
    conv.convert(&rgb, &mut y, &mut u, &mut v);
    assert_eq!(y, vec![16, 16, 16, 16, 1, 1]);
    assert_eq!(u, vec![128, 2, 2]);
    assert_eq!(v, vec![128, 3]);
}

#[test]
fn odd_width_reads_a_whole_pair_on_odd_lines() {
    // 3 x 2: line 0 has 3 pixels, line 1 is walked in two pairs (4 pixels)
    let rgb = bgr0(&[
        (0, 0, 0), (0, 0, 0), (0, 0, 0),
        (255, 0, 0), (255, 255, 255), (0, 255, 0), (0, 0, 255),
    ]);
    let mut conv = BGR0YUVConverter::new(3, 2);
    let (mut y, mut u, mut v) = (vec![0u8; 7], vec![0u8; 2], vec![0u8; 2]);
    conv.convert(&rgb, &mut y, &mut u, &mut v);
    assert_eq!(y, vec![16, 16, 16, 81, 235, 144, 40]);
    assert_eq!(u, vec![90, 54]);
    assert_eq!(v, vec![239, 34]);
}

#[test]
fn empty_frame_writes_nothing() {
    let mut conv = BGR0YUVConverter::new(0, 0);
    let (mut y, mut u, mut v) = (vec![5u8; 2], vec![6u8; 1], vec![7u8; 1]);
    conv.convert(&[], &mut y, &mut u, &mut v);
    assert_eq!(y, vec![5, 5]);
    assert_eq!(u, vec![6]);
    assert_eq!(v, vec![7]);
}
