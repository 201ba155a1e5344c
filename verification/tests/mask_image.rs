//! The attenuation image.

use audio_tools::mask::{build_mask_image, mask_frame, GateMask, MASK_IMAGE_HEIGHT};

fn gate(columns: usize, bins: usize) -> GateMask {
    let alpha = (0..columns * bins).map(|i| (i % 251) as u8).collect();
    GateMask { columns, bins, alpha }
}

#[test]
fn a_map_without_cells_is_not_drawn() {
    let rows = vec![0; MASK_IMAGE_HEIGHT];
    assert!(build_mask_image(&gate(0, 4), (1, 2, 3), &rows).is_none());
    assert!(build_mask_image(&gate(4, 1), (1, 2, 3), &rows).is_none());
}

#[test]
fn every_pixel_has_the_tint_and_the_opacity_of_its_cell() {
    let mask = gate(5, 3);
    let rows: Vec<usize> = (0..MASK_IMAGE_HEIGHT).map(|row| row % 4).collect();
    let image = build_mask_image(&mask, (10, 20, 30), &rows).unwrap();
    let frame = mask_frame(&image).unwrap();
    let buffer = frame.buffer();
    assert_eq!(buffer.dimensions(), (5, 192));
    assert_eq!(frame.left(), 0);
    assert_eq!(frame.top(), 0);
    for row in 0..192_u32 {
        let bin = (row as usize % 4).min(2);
        for x in 0..5_u32 {
            let alpha = ((x as usize * 3 + bin) % 251) as u8;
            assert_eq!(buffer.get_pixel(x, row).0, [10, 20, 30, alpha]);
        }
    }
}

#[test]
fn a_long_map_is_drawn_with_a_bounded_width() {
    let mask = gate(1_000, 2);
    let rows = vec![1; MASK_IMAGE_HEIGHT];
    let image = build_mask_image(&mask, (0, 0, 0), &rows).unwrap();
    let buffer = mask_frame(&image).unwrap().buffer();
    assert_eq!(buffer.dimensions(), (512, 192));
    let column = 511 * 1_000 / 512;
    assert_eq!(buffer.get_pixel(511, 0).0[3], ((column * 2 + 1) % 251) as u8);
    assert_eq!(buffer.as_raw().len(), 512 * 192 * 4);
}
