use ggez::graphics::pixels::{flip_pixel_data, scale_rgba_up_to_power_of_2, solid_buffer};

#[test]
fn test_image_scaling_up() {
    let mut from: Vec<u8> = Vec::new();
    const WIDTH: u16 = 5;
    const HEIGHT: u16 = 11;
    for i in 0..HEIGHT {
        let v = vec![i as u8; WIDTH as usize * 4];
        from.extend(v.iter());
    }

    assert_eq!(from.len(), WIDTH as usize * HEIGHT as usize * 4);
    let (width, height, res) = scale_rgba_up_to_power_of_2(WIDTH, HEIGHT, &from);
    assert_eq!(width, WIDTH.next_power_of_two());
    assert_eq!(height, HEIGHT.next_power_of_two());

    for i in 0..HEIGHT.next_power_of_two() {
        for j in 0..WIDTH.next_power_of_two() {
            let offset_within_row = (j * 4) as usize;
            let src_row_offset = (i * WIDTH * 4) as usize;
            let dst_row_offset = (i * width * 4) as usize;
            println!("{} {}", i, j);
            if i < HEIGHT && j < WIDTH {
                assert_eq!(res[dst_row_offset + offset_within_row],
                           from[src_row_offset + offset_within_row]);
            } else {
                assert_eq!(res[dst_row_offset + offset_within_row], 0);
            }
        }
    }
}

#[test]
fn scaling_up_keeps_power_of_two_sizes() {
    let from: Vec<u8> = (0..4 * 2 * 4).map(|i| i as u8).collect();
    let (width, height, res) = scale_rgba_up_to_power_of_2(4, 2, &from);
    assert_eq!((width, height), (4, 2));
    assert_eq!(res, from);
}

#[test]
fn scaling_up_pads_each_row_with_zeroes() {
    let from: Vec<u8> = (1..=3 * 1 * 4).map(|i| i as u8).collect();
    let (width, height, res) = scale_rgba_up_to_power_of_2(3, 1, &from);
    assert_eq!((width, height), (4, 1));
    assert_eq!(res, vec![1, 2, 3, 4, 5, 6, 7, 8, 9, 10, 11, 12, 0, 0, 0, 0]);
}

#[test]
fn scaling_up_an_empty_buffer_gives_one_clear_texel() {
    let (width, height, res) = scale_rgba_up_to_power_of_2(0, 0, &[]);
    assert_eq!((width, height), (1, 1));
    assert_eq!(res, vec![0, 0, 0, 0]);
}

#[test]
fn flip_reverses_the_rows() {
    let mut data: Vec<u8> = vec![
        1, 1, 1, 1, 2, 2, 2, 2, //
        3, 3, 3, 3, 4, 4, 4, 4, //
        5, 5, 5, 5, 6, 6, 6, 6,
    ];
    flip_pixel_data(&mut data, 2, 3);
    assert_eq!(
        data,
        vec![
            5, 5, 5, 5, 6, 6, 6, 6, //
            3, 3, 3, 3, 4, 4, 4, 4, //
            1, 1, 1, 1, 2, 2, 2, 2,
        ]
    );
}

#[test]
fn flip_twice_is_the_identity() {
    let before: Vec<u8> = (0..5 * 4 * 4).map(|i| (i * 7 % 251) as u8).collect();
    let mut data = before.clone();
    flip_pixel_data(&mut data, 5, 4);
    assert_ne!(data, before);
    flip_pixel_data(&mut data, 5, 4);
    assert_eq!(data, before);
}

#[test]
fn flip_of_nothing_is_nothing() {
    let mut data: Vec<u8> = Vec::new();
    flip_pixel_data(&mut data, 0, 7);
    assert!(data.is_empty());
}

#[test]
fn solid_buffer_repeats_the_colour() {
    assert_eq!(solid_buffer(0, 1, 2, 3, 4), Vec::<u8>::new());
    assert_eq!(solid_buffer(3, 255, 0, 10, 128), vec![255, 0, 10, 128, 255, 0, 10, 128, 255, 0, 10, 128]);
}
