use animosity::anim::{Frame, RgbaTexture, SpriteValues};
use animosity::frame_export::{
    canvas, frame_file_name, frame_image, frame_info_text, frame_png, frame_type_runs, margins,
    Canvas, ExportError, Margins, TypeRun,
};

fn frame(x_off: i16, y_off: i16, width: u16, height: u16) -> Frame {
    Frame { tex_x: 0, tex_y: 0, x_off, y_off, width, height, unknown: 0 }
}

fn typed(unknown: u32) -> Frame {
    Frame { tex_x: 0, tex_y: 0, x_off: 0, y_off: 0, width: 1, height: 1, unknown }
}

fn values(width: u16, height: u16) -> SpriteValues {
    SpriteValues { unk2: 0, width, height }
}

/// A texture of 4 by 3 pixels whose bytes count up from 0.
fn texture() -> RgbaTexture {
    RgbaTexture { data: (0..48).collect(), width: 4, height: 3 }
}

#[test]
fn canvas_without_frames_is_the_sprite() {
    assert_eq!(canvas(&[], &values(30, 20)), Canvas { x_base: 0, y_base: 0, width: 30, height: 20 });
    assert_eq!(canvas(&[], &values(0, 0)), Canvas { x_base: 0, y_base: 0, width: 1, height: 1 });
}

#[test]
fn canvas_holds_every_frame() {
    let frames = [frame(-5, 3, 10, 10), frame(2, 1, 20, 4), frame(-1, 0, 3, 30)];
    assert_eq!(
        canvas(&frames, &values(8, 8)),
        Canvas { x_base: -5, y_base: -5, width: 27, height: 35 }
    );
    // The sprite can be larger than its frames.
    assert_eq!(
        canvas(&frames, &values(100, 8)),
        Canvas { x_base: -5, y_base: -5, width: 105, height: 35 }
    );
    // A positive offset does not move the base.
    assert_eq!(
        canvas(&[frame(4, 6, 2, 2)], &values(1, 1)),
        Canvas { x_base: 0, y_base: 0, width: 6, height: 8 }
    );
    // Frames that end left of the origin leave the sprite's own size.
    assert_eq!(
        canvas(&[frame(-9, -9, 2, 2)], &values(3, 4)),
        Canvas { x_base: -9, y_base: -9, width: 12, height: 13 }
    );
}

#[test]
fn canvas_at_the_ends_of_the_ranges() {
    let frames = [frame(i16::MIN, i16::MIN, 0, 0), frame(i16::MAX, i16::MAX, u16::MAX, u16::MAX)];
    assert_eq!(
        canvas(&frames, &values(0, 0)),
        Canvas { x_base: -32768, y_base: -32768, width: 131070, height: 131070 }
    );
}

#[test]
fn margins_lie_around_the_frame() {
    let c = Canvas { x_base: -5, y_base: -5, width: 27, height: 35 };
    assert_eq!(
        margins(&frame(-5, 3, 10, 10), &c),
        Ok(Margins { left: 0, top: 8, right: 17, bottom: 17 })
    );
    assert_eq!(
        margins(&frame(2, -5, 20, 35), &c),
        Ok(Margins { left: 7, top: 0, right: 0, bottom: 0 })
    );
    assert_eq!(margins(&frame(-6, 0, 1, 1), &c), Err(ExportError::Offset));
    assert_eq!(margins(&frame(0, -6, 1, 1), &c), Err(ExportError::Offset));
    assert_eq!(margins(&frame(2, 0, 21, 1), &c), Err(ExportError::Size));
    assert_eq!(margins(&frame(0, 0, 1, 31), &c), Err(ExportError::Size));
    // Offsets come before sizes.
    assert_eq!(margins(&frame(-6, 0, 100, 1), &c), Err(ExportError::Offset));
    let far = Canvas { x_base: i32::MIN, y_base: 0, width: 1, height: 1 };
    assert_eq!(margins(&frame(0, 0, 1, 1), &far), Err(ExportError::Offset));
}

#[test]
fn frame_image_sets_the_frame_between_blank_pixels() {
    // Two by two pixels from column 1, row 1 of the texture, on a canvas of
    // 4 by 3 with its base at (-1, 0); the frame at (0, 1).
    let f = Frame { tex_x: 1, tex_y: 1, x_off: 0, y_off: 1, width: 2, height: 2, unknown: 0 };
    let c = Canvas { x_base: -1, y_base: 0, width: 4, height: 3 };
    let image = frame_image(&texture(), &f, &c).unwrap();
    let expected = vec![
        0, 0, 0, 0,  0, 0, 0, 0,      0, 0, 0, 0,      0, 0, 0, 0,
        0, 0, 0, 0,  20, 21, 22, 23,  24, 25, 26, 27,  0, 0, 0, 0,
        0, 0, 0, 0,  36, 37, 38, 39,  40, 41, 42, 43,  0, 0, 0, 0,
    ];
    assert_eq!(image, expected);
}

#[test]
fn frame_image_of_an_empty_frame_is_blank() {
    let f = Frame { tex_x: 50, tex_y: 50, x_off: 0, y_off: 0, width: 2, height: 0, unknown: 0 };
    let c = Canvas { x_base: 0, y_base: 0, width: 2, height: 1 };
    assert_eq!(frame_image(&texture(), &f, &c), Ok(vec![0; 8]));
    let c = Canvas { x_base: 0, y_base: 0, width: 0, height: 0 };
    let f = Frame { tex_x: 0, tex_y: 0, x_off: 0, y_off: 0, width: 0, height: 0, unknown: 0 };
    assert_eq!(frame_image(&texture(), &f, &c), Ok(vec![]));
}

#[test]
fn frame_image_needs_the_rows_in_the_texture() {
    let c = Canvas { x_base: 0, y_base: 0, width: 4, height: 4 };
    let f = Frame { tex_x: 0, tex_y: 2, x_off: 0, y_off: 0, width: 4, height: 1, unknown: 0 };
    assert!(frame_image(&texture(), &f, &c).is_ok());
    let f = Frame { tex_x: 0, tex_y: 2, x_off: 0, y_off: 0, width: 4, height: 2, unknown: 0 };
    assert_eq!(frame_image(&texture(), &f, &c), Err(ExportError::BadFrameData));
    let f = Frame { tex_x: 1, tex_y: 2, x_off: 0, y_off: 0, width: 4, height: 1, unknown: 0 };
    assert_eq!(frame_image(&texture(), &f, &c), Err(ExportError::BadFrameData));
    // A frame off the canvas is refused before its rows are looked at.
    let f = Frame { tex_x: 0, tex_y: 9, x_off: -1, y_off: 0, width: 4, height: 1, unknown: 0 };
    assert_eq!(frame_image(&texture(), &f, &c), Err(ExportError::Offset));
}

#[test]
fn frame_png_decodes_to_the_frame_image() {
    let f = Frame { tex_x: 1, tex_y: 1, x_off: 0, y_off: 1, width: 2, height: 2, unknown: 0 };
    let c = Canvas { x_base: -1, y_base: 0, width: 4, height: 3 };
    let image = frame_image(&texture(), &f, &c).unwrap();
    let bytes = frame_png(&texture(), &f, &c).unwrap();
    assert_eq!(&bytes[..8], &[137, 80, 78, 71, 13, 10, 26, 10]);
    assert_ne!(bytes, image);
    let mut decoder = png::Decoder::new(&bytes[..]);
    decoder.set_transformations(png::Transformations::IDENTITY);
    let (info, mut reader) = decoder.read_info().unwrap();
    assert_eq!((info.width, info.height), (4, 3));
    assert_eq!(info.color_type, png::ColorType::RGBA);
    assert_eq!(info.bit_depth, png::BitDepth::Eight);
    let mut decoded = vec![0; info.buffer_size()];
    reader.next_frame(&mut decoded).unwrap();
    assert_eq!(decoded, image);
    // The same image gives the same file.
    assert_eq!(frame_png(&texture(), &f, &c).unwrap(), bytes);
}

#[test]
fn frame_png_refuses_what_cannot_be_drawn_or_encoded() {
    let c = Canvas { x_base: 0, y_base: 0, width: 4, height: 4 };
    let f = Frame { tex_x: 0, tex_y: 2, x_off: 0, y_off: 0, width: 4, height: 2, unknown: 0 };
    assert_eq!(frame_png(&texture(), &f, &c), Err(ExportError::BadFrameData));
    let f = Frame { tex_x: 0, tex_y: 0, x_off: 0, y_off: 0, width: 5, height: 1, unknown: 0 };
    assert_eq!(frame_png(&texture(), &f, &c), Err(ExportError::Size));
    let c = Canvas { x_base: 0, y_base: 0, width: 0, height: 4 };
    let f = Frame { tex_x: 0, tex_y: 0, x_off: 0, y_off: 0, width: 0, height: 0, unknown: 0 };
    assert_eq!(frame_png(&texture(), &f, &c), Err(ExportError::Encode));
    let c = Canvas { x_base: 0, y_base: 0, width: 4, height: 0 };
    assert_eq!(frame_png(&texture(), &f, &c), Err(ExportError::Encode));
}

#[test]
fn frame_type_runs_close_at_a_frame_of_another_type() {
    let frames: Vec<Frame> = [0, 0, 1, 1].iter().map(|&t| typed(t)).collect();
    assert_eq!(
        frame_type_runs(&frames),
        vec![
            TypeRun { first_frame: 0, last_frame: 2, frame_type: 0 },
            TypeRun { first_frame: 3, last_frame: 3, frame_type: 1 },
        ]
    );
    let frames: Vec<Frame> = [5, 5, 5].iter().map(|&t| typed(t)).collect();
    assert_eq!(frame_type_runs(&frames), vec![TypeRun { first_frame: 0, last_frame: 2, frame_type: 5 }]);
    let frames: Vec<Frame> = [1, 2].iter().map(|&t| typed(t)).collect();
    assert_eq!(frame_type_runs(&frames), vec![TypeRun { first_frame: 0, last_frame: 1, frame_type: 1 }]);
    let frames: Vec<Frame> = [1, 2, 3, 3, 4, 4].iter().map(|&t| typed(t)).collect();
    assert_eq!(
        frame_type_runs(&frames),
        vec![
            TypeRun { first_frame: 0, last_frame: 1, frame_type: 1 },
            TypeRun { first_frame: 2, last_frame: 4, frame_type: 3 },
            TypeRun { first_frame: 5, last_frame: 5, frame_type: 4 },
        ]
    );
    assert_eq!(frame_type_runs(&[]), vec![]);
    assert_eq!(frame_type_runs(&[typed(7)]), vec![TypeRun { first_frame: 0, last_frame: 0, frame_type: 7 }]);
}

#[test]
fn frame_file_name_numbers_the_frames() {
    assert_eq!(frame_file_name("main", 0), "main_000.png");
    assert_eq!(frame_file_name("dir/shadow", 12), "dir/shadow_012.png");
    assert_eq!(frame_file_name("", 1234), "_1234.png");
}

#[test]
fn frame_info_text_lists_the_set() {
    let c = Canvas { x_base: -12, y_base: -12, width: 40, height: 50 };
    let prefixes = [Some("main".to_string()), None, Some("glow".to_string())];
    let runs = [
        TypeRun { first_frame: 0, last_frame: 2, frame_type: 0 },
        TypeRun { first_frame: 3, last_frame: 16, frame_type: 1 },
    ];
    assert_eq!(
        frame_info_text(17, &c, &prefixes, &runs),
        "# Frame info for an anim file\n\n\
         frame_count = 17\n\
         offset_x = -12\n\
         offset_y = -12\n\
         layer_0 = main\n\
         layer_2 = glow\n\
         frame_types_0_2 = 0\n\
         frame_types_3_16 = 1\n"
    );
    let c = Canvas { x_base: 0, y_base: 0, width: 1, height: 1 };
    assert_eq!(
        frame_info_text(0, &c, &[], &[]),
        "# Frame info for an anim file\n\nframe_count = 0\noffset_x = 0\noffset_y = 0\n"
    );
    let c = Canvas { x_base: i32::MIN, y_base: i32::MAX, width: 1, height: 1 };
    assert_eq!(
        frame_info_text(1, &c, &[], &[]),
        "# Frame info for an anim file\n\nframe_count = 1\noffset_x = -2147483648\noffset_y = 2147483647\n"
    );
}
