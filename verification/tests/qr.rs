use card_linker::qr::{decode_frame, first_decoded, Frame, GrayFrame, GridReading, Point};

/// Finds and decodes the squares in a grey frame with `rqrr`.
fn scan(gray: GrayFrame) -> Vec<GridReading> {
    let img = image::GrayImage::from_raw(gray.width, gray.height, gray.luma).unwrap();
    let mut prepared = rqrr::PreparedImage::prepare(img);
    prepared
        .detect_grids()
        .iter()
        .map(|g| GridReading {
            bounds: g.bounds.map(|p| Point { x: p.x, y: p.y }),
            content: g.decode().ok().map(|decoded| decoded.1),
        })
        .collect()
}


fn corners(base: i32) -> [Point; 4] {
    [
        Point { x: base, y: base },
        Point { x: base + 10, y: base },
        Point { x: base + 10, y: base + 10 },
        Point { x: base, y: base + 10 },
    ]
}

/// A white frame with the QR code of `text` drawn into it, `scale` pixels
/// for each module, `margin` modules of white around it.
fn frame_with_code(text: &str, scale: usize, margin: usize) -> Frame {
    let code = qrcode::QrCode::new(text.as_bytes()).unwrap();
    let modules = code.width();
    let side = (modules + 2 * margin) * scale;
    let mut pixels = vec![255u8; 3 * side * side];
    for my in 0..modules {
        for mx in 0..modules {
            if code[(mx, my)] == qrcode::Color::Dark {
                for dy in 0..scale {
                    for dx in 0..scale {
                        let x = (mx + margin) * scale + dx;
                        let y = (my + margin) * scale + dy;
                        let at = 3 * (y * side + x);
                        pixels[at] = 0;
                        pixels[at + 1] = 0;
                        pixels[at + 2] = 0;
                    }
                }
            }
        }
    }
    Frame {
        width: side as u32,
        height: side as u32,
        pixels,
    }
}

#[test]
fn visible_code_is_read() {
    let frame = frame_with_code("tok-123", 6, 4);
    assert!(frame.is_well_formed());
    let (bounds, content) = decode_frame(&frame, scan).unwrap();
    assert_eq!(content, "tok-123");
    // the corners lie in the frame and span the code
    for p in bounds.iter() {
        assert!(p.x >= 0 && (p.x as u32) <= frame.width);
        assert!(p.y >= 0 && (p.y as u32) <= frame.height);
    }
    assert!(bounds[1].x > bounds[0].x);
    assert!(bounds[3].y > bounds[0].y);
}

#[test]
fn another_text_is_read_as_itself() {
    let frame = frame_with_code("https://example.net/checkin?t=9f8e7d", 4, 4);
    let (_, content) = decode_frame(&frame, scan).unwrap();
    assert_eq!(content, "https://example.net/checkin?t=9f8e7d");
}

#[test]
fn frame_without_code_gives_nothing() {
    let white = Frame {
        width: 120,
        height: 90,
        pixels: vec![255u8; 3 * 120 * 90],
    };
    assert!(decode_frame(&white, scan).is_none());
    let grey = Frame {
        width: 64,
        height: 64,
        pixels: vec![128u8; 3 * 64 * 64],
    };
    assert!(decode_frame(&grey, scan).is_none());
}

#[test]
fn empty_and_malformed_frames_give_nothing() {
    let empty = Frame {
        width: 0,
        height: 0,
        pixels: Vec::new(),
    };
    assert!(empty.is_well_formed());
    assert!(decode_frame(&empty, scan).is_none());
    let short = Frame {
        width: 10,
        height: 10,
        pixels: vec![0u8; 299],
    };
    assert!(!short.is_well_formed());
    assert!(decode_frame(&short, scan).is_none());
    let long = Frame {
        width: 10,
        height: 10,
        pixels: vec![0u8; 301],
    };
    assert!(!long.is_well_formed());
    assert!(decode_frame(&long, scan).is_none());
    let huge = Frame {
        width: u32::MAX,
        height: u32::MAX,
        pixels: vec![0u8; 3],
    };
    assert!(!huge.is_well_formed());
    assert!(decode_frame(&huge, scan).is_none());
}

#[test]
fn first_square_that_decodes_counts() {
    let found = vec![
        GridReading {
            bounds: corners(0),
            content: None,
        },
        GridReading {
            bounds: corners(100),
            content: Some("second".to_string()),
        },
        GridReading {
            bounds: corners(200),
            content: Some("third".to_string()),
        },
    ];
    let (bounds, content) = first_decoded(&found).unwrap();
    assert_eq!(content, "second");
    assert_eq!(bounds, corners(100));
}

#[test]
fn no_square_decodes() {
    assert!(first_decoded(&Vec::new()).is_none());
    let found = vec![
        GridReading {
            bounds: corners(0),
            content: None,
        },
        GridReading {
            bounds: corners(5),
            content: None,
        },
    ];
    assert!(first_decoded(&found).is_none());
}

/// A small generator of repeatable pseudo-random numbers.
struct Lcg(u64);

impl Lcg {
    fn next(&mut self) -> usize {
        self.0 = self
            .0
            .wrapping_mul(6364136223846793005)
            .wrapping_add(1442695040888963407);
        (self.0 >> 33) as usize
    }
}

#[test]
fn damaged_codes_are_read_right_or_not_at_all() {
    let mut rng = Lcg(7);
    let mut read = 0;
    for _ in 0..200 {
        let scale = 2 + rng.next() % 3;
        let mut frame = frame_with_code("tok-123", scale, 2 + rng.next() % 3);
        let strokes = rng.next() % 40;
        for _ in 0..strokes {
            let at = rng.next() % (frame.pixels.len() / 3);
            let len = 1 + rng.next() % (scale * 6);
            let v = if rng.next() % 2 == 0 { 0 } else { 255 };
            for k in at..(at + len).min(frame.pixels.len() / 3) {
                frame.pixels[3 * k] = v;
                frame.pixels[3 * k + 1] = v;
                frame.pixels[3 * k + 2] = v;
            }
        }
        if let Some((_, content)) = decode_frame(&frame, scan) {
            assert_eq!(content, "tok-123");
            read += 1;
        }
    }
    assert!(read > 0);
}

#[test]
fn noise_is_not_a_code() {
    let mut rng = Lcg(11);
    for _ in 0..100 {
        let width = 20 + rng.next() % 60;
        let height = 20 + rng.next() % 60;
        let cell = 1 + rng.next() % 4;
        let columns = width / cell + 1;
        let bits: Vec<bool> = (0..columns * (height / cell + 1))
            .map(|_| rng.next() % 2 == 0)
            .collect();
        let mut pixels = Vec::with_capacity(3 * width * height);
        for y in 0..height {
            for x in 0..width {
                let v = if bits[(y / cell) * columns + x / cell] {
                    255
                } else {
                    0
                };
                pixels.extend_from_slice(&[v, v, v]);
            }
        }
        let frame = Frame {
            width: width as u32,
            height: height as u32,
            pixels,
        };
        assert!(frame.is_well_formed());
        assert!(decode_frame(&frame, scan).is_none());
    }
}

#[test]
fn reader_gets_the_luminance_of_the_frame() {
    // one red, one green, one blue and one white pixel
    let frame = Frame {
        width: 2,
        height: 2,
        pixels: vec![255, 0, 0, 0, 255, 0, 0, 0, 255, 255, 255, 255],
    };
    let seen = std::cell::RefCell::new(None);
    let code = decode_frame(&frame, |gray: GrayFrame| {
        *seen.borrow_mut() = Some((gray.width, gray.height, gray.luma));
        Vec::new()
    });
    assert!(code.is_none());
    let (width, height, luma) = seen.into_inner().unwrap();
    assert_eq!((width, height), (2, 2));
    assert_eq!(luma.len(), 4);
    // green weighs most, blue least, and white is white
    assert!(luma[1] > luma[0] && luma[0] > luma[2]);
    assert_eq!(luma[3], 255);
}

#[test]
fn reader_is_not_asked_about_a_malformed_frame() {
    let short = Frame {
        width: 4,
        height: 4,
        pixels: vec![0u8; 47],
    };
    let asked = std::cell::Cell::new(false);
    let code = decode_frame(&short, |_| {
        asked.set(true);
        Vec::new()
    });
    assert!(code.is_none());
    assert!(!asked.get());
}

#[test]
fn first_decoded_of_what_the_reader_found_counts() {
    let frame = Frame {
        width: 1,
        height: 1,
        pixels: vec![9, 9, 9],
    };
    let code = decode_frame(&frame, |_| {
        vec![
            GridReading {
                bounds: corners(1),
                content: None,
            },
            GridReading {
                bounds: corners(2),
                content: Some("b".to_string()),
            },
            GridReading {
                bounds: corners(3),
                content: Some("c".to_string()),
            },
        ]
    });
    assert_eq!(code, Some((corners(2), "b".to_string())));
}
