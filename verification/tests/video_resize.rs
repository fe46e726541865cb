use remvora_agent::video_resize::{resize, RgbaFrame};

fn frame(width: u32, height: u32, f: impl Fn(u32, u32) -> [u8; 4]) -> RgbaFrame {
    let mut data = Vec::new();
    for y in 0..height {
        for x in 0..width {
            data.extend_from_slice(&f(x, y));
        }
    }
    RgbaFrame { width, height, data }
}

fn pixel(f: &RgbaFrame, x: u32, y: u32) -> [u8; 4] {
    let i = ((y * f.width + x) * 4) as usize;
    [f.data[i], f.data[i + 1], f.data[i + 2], f.data[i + 3]]
}

#[test]
fn downsample_averages_pixel_centers() {
    let source = frame(4, 4, |x, y| [(x * 40) as u8, (y * 40) as u8, 80, 255]);
    let scaled = resize(&source, 2, 2);
    assert_eq!(pixel(&scaled, 0, 0), [20, 20, 80, 255]);
    assert_eq!(pixel(&scaled, 1, 1), [100, 100, 80, 255]);
}

#[test]
fn constant_image_and_edge_dimensions_are_preserved() {
    for (w, h) in [(1, 1), (7, 3), (1920, 1080)] {
        let source = frame(w, h, |_, _| [17, 98, 201, 255]);
        for (tw, th) in [(1, 1), (2, 2), (13, 9)] {
            let scaled = resize(&source, tw, th);
            assert!(scaled.data.chunks(4).all(|p| p == [17, 98, 201, 255]));
        }
        let same = resize(&source, w, h);
        assert_eq!(same.data, source.data);
        assert_eq!((same.width, same.height), (w, h));
    }
}

#[test]
fn upscale_interpolates_between_neighbours() {
    let source = frame(2, 1, |x, _| [(x * 200) as u8, 0, 0, 10]);
    let scaled = resize(&source, 4, 1);
    assert_eq!(scaled.data.len(), 16);
    assert_eq!(pixel(&scaled, 0, 0), [0, 0, 0, 255]);
    assert_eq!(pixel(&scaled, 1, 0), [50, 0, 0, 255]);
    assert_eq!(pixel(&scaled, 2, 0), [150, 0, 0, 255]);
    assert_eq!(pixel(&scaled, 3, 0), [200, 0, 0, 255]);
}

#[test]
fn scaled_channels_stay_within_source_range() {
    let source = frame(5, 3, |x, y| [(30 + x * 20) as u8, (200 - y * 50) as u8, ((x * 37 + y * 11) % 90 + 60) as u8, 7]);
    for (tw, th) in [(2, 2), (9, 7), (3, 1)] {
        let scaled = resize(&source, tw, th);
        for ch in 0..3 {
            let values: Vec<u8> = source.data.iter().skip(ch).step_by(4).copied().collect();
            let (lo, hi) = (*values.iter().min().unwrap(), *values.iter().max().unwrap());
            assert!(scaled.data.iter().skip(ch).step_by(4).all(|v| lo <= *v && *v <= hi));
        }
        assert!(scaled.data.iter().skip(3).step_by(4).all(|v| *v == 255));
    }
}
