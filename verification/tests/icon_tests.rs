use keyboard_windows::icon::{gen_icon_rgba, level_to_rgba, LogLevel, ICON_SIZE};

#[test]
fn level_colours() {
    assert_eq!(level_to_rgba(LogLevel::Error), [255, 0, 0, 255]);
    assert_eq!(level_to_rgba(LogLevel::Warn), [255, 0xAE, 0x42, 255]);
    assert_eq!(level_to_rgba(LogLevel::Info), [0, 255, 0, 255]);
    assert_eq!(level_to_rgba(LogLevel::Debug), [105, 105, 105, 255]);
    assert_eq!(level_to_rgba(LogLevel::Trace), [255, 255, 255, 255]);
}

fn pixel(rgba: &[u8], x: usize, y: usize) -> [u8; 4] {
    let i = 4 * (y * ICON_SIZE + x);
    [rgba[i], rgba[i + 1], rgba[i + 2], rgba[i + 3]]
}

#[test]
fn icon_is_a_disc() {
    let color = [1, 2, 3, 4];
    let rgba = gen_icon_rgba(color);
    assert_eq!(rgba.len(), 4 * 32 * 32);
    assert_eq!(pixel(&rgba, 16, 16), color);
    assert_eq!(pixel(&rgba, 1, 16), color);
    assert_eq!(pixel(&rgba, 31, 16), color);
    assert_eq!(pixel(&rgba, 16, 1), color);
    assert_eq!(pixel(&rgba, 0, 16), [0; 4]);
    assert_eq!(pixel(&rgba, 0, 0), [0; 4]);
    assert_eq!(pixel(&rgba, 31, 31), [0; 4]);
    assert_eq!(pixel(&rgba, 27, 27), [0; 4]);
    assert_eq!(pixel(&rgba, 26, 26), color);
    let mut inside = 0;
    for y in 0..32i32 {
        for x in 0..32i32 {
            let on_disc = (x - 16) * (x - 16) + (y - 16) * (y - 16) <= 225;
            let p = pixel(&rgba, x as usize, y as usize);
            assert_eq!(p, if on_disc { color } else { [0; 4] });
            inside += on_disc as u32;
        }
    }
    assert_eq!(inside, 709);
}
