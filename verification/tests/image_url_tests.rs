use keyboard_windows::image_url::{
    clipboard_image_url, image_url_from_jpeg, jpeg_url, ImageUrlError,
};

fn bmp_2x2() -> Vec<u8> {
    let mut b = Vec::new();
    b.extend_from_slice(b"BM");
    b.extend_from_slice(&70u32.to_le_bytes());
    b.extend_from_slice(&[0, 0, 0, 0]);
    b.extend_from_slice(&54u32.to_le_bytes());
    b.extend_from_slice(&40u32.to_le_bytes());
    b.extend_from_slice(&2i32.to_le_bytes());
    b.extend_from_slice(&2i32.to_le_bytes());
    b.extend_from_slice(&1u16.to_le_bytes());
    b.extend_from_slice(&24u16.to_le_bytes());
    b.extend_from_slice(&0u32.to_le_bytes());
    b.extend_from_slice(&16u32.to_le_bytes());
    b.extend_from_slice(&2835u32.to_le_bytes());
    b.extend_from_slice(&2835u32.to_le_bytes());
    b.extend_from_slice(&0u32.to_le_bytes());
    b.extend_from_slice(&0u32.to_le_bytes());
    for _ in 0..2 {
        b.extend_from_slice(&[0, 0, 255, 0, 255, 0, 0, 0]);
    }
    assert_eq!(b.len(), 70);
    b
}

#[test]
fn base64_urls() {
    assert_eq!(jpeg_url(b""), Ok("data:image/jpeg;base64,".to_string()));
    assert_eq!(jpeg_url(b"M"), Ok("data:image/jpeg;base64,TQ==".to_string()));
    assert_eq!(jpeg_url(b"Ma"), Ok("data:image/jpeg;base64,TWE=".to_string()));
    assert_eq!(jpeg_url(b"Man"), Ok("data:image/jpeg;base64,TWFu".to_string()));
    let all: Vec<u8> = (0..=255u8).collect();
    let url = jpeg_url(&all).unwrap();
    assert!(url.starts_with("data:image/jpeg;base64,AAECAwQFBgcICQoLDA0O"));
    assert_eq!(url.len() - "data:image/jpeg;base64,".len(), 4 * 86);
    assert!(url.ends_with("+/w=="));
}

#[test]
fn urls_from_conversion_results() {
    assert_eq!(image_url_from_jpeg(0, None), Ok(None));
    assert_eq!(image_url_from_jpeg(3, None), Err(ImageUrlError::Conversion));
    assert_eq!(
        image_url_from_jpeg(3, Some(vec![0xFF, 0xD8, 0xFF])),
        Ok(Some("data:image/jpeg;base64,/9j/".to_string()))
    );
}

#[test]
fn clipboard_bitmaps() {
    assert_eq!(clipboard_image_url(&[]), Ok(None));
    assert_eq!(clipboard_image_url(b"not a bitmap"), Err(ImageUrlError::Conversion));
    let url = clipboard_image_url(&bmp_2x2()).unwrap().unwrap();
    assert!(url.starts_with("data:image/jpeg;base64,/9j/"));
    assert!(url.len() > "data:image/jpeg;base64,/9j/".len() + 16);
}
