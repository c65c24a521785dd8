use rustops::icone::carregar_icone;

fn png(largura: u32, altura: u32, pixels: Vec<u8>) -> Vec<u8> {
    let imagem: image::RgbaImage = image::ImageBuffer::from_raw(largura, altura, pixels).unwrap();
    let mut bytes = std::io::Cursor::new(Vec::new());
    imagem.write_to(&mut bytes, image::ImageFormat::Png).unwrap();
    bytes.into_inner()
}

#[test]
fn icon_pixels_decoded() {
    let pixels = vec![255, 0, 0, 255, 0, 255, 0, 128];
    let icone = carregar_icone(&png(2, 1, pixels.clone())).unwrap();
    assert_eq!(icone.largura, 2);
    assert_eq!(icone.altura, 1);
    assert_eq!(icone.rgba, pixels);
}

#[test]
fn icon_not_an_image() {
    assert!(carregar_icone(b"not an image").is_none());
    assert!(carregar_icone(&[]).is_none());
}
