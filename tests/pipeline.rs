use chama_optics::decode::{
    after_fallback, after_primary, decode_primary, heif_to_rgba, DecodeError, DecodeStep,
    HeifColorSpace, PrimaryFailure,
};
use chama_optics::export_config::{ExportConfig, ImportConfig, Language, OutputName};
use chama_optics::orientation::Orientation;
use chama_optics::output_format::{encode_png, EncodeStep, OutputExtension, OutputFormat};
use chama_optics::pixels::{
    apply_orientation, crop, gen_thumbnail, resize_image, to_rgb8, with_scale_and_orientation,
    RgbaImage, ResizeError,
};
use chama_optics::scale_config::{ScaleConfig, ScaleMode};

fn gradient(width: u32, height: u32) -> RgbaImage {
    let mut data = Vec::new();
    for y in 0..height {
        for x in 0..width {
            data.extend_from_slice(&[(x * 10) as u8, (y * 10) as u8, 7, 200]);
        }
    }
    RgbaImage { width, height, data }
}

#[test]
fn output_format_descriptors() {
    let f = OutputFormat::default();
    assert_eq!(f.ext, OutputExtension::Webp);
    assert_eq!(f.quality, 90);
    assert_eq!(f.extension(), "webp");
    assert!(f.has_quality());
    let png = OutputFormat { ext: OutputExtension::PngOptimized, quality: 90 };
    assert_eq!(png.extension(), "png");
    assert!(!png.has_quality());
    assert_eq!(OutputExtension::Jpeg.extension(), "jpg");
    assert_eq!(OutputExtension::Jpeg.label(), "JPEG");
}

#[test]
fn exported_file_name() {
    let mut cfg = ExportConfig::with_folder("/tmp/out".to_string());
    assert_eq!(cfg.prepostfixed_filename("IMG_0001"), "IMG_0001-OPTICS.webp");
    cfg.output_name.prefix = "x-".to_string();
    cfg.output_format.ext = OutputExtension::Jpeg;
    assert_eq!(cfg.prepostfixed_filename("a"), "x-a-OPTICS.jpg");
    assert_eq!(cfg.scale_config, ScaleConfig::default());
    let name = OutputName::with_folder("/home".to_string());
    assert_eq!(name.postfix, "-OPTICS");
    assert!(!name.remove_after_bulk_save);
}

#[test]
fn small_settings() {
    assert!(!ImportConfig::default().get_alt_fnumber);
    assert_eq!(Language::default().into_str(), "en");
    assert_eq!(Language::Ko.into_str(), "ko");
}

#[test]
fn rgb_drops_alpha() {
    let img = gradient(2, 1);
    assert_eq!(to_rgb8(&img), vec![0, 0, 7, 10, 0, 7]);
    let input = OutputFormat::default().encoder_input(&img);
    assert_eq!(input.rgb, vec![0, 0, 7, 10, 0, 7]);
    assert_eq!((input.width, input.height, input.quality), (2, 1, 90));
}

#[test]
fn png_round_trip_through_primary_decoder() {
    let img = gradient(3, 2);
    let format = OutputFormat { ext: OutputExtension::PngOptimized, quality: 0 };
    let bytes = encode_png(&format.encoder_input(&img)).expect("png");
    assert_eq!(&bytes[..4], &[137, 80, 78, 71]);
    let (decoded, has_hint) = decode_primary(&bytes, Some("png"));
    assert!(has_hint);
    let decoded = decoded.expect("decodes");
    assert_eq!((decoded.width, decoded.height), (3, 2));
    assert_eq!(&decoded.data[..4], &[0, 0, 7, 255]);
}

#[test]
fn extension_hint_ignores_ascii_case() {
    let img = gradient(2, 2);
    let format = OutputFormat { ext: OutputExtension::PngOptimized, quality: 0 };
    let bytes = encode_png(&format.encoder_input(&img)).expect("png");
    let (decoded, has_hint) = decode_primary(&bytes, Some("PNG"));
    assert!(has_hint);
    assert_eq!(decoded.expect("decodes").data, img.data.iter().enumerate().map(|(i, v)| if i % 4 == 3 { 255 } else { *v }).collect::<Vec<u8>>());
    let (_, has_hint) = decode_primary(&bytes, Some("JfIf"));
    assert!(has_hint);
    let (decoded, has_hint) = decode_primary(&bytes, Some("raw"));
    assert!(!has_hint);
    assert!(matches!(decoded, Err(PrimaryFailure::Unsupported(_))));
}

#[test]
fn codec_choice() {
    let img = gradient(2, 1);
    let png = OutputFormat { ext: OutputExtension::PngOptimized, quality: 0 };
    match png.encode_image(&img).expect("png") {
        EncodeStep::Done(bytes) => assert_eq!(&bytes[..4], &[137, 80, 78, 71]),
        EncodeStep::Lossy(_) => panic!("PNG is encoded by the library"),
    }
    let jpeg = OutputFormat { ext: OutputExtension::Jpeg, quality: 75 };
    match jpeg.encode_image(&img).expect("jpeg input") {
        EncodeStep::Lossy(input) => {
            assert_eq!(input.ext, OutputExtension::Jpeg);
            assert_eq!(input.quality, 75);
            assert_eq!(input.rgb, vec![0, 0, 7, 10, 0, 7]);
        }
        EncodeStep::Done(_) => panic!("JPEG goes to its encoder"),
    }
    let empty = RgbaImage { width: 0, height: 3, data: Vec::new() };
    assert!(png.encode_image(&empty).is_err());
}

#[test]
fn primary_without_hint_leads_to_fallback() {
    let (result, has_hint) = decode_primary(&[1, 2, 3, 4], None);
    assert!(!has_hint);
    match after_primary(result, has_hint) {
        DecodeStep::TryFallback(_) => {}
        _ => panic!("expected the fallback"),
    }
    let (result, has_hint) = decode_primary(&[1, 2, 3, 4], Some("heic"));
    assert!(!has_hint);
    assert!(matches!(after_primary(result, has_hint), DecodeStep::TryFallback(_)));
}

#[test]
fn primary_with_hint_does_not_fall_back() {
    let (result, has_hint) = decode_primary(&[1, 2, 3, 4], Some("png"));
    assert!(has_hint);
    assert!(matches!(after_primary(result, has_hint), DecodeStep::Failed(_)));
    let step = after_primary(Err(PrimaryFailure::Unsupported("u".to_string())), true);
    assert!(matches!(step, DecodeStep::Failed(DecodeError::Unsupported(_))));
    let step = after_primary(Err(PrimaryFailure::Other("o".to_string())), false);
    assert!(matches!(step, DecodeStep::Failed(DecodeError::Failed(_))));
    let step = after_primary(Ok(gradient(1, 1)), false);
    assert!(matches!(step, DecodeStep::Decoded(_)));
}

#[test]
fn failed_fallback_keeps_both_errors() {
    let r = after_fallback("primary".to_string(), Err(DecodeError::Fallback("heif".to_string())));
    match r {
        Err(DecodeError::FallbackFailed { unsupported, fallback }) => {
            assert_eq!(unsupported, "primary");
            assert!(matches!(*fallback, DecodeError::Fallback(_)));
        }
        _ => panic!("expected FallbackFailed"),
    }
    assert!(after_fallback("p".to_string(), Ok(gradient(1, 1))).is_ok());
}

#[test]
fn heif_planes_widen_to_rgba() {
    let mono = heif_to_rgba(HeifColorSpace::Monochrome, Some(8), 2, 1, Some(vec![10, 20])).unwrap();
    assert_eq!(mono.data, vec![10, 10, 10, 255, 20, 20, 20, 255]);
    let rgb = heif_to_rgba(HeifColorSpace::Rgb, Some(255), 1, 1, Some(vec![1, 2, 3])).unwrap();
    assert_eq!(rgb.data, vec![1, 2, 3, 255]);
    let rgba = heif_to_rgba(HeifColorSpace::Rgba, Some(8), 1, 1, Some(vec![1, 2, 3, 4, 9])).unwrap();
    assert_eq!(rgba.data, vec![1, 2, 3, 4]);
}

#[test]
fn heif_planes_rejected() {
    let r = heif_to_rgba(HeifColorSpace::Other, Some(8), 1, 1, Some(vec![0; 4]));
    assert!(matches!(r, Err(DecodeError::UnsupportedColorSpace)));
    let r = heif_to_rgba(HeifColorSpace::Rgb, Some(10), 1, 1, Some(vec![0; 6]));
    assert!(matches!(r, Err(DecodeError::UnsupportedBitDepth(10))));
    let r = heif_to_rgba(HeifColorSpace::Rgb, None, 1, 1, Some(vec![0; 3]));
    assert!(matches!(r, Err(DecodeError::MissingBitDepth)));
    let r = heif_to_rgba(HeifColorSpace::Rgb, Some(8), 1, 1, None);
    assert!(matches!(r, Err(DecodeError::MissingPlane)));
    let r = heif_to_rgba(HeifColorSpace::Rgb, Some(8), 2, 1, Some(vec![0; 5]));
    assert!(matches!(r, Err(DecodeError::ShapeMismatch)));
}

#[test]
fn resampler_allocates_requested_size() {
    let img = gradient(8, 6);
    let out = resize_image(&img, 4, 3).expect("resized");
    assert_eq!((out.width, out.height), (4, 3));
    let same = resize_image(&img, 8, 6).expect("same size");
    assert_eq!(same.data, img.data);
    let up = resize_image(&img, 16, 12).expect("upscaled");
    assert_eq!(up.data.len(), 16 * 12 * 4);
    assert_eq!(out.data.len(), 4 * 3 * 4);
    assert_eq!(img.data.len(), 8 * 6 * 4);
}

#[test]
fn orientation_turns_quarter() {
    let img = gradient(3, 2);
    let turned = apply_orientation(img.clone(), Orientation::Rotate90).unwrap();
    assert_eq!((turned.width, turned.height), (2, 3));
    assert_ne!(turned.data, img.data);
    let flipped = apply_orientation(img.clone(), Orientation::Rotate180).unwrap();
    assert_eq!((flipped.width, flipped.height), (3, 2));
    assert_eq!(&flipped.data[..4], &img.data[img.data.len() - 4..]);
    let same = apply_orientation(img.clone(), Orientation::NoInfo).unwrap();
    assert_eq!(same.data, img.data);
}

#[test]
fn crop_takes_region() {
    let img = gradient(4, 4);
    let out = crop(img, 1, 2, 2, 2).unwrap();
    assert_eq!((out.width, out.height), (2, 2));
    assert_eq!(&out.data[..4], &[10, 20, 7, 200]);
    assert_eq!(&out.data[12..16], &[20, 30, 7, 200]);
}

#[test]
fn thumbnail_has_fixed_size() {
    let t = gen_thumbnail(&gradient(40, 30), Orientation::Rotate90).unwrap();
    assert_eq!((t.width, t.height), (330, 220));
    let t = gen_thumbnail(&gradient(12, 30), Orientation::Normal).unwrap();
    assert_eq!((t.width, t.height), (330, 220));
    let t = gen_thumbnail(&gradient(40, 30), Orientation::Transpose).unwrap();
    assert_eq!((t.width, t.height), (330, 220));
    let t = gen_thumbnail(&gradient(1, 1), Orientation::Transverse).unwrap();
    assert_eq!((t.width, t.height), (330, 220));
    assert!(gen_thumbnail(&gradient(0, 30), Orientation::Normal).is_err());
}

#[test]
fn rotated_image_is_planned_on_its_upright_sides() {
    let scale = ScaleConfig { mode: ScaleMode::MaxWidth, value: 10, sub_value: 0 };
    let out = with_scale_and_orientation(&gradient(40, 30), scale, Orientation::from_tiff(6)).unwrap();
    assert_eq!((out.width, out.height), (10, 13));
}

#[test]
fn unplannable_scale_is_an_error() {
    let scale = ScaleConfig { mode: ScaleMode::NearCommonDivisorConsiderWidth, value: 10, sub_value: 0 };
    let r = with_scale_and_orientation(&gradient(0, 3), scale, Orientation::Normal);
    assert!(matches!(r, Err(ResizeError::Unplannable)));
}

#[test]
fn language_of_locale() {
    assert_eq!(Language::from_locale("ko-KR"), Language::Ko);
    assert_eq!(Language::from_locale("ko_KR.UTF-8"), Language::Ko);
    assert_eq!(Language::from_locale("en-US"), Language::En);
    assert_eq!(Language::from_locale("fr"), Language::En);
    assert_eq!(Language::from_locale("KO"), Language::En);
    assert_eq!(Language::from_locale(""), Language::En);
}

#[test]
fn other_known_formats_have_decoders() {
    for ext in ["tiff", "gif", "bmp", "webp"] {
        let (result, has_hint) = decode_primary(&[1, 2, 3, 4], Some(ext));
        assert!(has_hint);
        assert!(matches!(result, Err(PrimaryFailure::Other(_))), "{ext}");
    }
}

#[test]
fn thumbnail_is_centre_of_turned_cover() {
    let t = gen_thumbnail(&RgbaImage { width: 1, height: 1, data: vec![9, 8, 7, 255] }, Orientation::Rotate90).unwrap();
    assert_eq!(t.data.len(), 330 * 220 * 4);
    assert!(t.data.chunks(4).all(|p| p == [9, 8, 7, 255]));
}
