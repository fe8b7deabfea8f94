use chama_optics::exif_impl::{simplify_exif_string, OriginalExif, SimplifiedExif, TextTag};
use chama_optics::orientation::Orientation;

fn with_lens(fnumber: &str, lens: &str) -> SimplifiedExif {
    let mut e = SimplifiedExif::default();
    e.fnumber = fnumber.to_string();
    e.lens_model = lens.to_string();
    e
}

#[test]
fn recovers_aperture_from_lens_model() {
    let mut e = with_lens("", "AF 35mm F1.4");
    assert!(e.replace_with_fnumber_alt_when_invalid());
    assert_eq!(e.fnumber, "1.4");
}

#[test]
fn recovers_wide_end_of_aperture_range() {
    let mut e = with_lens("0", "F3.5-5.6");
    assert_eq!(e.extract_fnumber_from_lens(), Some("3.5".to_string()));
    assert!(e.replace_with_fnumber_alt_when_invalid());
    assert_eq!(e.fnumber, "3.5");
}

#[test]
fn aperture_after_white_space_and_lower_case() {
    let e = with_lens("", "Lens f 2.8 macro");
    assert_eq!(e.extract_fnumber_from_lens(), Some("2.8".to_string()));
    let e = with_lens("", "Lens F .95");
    assert_eq!(e.extract_fnumber_from_lens(), Some(".95".to_string()));
    let e = with_lens("", "XF16-55mm F2.8 R");
    assert_eq!(e.extract_fnumber_from_lens(), Some("2.8".to_string()));
    let e = with_lens("", "(F4)");
    assert_eq!(e.extract_fnumber_from_lens(), Some("4".to_string()));
    let e = with_lens("", "F1..4");
    assert_eq!(e.extract_fnumber_from_lens(), None);
    let e = with_lens("", "F. lens F2");
    assert_eq!(e.extract_fnumber_from_lens(), Some("2".to_string()));
    let e = with_lens("", "F.");
    assert_eq!(e.extract_fnumber_from_lens(), None);
    let e = with_lens("", "Fisheye");
    assert_eq!(e.extract_fnumber_from_lens(), None);
}

#[test]
fn zero_placeholder_fnumber_is_invalid() {
    let e = with_lens("0.00", "");
    assert_eq!(e.get_fnumber(), None);
    for placeholder in ["0", "", "F0", "0.0", "0.1", "0.2", "0.00"] {
        assert_eq!(with_lens(placeholder, "").get_fnumber(), None);
    }
}

#[test]
fn valid_fnumber_is_kept() {
    let mut e = with_lens("2.8", "AF 35mm F1.4");
    assert_eq!(e.get_fnumber(), Some("2.8".to_string()));
    assert_eq!(e.get_fnumber_alt(), Some("2.8".to_string()));
    assert!(!e.replace_with_fnumber_alt_when_invalid());
    assert_eq!(e.fnumber, "2.8");
}

#[test]
fn no_recovery_without_aperture_in_lens() {
    let mut e = with_lens("0", "Summilux");
    assert_eq!(e.get_fnumber_alt(), None);
    assert!(!e.replace_with_fnumber_alt_when_invalid());
    assert_eq!(e.fnumber, "0");
}

#[test]
fn exposure_placeholders_are_invalid() {
    let mut e = SimplifiedExif::default();
    for placeholder in ["", "0", "0.0", "0.00", "1/0", "0/1"] {
        e.exposure = placeholder.to_string();
        assert_eq!(e.get_exposure(), None);
    }
    e.exposure = "1/250".to_string();
    assert_eq!(e.get_exposure(), Some("1/250".to_string()));
}

#[test]
fn iso_in_decimal() {
    let mut e = SimplifiedExif::default();
    assert_eq!(e.get_iso(), None);
    e.iso_speed = Some(400);
    assert_eq!(e.get_iso(), Some("400".to_string()));
    e.iso_speed = Some(0);
    assert_eq!(e.get_iso(), Some("0".to_string()));
}

#[test]
fn simplify_keeps_quoted_parts() {
    assert_eq!(simplify_exif_string("\"Canon\""), "Canon");
    assert_eq!(simplify_exif_string("\"  A \" junk \"B\""), "A | B");
    assert_eq!(simplify_exif_string("\"\", \"  \", \"X\""), "X");
    assert_eq!(simplify_exif_string("\"open"), "");
    assert_eq!(simplify_exif_string("no quotes"), "");
    assert_eq!(simplify_exif_string(""), "");
}

fn sample_record() -> OriginalExif {
    let mut o = OriginalExif::none();
    o.make = Some("\"Canon\"".to_string());
    o.model = Some("\"EOS R5\"".to_string());
    o.lens_model = Some("\"RF 35mm F1.8\"".to_string());
    o.f_number = Some("0".to_string());
    o.exposure_time = Some("1/125".to_string());
    o.orientation = Some(8);
    o.standard_output_sensitivity = Some(Some(200));
    o.photographic_sensitivity = Some(Some(100));
    o
}

#[test]
fn iso_takes_first_present_field() {
    let mut o = sample_record();
    assert_eq!(o.iso_speed(), Some(200));
    o.iso_speed = Some(Some(800));
    assert_eq!(o.iso_speed(), Some(800));
    o.iso_speed = Some(None);
    assert_eq!(o.iso_speed(), None);
    o.iso_speed = None;
    o.standard_output_sensitivity = None;
    assert_eq!(o.iso_speed(), Some(100));
    assert_eq!(OriginalExif::none().iso_speed(), None);
}

#[test]
fn normalises_raw_metadata() {
    let s = SimplifiedExif::from_original(&sample_record());
    assert_eq!(s.camera_mnf, "Canon");
    assert_eq!(s.camera_model, "EOS R5");
    assert_eq!(s.lens_model, "RF 35mm F1.8");
    assert_eq!(s.fnumber, "0");
    assert_eq!(s.exposure, "1/125");
    assert_eq!(s.focal, "");
    assert_eq!(s.iso_speed, Some(200));
    assert_eq!(s.orientation, Orientation::Rotate270);
    assert!(s.is_vertical_rotated());
}

#[test]
fn empty_record_normalises_to_defaults() {
    let s = SimplifiedExif::from_original(&OriginalExif::none());
    assert_eq!(s.camera_mnf, "");
    assert_eq!(s.fnumber, "");
    assert_eq!(s.iso_speed, None);
    assert_eq!(s.orientation, Orientation::NoInfo);
    assert_eq!(OriginalExif::new(None).get_exif_value(TextTag::Make), "");
    let d = SimplifiedExif::default();
    assert_eq!(d.orientation, s.orientation);
    assert_eq!((d.camera_mnf, d.iso_speed), (s.camera_mnf, s.iso_speed));
}

/// A little-endian TIFF block with Make = "Canon" and Orientation = 6.
fn tiff_block() -> Vec<u8> {
    let mut b: Vec<u8> = vec![0x49, 0x49, 0x2A, 0x00, 0x08, 0x00, 0x00, 0x00];
    b.extend_from_slice(&[0x02, 0x00]);
    b.extend_from_slice(&[0x0F, 0x01, 0x02, 0x00, 0x06, 0x00, 0x00, 0x00, 0x26, 0x00, 0x00, 0x00]);
    b.extend_from_slice(&[0x12, 0x01, 0x03, 0x00, 0x01, 0x00, 0x00, 0x00, 0x06, 0x00, 0x00, 0x00]);
    b.extend_from_slice(&[0x00, 0x00, 0x00, 0x00]);
    b.extend_from_slice(b"Canon\0");
    b
}

#[test]
fn reads_fields_from_parsed_metadata() {
    let exif = exif::Reader::new().read_raw(tiff_block()).expect("valid TIFF block");
    let o = OriginalExif::new(Some(exif));
    assert_eq!(o.orientation, Some(6));
    assert_eq!(o.orientation(), Orientation::Rotate90);
    assert_eq!(o.camera_mnf(), "Canon");
    assert!(o.make.as_deref().unwrap_or("").contains("Canon"));
    assert_eq!(o.model, None);
    assert_eq!(o.iso_speed(), None);
}

#[test]
fn orientation_values() {
    assert_eq!(Orientation::from_tiff(0), Orientation::NoInfo);
    assert_eq!(Orientation::from_tiff(1), Orientation::Normal);
    assert_eq!(Orientation::from_tiff(8), Orientation::Rotate270);
    assert_eq!(Orientation::from_tiff(9), Orientation::Reserved(9));
    assert_eq!(Orientation::from_tiff(5).to_tiff(), 5);
    assert!(!Orientation::Transpose.is_vertical_rotated());
    assert!(Orientation::Rotate270.is_vertical_rotated());
    assert_eq!(Orientation::Rotate90.description(), "row 0 at right and column 0 at top");
    assert_eq!(Orientation::Reserved(42).description(), "reserved orientation value");
}
