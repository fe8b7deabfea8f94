use vstd::prelude::*;

use crate::orientation::{orientation_of_tiff, spec_is_vertical_rotated, Orientation};
use crate::text::{
    decimal, join, lemma_join_push, same_text, trim_str, trimmed, u32_to_decimal,
};

verus! {

/// The view of an optional string.
pub open spec fn opt_view(o: Option<String>) -> Option<Seq<char>> {
    match o {
        Some(s) => Some(s@),
        None => None,
    }
}

/// The text of an optional string, empty where it is absent.
pub open spec fn text_or_empty(o: Option<String>) -> Seq<char> {
    match o {
        Some(s) => s@,
        None => Seq::empty(),
    }
}

// ---------------------------------------------------------------------------
// Quoted-segment cleanup

/// The state after reading the first `n` characters of `s`: whether a quote is
/// open, where the open quote's content starts, and the trimmed, non-empty
/// contents of the quotes closed so far.
pub open spec fn quote_scan(s: Seq<char>, n: nat) -> (bool, int, Seq<Seq<char>>)
    decreases n,
{
    if n == 0 || n > s.len() {
        (false, 0, Seq::empty())
    } else {
        let prev = quote_scan(s, (n - 1) as nat);
        if s[n - 1] != '"' {
            prev
        } else if prev.0 {
            let t = trimmed(s.subrange(prev.1, n - 1));
            (false, prev.1, if t.len() > 0 {
                prev.2.push(t)
            } else {
                prev.2
            })
        } else {
            (true, n as int, prev.2)
        }
    }
}

/// The trimmed, non-empty contents of the closed quotes of `s`, in order.
pub open spec fn quoted_parts(s: Seq<char>) -> Seq<Seq<char>> {
    quote_scan(s, s.len()).2
}

/// A metadata display value reduced to the contents of its quotes.
pub open spec fn simplified(s: Seq<char>) -> Seq<char> {
    join(quoted_parts(s), " | "@)
}

/// Keeps only what stands between pairs of double quotes, trimmed, and joins
/// the non-empty pieces with `" | "`.
pub fn simplify_exif_string(input: &str) -> (r: String)
    ensures
        r@ == simplified(input@),
{
    let n = input.unicode_len();
    let mut out = String::new();
    let mut inside = false;
    let mut start: usize = 0;
    let mut any = false;
    let mut i: usize = 0;
    while i < n
        invariant
            n == input@.len(),
            i <= n,
            start <= i,
            quote_scan(input@, i as nat).0 == inside,
            quote_scan(input@, i as nat).1 == start as int,
            any == (quote_scan(input@, i as nat).2.len() > 0),
            out@ == join(quote_scan(input@, i as nat).2, " | "@),
        decreases n - i,
    {
        let c = input.get_char(i);
        if c == '"' {
            if inside {
                let seg = input.substring_char(start, i);
                let t = trim_str(seg);
                if t.unicode_len() > 0 {
                    proof {
                        lemma_join_push(quote_scan(input@, i as nat).2, " | "@, t@);
                    }
                    if any {
                        out.append(" | ");
                    }
                    out.append(t);
                    any = true;
                }
                inside = false;
            } else {
                inside = true;
                start = i + 1;
            }
        }
        i = i + 1;
    }
    out
}

// ---------------------------------------------------------------------------
// F-number and exposure validity

/// An f-number text that stands for no value.
pub open spec fn invalid_fnumber(s: Seq<char>) -> bool {
    s == "0"@ || s == ""@ || s == "F0"@ || s == "0.0"@ || s == "0.1"@ || s == "0.2"@ || s
        == "0.00"@
}

/// An exposure text that stands for no value.
pub open spec fn invalid_exposure(s: Seq<char>) -> bool {
    s == ""@ || s == "0"@ || s == "0.0"@ || s == "0.00"@ || s == "1/0"@ || s == "0/1"@
}

fn is_invalid_fnumber(s: &str) -> (r: bool)
    ensures
        r == invalid_fnumber(s@),
{
    same_text(s, "0") || same_text(s, "") || same_text(s, "F0") || same_text(s, "0.0")
        || same_text(s, "0.1") || same_text(s, "0.2") || same_text(s, "0.00")
}

fn is_invalid_exposure(s: &str) -> (r: bool)
    ensures
        r == invalid_exposure(s@),
{
    same_text(s, "") || same_text(s, "0") || same_text(s, "0.0") || same_text(s, "0.00")
        || same_text(s, "1/0") || same_text(s, "0/1")
}

// ---------------------------------------------------------------------------
// F-number recovery from the lens model

/// ASCII white space, as `u8::is_ascii_whitespace` defines it.
pub open spec fn is_ascii_space(c: char) -> bool {
    c == ' ' || c == '\t' || c == '\n' || c == '\x0C' || c == '\r'
}

pub open spec fn is_ascii_digit(c: char) -> bool {
    '0' <= c && c <= '9'
}

pub open spec fn is_ascii_alnum(c: char) -> bool {
    is_ascii_digit(c) || ('a' <= c && c <= 'z') || ('A' <= c && c <= 'Z')
}

/// A character of the leading part of an aperture number.
pub open spec fn is_aperture_char(c: char) -> bool {
    is_ascii_digit(c) || c == '.'
}

/// The first index from `j` on that is not ASCII white space.
pub open spec fn skip_space(s: Seq<char>, j: int) -> int
    decreases s.len() - j,
{
    if 0 <= j < s.len() && is_ascii_space(s[j]) {
        skip_space(s, j + 1)
    } else {
        j
    }
}

/// The first index from `j` on that is neither a digit nor a decimal point.
pub open spec fn aperture_end(s: Seq<char>, j: int) -> int
    decreases s.len() - j,
{
    if 0 <= j < s.len() && is_aperture_char(s[j]) {
        aperture_end(s, j + 1)
    } else {
        j
    }
}

/// How often `x` occurs in `t`.
pub open spec fn count_char(t: Seq<char>, x: char) -> nat
    decreases t.len(),
{
    if t.len() == 0 {
        0
    } else {
        count_char(t.drop_last(), x) + if t.last() == x {
            1nat
        } else {
            0nat
        }
    }
}

/// How many ASCII digits `t` holds.
pub open spec fn count_digits(t: Seq<char>) -> nat
    decreases t.len(),
{
    if t.len() == 0 {
        0
    } else {
        count_digits(t.drop_last()) + if is_ascii_digit(t.last()) {
            1nat
        } else {
            0nat
        }
    }
}

/// An aperture number: at least one digit and at most one decimal point.
pub open spec fn valid_aperture(t: Seq<char>) -> bool {
    count_digits(t) > 0 && count_char(t, '.') <= 1
}

/// Whether an `F` at index `i` starts a word: it stands first or after a
/// character that is neither an ASCII letter nor a digit (so the `F` of `AF`
/// is not read as an aperture).
pub open spec fn starts_word(s: Seq<char>, i: int) -> bool {
    i == 0 || !is_ascii_alnum(s[i - 1])
}

/// The aperture written at index `i`: an `F` or `f` that starts a word,
/// optional white space, and a number of at least one digit and at most one
/// decimal point. Of a range such as `3.5-5.6` only the part before the hyphen
/// is taken.
pub open spec fn aperture_at(s: Seq<char>, i: int) -> Option<Seq<char>> {
    let j = skip_space(s, i + 1);
    if 0 <= i < s.len() && (s[i] == 'F' || s[i] == 'f') && starts_word(s, i) && j < s.len()
        && is_aperture_char(s[j]) && valid_aperture(s.subrange(j, aperture_end(s, j))) {
        Some(s.subrange(j, aperture_end(s, j)))
    } else {
        None
    }
}

/// The first aperture written in `s` at index `i` or later.
pub open spec fn first_aperture(s: Seq<char>, i: int) -> Option<Seq<char>>
    decreases s.len() - i,
{
    if i < 0 || i >= s.len() {
        None
    } else if aperture_at(s, i) is Some {
        aperture_at(s, i)
    } else {
        first_aperture(s, i + 1)
    }
}

/// The aperture written in a lens model, if any.
pub open spec fn lens_aperture(s: Seq<char>) -> Option<Seq<char>> {
    first_aperture(s, 0)
}

fn is_space_char(c: char) -> (r: bool)
    ensures
        r == is_ascii_space(c),
{
    c == ' ' || c == '\t' || c == '\n' || c == '\x0C' || c == '\r'
}

fn is_ascii_alnum_exec(c: char) -> (r: bool)
    ensures
        r == is_ascii_alnum(c),
{
    ('0' <= c && c <= '9') || ('a' <= c && c <= 'z') || ('A' <= c && c <= 'Z')
}

fn is_aperture_char_exec(c: char) -> (r: bool)
    ensures
        r == is_aperture_char(c),
{
    ('0' <= c && c <= '9') || c == '.'
}

/// Whether the characters from `start` to `end` form an aperture number.
fn is_valid_aperture(s: &str, start: usize, end: usize) -> (r: bool)
    requires
        start <= end <= s@.len(),
    ensures
        r == valid_aperture(s@.subrange(start as int, end as int)),
{
    let mut digits: usize = 0;
    let mut dots: usize = 0;
    let mut k: usize = start;
    while k < end
        invariant
            start <= k <= end <= s@.len(),
            digits == count_digits(s@.subrange(start as int, k as int)),
            dots == count_char(s@.subrange(start as int, k as int), '.'),
            digits <= k - start,
            dots <= k - start,
        decreases end - k,
    {
        let c = s.get_char(k);
        assert(s@.subrange(start as int, k + 1).drop_last() =~= s@.subrange(start as int, k as int));
        if '0' <= c && c <= '9' {
            digits = digits + 1;
        }
        if c == '.' {
            dots = dots + 1;
        }
        k = k + 1;
    }
    digits > 0 && dots <= 1
}

/// The first aperture written in `s`, as `lens_aperture` says.
fn find_lens_aperture(s: &str) -> (r: Option<String>)
    ensures
        opt_view(r) == lens_aperture(s@),
{
    let n = s.unicode_len();
    let mut i: usize = 0;
    while i < n
        invariant
            n == s@.len(),
            i <= n,
            lens_aperture(s@) == first_aperture(s@, i as int),
        decreases n - i,
    {
        let c = s.get_char(i);
        if (c == 'F' || c == 'f') && (i == 0 || !is_ascii_alnum_exec(s.get_char(i - 1))) {
            let mut j: usize = i + 1;
            while j < n && is_space_char(s.get_char(j))
                invariant
                    n == s@.len(),
                    i < n,
                    i + 1 <= j <= n,
                    skip_space(s@, i + 1) == skip_space(s@, j as int),
                decreases n - j,
            {
                j = j + 1;
            }
            if j < n && is_aperture_char_exec(s.get_char(j)) {
                let start = j;
                while j < n && is_aperture_char_exec(s.get_char(j))
                    invariant
                        n == s@.len(),
                        start <= j <= n,
                        aperture_end(s@, start as int) == aperture_end(s@, j as int),
                    decreases n - j,
                {
                    j = j + 1;
                }
                if is_valid_aperture(s, start, j) {
                    return Some(s.substring_char(start, j).to_owned());
                }
            }
        }
        i = i + 1;
    }
    None
}

// ---------------------------------------------------------------------------
// Raw metadata

/// The metadata fields that are read as display text.
#[derive(Debug, Clone, Copy, PartialEq, Eq, Structural)]
pub enum TextTag {
    Make,
    Model,
    LensMake,
    LensModel,
    FocalLength,
    FNumber,
    ExposureTime,
    DateTime,
}

/// The metadata fields that are read as integers.
#[derive(Debug, Clone, Copy, PartialEq, Eq, Structural)]
pub enum UintTag {
    Orientation,
    ISOSpeed,
    StandardOutputSensitivity,
    PhotographicSensitivity,
}

/// The metadata of a source file as read from its primary image: the display
/// text of each text field and the first integer of each integer field that
/// is present. A file whose metadata could not be parsed has none.
#[derive(Debug, Clone)]
pub struct OriginalExif {
    pub make: Option<String>,
    pub model: Option<String>,
    pub lens_make: Option<String>,
    pub lens_model: Option<String>,
    pub focal_length: Option<String>,
    pub f_number: Option<String>,
    pub exposure_time: Option<String>,
    pub date_time: Option<String>,
    pub orientation: Option<u32>,
    /// Each sensitivity field: `None` where absent, otherwise its first value
    /// as an integer, if it holds one.
    pub iso_speed: Option<Option<u32>>,
    pub standard_output_sensitivity: Option<Option<u32>>,
    pub photographic_sensitivity: Option<Option<u32>>,
}

#[verifier::external_type_specification]
#[verifier::external_body]
pub struct ExExif(exif::Exif);

/// Relies on exif::Exif::get_field and Field::display_value: the display text
/// of a field of the primary image, if the field is present.
#[verifier::external_body]
fn exif_display(exif: &exif::Exif, tag: TextTag) -> (r: Option<String>) {
    let tag = match tag {
        TextTag::Make => exif::Tag::Make,
        TextTag::Model => exif::Tag::Model,
        TextTag::LensMake => exif::Tag::LensMake,
        TextTag::LensModel => exif::Tag::LensModel,
        TextTag::FocalLength => exif::Tag::FocalLength,
        TextTag::FNumber => exif::Tag::FNumber,
        TextTag::ExposureTime => exif::Tag::ExposureTime,
        TextTag::DateTime => exif::Tag::DateTime,
    };
    exif.get_field(tag, exif::In::PRIMARY).map(|f| f.display_value().to_string())
}

/// Relies on exif::Exif::get_field and Value::get_uint: `None` where the
/// field of the primary image is absent, otherwise its first value as an
/// integer, if it holds one.
#[verifier::external_body]
fn exif_uint(exif: &exif::Exif, tag: UintTag) -> (r: Option<Option<u32>>) {
    let tag = match tag {
        UintTag::Orientation => exif::Tag::Orientation,
        UintTag::ISOSpeed => exif::Tag::ISOSpeed,
        UintTag::StandardOutputSensitivity => exif::Tag::StandardOutputSensitivity,
        UintTag::PhotographicSensitivity => exif::Tag::PhotographicSensitivity,
    };
    exif.get_field(tag, exif::In::PRIMARY).map(|f| f.value.get_uint(0))
}

/// The ISO speed: the value of the first present of the three sensitivity
/// fields.
pub open spec fn iso_of(o: OriginalExif) -> Option<u32> {
    match (o.iso_speed, o.standard_output_sensitivity, o.photographic_sensitivity) {
        (Some(v), _, _) => v,
        (None, Some(v), _) => v,
        (None, None, Some(v)) => v,
        (None, None, None) => None,
    }
}

impl OriginalExif {
    /// The record of a file without metadata.
    pub fn none() -> (r: OriginalExif)
        ensures
            r.is_empty(),
    {
        OriginalExif {
            make: None,
            model: None,
            lens_make: None,
            lens_model: None,
            focal_length: None,
            f_number: None,
            exposure_time: None,
            date_time: None,
            orientation: None,
            iso_speed: None,
            standard_output_sensitivity: None,
            photographic_sensitivity: None,
        }
    }

    /// No field is present.
    pub open spec fn is_empty(&self) -> bool {
        &&& self.make is None
        &&& self.model is None
        &&& self.lens_make is None
        &&& self.lens_model is None
        &&& self.focal_length is None
        &&& self.f_number is None
        &&& self.exposure_time is None
        &&& self.date_time is None
        &&& self.orientation is None
        &&& self.iso_speed is None
        &&& self.standard_output_sensitivity is None
        &&& self.photographic_sensitivity is None
    }

    /// Reads the fields that the pipeline uses from parsed metadata.
    pub fn new_with_exif(exif: &exif::Exif) -> (r: OriginalExif) {
        OriginalExif {
            make: exif_display(exif, TextTag::Make),
            model: exif_display(exif, TextTag::Model),
            lens_make: exif_display(exif, TextTag::LensMake),
            lens_model: exif_display(exif, TextTag::LensModel),
            focal_length: exif_display(exif, TextTag::FocalLength),
            f_number: exif_display(exif, TextTag::FNumber),
            exposure_time: exif_display(exif, TextTag::ExposureTime),
            date_time: exif_display(exif, TextTag::DateTime),
            orientation: match exif_uint(exif, UintTag::Orientation) {
                Some(v) => v,
                None => None,
            },
            iso_speed: exif_uint(exif, UintTag::ISOSpeed),
            standard_output_sensitivity: exif_uint(exif, UintTag::StandardOutputSensitivity),
            photographic_sensitivity: exif_uint(exif, UintTag::PhotographicSensitivity),
        }
    }

    /// The record of parsed metadata, or the empty record where parsing failed.
    pub fn new(exif_or_none: Option<exif::Exif>) -> (r: OriginalExif)
        ensures
            exif_or_none is None ==> r.is_empty(),
    {
        match exif_or_none {
            Some(exif) => OriginalExif::new_with_exif(&exif),
            None => OriginalExif::none(),
        }
    }

    /// The text field named by `tag`, if present.
    pub open spec fn text_field(&self, tag: TextTag) -> Option<String> {
        match tag {
            TextTag::Make => self.make,
            TextTag::Model => self.model,
            TextTag::LensMake => self.lens_make,
            TextTag::LensModel => self.lens_model,
            TextTag::FocalLength => self.focal_length,
            TextTag::FNumber => self.f_number,
            TextTag::ExposureTime => self.exposure_time,
            TextTag::DateTime => self.date_time,
        }
    }

    fn text_field_ref(&self, tag: TextTag) -> (r: &Option<String>)
        ensures
            *r == self.text_field(tag),
    {
        match tag {
            TextTag::Make => &self.make,
            TextTag::Model => &self.model,
            TextTag::LensMake => &self.lens_make,
            TextTag::LensModel => &self.lens_model,
            TextTag::FocalLength => &self.focal_length,
            TextTag::FNumber => &self.f_number,
            TextTag::ExposureTime => &self.exposure_time,
            TextTag::DateTime => &self.date_time,
        }
    }

    /// The display text of a field, empty where it is absent.
    pub fn get_exif_value(&self, tag: TextTag) -> (r: String)
        ensures
            r@ == text_or_empty(self.text_field(tag)),
    {
        match self.text_field_ref(tag) {
            Some(s) => s.clone(),
            None => String::new(),
        }
    }

    /// The display text of a field reduced to the contents of its quotes,
    /// empty where it is absent.
    pub fn get_exif_trim_string(&self, tag: TextTag) -> (r: String)
        ensures
            r@ == (match self.text_field(tag) {
                Some(s) => simplified(s@),
                None => Seq::empty(),
            }),
    {
        match self.text_field_ref(tag) {
            Some(s) => simplify_exif_string(s.as_str()),
            None => String::new(),
        }
    }

    /// The orientation; an absent field reads as 0.
    pub fn orientation(&self) -> (r: Orientation)
        ensures
            r == orientation_of_tiff(
                match self.orientation {
                    Some(v) => v,
                    None => 0,
                },
            ),
    {
        match self.orientation {
            Some(v) => Orientation::from_tiff(v),
            None => Orientation::from_tiff(0),
        }
    }

    /// Manufacturer of the camera.
    pub fn camera_mnf(&self) -> (r: String)
        ensures
            r@ == (match self.make {
                Some(s) => simplified(s@),
                None => Seq::empty(),
            }),
    {
        self.get_exif_trim_string(TextTag::Make)
    }

    /// Model of the camera.
    pub fn camera_model(&self) -> (r: String)
        ensures
            r@ == (match self.model {
                Some(s) => simplified(s@),
                None => Seq::empty(),
            }),
    {
        self.get_exif_trim_string(TextTag::Model)
    }

    /// Manufacturer of the lens.
    pub fn lens_mnf(&self) -> (r: String)
        ensures
            r@ == (match self.lens_make {
                Some(s) => simplified(s@),
                None => Seq::empty(),
            }),
    {
        self.get_exif_trim_string(TextTag::LensMake)
    }

    /// Model of the lens.
    pub fn lens_model(&self) -> (r: String)
        ensures
            r@ == (match self.lens_model {
                Some(s) => simplified(s@),
                None => Seq::empty(),
            }),
    {
        self.get_exif_trim_string(TextTag::LensModel)
    }

    /// Focal length.
    pub fn focal(&self) -> (r: String)
        ensures
            r@ == text_or_empty(self.focal_length),
    {
        self.get_exif_value(TextTag::FocalLength)
    }

    /// Aperture (f-number).
    pub fn fnumber(&self) -> (r: String)
        ensures
            r@ == text_or_empty(self.f_number),
    {
        self.get_exif_value(TextTag::FNumber)
    }

    /// Exposure time.
    pub fn exposure(&self) -> (r: String)
        ensures
            r@ == text_or_empty(self.exposure_time),
    {
        self.get_exif_value(TextTag::ExposureTime)
    }

    /// ISO speed: the value of the first present of the ISO speed, standard
    /// output sensitivity and photographic sensitivity fields.
    pub fn iso_speed(&self) -> (r: Option<u32>)
        ensures
            r == iso_of(*self),
    {
        match (self.iso_speed, self.standard_output_sensitivity, self.photographic_sensitivity) {
            (Some(v), _, _) => v,
            (None, Some(v), _) => v,
            (None, None, Some(v)) => v,
            (None, None, None) => None,
        }
    }

    /// Date and time of capture.
    pub fn datetime(&self) -> (r: String)
        ensures
            r@ == text_or_empty(self.date_time),
    {
        self.get_exif_value(TextTag::DateTime)
    }
}

// ---------------------------------------------------------------------------
// The editable record

/// The flat, editable metadata of an imported image.
#[derive(Debug, Clone)]
pub struct SimplifiedExif {
    pub camera_mnf: String,
    pub camera_model: String,
    pub lens_model: String,
    pub focal: String,
    pub fnumber: String,
    pub exposure: String,
    pub iso_speed: Option<u32>,
    pub datetime: String,
    pub orientation: Orientation,
}

impl Default for SimplifiedExif {
    fn default() -> (r: SimplifiedExif)
        ensures
            r.camera_mnf@.len() == 0,
            r.camera_model@.len() == 0,
            r.lens_model@.len() == 0,
            r.focal@.len() == 0,
            r.fnumber@.len() == 0,
            r.exposure@.len() == 0,
            r.iso_speed is None,
            r.datetime@.len() == 0,
            r.orientation == Orientation::NoInfo,
    {
        SimplifiedExif {
            camera_mnf: String::new(),
            camera_model: String::new(),
            lens_model: String::new(),
            focal: String::new(),
            fnumber: String::new(),
            exposure: String::new(),
            iso_speed: None,
            datetime: String::new(),
            orientation: Orientation::NoInfo,
        }
    }
}

/// The ISO speed as text, if known.
pub open spec fn iso_text(iso: Option<u32>) -> Option<Seq<char>> {
    match iso {
        Some(v) => Some(decimal(v as nat)),
        None => None,
    }
}

impl SimplifiedExif {
    /// Normalises raw metadata into the editable record.
    pub fn from_original(value: &OriginalExif) -> (r: SimplifiedExif)
        ensures
            r.camera_mnf@ == (match value.make {
                Some(s) => simplified(s@),
                None => Seq::empty(),
            }),
            r.camera_model@ == (match value.model {
                Some(s) => simplified(s@),
                None => Seq::empty(),
            }),
            r.lens_model@ == (match value.lens_model {
                Some(s) => simplified(s@),
                None => Seq::empty(),
            }),
            r.focal@ == text_or_empty(value.focal_length),
            r.fnumber@ == text_or_empty(value.f_number),
            r.exposure@ == text_or_empty(value.exposure_time),
            r.iso_speed == iso_of(*value),
            r.datetime@ == text_or_empty(value.date_time),
            r.orientation == orientation_of_tiff(
                match value.orientation {
                    Some(v) => v,
                    None => 0,
                },
            ),
    {
        SimplifiedExif {
            camera_mnf: value.camera_mnf(),
            camera_model: value.camera_model(),
            lens_model: value.lens_model(),
            focal: value.focal(),
            fnumber: value.fnumber(),
            exposure: value.exposure(),
            iso_speed: value.iso_speed(),
            datetime: value.datetime(),
            orientation: value.orientation(),
        }
    }

    /// The f-number, unless it is empty or a placeholder for zero.
    pub fn get_fnumber(&self) -> (r: Option<String>)
        ensures
            opt_view(r) == (if invalid_fnumber(self.fnumber@) {
                None
            } else {
                Some(self.fnumber@)
            }),
    {
        if is_invalid_fnumber(self.fnumber.as_str()) {
            None
        } else {
            Some(self.fnumber.clone())
        }
    }

    /// The aperture written in the lens model, such as `1.4` in
    /// `AF 35mm F1.4`, or `3.5` in `F3.5-5.6`.
    pub fn extract_fnumber_from_lens(&self) -> (r: Option<String>)
        ensures
            opt_view(r) == lens_aperture(self.lens_model@),
    {
        find_lens_aperture(self.lens_model.as_str())
    }

    /// The f-number, or where it is invalid the aperture in the lens model.
    pub fn get_fnumber_alt(&self) -> (r: Option<String>)
        ensures
            opt_view(r) == (if invalid_fnumber(self.fnumber@) {
                lens_aperture(self.lens_model@)
            } else {
                Some(self.fnumber@)
            }),
    {
        match self.get_fnumber() {
            None => self.extract_fnumber_from_lens(),
            x => x,
        }
    }

    /// Where the f-number is invalid and the lens model names an aperture,
    /// takes that aperture as the f-number and returns `true`; otherwise
    /// changes nothing and returns `false`.
    pub fn replace_with_fnumber_alt_when_invalid(&mut self) -> (r: bool)
        ensures
            r == (invalid_fnumber(old(self).fnumber@) && lens_aperture(old(self).lens_model@) is Some),
            r ==> Some(final(self).fnumber@) == lens_aperture(old(self).lens_model@),
            !r ==> final(self).fnumber == old(self).fnumber,
            final(self).camera_mnf == old(self).camera_mnf,
            final(self).camera_model == old(self).camera_model,
            final(self).lens_model == old(self).lens_model,
            final(self).focal == old(self).focal,
            final(self).exposure == old(self).exposure,
            final(self).iso_speed == old(self).iso_speed,
            final(self).datetime == old(self).datetime,
            final(self).orientation == old(self).orientation,
    {
        if self.get_fnumber().is_none() {
            if let Some(x) = self.get_fnumber_alt() {
                self.fnumber = x;
                return true;
            }
        }
        false
    }

    /// The exposure time, unless it is empty or a placeholder for zero.
    pub fn get_exposure(&self) -> (r: Option<String>)
        ensures
            opt_view(r) == (if invalid_exposure(self.exposure@) {
                None
            } else {
                Some(self.exposure@)
            }),
    {
        if is_invalid_exposure(self.exposure.as_str()) {
            None
        } else {
            Some(self.exposure.clone())
        }
    }

    /// The ISO speed in decimal, if known.
    pub fn get_iso(&self) -> (r: Option<String>)
        ensures
            opt_view(r) == iso_text(self.iso_speed),
    {
        match self.iso_speed {
            Some(v) => Some(u32_to_decimal(v)),
            None => None,
        }
    }

    pub fn is_vertical_rotated(&self) -> (r: bool)
        ensures
            r == spec_is_vertical_rotated(self.orientation),
    {
        self.orientation.is_vertical_rotated()
    }
}

} // verus!
