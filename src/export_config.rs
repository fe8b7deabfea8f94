use vstd::prelude::*;

use crate::output_format::OutputFormat;
use crate::scale_config::ScaleConfig;
use crate::theme::{available_themes, ThemeRegistry};

verus! {

/// Where and under which name exported files are written.
#[derive(Debug, Clone)]
pub struct OutputName {
    pub prefix: String,
    pub postfix: String,
    /// The target folder.
    pub folder: String,
    /// Remove the imported images from the list after a bulk export.
    pub remove_after_bulk_save: bool,
}

impl OutputName {
    /// No prefix, the postfix `-OPTICS`, and the given folder.
    pub fn with_folder(folder: String) -> (r: OutputName)
        ensures
            r.prefix@ == Seq::<char>::empty(),
            r.postfix@ == "-OPTICS"@,
            r.folder == folder,
            !r.remove_after_bulk_save,
    {
        OutputName {
            prefix: String::new(),
            postfix: String::from_str("-OPTICS"),
            folder,
            remove_after_bulk_save: false,
        }
    }
}

/// The name of an exported file: prefix, the source file's stem, postfix, a
/// dot and the codec's extension.
pub open spec fn output_file_name(
    prefix: Seq<char>,
    stem: Seq<char>,
    postfix: Seq<char>,
    ext: Seq<char>,
) -> Seq<char> {
    prefix + stem + postfix + "."@ + ext
}

/// Everything that decides how an image is exported.
#[derive(Debug, Clone)]
pub struct ExportConfig {
    pub scale_config: ScaleConfig,
    pub output_format: OutputFormat,
    pub output_name: OutputName,
    pub theme_reg: ThemeRegistry,
}

impl ExportConfig {
    /// The default export settings, writing into `folder`.
    pub fn with_folder(folder: String) -> (r: ExportConfig)
        ensures
            r.scale_config == ScaleConfig::spec_near_4k(),
            r.output_format == OutputFormat::spec_default(),
            r.output_name.folder == folder,
            r.theme_reg.themes@ == available_themes(),
            r.theme_reg.selected == 0,
    {
        ExportConfig {
            scale_config: ScaleConfig::default(),
            output_format: OutputFormat::default(),
            output_name: OutputName::with_folder(folder),
            theme_reg: ThemeRegistry::new(),
        }
    }

    /// The file name under which an image whose file stem is `stem` is exported.
    pub fn prepostfixed_filename(&self, stem: &str) -> (r: String)
        ensures
            r@ == output_file_name(
                self.output_name.prefix@,
                stem@,
                self.output_name.postfix@,
                self.output_format.ext.spec_extension(),
            ),
    {
        let mut name = self.output_name.prefix.clone();
        name.append(stem);
        name.append(self.output_name.postfix.as_str());
        name.append(".");
        name.append(self.output_format.extension());
        name
    }
}

/// What the user chose for importing.
#[derive(Debug, Clone, Copy, PartialEq, Eq, Structural)]
pub struct ImportConfig {
    /// Where the f-number is invalid or missing, take the aperture written in
    /// the lens model instead.
    pub get_alt_fnumber: bool,
}

impl Default for ImportConfig {
    fn default() -> (r: ImportConfig)
        ensures
            !r.get_alt_fnumber,
    {
        ImportConfig { get_alt_fnumber: false }
    }
}

/// The languages of the user interface.
#[derive(Debug, Clone, Copy, PartialEq, Eq, Structural)]
pub enum Language {
    En,
    Ko,
}

impl Language {
    /// The lower-case language code.
    pub fn into_str(&self) -> (r: &'static str)
        ensures
            r@ == (match *self {
                Language::En => "en"@,
                Language::Ko => "ko"@,
            }),
    {
        match self {
            Language::En => "en",
            Language::Ko => "ko",
        }
    }
}

/// The part of a locale name before the first `-` or `_`.
pub open spec fn locale_language(s: Seq<char>) -> Seq<char>
    decreases s.len(),
{
    if s.len() == 0 {
        s
    } else if s[0] == '-' || s[0] == '_' {
        Seq::empty()
    } else {
        seq![s[0]] + locale_language(s.drop_first())
    }
}

/// The language of a locale name such as `ko-KR`: the one whose code is the
/// part before the first `-` or `_`, English where no language has it.
pub open spec fn language_of_locale(s: Seq<char>) -> Language {
    if locale_language(s) == "ko"@ {
        Language::Ko
    } else {
        Language::En
    }
}

proof fn lemma_locale_language_prefix(s: Seq<char>, i: int)
    requires
        0 <= i <= s.len(),
        forall|k: int| 0 <= k < i ==> s[k] != '-' && s[k] != '_',
    ensures
        locale_language(s) == s.subrange(0, i) + locale_language(s.subrange(i, s.len() as int)),
    decreases i,
{
    if i > 0 {
        lemma_locale_language_prefix(s.drop_first(), i - 1);
        assert(s.drop_first().subrange(0, i - 1) =~= s.subrange(1, i));
        assert(s.drop_first().subrange(i - 1, s.len() - 1) =~= s.subrange(i, s.len() as int));
        assert(seq![s[0]] + s.subrange(1, i) =~= s.subrange(0, i));
    } else {
        assert(s.subrange(0, 0) =~= Seq::<char>::empty());
        assert(s.subrange(0, s.len() as int) =~= s);
    }
}

impl Language {
    /// The language of a locale name, English where none matches.
    pub fn from_locale(locale: &str) -> (r: Language)
        ensures
            r == language_of_locale(locale@),
    {
        let n = locale.unicode_len();
        let mut i: usize = 0;
        while i < n && locale.get_char(i) != '-' && locale.get_char(i) != '_'
            invariant
                n == locale@.len(),
                i <= n,
                forall|k: int| 0 <= k < i ==> locale@[k] != '-' && locale@[k] != '_',
            decreases n - i,
        {
            i = i + 1;
        }
        proof {
            lemma_locale_language_prefix(locale@, i as int);
            let rest = locale@.subrange(i as int, n as int);
            if i < n {
                assert(rest[0] == locale@[i as int]);
            } else {
                assert(rest.len() == 0);
            }
            assert(locale_language(locale@) =~= locale@.subrange(0, i as int));
        }
        let code = locale.substring_char(0, i);
        if crate::text::same_text(code, "ko") {
            Language::Ko
        } else {
            Language::En
        }
    }
}

impl Default for Language {
    fn default() -> (r: Language)
        ensures
            r == Language::En,
    {
        Language::En
    }
}

/// What the user asked of an imported image in the list.
#[derive(Debug, Clone, Copy, PartialEq, Eq, Structural)]
pub enum PackedImageEvent {
    Idle,
    Remove,
}

} // verus!
