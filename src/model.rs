//! Model sizes, the weight files they name, and which languages each serves.

use vstd::prelude::*;
use crate::language::{Language, language_code};
use crate::text::same_text;

verus! {

/// A size of the speech model; the `English` sizes only understand English.
#[derive(Clone, Copy, Debug, PartialEq, Eq, Structural)]
pub enum Size {
    TinyEnglish,
    Tiny,
    BaseEnglish,
    Base,
    SmallEnglish,
    Small,
    MediumEnglish,
    Medium,
    Large,
    LargeV1,
}

/// The name of a model size.
pub open spec fn size_name(s: Size) -> Seq<char> {
    match s {
        Size::TinyEnglish => "tiny.en"@,
        Size::Tiny => "tiny"@,
        Size::BaseEnglish => "base.en"@,
        Size::Base => "base"@,
        Size::SmallEnglish => "small.en"@,
        Size::Small => "small"@,
        Size::MediumEnglish => "medium.en"@,
        Size::Medium => "medium"@,
        Size::Large => "large"@,
        Size::LargeV1 => "large-v1"@,
    }
}

/// Whether a model size only understands English.
pub open spec fn english_only(s: Size) -> bool {
    s == Size::TinyEnglish || s == Size::BaseEnglish || s == Size::SmallEnglish || s
        == Size::MediumEnglish
}

/// Where the weight files are published; the file name follows.
pub open spec fn weights_url_prefix() -> Seq<char> {
    "https://huggingface.co/datasets/ggerganov/whisper.cpp/resolve/main/ggml-"@
}

/// Why a model cannot be used with the requested language.
#[derive(Debug, PartialEq, Eq, Structural)]
pub enum LanguageError {
    /// The model only understands English and another language was asked for.
    EnglishOnlyModel,
}

/// The language a transcription runs with: an English-only model takes
/// English when the language is left open or set to detection, and refuses
/// any other; other models take what was asked for.
pub open spec fn language_for(size: Size, requested: Option<Language>) -> Result<
    Option<Language>,
    LanguageError,
> {
    if !english_only(size) {
        Ok(requested)
    } else {
        match requested {
            None => Ok(Some(Language::English)),
            Some(l) => if l == Language::Auto || l == Language::English {
                Ok(Some(Language::English))
            } else {
                Err(LanguageError::EnglishOnlyModel)
            },
        }
    }
}

impl Size {
    /// The size's name, as in `"tiny.en"`.
    pub fn name(self) -> (r: &'static str)
        ensures
            r@ == size_name(self),
    {
        match self {
            Size::TinyEnglish => "tiny.en",
            Size::Tiny => "tiny",
            Size::BaseEnglish => "base.en",
            Size::Base => "base",
            Size::SmallEnglish => "small.en",
            Size::Small => "small",
            Size::MediumEnglish => "medium.en",
            Size::Medium => "medium",
            Size::Large => "large",
            Size::LargeV1 => "large-v1",
        }
    }

    /// The size whose name is `name`, if there is one.
    pub fn from_name(name: &str) -> (r: Option<Size>)
        ensures
            r matches Some(s) ==> size_name(s) == name@,
            r is None ==> forall|s: Size| size_name(s) != name@,
    {
        if same_text(name, "tiny.en") {
            return Some(Size::TinyEnglish);
        }
        if same_text(name, "tiny") {
            return Some(Size::Tiny);
        }
        if same_text(name, "base.en") {
            return Some(Size::BaseEnglish);
        }
        if same_text(name, "base") {
            return Some(Size::Base);
        }
        if same_text(name, "small.en") {
            return Some(Size::SmallEnglish);
        }
        if same_text(name, "small") {
            return Some(Size::Small);
        }
        if same_text(name, "medium.en") {
            return Some(Size::MediumEnglish);
        }
        if same_text(name, "medium") {
            return Some(Size::Medium);
        }
        if same_text(name, "large") {
            return Some(Size::Large);
        }
        if same_text(name, "large-v1") {
            return Some(Size::LargeV1);
        }
        None
    }

    pub fn is_english_only(self) -> (r: bool)
        ensures
            r == english_only(self),
    {
        match self {
            Size::TinyEnglish | Size::BaseEnglish | Size::SmallEnglish | Size::MediumEnglish => true,
            _ => false,
        }
    }

    /// The name of the size's weight file, `<name>.bin`.
    pub fn file_name(self) -> (r: String)
        ensures
            r@ == size_name(self) + ".bin"@,
    {
        let mut out = String::from_str(self.name());
        out.append(".bin");
        out
    }

    /// The language to transcribe with; see `language_for`.
    pub fn language_for(self, requested: Option<Language>) -> (r: Result<
        Option<Language>,
        LanguageError,
    >)
        ensures
            r == language_for(self, requested),
    {
        if !self.is_english_only() {
            return Ok(requested);
        }
        match requested {
            None => Ok(Some(Language::English)),
            Some(l) => {
                if l == Language::Auto || l == Language::English {
                    Ok(Some(Language::English))
                } else {
                    Err(LanguageError::EnglishOnlyModel)
                }
            },
        }
    }
}

/// A speech model, named by its size.
#[derive(Clone, Copy, Debug)]
pub struct Model {
    size: Size,
}

impl Model {
    /// The model's size.
    pub closed spec fn spec_size(&self) -> Size {
        self.size
    }

    pub fn new(size: Size) -> (m: Model)
        ensures
            m.spec_size() == size,
    {
        Model { size }
    }

    pub fn size(&self) -> (r: Size)
        ensures
            r == self.spec_size(),
    {
        self.size
    }

    /// The name of the model's weight file.
    pub fn file_name(&self) -> (r: String)
        ensures
            r@ == size_name(self.spec_size()) + ".bin"@,
    {
        self.size.file_name()
    }

    /// Where the model's weight file is downloaded from.
    pub fn download_url(&self) -> (r: String)
        ensures
            r@ == weights_url_prefix() + size_name(self.spec_size()) + ".bin"@,
    {
        let mut out = String::from_str(
            "https://huggingface.co/datasets/ggerganov/whisper.cpp/resolve/main/ggml-",
        );
        out.append(self.size.name());
        out.append(".bin");
        out
    }
}

} // verus!
