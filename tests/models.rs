use whisper_cli::model::LanguageError;
use whisper_cli::text::same_text;
use whisper_cli::{Language, Model, Size};

#[test]
fn language_codes() {
    assert_eq!(Language::Auto.code(), "auto");
    assert_eq!(Language::English.code(), "en");
    assert_eq!(Language::Hawaiian.code(), "haw");
    assert_eq!(Language::Sundanese.code(), "su");
}

#[test]
fn language_from_code() {
    assert_eq!(Language::from_code("en"), Some(Language::English));
    assert_eq!(Language::from_code("jw"), Some(Language::Javanese));
    assert_eq!(Language::from_code("auto"), Some(Language::Auto));
    assert_eq!(Language::from_code("xx"), None);
    assert_eq!(Language::from_code(""), None);
    assert_eq!(Language::from_code("EN"), None);
}

#[test]
fn size_names_and_english_only() {
    assert_eq!(Size::TinyEnglish.name(), "tiny.en");
    assert_eq!(Size::LargeV1.name(), "large-v1");
    assert_eq!(Size::from_name("medium"), Some(Size::Medium));
    assert_eq!(Size::from_name("base.en"), Some(Size::BaseEnglish));
    assert_eq!(Size::from_name("huge"), None);
    assert!(Size::SmallEnglish.is_english_only());
    assert!(Size::MediumEnglish.is_english_only());
    assert!(!Size::Small.is_english_only());
    assert!(!Size::Large.is_english_only());
}

#[test]
fn english_only_models_pick_english() {
    assert_eq!(Size::TinyEnglish.language_for(None), Ok(Some(Language::English)));
    assert_eq!(Size::TinyEnglish.language_for(Some(Language::Auto)), Ok(Some(Language::English)));
    assert_eq!(Size::TinyEnglish.language_for(Some(Language::English)), Ok(Some(Language::English)));
    assert_eq!(Size::BaseEnglish.language_for(Some(Language::German)), Err(LanguageError::EnglishOnlyModel));
    assert_eq!(Size::Base.language_for(None), Ok(None));
    assert_eq!(Size::Base.language_for(Some(Language::German)), Ok(Some(Language::German)));
}

#[test]
fn model_files() {
    let m = Model::new(Size::SmallEnglish);
    assert_eq!(m.size(), Size::SmallEnglish);
    assert_eq!(m.file_name(), "small.en.bin");
    assert_eq!(
        m.download_url(),
        "https://huggingface.co/datasets/ggerganov/whisper.cpp/resolve/main/ggml-small.en.bin"
    );
    assert_eq!(Size::LargeV1.file_name(), "large-v1.bin");
}

#[test]
fn text_comparison() {
    assert!(same_text("", ""));
    assert!(same_text("héllo", "héllo"));
    assert!(!same_text("héllo", "hello"));
    assert!(!same_text("ab", "abc"));
}
