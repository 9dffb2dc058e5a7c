use addition_drill::locale::{language_code, locale_prefix, Language};
use addition_drill::messages::{format_template, localized_message, MessageKey};

#[test]
fn fixed_languages_yield_their_codes() {
    assert_eq!(language_code(&Language::EnUs, None).as_deref(), Some("en_US"));
    assert_eq!(language_code(&Language::DeDe, None).as_deref(), Some("de_DE"));
    assert_eq!(language_code(&Language::FrFr, None).as_deref(), Some("fr_FR"));
}

#[test]
fn system_language_strips_the_charset_suffix() {
    let code = language_code(&Language::SystemLanguage, Some("de_DE.UTF-8"));
    assert_eq!(code.as_deref(), Some("de_DE"));
    let code = language_code(&Language::SystemLanguage, Some("en_US.iso88591"));
    assert_eq!(code.as_deref(), Some("en_US"));
}

#[test]
fn system_language_without_a_value_is_fatal() {
    assert_eq!(language_code(&Language::SystemLanguage, None), None);
}

#[test]
fn system_language_without_a_charset_suffix_is_fatal() {
    assert_eq!(language_code(&Language::SystemLanguage, Some("de_DE")), None);
}

#[test]
fn locale_prefix_takes_everything_before_the_first_dot() {
    assert_eq!(locale_prefix("fr_FR.UTF-8").as_deref(), Some("fr_FR"));
    assert_eq!(locale_prefix("a.b.c").as_deref(), Some("a"));
    assert_eq!(locale_prefix(".suffix").as_deref(), Some(""));
    assert_eq!(locale_prefix("nodot"), None);
}

#[test]
fn language_codes_match_the_cli_spelling() {
    assert_eq!(Language::EnUs.code(), "en_US");
    assert_eq!(Language::DeDe.code(), "de_DE");
    assert_eq!(Language::FrFr.code(), "fr_FR");
    assert_eq!(Language::SystemLanguage.code(), "systemlanguage");
}

#[test]
fn message_keys_carry_their_catalog_ids() {
    assert_eq!(MessageKey::Prompt.msgid(), "Print Task");
    assert_eq!(MessageKey::Correct.msgid(), "Print Well Done");
    assert_eq!(MessageKey::Wrong.msgid(), "Print False");
    assert_eq!(MessageKey::OnlyNumbers.msgid(), "Print Error: Only numbers");
    assert_eq!(MessageKey::Summary.msgid(), "Print Stats");
}

#[test]
fn placeholders_are_filled_in_order() {
    let args = vec![String::from("1"), String::from("10"), String::from("_ + 2 = 5")];
    let text = format_template("Task {} of {}: {}", &args);
    assert_eq!(text, "Task 1 of 10: _ + 2 = 5");
}

#[test]
fn spare_placeholders_and_spare_arguments_are_kept_calm() {
    let args = vec![String::from("7")];
    assert_eq!(format_template("{} and {}", &args), "7 and {}");
    let args = vec![String::from("a"), String::from("b")];
    assert_eq!(format_template("only {}", &args), "only a");
    let args: Vec<String> = Vec::new();
    assert_eq!(format_template("{} stays", &args), "{} stays");
}

#[test]
fn braces_that_are_no_placeholder_stay() {
    let args = vec![String::from("x")];
    assert_eq!(format_template("{0} { } {", &args), "{0} { } {");
    assert_eq!(format_template("tail {", &args), "tail {");
}

#[test]
fn untranslated_messages_fall_back_to_their_ids() {
    // without a loaded catalog, gettext returns the message id itself
    let args = vec![String::from("3")];
    let text = localized_message(MessageKey::Wrong, &args);
    assert_eq!(text, "Print False");
    let none: Vec<String> = Vec::new();
    assert_eq!(localized_message(MessageKey::Correct, &none), "Print Well Done");
}
