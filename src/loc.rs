//! Translation of interface texts.
use vstd::prelude::*;
use crate::text::same_text;

verus! {

/// Tag of a locale.
pub type LocaleTag = u32;

/// Translation of `key`, or `key` itself when the table has none.
pub open spec fn loc_text(key: Seq<char>) -> Seq<char> {
    if key == "You are in the main menu"@ {
        "Вы в главном меню"@
    } else if key == "Sorry, the bot has been restarted"@ {
        "Извините, бот был перезапущен"@
    } else if key == "Error, start again"@ {
        "Ошибка, начните заново"@
    } else if key == "Cancel"@ {
        "Отмена"@
    } else {
        key
    }
}

/// Translates `key`; a key without a translation is returned as it is.
pub fn loc(key: &str) -> (r: String)
    ensures
        r@ == loc_text(key@),
{
    if same_text(key, "You are in the main menu") {
        String::from_str("Вы в главном меню")
    } else if same_text(key, "Sorry, the bot has been restarted") {
        String::from_str("Извините, бот был перезапущен")
    } else if same_text(key, "Error, start again") {
        String::from_str("Ошибка, начните заново")
    } else if same_text(key, "Cancel") {
        String::from_str("Отмена")
    } else {
        String::from_str(key)
    }
}

/// Locale tag for a user's language; every language uses the one table.
pub fn loc_tag(locale: Option<&str>) -> (r: LocaleTag)
    ensures
        r == 0,
{
    0
}

} // verus!
