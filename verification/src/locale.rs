use vstd::prelude::*;
use vstd::string::StringExecFns;
use crate::text::{
    chars_of, trim_chars, chars_eq_str, replace_underscores, lowercase_starts_with, string_from_chars, spec_trim,
    underscores_to_dashes, ascii_lower, is_unicode_whitespace, lemma_trim_ends, lemma_trim_of_trimmed,
};

verus! {

/// The language setting that follows the system.
pub const SYSTEM_LOCALE: &'static str = "System";

/// `s`, with ASCII capital letters taken as small ones, starts with `prefix`.
pub open spec fn starts_with_ignore_ascii_case(s: Seq<char>, prefix: Seq<char>) -> bool {
    &&& prefix.len() <= s.len()
    &&& forall|i: int| 0 <= i < prefix.len() ==> ascii_lower(#[trigger] s[i]) == prefix[i] as u32
}

/// The supported locale for the system's preferred language tag (`None`
/// when the system gives none, which counts as `en-US`).
pub open spec fn spec_locale_for_system(tag: Option<Seq<char>>) -> Seq<char> {
    let t = match tag {
        Some(t) => t,
        None => "en-US"@,
    };
    if starts_with_ignore_ascii_case(t, "zh"@) {
        "zh-CN"@
    } else {
        "en"@
    }
}

/// One of the locales that the system's language can give.
pub open spec fn is_system_locale_choice(s: Seq<char>) -> bool {
    s == "zh-CN"@ || s == "en"@
}

/// What `normalize_locale_tag` gives for a tag that does not follow the
/// system: the aliases of Chinese and English map to `zh-CN` and `en`, and
/// any other tag keeps its text with `_` written as `-`.
pub open spec fn spec_normalized_tag(trimmed: Seq<char>) -> Seq<char> {
    if trimmed == "zh_CN"@ || trimmed == "zh-CN"@ || trimmed == "zh"@ {
        "zh-CN"@
    } else if trimmed == "en_US"@ || trimmed == "en-US"@ || trimmed == "en"@ {
        "en"@
    } else {
        underscores_to_dashes(trimmed)
    }
}

/// The trimmed tag asks to follow the system.
pub open spec fn follows_system(trimmed: Seq<char>) -> bool {
    trimmed.len() == 0 || trimmed == "System"@
}

/// `r` is what `normalize_locale_tag` may give for `locale`: a locale of the
/// system's language when the trimmed tag follows the system, else exactly
/// the normalized tag.
pub open spec fn is_normalized_result(locale: Seq<char>, r: Seq<char>) -> bool {
    let t = spec_trim(locale);
    if follows_system(t) {
        is_system_locale_choice(r)
    } else {
        r == spec_normalized_tag(t)
    }
}

/// `resolve_locale` follows the system for this language setting: it is
/// blank, exactly `System`, or its trimmed text follows the system.
pub open spec fn resolve_follows_system(language: Seq<char>) -> bool {
    spec_trim(language).len() == 0 || language == "System"@ || follows_system(spec_trim(language))
}

/// `r` is what `resolve_locale` may give for `language`.
pub open spec fn is_resolved_result(language: Seq<char>, r: Seq<char>) -> bool {
    if resolve_follows_system(language) {
        is_system_locale_choice(r)
    } else {
        r == spec_normalized_tag(spec_trim(language))
    }
}

/// The system's preferred language tag, from `sys_locale::get_locale`.
/// It depends on the system and the environment, so nothing is stated of it.
#[verifier::external_body]
fn system_language_tag() -> Option<String> {
    sys_locale::get_locale()
}

/// Makes `locale` the current locale of the translations
/// (`rust_i18n::set_locale`). Only the translation lookup reads it, so
/// nothing is stated.
#[verifier::external_body]
fn apply_translation_locale(locale: &str) {
    rust_i18n::set_locale(locale)
}

/// The supported locale for the system's preferred language tag.
pub fn locale_for_system_tag(system: Option<String>) -> (r: String)
    ensures
        r@ == spec_locale_for_system(
            match system {
                Some(s) => Some(s@),
                None => None,
            },
        ),
{
    let tag = match system {
        Some(s) => s,
        None => String::from_str("en-US"),
    };
    let chars = chars_of(tag.as_str());
    if lowercase_starts_with(&chars, "zh") {
        String::from_str("zh-CN")
    } else if lowercase_starts_with(&chars, "en") {
        String::from_str("en")
    } else {
        String::from_str("en")
    }
}

/// The supported locale for the system's language.
pub fn detect_system_locale() -> (r: String)
    ensures
        is_system_locale_choice(r@),
{
    locale_for_system_tag(system_language_tag())
}

/// Maps a language setting to a locale tag: empty or `System` follows the
/// system, aliases of Chinese and English map to `zh-CN` and `en`, and other
/// tags keep their text with `_` written as `-` (surrounding whitespace is
/// ignored).
pub fn normalize_locale_tag(locale: &str) -> (r: String)
    ensures
        is_normalized_result(locale@, r@),
{
    let all = chars_of(locale);
    let t = trim_chars(&all);
    if t.len() == 0 || chars_eq_str(&t, "System") {
        return detect_system_locale();
    }
    if chars_eq_str(&t, "zh_CN") || chars_eq_str(&t, "zh-CN") || chars_eq_str(&t, "zh") {
        return String::from_str("zh-CN");
    }
    if chars_eq_str(&t, "en_US") || chars_eq_str(&t, "en-US") || chars_eq_str(&t, "en") {
        return String::from_str("en");
    }
    let replaced = replace_underscores(&t);
    string_from_chars(&replaced)
}

/// The locale for a language setting: one that is blank or exactly
/// `System` follows the system, any other is normalized.
pub fn resolve_locale(language: &str) -> (r: String)
    ensures
        is_resolved_result(language@, r@),
{
    let all = chars_of(language);
    let t = trim_chars(&all);
    if t.len() == 0 || chars_eq_str(&all, SYSTEM_LOCALE) {
        return detect_system_locale();
    }
    normalize_locale_tag(language)
}

/// Resolves the language setting, makes it the translations' locale and
/// returns it.
pub fn init(language: &str) -> (r: String)
    ensures
        is_resolved_result(language@, r@),
{
    let locale = resolve_locale(language);
    apply_translation_locale(locale.as_str());
    locale
}

/// The fixed locales are tags of their own: not empty, without `_` or
/// whitespace at either end, and normalized to themselves.
proof fn lemma_fixed_locale_is_stable(r: Seq<char>)
    requires
        r == "zh-CN"@ || r == "en"@,
    ensures
        r.len() > 0,
        forall|i: int| 0 <= i < r.len() ==> r[i] != '_',
        !is_unicode_whitespace(r[0]),
        !is_unicode_whitespace(r.last()),
        !follows_system(r),
        spec_normalized_tag(r) == r,
{
    reveal_strlit("zh-CN");
    reveal_strlit("en");
    reveal_strlit("System");
    reveal_strlit("zh_CN");
    reveal_strlit("zh");
    reveal_strlit("en_US");
    reveal_strlit("en-US");
}

/// Every tag that `normalize_locale_tag` returns is not empty, holds no `_`,
/// has no whitespace at either end, and is given back unchanged when it is
/// normalized again.
pub proof fn lemma_normalized_tag_is_stable(locale: Seq<char>, r: Seq<char>)
    requires
        is_normalized_result(locale, r),
    ensures
        r.len() > 0,
        forall|i: int| 0 <= i < r.len() ==> r[i] != '_',
        !is_unicode_whitespace(r[0]),
        !is_unicode_whitespace(r.last()),
        spec_trim(r) == r,
        forall|r2: Seq<char>| is_normalized_result(r, r2) <==> r2 == r,
{
    reveal_strlit("zh-CN");
    reveal_strlit("en");
    reveal_strlit("System");
    reveal_strlit("zh_CN");
    reveal_strlit("zh");
    reveal_strlit("en_US");
    reveal_strlit("en-US");
    let t = spec_trim(locale);
    if r == "zh-CN"@ || r == "en"@ {
        lemma_fixed_locale_is_stable(r);
    } else {
        assert(!follows_system(t));
        assert(r == underscores_to_dashes(t));
        lemma_trim_ends(locale);
        assert(r.len() == t.len());
        assert(r[0] == t[0] || r[0] == '-');
        assert(r.last() == t.last() || r.last() == '-');
        assert forall|i: int| 0 <= i < r.len() implies r[i] != '_' by {
            assert(r[i] == if t[i] == '_' { '-' } else { t[i] });
        }
        if r == "System"@ {
            assert forall|i: int| 0 <= i < t.len() implies t[i] == r[i] by {
                assert(r[i] == if t[i] == '_' { '-' } else { t[i] });
            }
            assert(t =~= "System"@);
        }
        if r == "zh"@ || r == "en"@ {
            assert forall|i: int| 0 <= i < t.len() implies t[i] == r[i] by {
                assert(r[i] == if t[i] == '_' { '-' } else { t[i] });
            }
            assert(t =~= r);
        }
        if r == "zh-CN"@ || r == "en-US"@ {
            assert forall|i: int| 0 <= i < t.len() && i != 2 implies t[i] == r[i] by {
                assert(r[i] == if t[i] == '_' { '-' } else { t[i] });
            }
            assert(r[2] == if t[2] == '_' { '-' } else { t[2] });
            if t[2] == '_' {
                if r == "zh-CN"@ {
                    assert(t =~= "zh_CN"@);
                } else {
                    assert(t =~= "en_US"@);
                }
            } else {
                assert(t =~= r);
            }
        }
        if r == "zh_CN"@ || r == "en_US"@ {
            assert(r[2] == '_');
        }
        assert(!follows_system(r));
        assert(underscores_to_dashes(r) =~= r);
        assert(spec_normalized_tag(r) == r);
    }
    lemma_trim_of_trimmed(r);
}

/// `resolve_locale` follows the system for exactly the settings for which
/// `normalize_locale_tag` does, and both give the same tag for every other
/// setting.
pub proof fn lemma_resolve_agrees_with_normalize(language: Seq<char>, r: Seq<char>)
    ensures
        resolve_follows_system(language) == follows_system(spec_trim(language)),
        is_resolved_result(language, r) == is_normalized_result(language, r),
{
    reveal_strlit("System");
    if language == "System"@ {
        lemma_trim_of_trimmed(language);
    }
}

} // verus!
