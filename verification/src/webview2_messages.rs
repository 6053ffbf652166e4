//! Localized "WebView2 runtime missing" dialog (dashboard locales en, ru, ja, ko, zh).
use vstd::prelude::*;

use crate::text::{
    end_ws_from, ends_with, lower, lower_str, skip_ws_from, starts_with, starts_with_str, str_eq, trim, trim_str,
};
use crate::webview2_runtime::WEBVIEW2_DOWNLOAD_URL;

verus! {

#[derive(Debug, Clone, Copy, PartialEq, Eq)]
pub struct WebView2MissingDialogCopy {
    pub title: &'static str,
    pub body: &'static str,
}

/// Supported UI language for a raw locale tag.
pub open spec fn ui_language(raw: Seq<char>) -> Seq<char> {
    let cur = lower(trim(raw));
    if cur.len() == 0 {
        "en"@
    } else if cur == "en"@ || cur == "ru"@ || cur == "ja"@ || cur == "ko"@ || cur == "zh"@ {
        cur
    } else if starts_with(cur, "ru"@) {
        "ru"@
    } else if starts_with(cur, "zh"@) {
        "zh"@
    } else if starts_with(cur, "ja"@) {
        "ja"@
    } else if starts_with(cur, "ko"@) {
        "ko"@
    } else {
        "en"@
    }
}

pub fn normalize_supported_ui_language(raw: &str) -> (r: &'static str)
    ensures
        r@ == ui_language(raw@),
{
    let t = trim_str(raw);
    let current = lower_str(t.as_str());
    let c = current.as_str();
    if c.is_empty() {
        return "en";
    }
    if str_eq(c, "ru") {
        return "ru";
    }
    if str_eq(c, "ja") {
        return "ja";
    }
    if str_eq(c, "ko") {
        return "ko";
    }
    if str_eq(c, "zh") {
        return "zh";
    }
    if str_eq(c, "en") {
        return "en";
    }
    if starts_with_str(c, "ru") {
        return "ru";
    }
    if starts_with_str(c, "zh") {
        return "zh";
    }
    if starts_with_str(c, "ja") {
        return "ja";
    }
    if starts_with_str(c, "ko") {
        return "ko";
    }
    "en"
}

/// UI language for a Windows LANGID (primary language in the low ten bits).
pub open spec fn lang_for_primary(primary: u16) -> Seq<char> {
    if primary == 0x19 {
        "ru"@
    } else if primary == 0x11 {
        "ja"@
    } else if primary == 0x12 {
        "ko"@
    } else if primary == 0x04 {
        "zh"@
    } else {
        "en"@
    }
}

pub fn map_windows_lang_id(lang_id: u16) -> (r: String)
    ensures
        r@ == lang_for_primary(lang_id & 0x3FF),
{
    let primary = lang_id & 0x3FF;
    let s = if primary == 0x19 {
        "ru"
    } else if primary == 0x11 {
        "ja"
    } else if primary == 0x12 {
        "ko"
    } else if primary == 0x04 {
        "zh"
    } else {
        "en"
    };
    crate::text::to_owned_string(s)
}

/// The UI language of the system: from the user's Windows display language (its LANGID,
/// where there is one), else English.
pub fn system_supported_ui_language(lang_id: Option<u16>) -> (r: &'static str)
    ensures
        r@ == match lang_id {
            Some(id) => ui_language(lang_for_primary(id & 0x3FF)),
            None => "en"@,
        },
{
    match lang_id {
        Some(id) => {
            let lang = map_windows_lang_id(id);
            normalize_supported_ui_language(lang.as_str())
        },
        None => "en",
    }
}

pub open spec fn dialog_title(lang: Seq<char>) -> Seq<char> {
    if lang == "ru"@ {
        "VoiceSub — требуется WebView2"@
    } else if lang == "ja"@ {
        "VoiceSub — WebView2 が必要です"@
    } else if lang == "ko"@ {
        "VoiceSub — WebView2 필요"@
    } else if lang == "zh"@ {
        "VoiceSub — 需要 WebView2"@
    } else {
        "VoiceSub — WebView2 required"@
    }
}

pub open spec fn dialog_body(lang: Seq<char>) -> Seq<char> {
    if lang == "ru"@ {
        "Для работы VoiceSub нужен Microsoft Edge WebView2 Runtime.\r\n\r\nСейчас он не найден на этом компьютере. Установите WebView2 и запустите VoiceSub снова.\r\n\r\nСкачать:\r\nhttps://go.microsoft.com/fwlink/p/?LinkId=2124703"@
    } else if lang == "ja"@ {
        "VoiceSub を使用するには Microsoft Edge WebView2 Runtime が必要です。\r\n\r\nこのコンピューターに WebView2 が見つかりません。インストール後に VoiceSub を再起動してください。\r\n\r\nダウンロード:\r\nhttps://go.microsoft.com/fwlink/p/?LinkId=2124703"@
    } else if lang == "ko"@ {
        "VoiceSub를 실행하려면 Microsoft Edge WebView2 Runtime이 필요합니다.\r\n\r\n이 PC에서 WebView2를 찾을 수 없습니다. 설치한 뒤 VoiceSub를 다시 실행하세요.\r\n\r\n다운로드:\r\nhttps://go.microsoft.com/fwlink/p/?LinkId=2124703"@
    } else if lang == "zh"@ {
        "运行 VoiceSub 需要 Microsoft Edge WebView2 运行时。\r\n\r\n未在此计算机上检测到 WebView2。请安装后重新启动 VoiceSub。\r\n\r\n下载:\r\nhttps://go.microsoft.com/fwlink/p/?LinkId=2124703"@
    } else {
        "VoiceSub requires Microsoft Edge WebView2 Runtime.\r\n\r\nWebView2 was not found on this computer. Install it, then start VoiceSub again.\r\n\r\nDownload:\r\nhttps://go.microsoft.com/fwlink/p/?LinkId=2124703"@
    }
}

pub fn webview2_missing_dialog_copy(locale: &str) -> (r: WebView2MissingDialogCopy)
    ensures
        r.title@ == dialog_title(ui_language(locale@)),
        r.body@ == dialog_body(ui_language(locale@)),
{
    let lang = normalize_supported_ui_language(locale);
    if str_eq(lang, "ru") {
        WebView2MissingDialogCopy {
            title: "VoiceSub — требуется WebView2",
            body: "Для работы VoiceSub нужен Microsoft Edge WebView2 Runtime.\r\n\r\nСейчас он не найден на этом компьютере. Установите WebView2 и запустите VoiceSub снова.\r\n\r\nСкачать:\r\nhttps://go.microsoft.com/fwlink/p/?LinkId=2124703",
        }
    } else if str_eq(lang, "ja") {
        WebView2MissingDialogCopy {
            title: "VoiceSub — WebView2 が必要です",
            body: "VoiceSub を使用するには Microsoft Edge WebView2 Runtime が必要です。\r\n\r\nこのコンピューターに WebView2 が見つかりません。インストール後に VoiceSub を再起動してください。\r\n\r\nダウンロード:\r\nhttps://go.microsoft.com/fwlink/p/?LinkId=2124703",
        }
    } else if str_eq(lang, "ko") {
        WebView2MissingDialogCopy {
            title: "VoiceSub — WebView2 필요",
            body: "VoiceSub를 실행하려면 Microsoft Edge WebView2 Runtime이 필요합니다.\r\n\r\n이 PC에서 WebView2를 찾을 수 없습니다. 설치한 뒤 VoiceSub를 다시 실행하세요.\r\n\r\n다운로드:\r\nhttps://go.microsoft.com/fwlink/p/?LinkId=2124703",
        }
    } else if str_eq(lang, "zh") {
        WebView2MissingDialogCopy {
            title: "VoiceSub — 需要 WebView2",
            body: "运行 VoiceSub 需要 Microsoft Edge WebView2 运行时。\r\n\r\n未在此计算机上检测到 WebView2。请安装后重新启动 VoiceSub。\r\n\r\n下载:\r\nhttps://go.microsoft.com/fwlink/p/?LinkId=2124703",
        }
    } else {
        WebView2MissingDialogCopy {
            title: "VoiceSub — WebView2 required",
            body: "VoiceSub requires Microsoft Edge WebView2 Runtime.\r\n\r\nWebView2 was not found on this computer. Install it, then start VoiceSub again.\r\n\r\nDownload:\r\nhttps://go.microsoft.com/fwlink/p/?LinkId=2124703",
        }
    }
}

/// Law: every raw locale normalizes to one of the five supported languages.
pub proof fn law_ui_language_is_supported(raw: Seq<char>)
    ensures
        ui_language(raw) == "en"@ || ui_language(raw) == "ru"@ || ui_language(raw) == "ja"@
            || ui_language(raw) == "ko"@ || ui_language(raw) == "zh"@,
{
}

/// A two-letter lower-case tag is its own trimmed, lower-cased form.
proof fn lemma_lower_trim_two_letters(s: Seq<char>)
    requires
        s.len() == 2,
        'a' <= s[0] <= 'z',
        'a' <= s[1] <= 'z',
    ensures
        lower(trim(s)) == s,
{
    assert(skip_ws_from(s, 0) == 0);
    assert(end_ws_from(s, 0, 2) == 2);
    assert(s.subrange(0, 2) =~= s);
    assert(lower(s) =~= s);
}

/// Law: normalizing a locale twice gives what normalizing it once gives.
pub proof fn law_ui_language_idempotent(raw: Seq<char>)
    ensures
        ui_language(ui_language(raw)) == ui_language(raw),
{
    reveal_strlit("en");
    reveal_strlit("ru");
    reveal_strlit("ja");
    reveal_strlit("ko");
    reveal_strlit("zh");
    let l = ui_language(raw);
    lemma_lower_trim_two_letters(l);
}

/// Law: the dialog copy depends on the locale only through its normalized language, so
/// a locale and its normalized language get the same copy.
pub proof fn law_dialog_copy_follows_language(raw: Seq<char>)
    ensures
        dialog_title(ui_language(raw)) == dialog_title(ui_language(ui_language(raw))),
        dialog_body(ui_language(raw)) == dialog_body(ui_language(ui_language(raw))),
{
    law_ui_language_idempotent(raw);
}

/// Law: whatever the locale, the dialog has a title and its body carries the WebView2
/// download link (at its end).
pub proof fn law_dialog_copy_has_title_and_link(raw: Seq<char>)
    ensures
        dialog_title(ui_language(raw)).len() > 0,
        ends_with(dialog_body(ui_language(raw)), WEBVIEW2_DOWNLOAD_URL@),
{
    reveal_strlit("VoiceSub — требуется WebView2");
    reveal_strlit("VoiceSub — WebView2 が必要です");
    reveal_strlit("VoiceSub — WebView2 필요");
    reveal_strlit("VoiceSub — 需要 WebView2");
    reveal_strlit("VoiceSub — WebView2 required");
    reveal_strlit("Для работы VoiceSub нужен Microsoft Edge WebView2 Runtime.\r\n\r\nСейчас он не найден на этом компьютере. Установите WebView2 и запустите VoiceSub снова.\r\n\r\nСкачать:\r\nhttps://go.microsoft.com/fwlink/p/?LinkId=2124703");
    reveal_strlit("VoiceSub を使用するには Microsoft Edge WebView2 Runtime が必要です。\r\n\r\nこのコンピューターに WebView2 が見つかりません。インストール後に VoiceSub を再起動してください。\r\n\r\nダウンロード:\r\nhttps://go.microsoft.com/fwlink/p/?LinkId=2124703");
    reveal_strlit("VoiceSub를 실행하려면 Microsoft Edge WebView2 Runtime이 필요합니다.\r\n\r\n이 PC에서 WebView2를 찾을 수 없습니다. 설치한 뒤 VoiceSub를 다시 실행하세요.\r\n\r\n다운로드:\r\nhttps://go.microsoft.com/fwlink/p/?LinkId=2124703");
    reveal_strlit("运行 VoiceSub 需要 Microsoft Edge WebView2 运行时。\r\n\r\n未在此计算机上检测到 WebView2。请安装后重新启动 VoiceSub。\r\n\r\n下载:\r\nhttps://go.microsoft.com/fwlink/p/?LinkId=2124703");
    reveal_strlit("VoiceSub requires Microsoft Edge WebView2 Runtime.\r\n\r\nWebView2 was not found on this computer. Install it, then start VoiceSub again.\r\n\r\nDownload:\r\nhttps://go.microsoft.com/fwlink/p/?LinkId=2124703");
    reveal_strlit("https://go.microsoft.com/fwlink/p/?LinkId=2124703");
    law_ui_language_is_supported(raw);
    let b = dialog_body(ui_language(raw));
    let u = WEBVIEW2_DOWNLOAD_URL@;
    assert(b.subrange(b.len() - u.len(), b.len() as int) =~= u);
}

/// Law (`map_windows_lang_id`): a Windows LANGID is read by its primary language (the low
/// ten bits): Russian (0x19) gives `ru`, Japanese (0x11) `ja`, Korean (0x12) `ko`, Chinese
/// (0x04) `zh`, and every other primary language `en`; each language comes from its own
/// primary id only, and the result is already a normalized UI language.
pub proof fn law_windows_primary_language(lang_id: u16)
    ensures
        (lang_for_primary(lang_id & 0x3FF) == "ru"@) == ((lang_id & 0x3FF) == 0x19),
        (lang_for_primary(lang_id & 0x3FF) == "ja"@) == ((lang_id & 0x3FF) == 0x11),
        (lang_for_primary(lang_id & 0x3FF) == "ko"@) == ((lang_id & 0x3FF) == 0x12),
        (lang_for_primary(lang_id & 0x3FF) == "zh"@) == ((lang_id & 0x3FF) == 0x04),
        (lang_for_primary(lang_id & 0x3FF) == "en"@) == ((lang_id & 0x3FF) != 0x19 && (lang_id & 0x3FF)
            != 0x11 && (lang_id & 0x3FF) != 0x12 && (lang_id & 0x3FF) != 0x04),
        ui_language(lang_for_primary(lang_id & 0x3FF)) == lang_for_primary(lang_id & 0x3FF),
{
    reveal_strlit("en");
    reveal_strlit("ru");
    reveal_strlit("ja");
    reveal_strlit("ko");
    reveal_strlit("zh");
    lemma_lower_trim_two_letters(lang_for_primary(lang_id & 0x3FF));
}

/// Law (`normalize_supported_ui_language`): a locale tag whose trimmed, lower-cased form
/// starts with `ru`, `zh`, `ja` or `ko` selects that language, and a tag that starts with
/// none of them selects English.
pub proof fn law_locale_prefix_selects_language(raw: Seq<char>)
    ensures
        starts_with(lower(trim(raw)), "ru"@) ==> ui_language(raw) == "ru"@,
        starts_with(lower(trim(raw)), "zh"@) ==> ui_language(raw) == "zh"@,
        starts_with(lower(trim(raw)), "ja"@) ==> ui_language(raw) == "ja"@,
        starts_with(lower(trim(raw)), "ko"@) ==> ui_language(raw) == "ko"@,
        !starts_with(lower(trim(raw)), "ru"@) && !starts_with(lower(trim(raw)), "zh"@) && !starts_with(
            lower(trim(raw)),
            "ja"@,
        ) && !starts_with(lower(trim(raw)), "ko"@) ==> ui_language(raw) == "en"@,
{
    reveal_strlit("en");
    reveal_strlit("ru");
    reveal_strlit("ja");
    reveal_strlit("ko");
    reveal_strlit("zh");
    let c = lower(trim(raw));
    if c.len() >= 2 {
        assert(c == "ru"@ ==> starts_with(c, "ru"@)) by {
            if c == "ru"@ {
                assert(c.subrange(0, 2) =~= c);
            }
        }
        assert(c == "zh"@ ==> starts_with(c, "zh"@)) by {
            if c == "zh"@ {
                assert(c.subrange(0, 2) =~= c);
            }
        }
        assert(c == "ja"@ ==> starts_with(c, "ja"@)) by {
            if c == "ja"@ {
                assert(c.subrange(0, 2) =~= c);
            }
        }
        assert(c == "ko"@ ==> starts_with(c, "ko"@)) by {
            if c == "ko"@ {
                assert(c.subrange(0, 2) =~= c);
            }
        }
        assert(c == "en"@ ==> starts_with(c, "en"@)) by {
            if c == "en"@ {
                assert(c.subrange(0, 2) =~= c);
            }
        }
    }
    if starts_with(c, "ru"@) {
        assert(c[0] == 'r' && c[1] == 'u') by {
            assert(c.subrange(0, 2)[0] == c[0] && c.subrange(0, 2)[1] == c[1]);
        }
    }
    if starts_with(c, "zh"@) {
        assert(c[0] == 'z' && c[1] == 'h') by {
            assert(c.subrange(0, 2)[0] == c[0] && c.subrange(0, 2)[1] == c[1]);
        }
    }
    if starts_with(c, "ja"@) {
        assert(c[0] == 'j' && c[1] == 'a') by {
            assert(c.subrange(0, 2)[0] == c[0] && c.subrange(0, 2)[1] == c[1]);
        }
    }
    if starts_with(c, "ko"@) {
        assert(c[0] == 'k' && c[1] == 'o') by {
            assert(c.subrange(0, 2)[0] == c[0] && c.subrange(0, 2)[1] == c[1]);
        }
    }
}

} // verus!
