//! The options of a synthesis from text: the voice and how it speaks.

use vstd::prelude::*;
use vstd::string::*;
use crate::auth::{as_deref, to_owned_opt};
use crate::text::{opt_chars, str_eq};

verus! {

/// The locale of the voice that speaks where none is chosen.
pub const DEFAULT_LOCALE: &'static str = "en-US";

/// The default voice of a locale.
pub open spec fn default_voice(locale: Seq<char>) -> Option<Seq<char>> {
    if locale == "af-ZA"@ {
        Some("af-ZA-AdriNeural"@)
    } else if locale == "am-ET"@ {
        Some("am-ET-AmehaNeural"@)
    } else if locale == "ar-AE"@ {
        Some("ar-AE-FatimaNeural"@)
    } else if locale == "ar-BH"@ {
        Some("ar-BH-AliNeural"@)
    } else if locale == "ar-DZ"@ {
        Some("ar-DZ-AminaNeural"@)
    } else if locale == "ar-EG"@ {
        Some("ar-EG-SalmaNeural"@)
    } else if locale == "ar-IQ"@ {
        Some("ar-IQ-BasselNeural"@)
    } else if locale == "ar-JO"@ {
        Some("ar-JO-SanaNeural"@)
    } else if locale == "ar-KW"@ {
        Some("ar-KW-FahedNeural"@)
    } else if locale == "ar-LY"@ {
        Some("ar-LY-ImanNeural"@)
    } else if locale == "ar-MA"@ {
        Some("ar-MA-JamalNeural"@)
    } else if locale == "ar-QA"@ {
        Some("ar-QA-AmalNeural"@)
    } else if locale == "ar-SA"@ {
        Some("ar-SA-HamedNeural"@)
    } else if locale == "ar-SY"@ {
        Some("ar-SY-AmanyNeural"@)
    } else if locale == "ar-TN"@ {
        Some("ar-TN-HediNeural"@)
    } else if locale == "ar-YE"@ {
        Some("ar-YE-MaryamNeural"@)
    } else if locale == "bg-BG"@ {
        Some("bg-BG-BorislavNeural"@)
    } else if locale == "bn-BD"@ {
        Some("bn-BD-NabanitaNeural"@)
    } else if locale == "bn-IN"@ {
        Some("bn-IN-BashkarNeural"@)
    } else if locale == "ca-ES"@ {
        Some("ca-ES-JoanaNeural"@)
    } else if locale == "cs-CZ"@ {
        Some("cs-CZ-AntoninNeural"@)
    } else if locale == "cy-GB"@ {
        Some("cy-GB-AledNeural"@)
    } else if locale == "da-DK"@ {
        Some("da-DK-ChristelNeural"@)
    } else if locale == "de-AT"@ {
        Some("de-AT-IngridNeural"@)
    } else if locale == "de-CH"@ {
        Some("de-CH-JanNeural"@)
    } else if locale == "de-DE"@ {
        Some("de-DE-KatjaNeural"@)
    } else if locale == "el-GR"@ {
        Some("el-GR-AthinaNeural"@)
    } else if locale == "en-AU"@ {
        Some("en-AU-NatashaNeural"@)
    } else if locale == "en-CA"@ {
        Some("en-CA-ClaraNeural"@)
    } else if locale == "en-GB"@ {
        Some("en-GB-LibbyNeural"@)
    } else if locale == "en-HK"@ {
        Some("en-HK-SamNeural"@)
    } else if locale == "en-IE"@ {
        Some("en-IE-ConnorNeural"@)
    } else if locale == "en-IN"@ {
        Some("en-IN-NeerjaNeural"@)
    } else if locale == "en-KE"@ {
        Some("en-KE-AsiliaNeural"@)
    } else if locale == "en-NG"@ {
        Some("en-NG-AbeoNeural"@)
    } else if locale == "en-NZ"@ {
        Some("en-NZ-MitchellNeural"@)
    } else if locale == "en-PH"@ {
        Some("en-PH-JamesNeural"@)
    } else if locale == "en-SG"@ {
        Some("en-SG-LunaNeural"@)
    } else if locale == "en-TZ"@ {
        Some("en-TZ-ElimuNeural"@)
    } else if locale == "en-US"@ {
        Some("en-US-JennyNeural"@)
    } else if locale == "en-ZA"@ {
        Some("en-ZA-LeahNeural"@)
    } else if locale == "es-AR"@ {
        Some("es-AR-ElenaNeural"@)
    } else if locale == "es-BO"@ {
        Some("es-BO-MarceloNeural"@)
    } else if locale == "es-CL"@ {
        Some("es-CL-CatalinaNeural"@)
    } else if locale == "es-CO"@ {
        Some("es-CO-GonzaloNeural"@)
    } else if locale == "es-CR"@ {
        Some("es-CR-JuanNeural"@)
    } else if locale == "es-CU"@ {
        Some("es-CU-BelkysNeural"@)
    } else if locale == "es-DO"@ {
        Some("es-DO-EmilioNeural"@)
    } else if locale == "es-EC"@ {
        Some("es-EC-AndreaNeural"@)
    } else if locale == "es-ES"@ {
        Some("es-ES-AlvaroNeural"@)
    } else if locale == "es-GQ"@ {
        Some("es-GQ-JavierNeural"@)
    } else if locale == "es-GT"@ {
        Some("es-GT-AndresNeural"@)
    } else if locale == "es-HN"@ {
        Some("es-HN-CarlosNeural"@)
    } else if locale == "es-MX"@ {
        Some("es-MX-DaliaNeural"@)
    } else if locale == "es-NI"@ {
        Some("es-NI-FedericoNeural"@)
    } else if locale == "es-PA"@ {
        Some("es-PA-MargaritaNeural"@)
    } else if locale == "es-PE"@ {
        Some("es-PE-AlexNeural"@)
    } else if locale == "es-PR"@ {
        Some("es-PR-KarinaNeural"@)
    } else if locale == "es-PY"@ {
        Some("es-PY-MarioNeural"@)
    } else if locale == "es-SV"@ {
        Some("es-SV-LorenaNeural"@)
    } else if locale == "es-US"@ {
        Some("es-US-AlonsoNeural"@)
    } else if locale == "es-UY"@ {
        Some("es-UY-MateoNeural"@)
    } else if locale == "es-VE"@ {
        Some("es-VE-PaolaNeural"@)
    } else if locale == "et-EE"@ {
        Some("et-EE-AnuNeural"@)
    } else if locale == "fa-IR"@ {
        Some("fa-IR-DilaraNeural"@)
    } else if locale == "fi-FI"@ {
        Some("fi-FI-SelmaNeural"@)
    } else if locale == "fil-PH"@ {
        Some("fil-PH-AngeloNeural"@)
    } else if locale == "fr-BE"@ {
        Some("fr-BE-CharlineNeural"@)
    } else if locale == "fr-CA"@ {
        Some("fr-CA-SylvieNeural"@)
    } else if locale == "fr-CH"@ {
        Some("fr-CH-ArianeNeural"@)
    } else if locale == "fr-FR"@ {
        Some("fr-FR-DeniseNeural"@)
    } else if locale == "ga-IE"@ {
        Some("ga-IE-ColmNeural"@)
    } else if locale == "gl-ES"@ {
        Some("gl-ES-RoiNeural"@)
    } else if locale == "gu-IN"@ {
        Some("gu-IN-DhwaniNeural"@)
    } else if locale == "he-IL"@ {
        Some("he-IL-AvriNeural"@)
    } else if locale == "hi-IN"@ {
        Some("hi-IN-MadhurNeural"@)
    } else if locale == "hr-HR"@ {
        Some("hr-HR-GabrijelaNeural"@)
    } else if locale == "hu-HU"@ {
        Some("hu-HU-NoemiNeural"@)
    } else if locale == "id-ID"@ {
        Some("id-ID-ArdiNeural"@)
    } else if locale == "is-IS"@ {
        Some("is-IS-GudrunNeural"@)
    } else if locale == "it-IT"@ {
        Some("it-IT-IsabellaNeural"@)
    } else if locale == "ja-JP"@ {
        Some("ja-JP-NanamiNeural"@)
    } else if locale == "jv-ID"@ {
        Some("jv-ID-DimasNeural"@)
    } else if locale == "kk-KZ"@ {
        Some("kk-KZ-AigulNeural"@)
    } else if locale == "km-KH"@ {
        Some("km-KH-PisethNeural"@)
    } else if locale == "kn-IN"@ {
        Some("kn-IN-GaganNeural"@)
    } else if locale == "ko-KR"@ {
        Some("ko-KR-SunHiNeural"@)
    } else if locale == "lo-LA"@ {
        Some("lo-LA-ChanthavongNeural"@)
    } else if locale == "lt-LT"@ {
        Some("lt-LT-LeonasNeural"@)
    } else if locale == "lv-LV"@ {
        Some("lv-LV-EveritaNeural"@)
    } else if locale == "mk-MK"@ {
        Some("mk-MK-AleksandarNeural"@)
    } else if locale == "ml-IN"@ {
        Some("ml-IN-MidhunNeural"@)
    } else if locale == "mr-IN"@ {
        Some("mr-IN-AarohiNeural"@)
    } else if locale == "ms-MY"@ {
        Some("ms-MY-OsmanNeural"@)
    } else if locale == "mt-MT"@ {
        Some("mt-MT-GraceNeural"@)
    } else if locale == "my-MM"@ {
        Some("my-MM-NilarNeural"@)
    } else if locale == "nb-NO"@ {
        Some("nb-NO-PernilleNeural"@)
    } else if locale == "nl-BE"@ {
        Some("nl-BE-ArnaudNeural"@)
    } else if locale == "nl-NL"@ {
        Some("nl-NL-ColetteNeural"@)
    } else if locale == "pl-PL"@ {
        Some("pl-PL-AgnieszkaNeural"@)
    } else if locale == "ps-AF"@ {
        Some("ps-AF-GulNawazNeural"@)
    } else if locale == "pt-BR"@ {
        Some("pt-BR-FranciscaNeural"@)
    } else if locale == "pt-PT"@ {
        Some("pt-PT-DuarteNeural"@)
    } else if locale == "ro-RO"@ {
        Some("ro-RO-AlinaNeural"@)
    } else if locale == "ru-RU"@ {
        Some("ru-RU-SvetlanaNeural"@)
    } else if locale == "si-LK"@ {
        Some("si-LK-SameeraNeural"@)
    } else if locale == "sk-SK"@ {
        Some("sk-SK-LukasNeural"@)
    } else if locale == "sl-SI"@ {
        Some("sl-SI-PetraNeural"@)
    } else if locale == "so-SO"@ {
        Some("so-SO-MuuseNeural"@)
    } else if locale == "sr-RS"@ {
        Some("sr-RS-NicholasNeural"@)
    } else if locale == "su-ID"@ {
        Some("su-ID-JajangNeural"@)
    } else if locale == "sv-SE"@ {
        Some("sv-SE-SofieNeural"@)
    } else if locale == "sw-KE"@ {
        Some("sw-KE-RafikiNeural"@)
    } else if locale == "sw-TZ"@ {
        Some("sw-TZ-DaudiNeural"@)
    } else if locale == "ta-IN"@ {
        Some("ta-IN-PallaviNeural"@)
    } else if locale == "ta-LK"@ {
        Some("ta-LK-KumarNeural"@)
    } else if locale == "ta-SG"@ {
        Some("ta-SG-AnbuNeural"@)
    } else if locale == "te-IN"@ {
        Some("te-IN-MohanNeural"@)
    } else if locale == "th-TH"@ {
        Some("th-TH-PremwadeeNeural"@)
    } else if locale == "tr-TR"@ {
        Some("tr-TR-AhmetNeural"@)
    } else if locale == "uk-UA"@ {
        Some("uk-UA-OstapNeural"@)
    } else if locale == "ur-IN"@ {
        Some("ur-IN-GulNeural"@)
    } else if locale == "ur-PK"@ {
        Some("ur-PK-AsadNeural"@)
    } else if locale == "uz-UZ"@ {
        Some("uz-UZ-MadinaNeural"@)
    } else if locale == "vi-VN"@ {
        Some("vi-VN-HoaiMyNeural"@)
    } else if locale == "zh-CN"@ {
        Some("zh-CN-XiaoxiaoNeural"@)
    } else if locale == "zh-HK"@ {
        Some("zh-HK-HiuMaanNeural"@)
    } else if locale == "zh-TW"@ {
        Some("zh-TW-HsiaoChenNeural"@)
    } else if locale == "zu-ZA"@ {
        Some("zu-ZA-ThandoNeural"@)
    } else {
        None
    }
}

/// The default voice of a locale, if the locale has one.
pub fn get_default_voice_by_locale(locale: &str) -> (voice: Option<&'static str>)
    ensures
        match voice {
            Some(name) => default_voice(locale@) == Some(name@),
            None => default_voice(locale@) is None,
        },
{
    if str_eq(locale, "af-ZA") {
        Some("af-ZA-AdriNeural")
    } else if str_eq(locale, "am-ET") {
        Some("am-ET-AmehaNeural")
    } else if str_eq(locale, "ar-AE") {
        Some("ar-AE-FatimaNeural")
    } else if str_eq(locale, "ar-BH") {
        Some("ar-BH-AliNeural")
    } else if str_eq(locale, "ar-DZ") {
        Some("ar-DZ-AminaNeural")
    } else if str_eq(locale, "ar-EG") {
        Some("ar-EG-SalmaNeural")
    } else if str_eq(locale, "ar-IQ") {
        Some("ar-IQ-BasselNeural")
    } else if str_eq(locale, "ar-JO") {
        Some("ar-JO-SanaNeural")
    } else if str_eq(locale, "ar-KW") {
        Some("ar-KW-FahedNeural")
    } else if str_eq(locale, "ar-LY") {
        Some("ar-LY-ImanNeural")
    } else if str_eq(locale, "ar-MA") {
        Some("ar-MA-JamalNeural")
    } else if str_eq(locale, "ar-QA") {
        Some("ar-QA-AmalNeural")
    } else if str_eq(locale, "ar-SA") {
        Some("ar-SA-HamedNeural")
    } else if str_eq(locale, "ar-SY") {
        Some("ar-SY-AmanyNeural")
    } else if str_eq(locale, "ar-TN") {
        Some("ar-TN-HediNeural")
    } else if str_eq(locale, "ar-YE") {
        Some("ar-YE-MaryamNeural")
    } else if str_eq(locale, "bg-BG") {
        Some("bg-BG-BorislavNeural")
    } else if str_eq(locale, "bn-BD") {
        Some("bn-BD-NabanitaNeural")
    } else if str_eq(locale, "bn-IN") {
        Some("bn-IN-BashkarNeural")
    } else if str_eq(locale, "ca-ES") {
        Some("ca-ES-JoanaNeural")
    } else if str_eq(locale, "cs-CZ") {
        Some("cs-CZ-AntoninNeural")
    } else if str_eq(locale, "cy-GB") {
        Some("cy-GB-AledNeural")
    } else if str_eq(locale, "da-DK") {
        Some("da-DK-ChristelNeural")
    } else if str_eq(locale, "de-AT") {
        Some("de-AT-IngridNeural")
    } else if str_eq(locale, "de-CH") {
        Some("de-CH-JanNeural")
    } else if str_eq(locale, "de-DE") {
        Some("de-DE-KatjaNeural")
    } else if str_eq(locale, "el-GR") {
        Some("el-GR-AthinaNeural")
    } else if str_eq(locale, "en-AU") {
        Some("en-AU-NatashaNeural")
    } else if str_eq(locale, "en-CA") {
        Some("en-CA-ClaraNeural")
    } else if str_eq(locale, "en-GB") {
        Some("en-GB-LibbyNeural")
    } else if str_eq(locale, "en-HK") {
        Some("en-HK-SamNeural")
    } else if str_eq(locale, "en-IE") {
        Some("en-IE-ConnorNeural")
    } else if str_eq(locale, "en-IN") {
        Some("en-IN-NeerjaNeural")
    } else if str_eq(locale, "en-KE") {
        Some("en-KE-AsiliaNeural")
    } else if str_eq(locale, "en-NG") {
        Some("en-NG-AbeoNeural")
    } else if str_eq(locale, "en-NZ") {
        Some("en-NZ-MitchellNeural")
    } else if str_eq(locale, "en-PH") {
        Some("en-PH-JamesNeural")
    } else if str_eq(locale, "en-SG") {
        Some("en-SG-LunaNeural")
    } else if str_eq(locale, "en-TZ") {
        Some("en-TZ-ElimuNeural")
    } else if str_eq(locale, "en-US") {
        Some("en-US-JennyNeural")
    } else if str_eq(locale, "en-ZA") {
        Some("en-ZA-LeahNeural")
    } else if str_eq(locale, "es-AR") {
        Some("es-AR-ElenaNeural")
    } else if str_eq(locale, "es-BO") {
        Some("es-BO-MarceloNeural")
    } else if str_eq(locale, "es-CL") {
        Some("es-CL-CatalinaNeural")
    } else if str_eq(locale, "es-CO") {
        Some("es-CO-GonzaloNeural")
    } else if str_eq(locale, "es-CR") {
        Some("es-CR-JuanNeural")
    } else if str_eq(locale, "es-CU") {
        Some("es-CU-BelkysNeural")
    } else if str_eq(locale, "es-DO") {
        Some("es-DO-EmilioNeural")
    } else if str_eq(locale, "es-EC") {
        Some("es-EC-AndreaNeural")
    } else if str_eq(locale, "es-ES") {
        Some("es-ES-AlvaroNeural")
    } else if str_eq(locale, "es-GQ") {
        Some("es-GQ-JavierNeural")
    } else if str_eq(locale, "es-GT") {
        Some("es-GT-AndresNeural")
    } else if str_eq(locale, "es-HN") {
        Some("es-HN-CarlosNeural")
    } else if str_eq(locale, "es-MX") {
        Some("es-MX-DaliaNeural")
    } else if str_eq(locale, "es-NI") {
        Some("es-NI-FedericoNeural")
    } else if str_eq(locale, "es-PA") {
        Some("es-PA-MargaritaNeural")
    } else if str_eq(locale, "es-PE") {
        Some("es-PE-AlexNeural")
    } else if str_eq(locale, "es-PR") {
        Some("es-PR-KarinaNeural")
    } else if str_eq(locale, "es-PY") {
        Some("es-PY-MarioNeural")
    } else if str_eq(locale, "es-SV") {
        Some("es-SV-LorenaNeural")
    } else if str_eq(locale, "es-US") {
        Some("es-US-AlonsoNeural")
    } else if str_eq(locale, "es-UY") {
        Some("es-UY-MateoNeural")
    } else if str_eq(locale, "es-VE") {
        Some("es-VE-PaolaNeural")
    } else if str_eq(locale, "et-EE") {
        Some("et-EE-AnuNeural")
    } else if str_eq(locale, "fa-IR") {
        Some("fa-IR-DilaraNeural")
    } else if str_eq(locale, "fi-FI") {
        Some("fi-FI-SelmaNeural")
    } else if str_eq(locale, "fil-PH") {
        Some("fil-PH-AngeloNeural")
    } else if str_eq(locale, "fr-BE") {
        Some("fr-BE-CharlineNeural")
    } else if str_eq(locale, "fr-CA") {
        Some("fr-CA-SylvieNeural")
    } else if str_eq(locale, "fr-CH") {
        Some("fr-CH-ArianeNeural")
    } else if str_eq(locale, "fr-FR") {
        Some("fr-FR-DeniseNeural")
    } else if str_eq(locale, "ga-IE") {
        Some("ga-IE-ColmNeural")
    } else if str_eq(locale, "gl-ES") {
        Some("gl-ES-RoiNeural")
    } else if str_eq(locale, "gu-IN") {
        Some("gu-IN-DhwaniNeural")
    } else if str_eq(locale, "he-IL") {
        Some("he-IL-AvriNeural")
    } else if str_eq(locale, "hi-IN") {
        Some("hi-IN-MadhurNeural")
    } else if str_eq(locale, "hr-HR") {
        Some("hr-HR-GabrijelaNeural")
    } else if str_eq(locale, "hu-HU") {
        Some("hu-HU-NoemiNeural")
    } else if str_eq(locale, "id-ID") {
        Some("id-ID-ArdiNeural")
    } else if str_eq(locale, "is-IS") {
        Some("is-IS-GudrunNeural")
    } else if str_eq(locale, "it-IT") {
        Some("it-IT-IsabellaNeural")
    } else if str_eq(locale, "ja-JP") {
        Some("ja-JP-NanamiNeural")
    } else if str_eq(locale, "jv-ID") {
        Some("jv-ID-DimasNeural")
    } else if str_eq(locale, "kk-KZ") {
        Some("kk-KZ-AigulNeural")
    } else if str_eq(locale, "km-KH") {
        Some("km-KH-PisethNeural")
    } else if str_eq(locale, "kn-IN") {
        Some("kn-IN-GaganNeural")
    } else if str_eq(locale, "ko-KR") {
        Some("ko-KR-SunHiNeural")
    } else if str_eq(locale, "lo-LA") {
        Some("lo-LA-ChanthavongNeural")
    } else if str_eq(locale, "lt-LT") {
        Some("lt-LT-LeonasNeural")
    } else if str_eq(locale, "lv-LV") {
        Some("lv-LV-EveritaNeural")
    } else if str_eq(locale, "mk-MK") {
        Some("mk-MK-AleksandarNeural")
    } else if str_eq(locale, "ml-IN") {
        Some("ml-IN-MidhunNeural")
    } else if str_eq(locale, "mr-IN") {
        Some("mr-IN-AarohiNeural")
    } else if str_eq(locale, "ms-MY") {
        Some("ms-MY-OsmanNeural")
    } else if str_eq(locale, "mt-MT") {
        Some("mt-MT-GraceNeural")
    } else if str_eq(locale, "my-MM") {
        Some("my-MM-NilarNeural")
    } else if str_eq(locale, "nb-NO") {
        Some("nb-NO-PernilleNeural")
    } else if str_eq(locale, "nl-BE") {
        Some("nl-BE-ArnaudNeural")
    } else if str_eq(locale, "nl-NL") {
        Some("nl-NL-ColetteNeural")
    } else if str_eq(locale, "pl-PL") {
        Some("pl-PL-AgnieszkaNeural")
    } else if str_eq(locale, "ps-AF") {
        Some("ps-AF-GulNawazNeural")
    } else if str_eq(locale, "pt-BR") {
        Some("pt-BR-FranciscaNeural")
    } else if str_eq(locale, "pt-PT") {
        Some("pt-PT-DuarteNeural")
    } else if str_eq(locale, "ro-RO") {
        Some("ro-RO-AlinaNeural")
    } else if str_eq(locale, "ru-RU") {
        Some("ru-RU-SvetlanaNeural")
    } else if str_eq(locale, "si-LK") {
        Some("si-LK-SameeraNeural")
    } else if str_eq(locale, "sk-SK") {
        Some("sk-SK-LukasNeural")
    } else if str_eq(locale, "sl-SI") {
        Some("sl-SI-PetraNeural")
    } else if str_eq(locale, "so-SO") {
        Some("so-SO-MuuseNeural")
    } else if str_eq(locale, "sr-RS") {
        Some("sr-RS-NicholasNeural")
    } else if str_eq(locale, "su-ID") {
        Some("su-ID-JajangNeural")
    } else if str_eq(locale, "sv-SE") {
        Some("sv-SE-SofieNeural")
    } else if str_eq(locale, "sw-KE") {
        Some("sw-KE-RafikiNeural")
    } else if str_eq(locale, "sw-TZ") {
        Some("sw-TZ-DaudiNeural")
    } else if str_eq(locale, "ta-IN") {
        Some("ta-IN-PallaviNeural")
    } else if str_eq(locale, "ta-LK") {
        Some("ta-LK-KumarNeural")
    } else if str_eq(locale, "ta-SG") {
        Some("ta-SG-AnbuNeural")
    } else if str_eq(locale, "te-IN") {
        Some("te-IN-MohanNeural")
    } else if str_eq(locale, "th-TH") {
        Some("th-TH-PremwadeeNeural")
    } else if str_eq(locale, "tr-TR") {
        Some("tr-TR-AhmetNeural")
    } else if str_eq(locale, "uk-UA") {
        Some("uk-UA-OstapNeural")
    } else if str_eq(locale, "ur-IN") {
        Some("ur-IN-GulNeural")
    } else if str_eq(locale, "ur-PK") {
        Some("ur-PK-AsadNeural")
    } else if str_eq(locale, "uz-UZ") {
        Some("uz-UZ-MadinaNeural")
    } else if str_eq(locale, "vi-VN") {
        Some("vi-VN-HoaiMyNeural")
    } else if str_eq(locale, "zh-CN") {
        Some("zh-CN-XiaoxiaoNeural")
    } else if str_eq(locale, "zh-HK") {
        Some("zh-HK-HiuMaanNeural")
    } else if str_eq(locale, "zh-TW") {
        Some("zh-TW-HsiaoChenNeural")
    } else if str_eq(locale, "zu-ZA") {
        Some("zu-ZA-ThandoNeural")
    } else {
        None
    }
}

/// Speech role
#[non_exhaustive]
#[derive(Debug, Clone, Copy, PartialEq, Eq, Structural)]
pub enum Role {
    Girl,
    Boy,
    YoungAdultFemale,
    YoungAdultMale,
    OlderAdultFemale,
    OlderAdultMale,
    SeniorFemale,
    SeniorMale,
}

impl Role {
    /// The role's name in markup.
    pub open spec fn name(self) -> Seq<char> {
        match self {
            Role::Girl => "Girl"@,
            Role::Boy => "Boy"@,
            Role::YoungAdultFemale => "YoungAdultFemale"@,
            Role::YoungAdultMale => "YoungAdultMale"@,
            Role::OlderAdultFemale => "OlderAdultFemale"@,
            Role::OlderAdultMale => "OlderAdultMale"@,
            Role::SeniorFemale => "SeniorFemale"@,
            Role::SeniorMale => "SeniorMale"@,
        }
    }

    /// The role's name in markup.
    pub fn as_str(&self) -> (name: &'static str)
        ensures
            name@ == self.name(),
    {
        match self {
            Role::Girl => "Girl",
            Role::Boy => "Boy",
            Role::YoungAdultFemale => "YoungAdultFemale",
            Role::YoungAdultMale => "YoungAdultMale",
            Role::OlderAdultFemale => "OlderAdultFemale",
            Role::OlderAdultMale => "OlderAdultMale",
            Role::SeniorFemale => "SeniorFemale",
            Role::SeniorMale => "SeniorMale",
        }
    }

    /// The role of a name, if it names one.
    pub fn from_name(name: &str) -> (role: Option<Role>)
        ensures
            match role {
                Some(r) => r.name() == name@,
                None => forall|r: Role| r.name() != name@,
            },
    {
        if str_eq(name, "Girl") {
            Some(Role::Girl)
        } else if str_eq(name, "Boy") {
            Some(Role::Boy)
        } else if str_eq(name, "YoungAdultFemale") {
            Some(Role::YoungAdultFemale)
        } else if str_eq(name, "YoungAdultMale") {
            Some(Role::YoungAdultMale)
        } else if str_eq(name, "OlderAdultFemale") {
            Some(Role::OlderAdultFemale)
        } else if str_eq(name, "OlderAdultMale") {
            Some(Role::OlderAdultMale)
        } else if str_eq(name, "SeniorFemale") {
            Some(Role::SeniorFemale)
        } else if str_eq(name, "SeniorMale") {
            Some(Role::SeniorMale)
        } else {
            None
        }
    }
}

/// Options that are only available if rich ssml is enabled
#[derive(Debug, Clone)]
pub struct RichSsmlOptions {
    /// Speech style
    pub(crate) style: Option<String>,
    /// Speech role
    pub(crate) role: Option<Role>,
    /// Speech style degree, a number from 0.01 to 2, as it is written into
    /// the markup
    pub(crate) style_degree: Option<String>,
}

/// The mathematical value of [`RichSsmlOptions`].
#[verifier::ext_equal]
pub ghost struct RichSsmlOptionsView {
    pub style: Option<Seq<char>>,
    pub role: Option<Role>,
    pub style_degree: Option<Seq<char>>,
}

impl View for RichSsmlOptions {
    type V = RichSsmlOptionsView;

    closed spec fn view(&self) -> RichSsmlOptionsView {
        RichSsmlOptionsView {
            style: opt_chars(self.style),
            role: self.role,
            style_degree: opt_chars(self.style_degree),
        }
    }
}

/// The view of an optional text that was borrowed.
pub open spec fn borrowed_chars(text: Option<&str>) -> Option<Seq<char>> {
    match text {
        Some(t) => Some(t@),
        None => None,
    }
}

impl RichSsmlOptions {
    /// Speech style
    pub fn style(&self) -> (style: Option<&str>)
        ensures
            borrowed_chars(style) == self@.style,
    {
        as_deref(&self.style)
    }

    /// Speech style
    pub fn style_mut(&mut self) -> (style: &mut Option<String>)
        ensures
            opt_chars(*style) == old(self)@.style,
            final(self)@ == (RichSsmlOptionsView { style: opt_chars(*final(style)), ..old(self)@ }),
    {
        &mut self.style
    }

    /// Speech role
    pub fn role(&self) -> (role: Option<Role>)
        ensures
            role == self@.role,
    {
        self.role
    }

    /// Speech role
    pub fn role_mut(&mut self) -> (role: &mut Option<Role>)
        ensures
            *role == old(self)@.role,
            final(self)@ == (RichSsmlOptionsView { role: *final(role), ..old(self)@ }),
    {
        &mut self.role
    }

    /// Speech style degree, a number from 0.01 to 2, as text
    pub fn style_degree(&self) -> (style_degree: Option<&str>)
        ensures
            borrowed_chars(style_degree) == self@.style_degree,
    {
        as_deref(&self.style_degree)
    }

    /// Speech style degree, a number from 0.01 to 2, as text
    pub fn style_degree_mut(&mut self) -> (style_degree: &mut Option<String>)
        ensures
            opt_chars(*style_degree) == old(self)@.style_degree,
            final(self)@ == (RichSsmlOptionsView {
                style_degree: opt_chars(*final(style_degree)),
                ..old(self)@
            }),
    {
        &mut self.style_degree
    }

    /// Create a builder for [`RichSsmlOptions`]
    pub fn builder() -> (builder: RichSsmlOptionsBuilder)
        ensures
            builder@ == RichSsmlOptionsBuilder::initial(),
    {
        RichSsmlOptionsBuilder::new()
    }
}

/// Builder for [`RichSsmlOptions`]
pub struct RichSsmlOptionsBuilder {
    style: Option<String>,
    role: Option<Role>,
    style_degree: Option<String>,
}

impl View for RichSsmlOptionsBuilder {
    type V = RichSsmlOptionsView;

    closed spec fn view(&self) -> RichSsmlOptionsView {
        RichSsmlOptionsView {
            style: opt_chars(self.style),
            role: self.role,
            style_degree: opt_chars(self.style_degree),
        }
    }
}

impl RichSsmlOptionsBuilder {
    /// The options of a builder that was given nothing.
    pub open spec fn initial() -> RichSsmlOptionsView {
        RichSsmlOptionsView { style: None, role: None, style_degree: None }
    }

    /// Create a new builder
    pub fn new() -> (builder: Self)
        ensures
            builder@ == Self::initial(),
    {
        RichSsmlOptionsBuilder { style: None, role: None, style_degree: None }
    }

    /// Speech style
    pub fn style(self, style: &str) -> (builder: Self)
        ensures
            builder@ == (RichSsmlOptionsView { style: Some(style@), ..self@ }),
    {
        let mut builder = self;
        builder.style = Some(style.to_owned());
        builder
    }

    /// Speech style
    pub fn optional_style(self, style: Option<&str>) -> (builder: Self)
        ensures
            builder@ == (RichSsmlOptionsView { style: borrowed_chars(style), ..self@ }),
    {
        let mut builder = self;
        builder.style = to_owned_opt(style);
        builder
    }

    /// Speech role
    pub fn role(self, role: Role) -> (builder: Self)
        ensures
            builder@ == (RichSsmlOptionsView { role: Some(role), ..self@ }),
    {
        let mut builder = self;
        builder.role = Some(role);
        builder
    }

    /// Speech role
    pub fn optional_role(self, role: Option<Role>) -> (builder: Self)
        ensures
            builder@ == (RichSsmlOptionsView { role, ..self@ }),
    {
        let mut builder = self;
        builder.role = role;
        builder
    }

    /// Speech style degree, a number from 0.01 to 2, as text
    pub fn style_degree(self, style_degree: &str) -> (builder: Self)
        ensures
            builder@ == (RichSsmlOptionsView { style_degree: Some(style_degree@), ..self@ }),
    {
        let mut builder = self;
        builder.style_degree = Some(style_degree.to_owned());
        builder
    }

    /// Speech style degree, a number from 0.01 to 2, as text
    pub fn optional_style_degree(self, style_degree: Option<&str>) -> (builder: Self)
        ensures
            builder@ == (RichSsmlOptionsView {
                style_degree: borrowed_chars(style_degree),
                ..self@
            }),
    {
        let mut builder = self;
        builder.style_degree = to_owned_opt(style_degree);
        builder
    }

    /// Build [`RichSsmlOptions`]
    pub fn build(self) -> (options: RichSsmlOptions)
        ensures
            options@ == self@,
    {
        RichSsmlOptions { style: self.style, role: self.role, style_degree: self.style_degree }
    }
}

/// Options for text-to-speech
#[derive(Debug, Clone)]
pub struct TextOptions {
    /// Voice identifier. It should be in the format of `locale-voice_name` like `en-US-JennyNeural`.
    pub(crate) voice: String,
    /// Pitch string that will be inserted directly into SSML
    pub(crate) pitch: Option<String>,
    /// Rate string that will be inserted directly into SSML
    pub(crate) rate: Option<String>,
    /// Rich SSML options
    pub(crate) rich_ssml_options: Option<RichSsmlOptions>,
}

/// The mathematical value of [`TextOptions`].
#[verifier::ext_equal]
pub ghost struct TextOptionsView {
    pub voice: Seq<char>,
    pub pitch: Option<Seq<char>>,
    pub rate: Option<Seq<char>>,
    pub rich_ssml_options: Option<RichSsmlOptionsView>,
}

/// The view of optional rich options.
pub open spec fn rich_view(options: Option<RichSsmlOptions>) -> Option<RichSsmlOptionsView> {
    match options {
        Some(rich) => Some(rich@),
        None => None,
    }
}

impl View for TextOptions {
    type V = TextOptionsView;

    closed spec fn view(&self) -> TextOptionsView {
        TextOptionsView {
            voice: self.voice@,
            pitch: opt_chars(self.pitch),
            rate: opt_chars(self.rate),
            rich_ssml_options: rich_view(self.rich_ssml_options),
        }
    }
}

/// The options where nothing is chosen: the default voice of `en-US`, and
/// nothing else.
pub open spec fn default_text_options() -> TextOptionsView {
    TextOptionsView {
        voice: "en-US-JennyNeural"@,
        pitch: None,
        rate: None,
        rich_ssml_options: None,
    }
}

impl Default for TextOptions {
    fn default() -> (options: Self)
        ensures
            options@ == default_text_options(),
    {
        TextOptions {
            voice: String::from_str("en-US-JennyNeural"),
            pitch: None,
            rate: None,
            rich_ssml_options: None,
        }
    }
}

impl TextOptions {
    /// Voice identifier. It should be in the format of `locale-voice_name` like `en-US-JennyNeural`.
    pub fn voice(&self) -> (voice: &str)
        ensures
            voice@ == self@.voice,
    {
        self.voice.as_str()
    }

    /// Voice identifier. It should be in the format of `locale-voice_name` like `en-US-JennyNeural`.
    pub fn voice_mut(&mut self) -> (voice: &mut String)
        ensures
            (*voice)@ == old(self)@.voice,
            final(self)@ == (TextOptionsView { voice: (*final(voice))@, ..old(self)@ }),
    {
        &mut self.voice
    }

    /// Pitch string that will be inserted directly into SSML
    pub fn pitch(&self) -> (pitch: Option<&str>)
        ensures
            borrowed_chars(pitch) == self@.pitch,
    {
        as_deref(&self.pitch)
    }

    /// Pitch string that will be inserted directly into SSML
    pub fn pitch_mut(&mut self) -> (pitch: &mut Option<String>)
        ensures
            opt_chars(*pitch) == old(self)@.pitch,
            final(self)@ == (TextOptionsView { pitch: opt_chars(*final(pitch)), ..old(self)@ }),
    {
        &mut self.pitch
    }

    /// Rate string that will be inserted directly into SSML
    pub fn rate(&self) -> (rate: Option<&str>)
        ensures
            borrowed_chars(rate) == self@.rate,
    {
        as_deref(&self.rate)
    }

    /// Rate string that will be inserted directly into SSML
    pub fn rate_mut(&mut self) -> (rate: &mut Option<String>)
        ensures
            opt_chars(*rate) == old(self)@.rate,
            final(self)@ == (TextOptionsView { rate: opt_chars(*final(rate)), ..old(self)@ }),
    {
        &mut self.rate
    }

    /// Rich SSML options
    pub fn rich_ssml_options(&self) -> (rich: &Option<RichSsmlOptions>)
        ensures
            rich_view(*rich) == self@.rich_ssml_options,
    {
        &self.rich_ssml_options
    }

    /// Rich SSML options
    pub fn rich_ssml_options_mut(&mut self) -> (rich: &mut Option<RichSsmlOptions>)
        ensures
            rich_view(*rich) == old(self)@.rich_ssml_options,
            final(self)@ == (TextOptionsView {
                rich_ssml_options: rich_view(*final(rich)),
                ..old(self)@
            }),
    {
        &mut self.rich_ssml_options
    }

    /// Create a builder for [`TextOptions`]
    pub fn builder() -> (builder: TextOptionsBuilder)
        ensures
            builder@ == TextOptionsBuilder::initial(),
    {
        TextOptionsBuilder::new()
    }
}

/// Builder for [`TextOptions`]
pub struct TextOptionsBuilder {
    voice: Option<String>,
    pitch: Option<String>,
    rate: Option<String>,
    rich_ssml_options: Option<RichSsmlOptions>,
}

/// The mathematical value of a [`TextOptionsBuilder`].
#[verifier::ext_equal]
pub ghost struct TextOptionsBuilderView {
    pub voice: Option<Seq<char>>,
    pub pitch: Option<Seq<char>>,
    pub rate: Option<Seq<char>>,
    pub rich_ssml_options: Option<RichSsmlOptionsView>,
}

impl View for TextOptionsBuilder {
    type V = TextOptionsBuilderView;

    closed spec fn view(&self) -> TextOptionsBuilderView {
        TextOptionsBuilderView {
            voice: opt_chars(self.voice),
            pitch: opt_chars(self.pitch),
            rate: opt_chars(self.rate),
            rich_ssml_options: rich_view(self.rich_ssml_options),
        }
    }
}

impl TextOptionsBuilder {
    /// The state of a builder that was given nothing.
    pub open spec fn initial() -> TextOptionsBuilderView {
        TextOptionsBuilderView { voice: None, pitch: None, rate: None, rich_ssml_options: None }
    }

    /// The options that a builder builds: what it was given, and the
    /// default voice of `en-US` where it was given no voice.
    pub open spec fn built(builder: TextOptionsBuilderView) -> TextOptionsView {
        TextOptionsView {
            voice: match builder.voice {
                Some(voice) => voice,
                None => "en-US-JennyNeural"@,
            },
            pitch: builder.pitch,
            rate: builder.rate,
            rich_ssml_options: builder.rich_ssml_options,
        }
    }

    /// Create a new builder
    pub fn new() -> (builder: Self)
        ensures
            builder@ == Self::initial(),
    {
        TextOptionsBuilder { voice: None, pitch: None, rate: None, rich_ssml_options: None }
    }

    /// Voice identifier. It should be in the format of `locale-voice_name` like `en-US-JennyNeural`.
    pub fn voice(self, voice: &str) -> (builder: Self)
        ensures
            builder@ == (TextOptionsBuilderView { voice: Some(voice@), ..self@ }),
    {
        let mut builder = self;
        builder.voice = Some(voice.to_owned());
        builder
    }

    /// Voice identifier. It should be in the format of `locale-voice_name` like `en-US-JennyNeural`.
    pub fn optional_voice(self, voice: Option<&str>) -> (builder: Self)
        ensures
            builder@ == (TextOptionsBuilderView { voice: borrowed_chars(voice), ..self@ }),
    {
        let mut builder = self;
        builder.voice = to_owned_opt(voice);
        builder
    }

    /// Pitch string that will be inserted directly into SSML
    pub fn pitch(self, pitch: &str) -> (builder: Self)
        ensures
            builder@ == (TextOptionsBuilderView { pitch: Some(pitch@), ..self@ }),
    {
        let mut builder = self;
        builder.pitch = Some(pitch.to_owned());
        builder
    }

    /// Pitch string that will be inserted directly into SSML
    pub fn optional_pitch(self, pitch: Option<&str>) -> (builder: Self)
        ensures
            builder@ == (TextOptionsBuilderView { pitch: borrowed_chars(pitch), ..self@ }),
    {
        let mut builder = self;
        builder.pitch = to_owned_opt(pitch);
        builder
    }

    /// Rate string that will be inserted directly into SSML
    pub fn rate(self, rate: &str) -> (builder: Self)
        ensures
            builder@ == (TextOptionsBuilderView { rate: Some(rate@), ..self@ }),
    {
        let mut builder = self;
        builder.rate = Some(rate.to_owned());
        builder
    }

    /// Rate string that will be inserted directly into SSML
    pub fn optional_rate(self, rate: Option<&str>) -> (builder: Self)
        ensures
            builder@ == (TextOptionsBuilderView { rate: borrowed_chars(rate), ..self@ }),
    {
        let mut builder = self;
        builder.rate = to_owned_opt(rate);
        builder
    }

    /// Rich SSML options
    pub fn rich_ssml_options(self, rich_ssml_options: RichSsmlOptions) -> (builder: Self)
        ensures
            builder@ == (TextOptionsBuilderView {
                rich_ssml_options: Some(rich_ssml_options@),
                ..self@
            }),
    {
        let mut builder = self;
        builder.rich_ssml_options = Some(rich_ssml_options);
        builder
    }

    /// Rich SSML options
    pub fn optional_rich_ssml_options(self, rich_ssml_options: Option<RichSsmlOptions>) -> (builder:
        Self)
        ensures
            builder@ == (TextOptionsBuilderView {
                rich_ssml_options: rich_view(rich_ssml_options),
                ..self@
            }),
    {
        let mut builder = self;
        builder.rich_ssml_options = rich_ssml_options;
        builder
    }

    /// Set the rich SSML options to the build result of a [`RichSsmlOptionsBuilder`].
    pub fn chain_rich_ssml_options_builder(
        self,
        rich_ssml_options_builder: RichSsmlOptionsBuilder,
    ) -> (builder: Self)
        ensures
            builder@ == (TextOptionsBuilderView {
                rich_ssml_options: Some(rich_ssml_options_builder@),
                ..self@
            }),
    {
        let mut builder = self;
        builder.rich_ssml_options = Some(rich_ssml_options_builder.build());
        builder
    }

    /// Build the [`TextOptions`] from the builder
    pub fn build(self) -> (options: TextOptions)
        ensures
            options@ == Self::built(self@),
    {
        TextOptions {
            voice: match self.voice {
                Some(voice) => voice,
                None => String::from_str("en-US-JennyNeural"),
            },
            pitch: self.pitch,
            rate: self.rate,
            rich_ssml_options: self.rich_ssml_options,
        }
    }
}

/// The voice that speaks where none is chosen is the default voice of the
/// default locale.
pub proof fn lemma_default_voice_is_of_default_locale()
    ensures
        default_voice(DEFAULT_LOCALE@) == Some(default_text_options().voice),
{
    reveal_strlit("en-US");
    reveal_strlit("af-ZA");
    assert("af-ZA"@[0] != "en-US"@[0]);
    reveal_strlit("am-ET");
    assert("am-ET"@[0] != "en-US"@[0]);
    reveal_strlit("ar-AE");
    assert("ar-AE"@[0] != "en-US"@[0]);
    reveal_strlit("ar-BH");
    assert("ar-BH"@[0] != "en-US"@[0]);
    reveal_strlit("ar-DZ");
    assert("ar-DZ"@[0] != "en-US"@[0]);
    reveal_strlit("ar-EG");
    assert("ar-EG"@[0] != "en-US"@[0]);
    reveal_strlit("ar-IQ");
    assert("ar-IQ"@[0] != "en-US"@[0]);
    reveal_strlit("ar-JO");
    assert("ar-JO"@[0] != "en-US"@[0]);
    reveal_strlit("ar-KW");
    assert("ar-KW"@[0] != "en-US"@[0]);
    reveal_strlit("ar-LY");
    assert("ar-LY"@[0] != "en-US"@[0]);
    reveal_strlit("ar-MA");
    assert("ar-MA"@[0] != "en-US"@[0]);
    reveal_strlit("ar-QA");
    assert("ar-QA"@[0] != "en-US"@[0]);
    reveal_strlit("ar-SA");
    assert("ar-SA"@[0] != "en-US"@[0]);
    reveal_strlit("ar-SY");
    assert("ar-SY"@[0] != "en-US"@[0]);
    reveal_strlit("ar-TN");
    assert("ar-TN"@[0] != "en-US"@[0]);
    reveal_strlit("ar-YE");
    assert("ar-YE"@[0] != "en-US"@[0]);
    reveal_strlit("bg-BG");
    assert("bg-BG"@[0] != "en-US"@[0]);
    reveal_strlit("bn-BD");
    assert("bn-BD"@[0] != "en-US"@[0]);
    reveal_strlit("bn-IN");
    assert("bn-IN"@[0] != "en-US"@[0]);
    reveal_strlit("ca-ES");
    assert("ca-ES"@[0] != "en-US"@[0]);
    reveal_strlit("cs-CZ");
    assert("cs-CZ"@[0] != "en-US"@[0]);
    reveal_strlit("cy-GB");
    assert("cy-GB"@[0] != "en-US"@[0]);
    reveal_strlit("da-DK");
    assert("da-DK"@[0] != "en-US"@[0]);
    reveal_strlit("de-AT");
    assert("de-AT"@[0] != "en-US"@[0]);
    reveal_strlit("de-CH");
    assert("de-CH"@[0] != "en-US"@[0]);
    reveal_strlit("de-DE");
    assert("de-DE"@[0] != "en-US"@[0]);
    reveal_strlit("el-GR");
    assert("el-GR"@[1] != "en-US"@[1]);
    reveal_strlit("en-AU");
    assert("en-AU"@[3] != "en-US"@[3]);
    reveal_strlit("en-CA");
    assert("en-CA"@[3] != "en-US"@[3]);
    reveal_strlit("en-GB");
    assert("en-GB"@[3] != "en-US"@[3]);
    reveal_strlit("en-HK");
    assert("en-HK"@[3] != "en-US"@[3]);
    reveal_strlit("en-IE");
    assert("en-IE"@[3] != "en-US"@[3]);
    reveal_strlit("en-IN");
    assert("en-IN"@[3] != "en-US"@[3]);
    reveal_strlit("en-KE");
    assert("en-KE"@[3] != "en-US"@[3]);
    reveal_strlit("en-NG");
    assert("en-NG"@[3] != "en-US"@[3]);
    reveal_strlit("en-NZ");
    assert("en-NZ"@[3] != "en-US"@[3]);
    reveal_strlit("en-PH");
    assert("en-PH"@[3] != "en-US"@[3]);
    reveal_strlit("en-SG");
    assert("en-SG"@[3] != "en-US"@[3]);
    reveal_strlit("en-TZ");
    assert("en-TZ"@[3] != "en-US"@[3]);
}

} // verus!
