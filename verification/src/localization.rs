//! Localities and internationalized data used to query Blizzard, currently
//! supporting the closed set of locale codes en_US, en_GB, es_MX, es_ES,
//! pt_BR, de_DE, fr_FR, it_IT, ru_RU, ko_KR, zh_TW and zh_CN.

use vstd::prelude::*;

use crate::errors::BubbleHearthError;
use crate::json::{shape_of, shape_of_value, JsonScalar, JsonShape};
use crate::strutil::str_eq;
use vstd::pervasive::unreached;

verus! {

/// Number of locale codes supported by Blizzard's APIs.
pub const SUPPORTED_LOCALE_COUNT: usize = 12;

/// A localization response model that can be decoded from a string or a
/// per-locale object.
#[derive(Debug, Clone, PartialEq)]
pub enum StringOrStructLocale {
    /// String-based locale.
    StringLocale(String),
    /// Struct-map based locale.
    StructLocale(Box<StructuredLocale>),
}

/// Localities supported by Blizzard's APIs.
#[derive(Debug, Copy, Clone, Eq, PartialEq, Structural)]
pub enum Locale {
    /// Represents United States English locale.
    EnglishUS,
    /// Represents Great Britain English locale.
    EnglishGB,
    /// Represents Mexican Spanish locale.
    SpanishMX,
    /// Represents Spain-based Spanish locale.
    SpanishES,
    /// Represents Portuguese locale.
    Portuguese,
    /// Represents German locale.
    German,
    /// Represents French locale.
    French,
    /// Represents Italian locale.
    Italian,
    /// Represents Russian locale.
    Russian,
    /// Represents Korean locale.
    Korean,
    /// Represents Traditional Chinese locale.
    ChineseTW,
    /// Represents Simplified Chinese locale.
    ChineseCN,
}

/// The wire code of each supported locale.
pub open spec fn spec_locale_code(locale: Locale) -> Seq<char> {
    match locale {
        Locale::EnglishUS => "en_US"@,
        Locale::EnglishGB => "en_GB"@,
        Locale::SpanishMX => "es_MX"@,
        Locale::SpanishES => "es_ES"@,
        Locale::Portuguese => "pt_BR"@,
        Locale::German => "de_DE"@,
        Locale::French => "fr_FR"@,
        Locale::Italian => "it_IT"@,
        Locale::Russian => "ru_RU"@,
        Locale::Korean => "ko_KR"@,
        Locale::ChineseTW => "zh_TW"@,
        Locale::ChineseCN => "zh_CN"@,
    }
}

/// The supported locale with index `j`, in the canonical table order.
pub open spec fn spec_locale_at(j: int) -> Locale {
    if j == 0 {
        Locale::EnglishUS
    } else if j == 1 {
        Locale::EnglishGB
    } else if j == 2 {
        Locale::SpanishMX
    } else if j == 3 {
        Locale::SpanishES
    } else if j == 4 {
        Locale::Portuguese
    } else if j == 5 {
        Locale::German
    } else if j == 6 {
        Locale::French
    } else if j == 7 {
        Locale::Italian
    } else if j == 8 {
        Locale::Russian
    } else if j == 9 {
        Locale::Korean
    } else if j == 10 {
        Locale::ChineseTW
    } else {
        Locale::ChineseCN
    }
}

/// The canonical table index of each supported locale.
pub open spec fn spec_locale_index(locale: Locale) -> int {
    match locale {
        Locale::EnglishUS => 0,
        Locale::EnglishGB => 1,
        Locale::SpanishMX => 2,
        Locale::SpanishES => 3,
        Locale::Portuguese => 4,
        Locale::German => 5,
        Locale::French => 6,
        Locale::Italian => 7,
        Locale::Russian => 8,
        Locale::Korean => 9,
        Locale::ChineseTW => 10,
        Locale::ChineseCN => 11,
    }
}

/// Maps a string to the supported locale whose code it is, scanning the
/// table in canonical order.
pub open spec fn spec_locale_of_code(s: Seq<char>) -> Option<Locale> {
    spec_locale_of_code_from(s, 0)
}

/// Scans the locale table from index `j` for a locale whose code is `s`.
pub open spec fn spec_locale_of_code_from(s: Seq<char>, j: int) -> Option<Locale>
    decreases SUPPORTED_LOCALE_COUNT as int - j,
{
    if j >= SUPPORTED_LOCALE_COUNT as int {
        None
    } else if spec_locale_code(spec_locale_at(j)) == s {
        Some(spec_locale_at(j))
    } else {
        spec_locale_of_code_from(s, j + 1)
    }
}

impl Locale {
    /// Gets the corresponding locality code for the locale.
    pub fn get_locale(&self) -> (code: &'static str)
        ensures
            code@ == spec_locale_code(*self),
    {
        match self {
            Locale::EnglishUS => "en_US",
            Locale::EnglishGB => "en_GB",
            Locale::SpanishMX => "es_MX",
            Locale::SpanishES => "es_ES",
            Locale::Portuguese => "pt_BR",
            Locale::German => "de_DE",
            Locale::French => "fr_FR",
            Locale::Italian => "it_IT",
            Locale::Russian => "ru_RU",
            Locale::Korean => "ko_KR",
            Locale::ChineseTW => "zh_TW",
            Locale::ChineseCN => "zh_CN",
        }
    }

    /// The supported locale with table index `j`.
    pub fn locale_at(j: usize) -> (locale: Locale)
        requires
            j < SUPPORTED_LOCALE_COUNT,
        ensures
            locale == spec_locale_at(j as int),
    {
        match j {
            0 => Locale::EnglishUS,
            1 => Locale::EnglishGB,
            2 => Locale::SpanishMX,
            3 => Locale::SpanishES,
            4 => Locale::Portuguese,
            5 => Locale::German,
            6 => Locale::French,
            7 => Locale::Italian,
            8 => Locale::Russian,
            9 => Locale::Korean,
            10 => Locale::ChineseTW,
            _ => Locale::ChineseCN,
        }
    }

    /// Maps a locale code returned by Blizzard into a typed locale. Returns
    /// `Ok` exactly for the twelve supported codes, and `LocaleUnknown`
    /// carrying the input otherwise.
    pub fn from_str(s: &str) -> (r: Result<Locale, BubbleHearthError>)
        ensures
            match spec_locale_of_code(s@) {
                Some(locale) => r == Ok::<Locale, BubbleHearthError>(locale),
                None => (r matches Err(e) && e matches BubbleHearthError::LocaleUnknown(code)
                    && code@ == s@),
            },
    {
        let mut j: usize = 0;
        while j < SUPPORTED_LOCALE_COUNT
            invariant
                j <= SUPPORTED_LOCALE_COUNT,
                spec_locale_of_code(s@) == spec_locale_of_code_from(s@, j as int),
            decreases SUPPORTED_LOCALE_COUNT - j,
        {
            let candidate = Locale::locale_at(j);
            if str_eq(s, candidate.get_locale()) {
                return Ok(candidate);
            }
            j += 1;
        }
        Err(BubbleHearthError::LocaleUnknown(s.to_owned()))
    }
}

/// A struct-based version of the locale, holding the localized text under
/// every supported locale code.
#[derive(Debug, Clone, PartialEq)]
pub struct StructuredLocale {
    /// Represents United States English locale.
    pub en_us: String,
    /// Represents Great Britain English locale.
    pub en_gb: String,
    /// Represents Mexican Spanish locale.
    pub es_mx: String,
    /// Represents Spain-based Spanish locale.
    pub es_es: String,
    /// Represents Portuguese locale.
    pub pt_br: String,
    /// Represents German locale.
    pub de_de: String,
    /// Represents French locale.
    pub fr_fr: String,
    /// Represents Italian locale.
    pub it_it: String,
    /// Represents Russian locale.
    pub ru_ru: String,
    /// Represents Korean locale.
    pub ko_kr: String,
    /// Represents Traditional Chinese locale.
    pub zh_tw: String,
    /// Represents Simplified Chinese locale.
    pub zh_cn: String,
}

impl Locale {
    /// The canonical table index of the locale.
    pub fn locale_index(&self) -> (idx: usize)
        ensures
            idx == spec_locale_index(*self),
            idx < SUPPORTED_LOCALE_COUNT,
    {
        match self {
            Locale::EnglishUS => 0,
            Locale::EnglishGB => 1,
            Locale::SpanishMX => 2,
            Locale::SpanishES => 3,
            Locale::Portuguese => 4,
            Locale::German => 5,
            Locale::French => 6,
            Locale::Italian => 7,
            Locale::Russian => 8,
            Locale::Korean => 9,
            Locale::ChineseTW => 10,
            Locale::ChineseCN => 11,
        }
    }
}

/// The locale table and its index function are inverse to each other.
proof fn lemma_locale_table_inverse()
    ensures
        forall|j: int|
            0 <= j < SUPPORTED_LOCALE_COUNT ==> spec_locale_index(#[trigger] spec_locale_at(j))
                == j,
{
}

impl StructuredLocale {
    /// The field holding the text for the locale with table index `j`.
    pub open spec fn spec_field_at(self, j: int) -> Seq<char> {
        if j == 0 {
            self.en_us@
        } else if j == 1 {
            self.en_gb@
        } else if j == 2 {
            self.es_mx@
        } else if j == 3 {
            self.es_es@
        } else if j == 4 {
            self.pt_br@
        } else if j == 5 {
            self.de_de@
        } else if j == 6 {
            self.fr_fr@
        } else if j == 7 {
            self.it_it@
        } else if j == 8 {
            self.ru_ru@
        } else if j == 9 {
            self.ko_kr@
        } else if j == 10 {
            self.zh_tw@
        } else {
            self.zh_cn@
        }
    }
}

/// An object member decodes cleanly when its key is a supported locale code
/// and its value is a JSON string.
pub open spec fn spec_entry_ok(e: (String, JsonScalar)) -> bool {
    spec_locale_of_code(e.0@) is Some && e.1 is Text
}

/// Every member of `es` decodes cleanly.
pub open spec fn spec_entries_clean(es: Seq<(String, JsonScalar)>) -> bool {
    forall|k: int| 0 <= k < es.len() ==> spec_entry_ok(#[trigger] es[k])
}

/// `i` is the first member of `es` that does not decode cleanly.
pub open spec fn spec_bad_at(es: Seq<(String, JsonScalar)>, i: int) -> bool {
    &&& 0 <= i < es.len()
    &&& !spec_entry_ok(es[i])
    &&& forall|k: int| 0 <= k < i ==> spec_entry_ok(#[trigger] es[k])
}

/// The text under the last member of `es` whose key is the code of the locale
/// with table index `j`: later members override earlier ones.
pub open spec fn spec_slot(es: Seq<(String, JsonScalar)>, j: int) -> Option<Seq<char>>
    decreases es.len(),
{
    if es.len() == 0 {
        None
    } else if spec_locale_of_code(es.last().0@) == Some(spec_locale_at(j)) && es.last().1 is Text {
        Some(es.last().1->Text_0@)
    } else {
        spec_slot(es.drop_last(), j)
    }
}

/// Every supported locale has a text in `es`.
pub open spec fn spec_all_slots_filled(es: Seq<(String, JsonScalar)>) -> bool {
    forall|j: int|
        0 <= j < SUPPORTED_LOCALE_COUNT ==> #[trigger] spec_slot(es, j) is Some
}

/// The least locale index at or after `j` with no text in `es`, or the table
/// size when every one from `j` on is filled.
pub open spec fn spec_first_missing_from(es: Seq<(String, JsonScalar)>, j: int) -> int
    decreases SUPPORTED_LOCALE_COUNT as int - j,
{
    if j < 0 || j >= SUPPORTED_LOCALE_COUNT as int {
        SUPPORTED_LOCALE_COUNT as int
    } else if spec_slot(es, j) is None {
        j
    } else {
        spec_first_missing_from(es, j + 1)
    }
}

proof fn lemma_first_missing_from(es: Seq<(String, JsonScalar)>, m: int, j: int)
    requires
        0 <= m <= j < SUPPORTED_LOCALE_COUNT,
        spec_slot(es, j) is None,
        forall|k: int| m <= k < j ==> #[trigger] spec_slot(es, k) is Some,
    ensures
        spec_first_missing_from(es, m) == j,
    decreases j - m,
{
    if m < j {
        lemma_first_missing_from(es, m + 1, j);
    }
}

/// How a decoded per-locale mapping relates to the object members it came
/// from: success exactly when every member is a supported code with a string
/// value and every supported code is present, each field holding the last
/// text given for its code; otherwise the error names the first offending
/// key, or the first missing code.
pub open spec fn spec_entries_result(
    es: Seq<(String, JsonScalar)>,
    r: Result<StructuredLocale, BubbleHearthError>,
) -> bool {
    &&& (r is Ok <==> spec_entries_clean(es) && spec_all_slots_filled(es))
    &&& (r matches Ok(sl) ==> forall|j: int|
        0 <= j < SUPPORTED_LOCALE_COUNT ==> #[trigger] sl.spec_field_at(j) == spec_slot(
            es,
            j,
        )->0)
    &&& (forall|i: int| #[trigger] spec_bad_at(es, i) ==> match spec_locale_of_code(es[i].0@) {
        None => (r matches Err(e) && e matches BubbleHearthError::LocaleUnknown(k) && k@
            == es[i].0@),
        Some(_) => (r matches Err(e) && e matches BubbleHearthError::DecodeFailure(k) && k@
            == es[i].0@),
    })
    &&& (spec_entries_clean(es) && !spec_all_slots_filled(es) ==> (r matches Err(e)
        && e matches BubbleHearthError::DecodeFailure(k) && k@ == spec_locale_code(
        spec_locale_at(spec_first_missing_from(es, 0)),
    )))
}

fn take_slot(slots: &Vec<Option<String>>, j: usize) -> (r: String)
    requires
        j < slots@.len(),
        slots@[j as int] is Some,
    ensures
        r@ == slots@[j as int]->0@,
{
    match &slots[j] {
        Some(s) => s.clone(),
        None => unreached(),
    }
}

/// Decodes the members of a JSON object as a closed mapping from each
/// supported locale code to a string.
pub fn decode_locale_entries(entries: &Vec<(String, JsonScalar)>) -> (r: Result<
    StructuredLocale,
    BubbleHearthError,
>)
    ensures
        spec_entries_result(entries@, r),
{
    proof {
        lemma_locale_table_inverse();
    }
    let mut slots: Vec<Option<String>> = Vec::new();
    let mut f: usize = 0;
    while f < SUPPORTED_LOCALE_COUNT
        invariant
            f <= SUPPORTED_LOCALE_COUNT,
            slots@.len() == f,
            forall|j: int| 0 <= j < f ==> #[trigger] slots@[j] is None,
        decreases SUPPORTED_LOCALE_COUNT - f,
    {
        slots.push(None);
        f += 1;
    }

    let mut i: usize = 0;
    assert(entries@.take(0) =~= Seq::<(String, JsonScalar)>::empty());
    while i < entries.len()
        invariant
            i <= entries@.len(),
            slots@.len() == SUPPORTED_LOCALE_COUNT,
            forall|k: int| 0 <= k < i ==> spec_entry_ok(#[trigger] entries@[k]),
            forall|j: int|
                0 <= j < SUPPORTED_LOCALE_COUNT ==> spec_opt_text(#[trigger] slots@[j])
                    == spec_slot(entries@.take(i as int), j),
        decreases entries@.len() - i,
    {
        proof {
            lemma_locale_table_inverse();
        }
        let ghost prefix = entries@.take(i as int);
        let ghost extended = entries@.take(i as int + 1);
        proof {
            assert(extended =~= prefix.push(entries@[i as int]));
            assert(extended.last() == entries@[i as int]);
            assert(extended.drop_last() =~= prefix);
        }
        let entry = &entries[i];
        match Locale::from_str(entry.0.as_str()) {
            Err(_) => {
                proof {
                    assert(spec_bad_at(entries@, i as int));
                    assert(forall|b: int|
                        #[trigger] spec_bad_at(entries@, b) ==> b == i as int);
                }
                return Err(BubbleHearthError::LocaleUnknown(entry.0.clone()));
            },
            Ok(locale) => {
                match &entry.1 {
                    JsonScalar::Text(text) => {
                        let idx = locale.locale_index();
                        slots[idx] = Some(text.clone());
                        proof {
                            assert forall|j: int| 0 <= j < SUPPORTED_LOCALE_COUNT implies
                                spec_opt_text(#[trigger] slots@[j]) == spec_slot(
                                extended,
                                j,
                            ) by {
                                if j != idx {
                                    assert(spec_locale_at(j) != locale);
                                }
                            }
                        }
                    },
                    _ => {
                        proof {
                            assert(spec_bad_at(entries@, i as int));
                            assert(forall|b: int|
                                #[trigger] spec_bad_at(entries@, b) ==> b == i as int);
                        }
                        return Err(BubbleHearthError::DecodeFailure(entry.0.clone()));
                    },
                }
            },
        }
        i += 1;
    }
    proof {
        assert(entries@.take(entries@.len() as int) =~= entries@);
        assert(spec_entries_clean(entries@));
    }

    let mut j: usize = 0;
    while j < SUPPORTED_LOCALE_COUNT
        invariant
            j <= SUPPORTED_LOCALE_COUNT,
            slots@.len() == SUPPORTED_LOCALE_COUNT,
            spec_entries_clean(entries@),
            forall|q: int|
                0 <= q < SUPPORTED_LOCALE_COUNT ==> spec_opt_text(#[trigger] slots@[q])
                    == spec_slot(entries@, q),
            forall|k: int| 0 <= k < j ==> #[trigger] spec_slot(entries@, k) is Some,
        decreases SUPPORTED_LOCALE_COUNT - j,
    {
        if slots[j].is_none() {
            proof {
                lemma_first_missing_from(entries@, 0, j as int);
            }
            return Err(BubbleHearthError::DecodeFailure(Locale::locale_at(j).get_locale().to_owned()));
        }
        j += 1;
    }

    let decoded = StructuredLocale {
        en_us: take_slot(&slots, 0),
        en_gb: take_slot(&slots, 1),
        es_mx: take_slot(&slots, 2),
        es_es: take_slot(&slots, 3),
        pt_br: take_slot(&slots, 4),
        de_de: take_slot(&slots, 5),
        fr_fr: take_slot(&slots, 6),
        it_it: take_slot(&slots, 7),
        ru_ru: take_slot(&slots, 8),
        ko_kr: take_slot(&slots, 9),
        zh_tw: take_slot(&slots, 10),
        zh_cn: take_slot(&slots, 11),
    };
    Ok(decoded)
}

/// The text of an optional owned string.
pub open spec fn spec_opt_text(o: Option<String>) -> Option<Seq<char>> {
    match o {
        Some(s) => Some(s@),
        None => None,
    }
}

/// How a decoded [`StringOrStructLocale`] relates to the JSON kind it came
/// from: a string decodes to [`StringOrStructLocale::StringLocale`], an
/// object to [`StringOrStructLocale::StructLocale`] under
/// [`spec_entries_result`], and any other kind fails with
/// [`BubbleHearthError::UnexpectedLocaleShape`].
pub open spec fn spec_shape_result(
    shape: JsonShape,
    r: Result<StringOrStructLocale, BubbleHearthError>,
) -> bool {
    match shape {
        JsonShape::Text(s) => r == Ok::<StringOrStructLocale, BubbleHearthError>(
            StringOrStructLocale::StringLocale(s),
        ),
        JsonShape::Object(entries) => {
            &&& (r matches Ok(v) ==> (v matches StringOrStructLocale::StructLocale(b)
                && spec_entries_result(entries@, Ok(*b))))
            &&& (r matches Err(e) ==> spec_entries_result(entries@, Err(e)))
        },
        JsonShape::OtherShape => r == Err::<StringOrStructLocale, BubbleHearthError>(
            BubbleHearthError::UnexpectedLocaleShape,
        ),
    }
}

/// Decodes a locale-ambiguous field from its JSON shape.
pub fn decode_locale_shape(shape: &JsonShape) -> (r: Result<
    StringOrStructLocale,
    BubbleHearthError,
>)
    ensures
        spec_shape_result(*shape, r),
{
    match shape {
        JsonShape::Text(s) => Ok(StringOrStructLocale::StringLocale(s.clone())),
        JsonShape::Object(entries) => {
            match decode_locale_entries(entries) {
                Ok(decoded) => Ok(StringOrStructLocale::StructLocale(Box::new(decoded))),
                Err(e) => Err(e),
            }
        },
        JsonShape::OtherShape => Err(BubbleHearthError::UnexpectedLocaleShape),
    }
}

/// Decodes a response field that is either a plain string or a map keyed by
/// locale code into a single discriminated value, inspecting the wire
/// value's JSON kind only.
pub fn decode_locale_value(value: &serde_json::Value) -> (r: Result<
    StringOrStructLocale,
    BubbleHearthError,
>)
    ensures
        spec_shape_result(shape_of(*value), r),
{
    let shape = shape_of_value(value);
    decode_locale_shape(&shape)
}

} // verus!
