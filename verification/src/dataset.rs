//! The built-in emoji table, read through the `emojis` crate.
//!
//! Each emoji of the table becomes one [`EmojiEntry`]: its glyph, CLDR name,
//! group tag, the Unicode version that first encoded it, and one optional
//! glyph variant for each selectable skin tone. The crate's accessors are
//! trusted at the boundary; the assembly of the entries is verified.

use vstd::prelude::*;

use crate::data::{EmojiEntry, Group, SkinTone, TONE_COUNT};

verus! {

#[verifier::external_type_specification]
#[verifier::external_body]
pub struct ExEmoji(emojis::Emoji);

/// Relies on emojis::iter: one record per emoji of the built-in table, in
/// Unicode CLDR order, default skin tones only.
#[verifier::external_body]
fn fetch_all() -> (r: Vec<&'static emojis::Emoji>) {
    emojis::iter().collect()
}

/// Relies on emojis::Emoji::as_str: the emoji's glyph.
#[verifier::external_body]
fn fetch_glyph(e: &emojis::Emoji) -> (r: String) {
    e.as_str().to_string()
}

/// Relies on emojis::Emoji::name: the emoji's CLDR name.
#[verifier::external_body]
fn fetch_name(e: &emojis::Emoji) -> (r: String) {
    e.name().to_string()
}

/// Relies on emojis::Emoji::unicode_version, and on UnicodeVersion::major and
/// UnicodeVersion::minor: the version of the Unicode Standard that first
/// encoded the emoji.
#[verifier::external_body]
fn fetch_version(e: &emojis::Emoji) -> (r: (u32, u32)) {
    let v = e.unicode_version();
    (v.major(), v.minor())
}

/// Relies on emojis::Emoji::group, telling the variants of emojis::Group
/// apart; the library's own group tag mirrors them one for one.
#[verifier::external_body]
fn fetch_group(e: &emojis::Emoji) -> (r: Group) {
    match e.group() {
        emojis::Group::SmileysAndEmotion => Group::SmileysAndEmotion,
        emojis::Group::PeopleAndBody => Group::PeopleAndBody,
        emojis::Group::AnimalsAndNature => Group::AnimalsAndNature,
        emojis::Group::FoodAndDrink => Group::FoodAndDrink,
        emojis::Group::TravelAndPlaces => Group::TravelAndPlaces,
        emojis::Group::Activities => Group::Activities,
        emojis::Group::Objects => Group::Objects,
        emojis::Group::Symbols => Group::Symbols,
        emojis::Group::Flags => Group::Flags,
    }
}

/// Relies on emojis::Emoji::with_skin_tone: the variant of the emoji that has
/// the given tone, or None where tones do not apply to it.
#[verifier::external_body]
fn fetch_tone_variant(e: &emojis::Emoji, tone: &SkinTone) -> (r: Option<String>) {
    let t = match tone {
        SkinTone::Default => emojis::SkinTone::Default,
        SkinTone::Light => emojis::SkinTone::Light,
        SkinTone::MediumLight => emojis::SkinTone::MediumLight,
        SkinTone::Medium => emojis::SkinTone::Medium,
        SkinTone::MediumDark => emojis::SkinTone::MediumDark,
        SkinTone::Dark => emojis::SkinTone::Dark,
    };
    match e.with_skin_tone(t) {
        Some(v) => Some(v.as_str().to_string()),
        None => None,
    }
}

/// Reads one emoji of the table into an entry of the library's own shape.
fn fetch_entry(e: &'static emojis::Emoji) -> (r: EmojiEntry)
    ensures
        r@.wf(),
{
    let v = fetch_version(e);
    let mut variants: Vec<Option<String>> = Vec::new();
    variants.push(fetch_tone_variant(e, &SkinTone::Default));
    variants.push(fetch_tone_variant(e, &SkinTone::Light));
    variants.push(fetch_tone_variant(e, &SkinTone::MediumLight));
    variants.push(fetch_tone_variant(e, &SkinTone::Medium));
    variants.push(fetch_tone_variant(e, &SkinTone::MediumDark));
    variants.push(fetch_tone_variant(e, &SkinTone::Dark));
    assert(variants@.len() == TONE_COUNT);
    EmojiEntry {
        glyph: fetch_glyph(e),
        name: fetch_name(e),
        group: fetch_group(e),
        version_major: v.0,
        version_minor: v.1,
        tone_variants: variants,
    }
}

/// The full built-in emoji table as the library's own entries, one per emoji,
/// each carrying a variant slot for every selectable skin tone.
pub fn builtin_dataset() -> (r: Vec<EmojiEntry>)
    ensures
        forall|i: int| 0 <= i < r.deep_view().len() ==> (#[trigger] r.deep_view()[i]).wf(),
{
    let all = fetch_all();
    let mut r: Vec<EmojiEntry> = Vec::new();
    let mut i: usize = 0;
    while i < all.len()
        invariant
            i <= all.len(),
            r@.len() == i,
            forall|k: int| 0 <= k < i ==> (#[trigger] r@[k])@.wf(),
        decreases all.len() - i,
    {
        let entry = fetch_entry(all[i]);
        let ghost prev = r@;
        r.push(entry);
        proof {
            assert forall|k: int| 0 <= k < i + 1 implies (#[trigger] r@[k])@.wf() by {
                if k < i {
                    assert(r@[k] == prev[k]);
                }
            }
        }
        i += 1;
    }
    proof {
        assert forall|i2: int| 0 <= i2 < r.deep_view().len() implies (#[trigger] r.deep_view()[
        i2]).wf() by {
            assert(r.deep_view()[i2] == r@[i2]@);
        }
    }
    r
}

} // verus!
