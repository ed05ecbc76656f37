//! The picker's data model: groups, skin tones, and one record per emoji of
//! the built-in table, together with the version cutoff and skin-tone glyph
//! resolution.

use vstd::prelude::*;

verus! {

/// The nine fixed emoji categories.
#[derive(Clone, Copy, Debug, PartialEq, Eq, Structural)]
pub enum Group {
    SmileysAndEmotion,
    PeopleAndBody,
    AnimalsAndNature,
    FoodAndDrink,
    TravelAndPlaces,
    Activities,
    Objects,
    Symbols,
    Flags,
}

/// The selectable skin tones: the untoned default and the five single tones.
#[derive(Clone, Copy, Debug, PartialEq, Eq, Structural)]
pub enum SkinTone {
    Default,
    Light,
    MediumLight,
    Medium,
    MediumDark,
    Dark,
}

/// The number of selectable skin tones.
pub const TONE_COUNT: usize = 6;

/// The position a tone's glyph variant occupies in an entry's variant list.
pub open spec fn tone_index(t: SkinTone) -> int {
    match t {
        SkinTone::Default => 0,
        SkinTone::Light => 1,
        SkinTone::MediumLight => 2,
        SkinTone::Medium => 3,
        SkinTone::MediumDark => 4,
        SkinTone::Dark => 5,
    }
}

/// One emoji of the dataset: its base glyph, name, group tag, the Unicode
/// version that first encoded it, and one optional glyph variant per tone.
pub struct EmojiEntry {
    pub glyph: String,
    pub name: String,
    pub group: Group,
    pub version_major: u32,
    pub version_minor: u32,
    pub tone_variants: Vec<Option<String>>,
}

/// The mathematical value of an [`EmojiEntry`].
pub ghost struct EmojiModel {
    pub glyph: Seq<char>,
    pub name: Seq<char>,
    pub group: Group,
    pub version_major: u32,
    pub version_minor: u32,
    pub tone_variants: Seq<Option<Seq<char>>>,
}

impl EmojiModel {
    /// A well-formed entry carries one variant slot per selectable tone.
    pub open spec fn wf(self) -> bool {
        self.tone_variants.len() == TONE_COUNT
    }
}

impl View for EmojiEntry {
    type V = EmojiModel;

    open spec fn view(&self) -> EmojiModel {
        EmojiModel {
            glyph: self.glyph@,
            name: self.name@,
            group: self.group,
            version_major: self.version_major,
            version_minor: self.version_minor,
            tone_variants: self.tone_variants.deep_view(),
        }
    }
}

impl DeepView for EmojiEntry {
    type V = EmojiModel;

    open spec fn deep_view(&self) -> EmojiModel {
        self.view()
    }
}

impl Clone for EmojiEntry {
    fn clone(&self) -> (r: Self)
        ensures
            r@ == self@,
    {
        let r = EmojiEntry {
            glyph: self.glyph.clone(),
            name: self.name.clone(),
            group: self.group,
            version_major: self.version_major,
            version_minor: self.version_minor,
            tone_variants: clone_variants(&self.tone_variants),
        };
        r
    }
}

/// Clones a variant list, keeping its mathematical value.
fn clone_variants(v: &Vec<Option<String>>) -> (r: Vec<Option<String>>)
    ensures
        r.deep_view() == v.deep_view(),
{
    let mut r: Vec<Option<String>> = Vec::new();
    let mut i: usize = 0;
    while i < v.len()
        invariant
            i <= v.len(),
            r@.len() == i,
            forall|k: int| 0 <= k < i ==> r.deep_view()[k] == v.deep_view()[k],
        decreases v.len() - i,
    {
        let x: Option<String> = match &v[i] {
            Some(g) => Some(g.clone()),
            None => None,
        };
        proof {
            assert(x.deep_view() == v@[i as int].deep_view());
        }
        r.push(x);
        proof {
            assert(forall|k: int| 0 <= k < i ==> r.deep_view()[k] == v.deep_view()[k]);
            assert(r.deep_view()[i as int] == v.deep_view()[i as int]);
        }
        i += 1;
    }
    proof {
        assert(r.deep_view() =~= v.deep_view());
    }
    r
}

/// Whether version `maj.min` lies strictly below version `cmaj.cmin`.
pub open spec fn version_below(maj: u32, min_: u32, cmaj: u32, cmin: u32) -> bool {
    maj < cmaj || (maj == cmaj && min_ < cmin)
}

/// The glyph an entry shows under a tone: the tone's variant where the entry
/// has one, and the base glyph otherwise.
pub open spec fn resolved_glyph_of(e: EmojiModel, t: SkinTone) -> Seq<char> {
    let i = tone_index(t);
    if 0 <= i < e.tone_variants.len() {
        match e.tone_variants[i] {
            Some(g) => g,
            None => e.glyph,
        }
    } else {
        e.glyph
    }
}

/// The position of `t`'s variant in an entry's variant list.
pub fn tone_index_exec(t: &SkinTone) -> (r: usize)
    ensures
        r == tone_index(*t),
{
    match t {
        SkinTone::Default => 0,
        SkinTone::Light => 1,
        SkinTone::MediumLight => 2,
        SkinTone::Medium => 3,
        SkinTone::MediumDark => 4,
        SkinTone::Dark => 5,
    }
}

/// Resolves the glyph `e` shows under tone `t`, falling back to the base
/// glyph where the entry has no variant for `t`.
pub fn resolved_glyph(e: &EmojiEntry, t: &SkinTone) -> (r: String)
    ensures
        r@ == resolved_glyph_of(e@, *t),
{
    let i = tone_index_exec(t);
    if i < e.tone_variants.len() {
        match &e.tone_variants[i] {
            Some(g) => g.clone(),
            None => e.glyph.clone(),
        }
    } else {
        e.glyph.clone()
    }
}

} // verus!
