//! The picker's selection state and its event reducer.
//!
//! The state holds the search text, the selected group and skin tone, and a
//! derived filter tuple, recomputed with every accepted event so that it is
//! never stale. The reducer handles four events: replacing the search text,
//! the group or the skin tone, and copying a tone-resolved glyph; the last
//! leaves the state unchanged and hands the glyph back for the caller to put
//! on the clipboard.

use vstd::prelude::*;

use crate::data::{EmojiEntry, EmojiModel, Group, SkinTone, resolved_glyph, resolved_glyph_of};
use crate::grid::spec_grid;

verus! {

/// The picker's selection state.
pub struct AppData {
    pub search: String,
    pub group: Group,
    pub skin_tone: SkinTone,
    pub filter: (Group, SkinTone, String),
}

/// The mathematical value of an [`AppData`].
pub ghost struct AppModel {
    pub search: Seq<char>,
    pub group: Group,
    pub skin_tone: SkinTone,
    pub filter: (Group, SkinTone, Seq<char>),
}

impl AppModel {
    /// The derived filter tuple agrees with the three source fields.
    pub open spec fn wf(self) -> bool {
        self.filter == (self.group, self.skin_tone, self.search)
    }
}

impl View for AppData {
    type V = AppModel;

    open spec fn view(&self) -> AppModel {
        AppModel {
            search: self.search@,
            group: self.group,
            skin_tone: self.skin_tone,
            filter: (self.filter.0, self.filter.1, self.filter.2@),
        }
    }
}

/// The events the picker accepts.
pub enum AppEvent {
    /// Replace the search text.
    Search(String),
    /// Select a group.
    Group(Group),
    /// Select a skin tone.
    SkinTone(SkinTone),
    /// Copy an entry's tone-resolved glyph to the clipboard.
    Clipboard(EmojiEntry),
}

/// The state after the search text is replaced by `s`.
pub open spec fn spec_set_search(st: AppModel, s: Seq<char>) -> AppModel {
    AppModel { search: s, group: st.group, skin_tone: st.skin_tone, filter: (st.group, st.skin_tone, s) }
}

/// The state after the group is replaced by `g`.
pub open spec fn spec_set_group(st: AppModel, g: Group) -> AppModel {
    AppModel { search: st.search, group: g, skin_tone: st.skin_tone, filter: (g, st.skin_tone, st.search) }
}

/// The state after the skin tone is replaced by `t`.
pub open spec fn spec_set_skin_tone(st: AppModel, t: SkinTone) -> AppModel {
    AppModel { search: st.search, group: st.group, skin_tone: t, filter: (st.group, t, st.search) }
}

/// What the picker renders for a dataset under a selection state: the grid is
/// a function of the derived filter tuple alone.
pub open spec fn render_of(ds: Seq<EmojiModel>, st: AppModel) -> Seq<Seq<Seq<char>>> {
    spec_grid(ds, st.filter.0, st.filter.1, st.filter.2)
}

impl AppData {
    /// The initial state: first group, default skin tone, empty search.
    pub fn new() -> (r: AppData)
        ensures
            r@ == init_model(),
            r@.wf(),
    {
        AppData {
            search: String::new(),
            group: Group::SmileysAndEmotion,
            skin_tone: SkinTone::Default,
            filter: (Group::SmileysAndEmotion, SkinTone::Default, String::new()),
        }
    }

    /// Applies one event. The three selection events replace their field and
    /// recompute the derived filter tuple in the same step; the clipboard
    /// event leaves the state untouched and returns the glyph the given entry
    /// resolves to under the current skin tone, for the caller to copy.
    pub fn event(&mut self, ev: AppEvent) -> (copied: Option<String>)
        ensures
            match ev {
                AppEvent::Search(s) => final(self)@ == spec_set_search(old(self)@, s@) && copied
                    is None,
                AppEvent::Group(g) => final(self)@ == spec_set_group(old(self)@, g) && copied
                    is None,
                AppEvent::SkinTone(t) => final(self)@ == spec_set_skin_tone(old(self)@, t)
                    && copied is None,
                AppEvent::Clipboard(e) => final(self)@ == old(self)@ && copied.deep_view()
                    == Some(resolved_glyph_of(e@, old(self)@.skin_tone)),
            },
            final(self)@.wf() || (final(self)@ == old(self)@),
    {
        match ev {
            AppEvent::Search(s) => {
                let filter_search = s.clone();
                self.search = s;
                self.filter = (self.group, self.skin_tone, filter_search);
                None
            },
            AppEvent::Group(g) => {
                self.group = g;
                self.filter = (g, self.skin_tone, self.search.clone());
                None
            },
            AppEvent::SkinTone(t) => {
                self.skin_tone = t;
                self.filter = (self.group, t, self.search.clone());
                None
            },
            AppEvent::Clipboard(e) => {
                let glyph = resolved_glyph(&e, &self.skin_tone);
                Some(glyph)
            },
        }
    }
}

/// The initial selection state.
pub open spec fn init_model() -> AppModel {
    AppModel {
        search: Seq::empty(),
        group: Group::SmileysAndEmotion,
        skin_tone: SkinTone::Default,
        filter: (Group::SmileysAndEmotion, SkinTone::Default, Seq::empty()),
    }
}

/// Every selection event establishes the state's well-formedness — the
/// derived filter tuple is consistent with the source fields immediately
/// after any of the three mutating events, whatever state they start from.
pub proof fn lemma_selection_events_establish_wf(st: AppModel, s: Seq<char>, g: Group, t: SkinTone)
    ensures
        spec_set_search(st, s).wf(),
        spec_set_group(st, g).wf(),
        spec_set_skin_tone(st, t).wf(),
{
}

/// Selecting the same group twice in a row yields the very state that
/// selecting it once yields, and so renders the same grid for any dataset.
pub proof fn lemma_set_group_idempotent(ds: Seq<EmojiModel>, st: AppModel, g: Group)
    ensures
        spec_set_group(spec_set_group(st, g), g) == spec_set_group(st, g),
        render_of(ds, spec_set_group(spec_set_group(st, g), g)) == render_of(
            ds,
            spec_set_group(st, g),
        ),
{
}

} // verus!

