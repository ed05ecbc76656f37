//! Filtering the emoji table and paginating the matches into rows.
//!
//! The pipeline: keep the entries below the version cutoff, narrow them by
//! the selected group (empty search) or by a case-sensitive name substring
//! (search of two or more characters), resolve each match's glyph under the
//! selected skin tone, and chunk the glyphs into rows of ten. The row count
//! is the floor of the match count divided by ten — trailing matches beyond a
//! full multiple of ten are dropped — with a floor of one row, so an empty
//! match set still yields one empty row.

use vstd::prelude::*;

use crate::data::{
    EmojiEntry, EmojiModel, Group, SkinTone, resolved_glyph, resolved_glyph_of, version_below,
};
use crate::text::{contains_seq, contains_substring};

verus! {

/// Emoji below this Unicode version are shown; later ones are dropped.
pub const VERSION_CUTOFF_MAJOR: u32 = 15;

/// Minor part of the version cutoff.
pub const VERSION_CUTOFF_MINOR: u32 = 0;

/// Entries per grid row.
pub const ITEMS_PER_ROW: usize = 10;

/// Whether an entry lies below the version cutoff.
pub open spec fn version_admitted(e: EmojiModel) -> bool {
    version_below(e.version_major, e.version_minor, VERSION_CUTOFF_MAJOR, VERSION_CUTOFF_MINOR)
}

/// Whether an entry is shown for a selected group and search string: it must
/// lie below the version cutoff, and then an empty search selects by group,
/// while a search of two or more characters selects by name substring and
/// ignores the group. A one-character search selects nothing.
pub open spec fn entry_matches(e: EmojiModel, g: Group, search: Seq<char>) -> bool {
    &&& version_admitted(e)
    &&& if search.len() == 0 {
        e.group == g
    } else {
        search.len() > 1 && contains_seq(e.name, search)
    }
}

/// The entries of `ds` that `entry_matches` keeps, in dataset order.
pub open spec fn matching_entries(ds: Seq<EmojiModel>, g: Group, search: Seq<char>) -> Seq<
    EmojiModel,
>
    decreases ds.len(),
{
    if ds.len() == 0 {
        Seq::empty()
    } else {
        let prefix = matching_entries(ds.drop_last(), g, search);
        if entry_matches(ds.last(), g, search) {
            prefix.push(ds.last())
        } else {
            prefix
        }
    }
}

/// Decides `entry_matches` for one entry.
pub fn entry_matches_exec(e: &EmojiEntry, g: &Group, search: &str) -> (r: bool)
    ensures
        r == entry_matches(e@, *g, search@),
{
    let version_ok = e.version_major < VERSION_CUTOFF_MAJOR || (e.version_major
        == VERSION_CUTOFF_MAJOR && e.version_minor < VERSION_CUTOFF_MINOR);
    let search_len = search.unicode_len();
    if search_len == 0 {
        version_ok && e.group == *g
    } else if search_len > 1 {
        version_ok && contains_substring(e.name.as_str(), search)
    } else {
        false
    }
}

/// Filters `ds` down to the entries shown for group `g` and search string
/// `search`, keeping dataset order.
pub fn filter_entries(ds: &Vec<EmojiEntry>, g: &Group, search: &str) -> (r: Vec<EmojiEntry>)
    ensures
        r.deep_view() == matching_entries(ds.deep_view(), *g, search@),
{
    let mut r: Vec<EmojiEntry> = Vec::new();
    let mut i: usize = 0;
    while i < ds.len()
        invariant
            i <= ds.len(),
            r.deep_view() == matching_entries(ds.deep_view().subrange(0, i as int), *g, search@),
        decreases ds.len() - i,
    {
        let e = &ds[i];
        proof {
            assert(ds.deep_view().subrange(0, i + 1).drop_last() =~= ds.deep_view().subrange(
                0,
                i as int,
            ));
            assert(ds.deep_view().subrange(0, i + 1).last() == e.deep_view());
        }
        if entry_matches_exec(e, g, search) {
            let c = e.clone();
            r.push(c);
            proof {
                assert(r.deep_view() =~= matching_entries(
                    ds.deep_view().subrange(0, i + 1),
                    *g,
                    search@,
                ));
            }
        }
        i += 1;
    }
    proof {
        assert(ds.deep_view().subrange(0, ds.deep_view().len() as int) =~= ds.deep_view());
    }
    r
}

/// The number of rows shown for `n` matches: `n / 10`, rounded down, with a
/// floor of one row.
pub open spec fn spec_row_count(n: nat) -> nat {
    if n / (ITEMS_PER_ROW as nat) == 0 {
        1
    } else {
        n / (ITEMS_PER_ROW as nat)
    }
}

/// Computes the row count for `n` matches.
pub fn row_count(n: usize) -> (r: usize)
    ensures
        r == spec_row_count(n as nat),
{
    let mut rows = n / ITEMS_PER_ROW;
    if rows == 0 {
        rows += 1;
    }
    rows
}

/// Row `i` of a paginated glyph list: the glyphs from position `10 * i` up to
/// ten entries or the end of the list, whichever comes first.
pub open spec fn row_slice(glyphs: Seq<Seq<char>>, i: int) -> Seq<Seq<char>> {
    let lo = i * (ITEMS_PER_ROW as int);
    let hi = if lo + (ITEMS_PER_ROW as int) <= glyphs.len() {
        lo + (ITEMS_PER_ROW as int)
    } else {
        glyphs.len() as int
    };
    glyphs.subrange(lo, hi)
}

/// The paginated form of a glyph list: `spec_row_count` rows, each a
/// `row_slice`.
pub open spec fn paginated(glyphs: Seq<Seq<char>>) -> Seq<Seq<Seq<char>>> {
    Seq::new(spec_row_count(glyphs.len()), |i: int| row_slice(glyphs, i))
}

/// The glyphs of `matches`, each resolved under tone `t`.
pub open spec fn resolved_glyphs(matches: Seq<EmojiModel>, t: SkinTone) -> Seq<Seq<char>> {
    Seq::new(matches.len(), |i: int| resolved_glyph_of(matches[i], t))
}

/// The grid shown for a dataset, group, tone and search string: the matching
/// entries' glyphs, resolved under the tone and paginated.
pub open spec fn spec_grid(ds: Seq<EmojiModel>, g: Group, t: SkinTone, search: Seq<char>) -> Seq<
    Seq<Seq<char>>,
> {
    paginated(resolved_glyphs(matching_entries(ds, g, search), t))
}

/// Resolves the glyph of each entry of `matches` under tone `t`.
pub fn resolve_all(matches: &Vec<EmojiEntry>, t: &SkinTone) -> (r: Vec<String>)
    ensures
        r.deep_view() == resolved_glyphs(matches.deep_view(), *t),
{
    let mut r: Vec<String> = Vec::new();
    let mut i: usize = 0;
    while i < matches.len()
        invariant
            i <= matches.len(),
            r@.len() == i,
            forall|k: int|
                0 <= k < i ==> (#[trigger] r@[k])@ == resolved_glyph_of(
                    matches.deep_view()[k],
                    *t,
                ),
        decreases matches.len() - i,
    {
        let g = resolved_glyph(&matches[i], t);
        let ghost prev = r@;
        r.push(g);
        proof {
            assert forall|k: int|
                0 <= k < i + 1 implies (#[trigger] r@[k])@ == resolved_glyph_of(
                matches.deep_view()[k],
                *t,
            ) by {
                if k < i {
                    assert(r@[k] == prev[k]);
                } else {
                    assert(r@[k] == g);
                    assert(matches.deep_view()[k] == matches@[k]@);
                }
            }
        }
        i += 1;
    }
    proof {
        assert forall|k: int| 0 <= k < i implies r.deep_view()[k] == resolved_glyphs(
            matches.deep_view(),
            *t,
        )[k] by {
            assert(r.deep_view()[k] == r@[k]@);
        }
        assert(r.deep_view() =~= resolved_glyphs(matches.deep_view(), *t));
    }
    r
}

/// Chunks a glyph list into rows of ten, `spec_row_count` rows in all: the
/// last partial row beyond a full multiple of ten is dropped, except that an
/// empty list still yields one empty row.
pub fn chunk_rows(glyphs: &Vec<String>) -> (grid: Vec<Vec<String>>)
    ensures
        grid.deep_view() == paginated(glyphs.deep_view()),
{
    let n = glyphs.len();
    let rows = row_count(n);
    let mut grid: Vec<Vec<String>> = Vec::new();
    let mut i: usize = 0;
    while i < rows
        invariant
            i <= rows,
            n == glyphs@.len(),
            rows == spec_row_count(n as nat),
            grid@.len() == i,
            forall|k: int| 0 <= k < i ==> grid.deep_view()[k] == row_slice(glyphs.deep_view(), k),
        decreases rows - i,
    {
        proof {
            if n >= ITEMS_PER_ROW {
                assert(i < n / ITEMS_PER_ROW);
                assert((i + 1) * (ITEMS_PER_ROW as int) <= (n / ITEMS_PER_ROW) * (
                ITEMS_PER_ROW as int)) by (nonlinear_arith)
                    requires
                        i + 1 <= n / ITEMS_PER_ROW,
                ;
                assert((n / ITEMS_PER_ROW) * (ITEMS_PER_ROW as int) <= n);
            }
        }
        let mut row: Vec<String> = Vec::new();
        let mut j: usize = 0;
        while j < ITEMS_PER_ROW && i * ITEMS_PER_ROW + j < n
            invariant
                j <= ITEMS_PER_ROW,
                n == glyphs@.len(),
                i * ITEMS_PER_ROW + j <= n,
                i * ITEMS_PER_ROW <= n,
                row@.len() == j,
                forall|k: int|
                    0 <= k < j ==> (#[trigger] row@[k])@ == glyphs.deep_view()[i * (
                    ITEMS_PER_ROW as int) + k],
            decreases ITEMS_PER_ROW - j,
        {
            let g = glyphs[i * ITEMS_PER_ROW + j].clone();
            let ghost prev = row@;
            row.push(g);
            proof {
                assert forall|k: int|
                    0 <= k < j + 1 implies (#[trigger] row@[k])@ == glyphs.deep_view()[i * (
                ITEMS_PER_ROW as int) + k] by {
                    if k < j {
                        assert(row@[k] == prev[k]);
                    } else {
                        assert(row@[k] == g);
                        assert(glyphs.deep_view()[i * (ITEMS_PER_ROW as int) + k] == glyphs@[i * (
                        ITEMS_PER_ROW as int) + k]@);
                    }
                }
            }
            j += 1;
        }
        proof {
            assert forall|k: int| 0 <= k < j implies row.deep_view()[k] == row_slice(
                glyphs.deep_view(),
                i as int,
            )[k] by {
                assert(row.deep_view()[k] == row@[k]@);
            }
            assert(row.deep_view() =~= row_slice(glyphs.deep_view(), i as int));
        }
        grid.push(row);
        i += 1;
    }
    proof {
        assert(grid.deep_view() =~= paginated(glyphs.deep_view()));
    }
    grid
}

/// The entries of `ds` below the version cutoff whose group tag is `g`, in
/// dataset order.
pub open spec fn group_entries(ds: Seq<EmojiModel>, g: Group) -> Seq<EmojiModel>
    decreases ds.len(),
{
    if ds.len() == 0 {
        Seq::empty()
    } else {
        let prefix = group_entries(ds.drop_last(), g);
        if version_admitted(ds.last()) && ds.last().group == g {
            prefix.push(ds.last())
        } else {
            prefix
        }
    }
}

/// The entries of `ds` below the version cutoff whose name contains `search`,
/// in dataset order.
pub open spec fn search_entries(ds: Seq<EmojiModel>, search: Seq<char>) -> Seq<EmojiModel>
    decreases ds.len(),
{
    if ds.len() == 0 {
        Seq::empty()
    } else {
        let prefix = search_entries(ds.drop_last(), search);
        if version_admitted(ds.last()) && contains_seq(ds.last().name, search) {
            prefix.push(ds.last())
        } else {
            prefix
        }
    }
}

/// With an empty search string the result set is exactly the group-filtered
/// set for the selected group, whatever the dataset.
pub proof fn lemma_empty_search_selects_by_group(ds: Seq<EmojiModel>, g: Group, search: Seq<char>)
    requires
        search.len() == 0,
    ensures
        matching_entries(ds, g, search) == group_entries(ds, g),
    decreases ds.len(),
{
    if ds.len() > 0 {
        lemma_empty_search_selects_by_group(ds.drop_last(), g, search);
    }
}

/// A one-character search string selects nothing, whatever the dataset and
/// the selected group.
pub proof fn lemma_one_char_search_selects_nothing(ds: Seq<EmojiModel>, g: Group, search: Seq<char>)
    requires
        search.len() == 1,
    ensures
        matching_entries(ds, g, search) == Seq::<EmojiModel>::empty(),
    decreases ds.len(),
{
    if ds.len() > 0 {
        lemma_one_char_search_selects_nothing(ds.drop_last(), g, search);
    }
}

/// A search string of two or more characters selects exactly the entries
/// below the version cutoff whose name contains it, regardless of the
/// selected group.
pub proof fn lemma_long_search_ignores_group(
    ds: Seq<EmojiModel>,
    g1: Group,
    g2: Group,
    search: Seq<char>,
)
    requires
        search.len() >= 2,
    ensures
        matching_entries(ds, g1, search) == search_entries(ds, search),
        matching_entries(ds, g1, search) == matching_entries(ds, g2, search),
    decreases ds.len(),
{
    if ds.len() > 0 {
        lemma_long_search_ignores_group(ds.drop_last(), g1, g2, search);
    }
}

/// Changing the skin tone alone never changes which entries match nor the
/// shape of the grid — only the glyph each cell resolves to: under either
/// tone, cell `(i, j)` holds the resolution of the same matched entry.
pub proof fn lemma_tone_changes_only_glyphs(
    ds: Seq<EmojiModel>,
    g: Group,
    search: Seq<char>,
    t1: SkinTone,
    t2: SkinTone,
)
    ensures
        spec_grid(ds, g, t1, search).len() == spec_grid(ds, g, t2, search).len(),
        forall|i: int|
            0 <= i < spec_grid(ds, g, t1, search).len() ==> (#[trigger] spec_grid(
                ds,
                g,
                t1,
                search,
            )[i]).len() == spec_grid(ds, g, t2, search)[i].len(),
        forall|i: int, j: int|
            0 <= i < spec_grid(ds, g, t1, search).len() && 0 <= j < spec_grid(
                ds,
                g,
                t1,
                search,
            )[i].len() ==> (#[trigger] spec_grid(ds, g, t1, search)[i][j]) == resolved_glyph_of(
                matching_entries(ds, g, search)[i * (ITEMS_PER_ROW as int) + j],
                t1,
            ) && spec_grid(ds, g, t2, search)[i][j] == resolved_glyph_of(
                matching_entries(ds, g, search)[i * (ITEMS_PER_ROW as int) + j],
                t2,
            ),
{
    let m = matching_entries(ds, g, search);
    let g1 = spec_grid(ds, g, t1, search);
    let g2 = spec_grid(ds, g, t2, search);
    assert(resolved_glyphs(m, t1).len() == m.len());
    assert(resolved_glyphs(m, t2).len() == m.len());
    assert forall|i: int, j: int|
        0 <= i < g1.len() && 0 <= j < g1[i].len() implies (#[trigger] g1[i][j])
        == resolved_glyph_of(m[i * (ITEMS_PER_ROW as int) + j], t1) && g2[i][j]
        == resolved_glyph_of(m[i * (ITEMS_PER_ROW as int) + j], t2) by {
        assert(g1[i] == row_slice(resolved_glyphs(m, t1), i));
        assert(g2[i] == row_slice(resolved_glyphs(m, t2), i));
        assert(g1[i][j] == resolved_glyphs(m, t1)[i * (ITEMS_PER_ROW as int) + j]);
        assert(g2[i][j] == resolved_glyphs(m, t2)[i * (ITEMS_PER_ROW as int) + j]);
    }
}

/// The paginated grid over `n` glyphs has `floor(n / 10)` rows — one row when
/// `n < 10` — and row `i` holds ten glyphs, or all that remain from position
/// `10 * i` when fewer than ten do. Glyphs beyond the last counted row are
/// dropped.
pub proof fn lemma_grid_shape(glyphs: Seq<Seq<char>>)
    ensures
        paginated(glyphs).len() == spec_row_count(glyphs.len()),
        forall|i: int|
            0 <= i < paginated(glyphs).len() ==> (#[trigger] paginated(glyphs)[i]).len() == (if (i
                + 1) * (ITEMS_PER_ROW as int) <= glyphs.len() {
                ITEMS_PER_ROW as int
            } else {
                glyphs.len() - i * (ITEMS_PER_ROW as int)
            }),
{
    let rc = spec_row_count(glyphs.len());
    assert forall|i: int| 0 <= i < rc implies (#[trigger] paginated(glyphs)[i]).len() == (if (i + 1)
        * (ITEMS_PER_ROW as int) <= glyphs.len() {
        ITEMS_PER_ROW as int
    } else {
        glyphs.len() - i * (ITEMS_PER_ROW as int)
    }) by {
        let n = glyphs.len() as int;
        let w = ITEMS_PER_ROW as int;
        if n / w > 0 {
            assert(i + 1 <= n / w);
            assert((i + 1) * w <= (n / w) * w) by (nonlinear_arith)
                requires
                    i + 1 <= n / w,
                    w > 0,
            ;
            assert((n / w) * w <= n);
            assert(i * w >= 0) by (nonlinear_arith)
                requires
                    i >= 0,
                    w > 0,
            ;
        }
        assert(paginated(glyphs)[i] == row_slice(glyphs, i));
    }
}

/// Builds the grid shown for dataset `ds` under group `g`, tone `t` and
/// search string `search`.
pub fn build_grid(ds: &Vec<EmojiEntry>, g: &Group, t: &SkinTone, search: &str) -> (grid: Vec<
    Vec<String>,
>)
    ensures
        grid.deep_view() == spec_grid(ds.deep_view(), *g, *t, search@),
{
    let matches = filter_entries(ds, g, search);
    let glyphs = resolve_all(&matches, t);
    chunk_rows(&glyphs)
}

} // verus!
