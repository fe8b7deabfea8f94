use vstd::prelude::*;

use crate::exif_impl::{invalid_exposure, invalid_fnumber, iso_text, SimplifiedExif};
use crate::text::same_text;

verus! {

/// The default font size of the film overlay.
pub const DEFAULT_FONT_SIZE: u32 = 25;

/// A colour with red, green, blue and alpha channels.
#[derive(Debug, Clone, Copy, PartialEq, Eq, Structural)]
pub struct Color {
    pub r: u8,
    pub g: u8,
    pub b: u8,
    pub a: u8,
}

/// The overlay that draws camera, lens and exposure text in the bottom margin.
#[derive(Debug, Clone, Copy, PartialEq, Eq, Structural)]
pub struct Film {
    /// Colour of the text.
    pub font_color: Color,
    /// Font size, relative to `DEFAULT_FONT_SIZE`.
    pub font_size: u32,
}

/// The overlay that leaves the image as it is.
#[derive(Debug, Clone, Copy, PartialEq, Eq, Structural)]
pub struct Nothing {}

/// An overlay strategy.
#[derive(Debug, Clone, Copy, PartialEq, Eq, Structural)]
pub enum Theme {
    Film(Film),
    Nothing(Nothing),
}

impl Film {
    pub open spec fn spec_default() -> Film {
        Film { font_color: Color { r: 255, g: 153, b: 0, a: 255 }, font_size: DEFAULT_FONT_SIZE }
    }

    pub fn unique_name(&self) -> (r: &'static str)
        ensures
            r@ == "film"@,
    {
        "film"
    }

    pub fn label(&self) -> (r: &'static str)
        ensures
            r@ == "Film"@,
    {
        "Film"
    }
}

impl Default for Film {
    fn default() -> (r: Film)
        ensures
            r == Film::spec_default(),
    {
        Film { font_color: Color { r: 255, g: 153, b: 0, a: 255 }, font_size: DEFAULT_FONT_SIZE }
    }
}

impl Nothing {
    pub fn unique_name(&self) -> (r: &'static str)
        ensures
            r@ == "nothing"@,
    {
        "nothing"
    }

    pub fn label(&self) -> (r: &'static str)
        ensures
            r@ == "Nothing"@,
    {
        "Nothing"
    }
}

impl Theme {
    /// The stable name under which the strategy is persisted.
    pub open spec fn spec_name(self) -> Seq<char> {
        match self {
            Theme::Film(_) => "film"@,
            Theme::Nothing(_) => "nothing"@,
        }
    }

    pub fn unique_name(&self) -> (r: &'static str)
        ensures
            r@ == self.spec_name(),
    {
        match self {
            Theme::Film(f) => f.unique_name(),
            Theme::Nothing(n) => n.unique_name(),
        }
    }

    /// The name shown to the user.
    pub fn label(&self) -> (r: &'static str)
        ensures
            r@ == (match *self {
                Theme::Film(_) => "Film"@,
                Theme::Nothing(_) => "Nothing"@,
            }),
    {
        match self {
            Theme::Film(f) => f.label(),
            Theme::Nothing(n) => n.label(),
        }
    }
}

/// The strategies that this library provides, in their natural order.
pub open spec fn available_themes() -> Seq<Theme> {
    seq![Theme::Film(Film::spec_default()), Theme::Nothing(Nothing {})]
}

fn available() -> (r: Vec<Theme>)
    ensures
        r@ == available_themes(),
{
    let v = vec![Theme::Film(Film::default()), Theme::Nothing(Nothing {})];
    assert(v@ =~= available_themes());
    v
}

/// The names of a sequence of strategies.
pub open spec fn names_of(themes: Seq<Theme>) -> Seq<Seq<char>> {
    themes.map_values(|t: Theme| t.spec_name())
}

/// The first index at or after `j` of a strategy named `x`, or -1.
pub open spec fn find_from(s: Seq<Theme>, x: Seq<char>, j: int) -> int
    decreases s.len() - j,
{
    if j < 0 || j >= s.len() {
        -1
    } else if s[j].spec_name() == x {
        j
    } else {
        find_from(s, x, j + 1)
    }
}

/// The first index of a strategy named `x`, or -1.
pub open spec fn find_named(s: Seq<Theme>, x: Seq<char>) -> int {
    find_from(s, x, 0)
}

/// The strategies of `rem` ordered after the persisted names: each name
/// takes the first remaining strategy of that name, in the persisted order;
/// names without a strategy are passed over; the strategies that no name took
/// follow in their own order.
pub open spec fn reconcile(saved: Seq<Seq<char>>, rem: Seq<Theme>) -> Seq<Theme>
    decreases saved.len(),
{
    if saved.len() == 0 {
        rem
    } else {
        let p = find_named(rem, saved[0]);
        if p >= 0 {
            seq![rem[p]] + reconcile(saved.drop_first(), rem.remove(p))
        } else {
            reconcile(saved.drop_first(), rem)
        }
    }
}

proof fn lemma_find_from_bounds(s: Seq<Theme>, x: Seq<char>, j: int)
    requires
        0 <= j,
    ensures
        find_from(s, x, j) == -1 || (j <= find_from(s, x, j) < s.len() && s[find_from(
            s,
            x,
            j,
        )].spec_name() == x),
    decreases s.len() - j,
{
    if j < s.len() && s[j].spec_name() != x {
        lemma_find_from_bounds(s, x, j + 1);
    }
}

/// Reconciliation keeps every strategy once: the result holds exactly the
/// strategies that it was given, neither dropping nor duplicating one.
pub proof fn lemma_reconcile_keeps_strategies(saved: Seq<Seq<char>>, rem: Seq<Theme>)
    ensures
        reconcile(saved, rem).to_multiset() == rem.to_multiset(),
        reconcile(saved, rem).len() == rem.len(),
    decreases saved.len(),
{
    if saved.len() > 0 {
        let p = find_named(rem, saved[0]);
        lemma_find_from_bounds(rem, saved[0], 0);
        if p >= 0 {
            lemma_reconcile_keeps_strategies(saved.drop_first(), rem.remove(p));
            let x = rem[p];
            let tail = reconcile(saved.drop_first(), rem.remove(p));
            broadcast use vstd::seq_lib::group_to_multiset_ensures;
            broadcast use vstd::multiset::group_multiset_axioms;

            assert(seq![x] + tail =~= tail.insert(0, x));
            vstd::seq_lib::to_multiset_insert(tail, 0, x);
            vstd::seq_lib::to_multiset_remove(rem, p);
            assert(rem.to_multiset().count(x) > 0) by {
                vstd::seq_lib::to_multiset_contains(rem, x);
            }
            assert(rem.to_multiset() =~= rem.to_multiset().remove(x).insert(x));
        } else {
            lemma_reconcile_keeps_strategies(saved.drop_first(), rem);
        }
    }
}

/// No two strategies share a name.
pub open spec fn distinct_names(s: Seq<Theme>) -> bool {
    forall|i: int, j: int| 0 <= i < j < s.len() ==> s[i].spec_name() != s[j].spec_name()
}

proof fn lemma_available_distinct()
    ensures
        distinct_names(available_themes()),
{
    reveal_strlit("film");
    reveal_strlit("nothing");
    assert("film"@.len() != "nothing"@.len());
}

proof fn lemma_remove_keeps_distinct(s: Seq<Theme>, p: int)
    requires
        distinct_names(s),
        0 <= p < s.len(),
    ensures
        distinct_names(s.remove(p)),
        forall|k: int| 0 <= k < s.remove(p).len() ==> s.remove(p)[k].spec_name() != s[p].spec_name(),
{
    let r = s.remove(p);
    assert forall|i: int, j: int| 0 <= i < j < r.len() implies r[i].spec_name() != r[j].spec_name() by {
        let i0 = if i < p { i } else { i + 1 };
        let j0 = if j < p { j } else { j + 1 };
        assert(r[i] == s[i0] && r[j] == s[j0]);
    }
    assert forall|k: int| 0 <= k < r.len() implies r[k].spec_name() != s[p].spec_name() by {
        let k0 = if k < p { k } else { k + 1 };
        assert(r[k] == s[k0]);
    }
}

/// The first index with a name is found where a strategy of that name stands.
proof fn lemma_find_from_finds(s: Seq<Theme>, x: Seq<char>, j: int, q: int)
    requires
        0 <= j <= q < s.len(),
        s[q].spec_name() == x,
        forall|k: int| j <= k < q ==> s[k].spec_name() != x,
    ensures
        find_from(s, x, j) == q,
    decreases q - j,
{
    if j < q {
        lemma_find_from_finds(s, x, j + 1, q);
    }
}

proof fn lemma_reconcile_keeps_distinct(saved: Seq<Seq<char>>, rem: Seq<Theme>)
    requires
        distinct_names(rem),
    ensures
        distinct_names(reconcile(saved, rem)),
    decreases saved.len(),
{
    if saved.len() > 0 {
        let p = find_named(rem, saved[0]);
        lemma_find_from_bounds(rem, saved[0], 0);
        if p >= 0 {
            let x = rem[p];
            let rest = rem.remove(p);
            lemma_remove_keeps_distinct(rem, p);
            lemma_reconcile_keeps_distinct(saved.drop_first(), rest);
            lemma_reconcile_keeps_strategies(saved.drop_first(), rest);
            let tail = reconcile(saved.drop_first(), rest);
            let out = seq![x] + tail;
            assert forall|k: int| 0 <= k < tail.len() implies tail[k].spec_name() != x.spec_name() by {
                broadcast use vstd::seq_lib::group_to_multiset_ensures;

                assert(tail.contains(tail[k]));
                assert(tail.to_multiset().count(tail[k]) > 0);
                assert(rest.to_multiset().count(tail[k]) > 0);
                assert(rest.contains(tail[k]));
                let m = choose|m: int| 0 <= m < rest.len() && rest[m] == tail[k];
                assert(rest[m].spec_name() != rem[p].spec_name());
            }
            assert forall|i: int, j: int| 0 <= i < j < out.len() implies out[i].spec_name()
                != out[j].spec_name() by {
                if i == 0 {
                    assert(out[j] == tail[j - 1]);
                } else {
                    assert(out[i] == tail[i - 1] && out[j] == tail[j - 1]);
                }
            }
        } else {
            lemma_reconcile_keeps_distinct(saved.drop_first(), rem);
        }
    }
}

/// Reconciling a permutation of `rem` against its own names gives it back.
proof fn lemma_reconcile_own_order(t: Seq<Theme>, rem: Seq<Theme>)
    requires
        distinct_names(rem),
        t.to_multiset() == rem.to_multiset(),
    ensures
        reconcile(names_of(t), rem) == t,
    decreases t.len(),
{
    broadcast use vstd::seq_lib::group_to_multiset_ensures;
    broadcast use vstd::multiset::group_multiset_axioms;

    if t.len() == 0 {
        vstd::seq_lib::to_multiset_len(t);
        vstd::seq_lib::to_multiset_len(rem);
        assert(rem.len() == 0);
        assert(rem =~= t);
        assert(names_of(t) =~= Seq::<Seq<char>>::empty());
    } else {
        let x = t[0];
        let names = names_of(t);
        assert(t.contains(x));
        assert(rem.to_multiset().count(x) > 0);
        assert(rem.contains(x));
        let q = choose|q: int| 0 <= q < rem.len() && rem[q] == x;
        assert forall|k: int| 0 <= k < q implies rem[k].spec_name() != x.spec_name() by {}
        lemma_find_from_finds(rem, x.spec_name(), 0, q);
        assert(names[0] == x.spec_name());
        let rest = rem.remove(q);
        lemma_remove_keeps_distinct(rem, q);
        vstd::seq_lib::to_multiset_remove(rem, q);
        assert(t =~= t.drop_first().insert(0, x));
        vstd::seq_lib::to_multiset_insert(t.drop_first(), 0, x);
        assert(t.drop_first().to_multiset() =~= rest.to_multiset());
        lemma_reconcile_own_order(t.drop_first(), rest);
        assert(names.drop_first() =~= names_of(t.drop_first()));
        assert(seq![x] + t.drop_first() =~= t);
    }
}

proof fn lemma_find_own_name(t: Seq<Theme>, sel: int)
    requires
        distinct_names(t),
        0 <= sel < t.len(),
    ensures
        find_named(t, t[sel].spec_name()) == sel,
{
    assert forall|k: int| 0 <= k < sel implies t[k].spec_name() != t[sel].spec_name() by {}
    lemma_find_from_finds(t, t[sel].spec_name(), 0, sel);
}

/// Saving and reloading a registry is stable: a registry rebuilt from any
/// persisted state, saved again (its names in order, its selected index) and
/// rebuilt, has the same order and the same selection.
pub proof fn lemma_reload_is_stable(saved: Seq<Seq<char>>, sel: int)
    requires
        0 <= sel,
    ensures
        ({
            let t = reconcile(saved, available_themes());
            let s = selected_after(saved, sel, t);
            &&& 0 <= s < t.len()
            &&& reconcile(names_of(t), available_themes()) == t
            &&& selected_after(names_of(t), s, t) == s
        }),
{
    let t = reconcile(saved, available_themes());
    lemma_available_distinct();
    lemma_reconcile_keeps_strategies(saved, available_themes());
    lemma_reconcile_keeps_distinct(saved, available_themes());
    lemma_find_from_bounds(t, saved[sel], 0);
    let s = selected_after(saved, sel, t);
    lemma_reconcile_own_order(t, available_themes());
    lemma_find_own_name(t, s);
}

/// The persisted form of a registry: the strategies' names in order and the
/// selected index.
#[derive(Debug, Clone)]
pub struct ThemeRegistryState {
    pub names: Vec<String>,
    pub selected: usize,
}

/// The views of a sequence of strings.
pub open spec fn views(names: Seq<String>) -> Seq<Seq<char>> {
    names.map_values(|s: String| s@)
}

/// The index selected after reconciliation: the strategy that the persisted
/// index named, where it is still there; otherwise the persisted index,
/// clamped to the last strategy.
pub open spec fn selected_after(saved: Seq<Seq<char>>, sel: int, ordered: Seq<Theme>) -> int {
    if 0 <= sel < saved.len() && find_named(ordered, saved[sel]) >= 0 {
        find_named(ordered, saved[sel])
    } else if sel < ordered.len() {
        sel
    } else if ordered.len() == 0 {
        0
    } else {
        ordered.len() - 1
    }
}

/// The strategies in their user-chosen order, and the selected one.
#[derive(Debug, Clone)]
pub struct ThemeRegistry {
    pub themes: Vec<Theme>,
    pub selected: usize,
}

impl ThemeRegistry {
    /// The selected index points at a strategy.
    pub open spec fn well_formed(&self) -> bool {
        self.selected < self.themes@.len()
    }

    /// The available strategies in their natural order, the first selected.
    pub fn new() -> (r: ThemeRegistry)
        ensures
            r.themes@ == available_themes(),
            r.selected == 0,
            r.well_formed(),
    {
        ThemeRegistry { themes: available(), selected: 0 }
    }

    /// Index of the first strategy in `themes` named `name`, if any.
    fn position_of(themes: &Vec<Theme>, name: &str) -> (r: Option<usize>)
        ensures
            match r {
                Some(p) => p as int == find_named(themes@, name@),
                None => find_named(themes@, name@) == -1,
            },
    {
        let mut j: usize = 0;
        while j < themes.len()
            invariant
                j <= themes@.len(),
                find_named(themes@, name@) == find_from(themes@, name@, j as int),
            decreases themes@.len() - j,
        {
            if same_text(themes[j].unique_name(), name) {
                return Some(j);
            }
            j = j + 1;
        }
        None
    }

    /// Rebuilds a registry from its persisted form: the available strategies
    /// ordered by the persisted names (unknown names are passed over, strategies
    /// that no name mentions follow in their natural order), and the selection
    /// kept on the strategy that the persisted index named.
    pub fn from_state(state: ThemeRegistryState) -> (r: ThemeRegistry)
        ensures
            r.themes@ == reconcile(views(state.names@), available_themes()),
            r.selected == selected_after(views(state.names@), state.selected as int, r.themes@),
            r.well_formed(),
    {
        let ghost saved = views(state.names@);
        let mut remaining = available();
        let mut ordered: Vec<Theme> = Vec::new();
        let mut i: usize = 0;
        assert(saved.skip(0) =~= saved);
        assert(ordered@ + reconcile(saved, remaining@) =~= reconcile(saved, remaining@));
        while i < state.names.len()
            invariant
                saved == views(state.names@),
                i <= state.names@.len(),
                reconcile(saved, available_themes()) == ordered@ + reconcile(
                    saved.skip(i as int),
                    remaining@,
                ),
            decreases state.names@.len() - i,
        {
            let ghost rest = saved.skip(i as int);
            assert(rest.drop_first() =~= saved.skip(i + 1));
            assert(rest[0] == state.names@[i as int]@);
            match Self::position_of(&remaining, state.names[i].as_str()) {
                Some(p) => {
                    proof {
                        lemma_find_from_bounds(remaining@, rest[0], 0);
                    }
                    let t = remaining.remove(p);
                    assert(ordered@.push(t) + reconcile(saved.skip(i + 1), remaining@) =~= ordered@
                        + (seq![t] + reconcile(saved.skip(i + 1), remaining@)));
                    ordered.push(t);
                },
                None => {},
            }
            i = i + 1;
        }
        assert(saved.skip(i as int) =~= Seq::<Seq<char>>::empty());
        ordered.append(&mut remaining);
        proof {
            lemma_reconcile_keeps_strategies(saved, available_themes());
        }
        let n = ordered.len();
        let sel = state.selected;
        let selected = if sel < state.names.len() {
            match Self::position_of(&ordered, state.names[sel].as_str()) {
                Some(p) => p,
                None => if sel < n {
                    sel
                } else {
                    n - 1
                },
            }
        } else if sel < n {
            sel
        } else {
            n - 1
        };
        proof {
            if sel < state.names@.len() {
                lemma_find_from_bounds(ordered@, saved[sel as int], 0);
            }
        }
        ThemeRegistry { themes: ordered, selected }
    }

    /// The persisted form: the names in order and the selected index, clamped
    /// to the last strategy.
    pub fn to_state(&self) -> (r: ThemeRegistryState)
        ensures
            views(r.names@) == names_of(self.themes@),
            r.selected == (if self.selected < self.themes@.len() {
                self.selected as int
            } else if self.themes@.len() == 0 {
                0
            } else {
                self.themes@.len() - 1
            }),
    {
        let mut names: Vec<String> = Vec::new();
        let mut i: usize = 0;
        while i < self.themes.len()
            invariant
                i <= self.themes@.len(),
                views(names@) =~= names_of(self.themes@.take(i as int)),
            decreases self.themes@.len() - i,
        {
            let name = self.themes[i].unique_name().to_owned();
            let ghost before = names@;
            names.push(name);
            assert(views(names@) =~= views(before).push(name@));
            assert(self.themes@.take(i + 1) =~= self.themes@.take(i as int).push(self.themes@[i as int]));
            i = i + 1;
        }
        assert(self.themes@.take(i as int) =~= self.themes@);
        let n = self.themes.len();
        let selected = if self.selected < n {
            self.selected
        } else if n == 0 {
            0
        } else {
            n - 1
        };
        ThemeRegistryState { names, selected }
    }

    /// The selected strategy.
    pub fn selected_theme_read(&self) -> (r: &Theme)
        requires
            self.well_formed(),
        ensures
            *r == self.themes@[self.selected as int],
    {
        &self.themes[self.selected]
    }
}

/// The views of a list of text pairs.
pub open spec fn pair_views(v: Seq<(String, String)>) -> Seq<(Seq<char>, Seq<char>)> {
    v.map_values(|p: (String, String)| (p.0@, p.1@))
}

/// The exposure values that the film overlay draws, each with its prefix, in
/// the order f-number, exposure time, ISO; absent values are left out.
pub open spec fn overlay_pairs_of(e: SimplifiedExif) -> Seq<(Seq<char>, Seq<char>)> {
    let f: Seq<(Seq<char>, Seq<char>)> = if invalid_fnumber(e.fnumber@) {
        seq![]
    } else {
        seq![("F"@, e.fnumber@)]
    };
    let sec: Seq<(Seq<char>, Seq<char>)> = if invalid_exposure(e.exposure@) {
        seq![]
    } else {
        seq![("SEC"@, e.exposure@)]
    };
    let iso: Seq<(Seq<char>, Seq<char>)> = match iso_text(e.iso_speed) {
        Some(t) => seq![("ISO"@, t)],
        None => seq![],
    };
    f + sec + iso
}

impl Film {
    /// The exposure values to draw, each with its prefix.
    pub fn overlay_pairs(exif: &SimplifiedExif) -> (r: Vec<(String, String)>)
        ensures
            pair_views(r@) == overlay_pairs_of(*exif),
    {
        let mut list: Vec<(String, String)> = Vec::new();
        if let Some(f) = exif.get_fnumber() {
            list.push((String::from_str("F"), f));
        }
        assert(pair_views(list@) =~= (if invalid_fnumber(exif.fnumber@) {
            seq![]
        } else {
            seq![("F"@, exif.fnumber@)]
        }));
        let ghost after_f = pair_views(list@);
        if let Some(sec) = exif.get_exposure() {
            list.push((String::from_str("SEC"), sec));
        }
        assert(pair_views(list@) =~= after_f + (if invalid_exposure(exif.exposure@) {
            seq![]
        } else {
            seq![("SEC"@, exif.exposure@)]
        }));
        let ghost after_sec = pair_views(list@);
        if let Some(iso) = exif.get_iso() {
            list.push((String::from_str("ISO"), iso));
        }
        assert(pair_views(list@) =~= after_sec + (match iso_text(exif.iso_speed) {
            Some(t) => seq![("ISO"@, t)],
            None => seq![],
        }));
        list
    }

    /// The upper line on the left: camera manufacturer and model.
    pub fn camera_line(exif: &SimplifiedExif) -> (r: String)
        ensures
            r@ == exif.camera_mnf@ + "  "@ + exif.camera_model@,
    {
        let mut line = exif.camera_mnf.clone();
        line.append("  ");
        line.append(exif.camera_model.as_str());
        line
    }
}

impl Default for ThemeRegistry {
    fn default() -> (r: ThemeRegistry)
        ensures
            r.themes@ == available_themes(),
            r.selected == 0,
    {
        ThemeRegistry::new()
    }
}

} // verus!
