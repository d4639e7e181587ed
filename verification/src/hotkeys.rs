//! Which chords Oto wants macOS to deliver.
//!
//! Oto binds one chord for ordinary dictation plus, optionally, one per
//! mode. Deciding what to bind, without two chords fighting over the same
//! keys, is kept apart from registering the chords with the system.

use vstd::prelude::*;

use crate::config::{AppConfig, Mode};
use crate::text::{concat2, owned};

verus! {

/// Shortcut id used for the primary dictation binding.
pub const PRIMARY_ID: &'static str = "dictation";

/// Label of the primary dictation binding.
pub const PRIMARY_LABEL: &'static str = "Start or stop Oto dictation";

/// Prefix of the id of a mode's binding.
pub const MODE_ID_PREFIX: &'static str = "mode:";

/// Prefix of the label of a mode's binding.
pub const MODE_LABEL_PREFIX: &'static str = "Oto dictation — ";

/// One chord Oto wants delivered.
#[derive(Debug, Clone, PartialEq, Eq)]
pub struct Binding {
    /// Stable identifier: `dictation`, or `mode:<mode id>`.
    pub id: String,
    /// Normalized chord, e.g. `Ctrl+Shift+Space`.
    pub hotkey: String,
    /// `None` for the primary binding; otherwise the mode to start under.
    pub mode_id: Option<String>,
    /// Human-readable description, used in logs and error messages.
    pub label: String,
}

/// A binding, as plain text.
pub struct BindingView {
    pub id: Seq<char>,
    pub hotkey: Seq<char>,
    pub mode_id: Option<Seq<char>>,
    pub label: Seq<char>,
}

impl View for Binding {
    type V = BindingView;

    open spec fn view(&self) -> BindingView {
        BindingView {
            id: self.id@,
            hotkey: self.hotkey@,
            mode_id: match self.mode_id {
                Some(m) => Some(m@),
                None => None,
            },
            label: self.label@,
        }
    }
}

/// The views of a list of bindings.
pub open spec fn binding_views(bs: Seq<Binding>) -> Seq<BindingView> {
    bs.map_values(|b: Binding| b@)
}

/// The primary dictation binding on `hotkey`.
pub open spec fn primary_binding(hotkey: Seq<char>) -> BindingView {
    BindingView { id: PRIMARY_ID@, hotkey, mode_id: None, label: PRIMARY_LABEL@ }
}

/// The binding that starts dictation in mode `m` on `chord`.
pub open spec fn mode_binding(m: Mode, chord: Seq<char>) -> BindingView {
    BindingView {
        id: MODE_ID_PREFIX@ + m.id@,
        hotkey: chord,
        mode_id: Some(m.id@),
        label: MODE_LABEL_PREFIX@ + m.name@,
    }
}

/// Some binding in `bs` is already on `chord`.
pub open spec fn chord_taken(bs: Seq<BindingView>, chord: Seq<char>) -> bool {
    exists|k: int| 0 <= k < bs.len() && bs[k].hotkey == chord
}

/// The bindings after looking at the first `n` modes, where `chords[i]` is
/// the normalized chord of `modes[i]` (consulted only if it is enabled).
pub open spec fn bindings_upto(
    primary: Seq<char>,
    modes: Seq<Mode>,
    chords: Seq<Seq<char>>,
    n: nat,
) -> Seq<BindingView>
    decreases n,
{
    if n == 0 {
        seq![primary_binding(primary)]
    } else {
        let prev = bindings_upto(primary, modes, chords, (n - 1) as nat);
        let m = modes[n - 1];
        let c = chords[n - 1];
        if m.enabled && c.len() > 0 && !chord_taken(prev, c) {
            prev.push(mode_binding(m, c))
        } else {
            prev
        }
    }
}

/// Every chord Oto should hold, primary first: each enabled mode with a
/// chord that no earlier binding holds adds one binding, in mode order.
pub open spec fn bindings_for(
    primary: Seq<char>,
    modes: Seq<Mode>,
    chords: Seq<Seq<char>>,
) -> Seq<BindingView> {
    bindings_upto(primary, modes, chords, modes.len())
}

impl Binding {
    /// The binding for ordinary dictation on `hotkey`.
    pub fn primary(hotkey: String) -> (b: Binding)
        ensures
            b@ == primary_binding(hotkey@),
    {
        Binding {
            id: owned(PRIMARY_ID),
            hotkey,
            mode_id: None,
            label: owned(PRIMARY_LABEL),
        }
    }
}

/// Whether some binding in `bs` is on `chord`.
fn chord_is_taken(bs: &Vec<Binding>, chord: &String) -> (b: bool)
    ensures
        b == chord_taken(binding_views(bs@), chord@),
{
    let mut k: usize = 0;
    while k < bs.len()
        invariant
            k <= bs.len(),
            forall|j: int| 0 <= j < k ==> bs@[j].hotkey@ != chord@,
        decreases bs.len() - k,
    {
        if bs[k].hotkey == *chord {
            assert(binding_views(bs@)[k as int].hotkey == chord@);
            return true;
        }
        k = k + 1;
    }
    false
}

/// The bindings for the primary chord `primary` and `modes`, where
/// `chords[i]` is the already normalized chord of `modes[i]`.
pub fn bindings_for_chords(primary: String, modes: &Vec<Mode>, chords: &Vec<String>) -> (bs: Vec<
    Binding,
>)
    requires
        chords.len() == modes.len(),
    ensures
        binding_views(bs@) == bindings_for(primary@, modes@, chords@.map_values(|c: String| c@)),
{
    let ghost cs = chords@.map_values(|c: String| c@);
    let ghost p = primary@;
    let mut bindings: Vec<Binding> = Vec::new();
    bindings.push(Binding::primary(primary));
    assert(binding_views(bindings@) =~= bindings_upto(p, modes@, cs, 0));
    let mut i: usize = 0;
    while i < modes.len()
        invariant
            i <= modes.len(),
            chords.len() == modes.len(),
            cs == chords@.map_values(|c: String| c@),
            binding_views(bindings@) == bindings_upto(p, modes@, cs, i as nat),
        decreases modes.len() - i,
    {
        let mode = &modes[i];
        let chord = &chords[i];
        assert(cs[i as int] == chord@);
        if mode.enabled && chord.as_str().unicode_len() > 0 && !chord_is_taken(&bindings, chord) {
            let b = Binding {
                id: concat2(MODE_ID_PREFIX, mode.id.as_str()),
                hotkey: chord.clone(),
                mode_id: Some(mode.id.clone()),
                label: concat2(MODE_LABEL_PREFIX, mode.name.as_str()),
            };
            assert(b@ == mode_binding(modes@[i as int], cs[i as int]));
            let ghost before = bindings@;
            bindings.push(b);
            assert(binding_views(bindings@) =~= binding_views(before).push(b@));
        }
        i = i + 1;
    }
    bindings
}

/// `out` is what `normalize` returned for some argument whose text is `input`.
pub open spec fn normalized_to<F: Fn(&str) -> String>(
    normalize: F,
    input: Seq<char>,
    out: String,
) -> bool {
    exists|a: &str| a@ == input && #[trigger] normalize.ensures((a,), out)
}

/// `bs` are the bindings for `cfg` when `normalize` turned its primary
/// chord into `primary` and the chord of each enabled mode `i` into
/// `chords[i]`.
pub open spec fn normalized_bindings<F: Fn(&str) -> String>(
    normalize: F,
    cfg: AppConfig,
    primary: String,
    chords: Seq<String>,
    bs: Seq<BindingView>,
) -> bool {
    &&& normalized_to(normalize, cfg.hotkey@, primary)
    &&& chords.len() == cfg.modes@.len()
    &&& forall|i: int|
        0 <= i < chords.len() && (#[trigger] cfg.modes@[i]).enabled ==> normalized_to(
            normalize,
            cfg.modes@[i].hotkey@,
            chords[i],
        )
    &&& bs == bindings_for(primary@, cfg.modes@, chords.map_values(|c: String| c@))
}

/// Every chord Oto should hold, primary first.
///
/// `normalize` turns a chord as written in the configuration into its
/// normalized form; it is called on the primary chord and on the chord of
/// each enabled mode. Modes without a chord, and modes whose chord
/// collides with one already in the list, are skipped: two bindings for the
/// same keys would make which mode runs depend on registration order.
pub fn desired_bindings<F: Fn(&str) -> String>(cfg: &AppConfig, normalize: F) -> (bs: Vec<
    Binding,
>)
    requires
        forall|a: &str| normalize.requires((a,)),
    ensures
        exists|primary: String, chords: Seq<String>|
            #[trigger] normalized_bindings(normalize, *cfg, primary, chords, binding_views(bs@)),
{
    let primary = normalize(cfg.hotkey.as_str());
    assert(normalized_to(normalize, cfg.hotkey@, primary));
    let mut chords: Vec<String> = Vec::new();
    let mut i: usize = 0;
    while i < cfg.modes.len()
        invariant
            i <= cfg.modes.len(),
            chords.len() == i,
            forall|a: &str| normalize.requires((a,)),
            forall|j: int|
                0 <= j < i && (#[trigger] cfg.modes@[j]).enabled ==> normalized_to(
                    normalize,
                    cfg.modes@[j].hotkey@,
                    chords@[j],
                ),
        decreases cfg.modes.len() - i,
    {
        let mode = &cfg.modes[i];
        if mode.enabled {
            let c = normalize(mode.hotkey.as_str());
            assert(normalized_to(normalize, mode.hotkey@, c));
            chords.push(c);
        } else {
            chords.push(String::new());
        }
        i = i + 1;
    }
    let ghost p = primary;
    let bs = bindings_for_chords(primary, &cfg.modes, &chords);
    assert(normalized_bindings(normalize, *cfg, p, chords@, binding_views(bs@)));
    bs
}

// ---------------------------------------------------------------------------
// Laws
// ---------------------------------------------------------------------------

/// The bindings always start with the primary binding on the primary chord.
pub proof fn lemma_primary_first(primary: Seq<char>, modes: Seq<Mode>, chords: Seq<Seq<char>>)
    requires
        chords.len() == modes.len(),
    ensures
        bindings_for(primary, modes, chords).len() >= 1,
        bindings_for(primary, modes, chords)[0] == primary_binding(primary),
{
    lemma_primary_first_upto(primary, modes, chords, modes.len());
}

proof fn lemma_primary_first_upto(
    primary: Seq<char>,
    modes: Seq<Mode>,
    chords: Seq<Seq<char>>,
    n: nat,
)
    requires
        n <= modes.len(),
        chords.len() == modes.len(),
    ensures
        bindings_upto(primary, modes, chords, n).len() >= 1,
        bindings_upto(primary, modes, chords, n)[0] == primary_binding(primary),
    decreases n,
{
    if n > 0 {
        lemma_primary_first_upto(primary, modes, chords, (n - 1) as nat);
    }
}

/// No two bindings are on the same chord.
pub proof fn lemma_chords_distinct(primary: Seq<char>, modes: Seq<Mode>, chords: Seq<Seq<char>>)
    requires
        chords.len() == modes.len(),
    ensures
        forall|j: int, k: int|
            0 <= j < k < bindings_for(primary, modes, chords).len() ==> (#[trigger] bindings_for(
                primary,
                modes,
                chords,
            )[j]).hotkey != (#[trigger] bindings_for(primary, modes, chords)[k]).hotkey,
{
    lemma_chords_distinct_upto(primary, modes, chords, modes.len());
}

proof fn lemma_chords_distinct_upto(
    primary: Seq<char>,
    modes: Seq<Mode>,
    chords: Seq<Seq<char>>,
    n: nat,
)
    requires
        n <= modes.len(),
        chords.len() == modes.len(),
    ensures
        forall|j: int, k: int|
            0 <= j < k < bindings_upto(primary, modes, chords, n).len() ==> (
            #[trigger] bindings_upto(primary, modes, chords, n)[j]).hotkey != (
            #[trigger] bindings_upto(primary, modes, chords, n)[k]).hotkey,
    decreases n,
{
    if n > 0 {
        let prev = bindings_upto(primary, modes, chords, (n - 1) as nat);
        lemma_chords_distinct_upto(primary, modes, chords, (n - 1) as nat);
        let cur = bindings_upto(primary, modes, chords, n);
        assert forall|j: int, k: int| 0 <= j < k < cur.len() implies (#[trigger] cur[j]).hotkey
            != (#[trigger] cur[k]).hotkey by {
            if k < prev.len() {
                assert(cur[j] == prev[j]);
                assert(cur[k] == prev[k]);
            } else {
                assert(cur[j] == prev[j]);
                assert(!chord_taken(prev, cur[k].hotkey));
            }
        }
    }
}

/// Every binding after the first belongs to an enabled mode with a
/// non-empty chord, and is that mode's binding on that chord.
pub proof fn lemma_mode_bindings_sound(
    primary: Seq<char>,
    modes: Seq<Mode>,
    chords: Seq<Seq<char>>,
)
    requires
        chords.len() == modes.len(),
    ensures
        forall|k: int|
            1 <= k < bindings_for(primary, modes, chords).len() ==> exists|i: int|
                0 <= i < modes.len() && modes[i].enabled && chords[i].len() > 0 && (
                #[trigger] bindings_for(primary, modes, chords)[k]) == mode_binding(
                    modes[i],
                    chords[i],
                ),
{
    lemma_mode_bindings_sound_upto(primary, modes, chords, modes.len());
}

proof fn lemma_mode_bindings_sound_upto(
    primary: Seq<char>,
    modes: Seq<Mode>,
    chords: Seq<Seq<char>>,
    n: nat,
)
    requires
        n <= modes.len(),
        chords.len() == modes.len(),
    ensures
        forall|k: int|
            1 <= k < bindings_upto(primary, modes, chords, n).len() ==> exists|i: int|
                0 <= i < n && modes[i].enabled && chords[i].len() > 0 && (
                #[trigger] bindings_upto(primary, modes, chords, n)[k]) == mode_binding(
                    modes[i],
                    chords[i],
                ),
    decreases n,
{
    if n > 0 {
        let prev = bindings_upto(primary, modes, chords, (n - 1) as nat);
        lemma_mode_bindings_sound_upto(primary, modes, chords, (n - 1) as nat);
        let cur = bindings_upto(primary, modes, chords, n);
        assert forall|k: int| 1 <= k < cur.len() implies exists|i: int|
            0 <= i < n && modes[i].enabled && chords[i].len() > 0 && (#[trigger] cur[k])
                == mode_binding(modes[i], chords[i]) by {
            if k < prev.len() {
                assert(cur[k] == prev[k]);
                let i = choose|i: int|
                    0 <= i < n - 1 && modes[i].enabled && chords[i].len() > 0 && (
                    #[trigger] prev[k]) == mode_binding(modes[i], chords[i]);
                assert(0 <= i < n);
            } else {
                assert(cur[k] == mode_binding(modes[n - 1], chords[n - 1]));
            }
        }
    }
}

/// Nothing is skipped without a reason: the chord of every enabled mode
/// that has one is held by some binding, either its own or an earlier one
/// on the same keys. So a mode goes without a binding only when it is
/// disabled, has no chord, or its chord is already taken.
pub proof fn lemma_every_mode_chord_is_held(
    primary: Seq<char>,
    modes: Seq<Mode>,
    chords: Seq<Seq<char>>,
)
    requires
        chords.len() == modes.len(),
    ensures
        forall|i: int|
            0 <= i < modes.len() && modes[i].enabled && (#[trigger] chords[i]).len() > 0
                ==> exists|k: int|
                0 <= k < bindings_for(primary, modes, chords).len() && bindings_for(
                    primary,
                    modes,
                    chords,
                )[k].hotkey == chords[i],
{
    lemma_every_mode_chord_is_held_upto(primary, modes, chords, modes.len());
    let all = bindings_for(primary, modes, chords);
    assert(all == bindings_upto(primary, modes, chords, modes.len()));
    assert forall|i: int|
        0 <= i < modes.len() && modes[i].enabled && (#[trigger] chords[i]).len() > 0 implies exists|
        k: int|
        0 <= k < all.len() && all[k].hotkey == chords[i] by {
        let k = choose|k: int|
            0 <= k < bindings_upto(primary, modes, chords, modes.len()).len() && bindings_upto(
                primary,
                modes,
                chords,
                modes.len(),
            )[k].hotkey == chords[i];
        assert(all[k].hotkey == chords[i]);
    }
}

proof fn lemma_every_mode_chord_is_held_upto(
    primary: Seq<char>,
    modes: Seq<Mode>,
    chords: Seq<Seq<char>>,
    n: nat,
)
    requires
        n <= modes.len(),
        chords.len() == modes.len(),
    ensures
        forall|i: int|
            0 <= i < n && modes[i].enabled && (#[trigger] chords[i]).len() > 0 ==> exists|k: int|
                0 <= k < bindings_upto(primary, modes, chords, n).len() && bindings_upto(
                    primary,
                    modes,
                    chords,
                    n,
                )[k].hotkey == chords[i],
    decreases n,
{
    if n > 0 {
        lemma_every_mode_chord_is_held_upto(primary, modes, chords, (n - 1) as nat);
        let prev = bindings_upto(primary, modes, chords, (n - 1) as nat);
        let cur = bindings_upto(primary, modes, chords, n);
        assert forall|i: int|
            0 <= i < n && modes[i].enabled && (#[trigger] chords[i]).len() > 0 implies exists|k: int|
                0 <= k < cur.len() && cur[k].hotkey == chords[i] by {
            if i < n - 1 {
                let k = choose|k: int| 0 <= k < prev.len() && prev[k].hotkey == chords[i];
                assert(cur[k] == prev[k]);
            } else {
                if chord_taken(prev, chords[i]) {
                    let k = choose|k: int| 0 <= k < prev.len() && prev[k].hotkey == chords[i];
                    assert(cur[k] == prev[k]);
                } else {
                    assert(cur[prev.len() as int].hotkey == chords[i]);
                }
            }
        }
    }
}

/// What each binding is: the first is `dictation` on the primary chord,
/// for no mode, labelled "Start or stop Oto dictation"; every later one
/// belongs to an enabled mode `i` with a chord, is `mode:<id>` on that
/// mode's chord, starts that mode, and is labelled "Oto dictation — <name>".
pub proof fn lemma_binding_fields(primary: Seq<char>, modes: Seq<Mode>, chords: Seq<Seq<char>>)
    requires
        chords.len() == modes.len(),
    ensures
        bindings_for(primary, modes, chords)[0].id == "dictation"@,
        bindings_for(primary, modes, chords)[0].hotkey == primary,
        bindings_for(primary, modes, chords)[0].mode_id is None,
        bindings_for(primary, modes, chords)[0].label == "Start or stop Oto dictation"@,
        forall|k: int|
            1 <= k < bindings_for(primary, modes, chords).len() ==> exists|i: int|
                0 <= i < modes.len() && modes[i].enabled && chords[i].len() > 0 && {
                    let b = #[trigger] bindings_for(primary, modes, chords)[k];
                    &&& b.id == "mode:"@ + modes[i].id@
                    &&& b.hotkey == chords[i]
                    &&& b.mode_id == Some(modes[i].id@)
                    &&& b.label == "Oto dictation — "@ + modes[i].name@
                },
{
    lemma_primary_first(primary, modes, chords);
    lemma_mode_bindings_sound(primary, modes, chords);
}

} // verus!
