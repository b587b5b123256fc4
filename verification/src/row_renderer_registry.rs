//! The registry that maps layout row types to their renderers.
use std::marker::PhantomData;
use std::sync::Arc;
use vstd::prelude::*;
use crate::config_loader::{GroupConfig, RowConfig};
use crate::shared::share;
use crate::text::{owned, str_eq};

verus! {

/// Renders one kind of layout row into a component of type `R`.
pub trait RowRenderer<R> {
    /// The component for `row` of `group_config`, or `None` when the row
    /// produces none.
    fn render(&self, row: &RowConfig, group_config: &GroupConfig, context: &dyn RenderContext) -> Option<
        R,
    >;
}

/// Callbacks and state a renderer uses while it renders.
pub trait RenderContext {
    /// The user changed a value that is to be saved.
    fn on_save(&self);

    /// The layout must be rebuilt.
    fn on_rebuild(&self);

    /// True while values are being updated by the program.
    fn is_updating(&self) -> bool;

    /// Stores a boolean setting in the configuration service.
    fn sync_to_config_service(&self, key: &str, value: bool);

    /// A boolean setting of the configuration service, `default_val` when unset.
    fn get_from_config_service(&self, key: &str, default_val: bool) -> bool;

    /// Stores a text setting in the configuration service.
    fn sync_string_to_config_service(&self, key: &str, value: &str);

    /// A text setting of the configuration service, `default_val` when unset.
    fn get_string_from_config_service(&self, key: &str, default_val: &str) -> String;

    /// Resets every setting to its default; does nothing unless overridden.
    fn reset_to_defaults(&self) {
    }
}

/// The built-in row types and the renderer each is served by, in
/// registration order (`HEADER` rows are laid out separately).
pub const BUILTIN_ROW_TYPES: [(&'static str, &'static str); 15] = [
    ("SLIDER", "SliderRowRenderer"),
    ("COMBO", "ComboRowRenderer"),
    ("SWITCH", "SwitchRowRenderer"),
    ("SWITCH_INV", "SwitchInvRowRenderer"),
    ("FILELIST", "FileListRowRenderer"),
    ("FMLIST", "FMListRowRenderer"),
    ("HOTKEY", "HotkeyRowRenderer"),
    ("COLOR", "ColorRowRenderer"),
    ("BUTTON", "ButtonRowRenderer"),
    ("DATA", "DataRowRenderer"),
    ("INPUT", "TextRowRenderer"),
    ("TEXT", "TextRowRenderer"),
    ("VOICE", "VoiceRowRenderer"),
    ("VOICE_GLOBAL", "VoiceGlobalRenderer"),
    ("INFO", "InfoRowRenderer"),
];

/// The map that a list of (row type, renderer) entries stands for.
pub open spec fn entries_map<V>(s: Seq<(Seq<char>, V)>) -> Map<Seq<char>, V>
    decreases s.len(),
{
    if s.len() == 0 {
        Map::empty()
    } else {
        entries_map(s.drop_last()).insert(s.last().0, s.last().1)
    }
}

/// No row type occurs twice among the entries.
pub open spec fn distinct_keys<V>(s: Seq<(Seq<char>, V)>) -> bool {
    forall|i: int, j: int| 0 <= i < j < s.len() ==> #[trigger] s[i].0 != #[trigger] s[j].0
}

pub(crate) proof fn lemma_entries_absent<V>(s: Seq<(Seq<char>, V)>, k: Seq<char>)
    requires
        forall|i: int| 0 <= i < s.len() ==> #[trigger] s[i].0 != k,
    ensures
        !entries_map(s).contains_key(k),
    decreases s.len(),
{
    if s.len() > 0 {
        assert(s.last().0 != k);
        lemma_entries_absent(s.drop_last(), k);
    }
}

pub(crate) proof fn lemma_entries_present<V>(s: Seq<(Seq<char>, V)>, i: int)
    requires
        0 <= i < s.len(),
        distinct_keys(s),
    ensures
        entries_map(s).contains_key(s[i].0),
        entries_map(s)[s[i].0] == s[i].1,
    decreases s.len(),
{
    if i < s.len() - 1 {
        assert(s[i].0 != s[s.len() - 1].0);
        assert(s.drop_last()[i] == s[i]);
        lemma_entries_present(s.drop_last(), i);
    }
}

pub(crate) proof fn lemma_entries_update<V>(s: Seq<(Seq<char>, V)>, i: int, v: V)
    requires
        0 <= i < s.len(),
        distinct_keys(s),
    ensures
        entries_map(s.update(i, (s[i].0, v))) =~= entries_map(s).insert(s[i].0, v),
    decreases s.len(),
{
    let t = s.update(i, (s[i].0, v));
    if i == s.len() - 1 {
        assert(t.drop_last() =~= s.drop_last());
    } else {
        assert(t.drop_last() =~= s.drop_last().update(i, (s[i].0, v)));
        assert(s.drop_last()[i] == s[i]);
        lemma_entries_update(s.drop_last(), i, v);
        assert(s[i].0 != s[s.len() - 1].0);
    }
}

/// Maps row type names to renderers; rows of an unregistered type are served
/// by the default renderer.  Renderers are shared handles of type `Arc<T>`,
/// by default `Arc<dyn RowRenderer<R>>`.
pub struct RowRendererRegistry<R, T: ?Sized + RowRenderer<R> = dyn RowRenderer<R>> {
    renderers: Vec<(String, Arc<T>)>,
    default_renderer: Arc<T>,
    component: PhantomData<R>,
}

impl<R, T: ?Sized + RowRenderer<R>> RowRendererRegistry<R, T> {
    #[verifier::type_invariant]
    spec fn keys_distinct(self) -> bool {
        distinct_keys(self.entry_views())
    }

    spec fn entry_views(self) -> Seq<(Seq<char>, Arc<T>)> {
        self.renderers@.map_values(|e: (String, Arc<T>)| (e.0@, e.1))
    }

    /// The registered renderers by row type.
    pub closed spec fn registered(self) -> Map<Seq<char>, Arc<T>> {
        entries_map(self.entry_views())
    }

    /// The renderer for unregistered row types.
    pub closed spec fn default_view(self) -> Arc<T> {
        self.default_renderer
    }

    /// The renderer that serves rows of type `row_type`.
    pub open spec fn lookup(self, row_type: Seq<char>) -> Arc<T> {
        if self.registered().contains_key(row_type) {
            self.registered()[row_type]
        } else {
            self.default_view()
        }
    }

    /// A registry with no registered types.
    pub fn new(default_renderer: Arc<T>) -> (r: RowRendererRegistry<R, T>)
        ensures
            r.registered() == Map::<Seq<char>, Arc<T>>::empty(),
            r.default_view() == default_renderer,
    {
        let r = RowRendererRegistry { renderers: Vec::new(), default_renderer, component: PhantomData };
        assert(r.entry_views() =~= Seq::empty());
        r
    }

    /// The renderer registered for exactly `row_type` (case-sensitive), or
    /// the default renderer.
    pub fn get(&self, row_type: &str) -> (r: Arc<T>)
        ensures
            r == self.lookup(row_type@),
    {
        proof {
            use_type_invariant(self);
        }
        let ghost s = self.entry_views();
        let mut i: usize = 0;
        while i < self.renderers.len()
            invariant
                i <= self.renderers@.len(),
                s == self.entry_views(),
                s.len() == self.renderers@.len(),
                distinct_keys(s),
                forall|j: int| 0 <= j < i ==> #[trigger] s[j].0 != row_type@,
            decreases self.renderers.len() - i,
        {
            let entry = &self.renderers[i];
            assert(s[i as int] == (entry.0@, entry.1));
            if str_eq(entry.0.as_str(), row_type) {
                proof {
                    lemma_entries_present(s, i as int);
                }
                return share(&entry.1);
            }
            i += 1;
        }
        proof {
            lemma_entries_absent(s, row_type@);
        }
        share(&self.default_renderer)
    }

    /// Registers `renderer` for `row_type`, replacing an earlier registration.
    pub fn register(&mut self, row_type: &str, renderer: Arc<T>)
        ensures
            final(self).registered() == old(self).registered().insert(row_type@, renderer),
            final(self).default_view() == old(self).default_view(),
    {
        proof {
            use_type_invariant(&*self);
        }
        let ghost s = self.entry_views();
        let mut entries: Vec<(String, Arc<T>)> = Vec::new();
        std::mem::swap(&mut entries, &mut self.renderers);
        assert(entries@.map_values(|e: (String, Arc<T>)| (e.0@, e.1)) == s);
        let mut i: usize = 0;
        while i < entries.len()
            invariant
                i <= entries@.len(),
                s == entries@.map_values(|e: (String, Arc<T>)| (e.0@, e.1)),
                s.len() == entries@.len(),
                distinct_keys(s),
                forall|j: int| 0 <= j < i ==> #[trigger] s[j].0 != row_type@,
            ensures
                i <= entries@.len(),
                i < entries@.len() ==> s[i as int].0 == row_type@,
                forall|j: int| 0 <= j < i ==> #[trigger] s[j].0 != row_type@,
            decreases entries.len() - i,
        {
            assert(s[i as int].0 == entries@[i as int].0@);
            if str_eq(entries[i].0.as_str(), row_type) {
                break;
            }
            i += 1;
        }
        if i < entries.len() {
            let key = owned(row_type);
            entries.set(i, (key, renderer));
            proof {
                let t = entries@.map_values(|e: (String, Arc<T>)| (e.0@, e.1));
                assert(t =~= s.update(i as int, (s[i as int].0, renderer)));
                lemma_entries_update(s, i as int, renderer);
                assert forall|a: int, b: int| 0 <= a < b < t.len() implies #[trigger] t[a].0
                    != #[trigger] t[b].0 by {
                    assert(t[a].0 == s[a].0);
                    assert(t[b].0 == s[b].0);
                }
            }
        } else {
            entries.push((owned(row_type), renderer));
            proof {
                let t = entries@.map_values(|e: (String, Arc<T>)| (e.0@, e.1));
                assert(t.drop_last() =~= s);
                assert forall|a: int, b: int| 0 <= a < b < t.len() implies #[trigger] t[a].0
                    != #[trigger] t[b].0 by {
                    if b < s.len() {
                        assert(t[a].0 == s[a].0);
                        assert(t[b].0 == s[b].0);
                    } else {
                        assert(t[a].0 == s[a].0);
                    }
                }
            }
        }
        self.renderers = entries;
    }
}

/// After `register(k, v)`, rows of type `k` are served by `v` and every
/// other row type by the renderer that served it before.
pub proof fn law_get_after_register<R, T: ?Sized + RowRenderer<R>>(
    before: RowRendererRegistry<R, T>,
    after: RowRendererRegistry<R, T>,
    k: Seq<char>,
    v: Arc<T>,
    other: Seq<char>,
)
    requires
        after.registered() == before.registered().insert(k, v),
        after.default_view() == before.default_view(),
    ensures
        after.lookup(k) == v,
        other != k ==> after.lookup(other) == before.lookup(other),
{
}

/// A new registry serves every row type by its default renderer.
pub proof fn law_new_serves_default<R, T: ?Sized + RowRenderer<R>>(
    r: RowRendererRegistry<R, T>,
    row_type: Seq<char>,
)
    requires
        r.registered() == Map::<Seq<char>, Arc<T>>::empty(),
    ensures
        r.lookup(row_type) == r.default_view(),
{
}

/// The registrations `regs`, made in order, applied to the registered map `m`.
pub open spec fn apply_registrations<T: ?Sized>(
    m: Map<Seq<char>, Arc<T>>,
    regs: Seq<(Seq<char>, Arc<T>)>,
) -> Map<Seq<char>, Arc<T>>
    decreases regs.len(),
{
    if regs.len() == 0 {
        m
    } else {
        apply_registrations(m, regs.drop_last()).insert(regs.last().0, regs.last().1)
    }
}

/// The renderer of the last of `regs` made for row type `k`, if any.
pub open spec fn last_registration<T: ?Sized>(regs: Seq<(Seq<char>, Arc<T>)>, k: Seq<char>) -> Option<
    Arc<T>,
>
    decreases regs.len(),
{
    if regs.len() == 0 {
        None
    } else if regs.last().0 == k {
        Some(regs.last().1)
    } else {
        last_registration(regs.drop_last(), k)
    }
}

proof fn lemma_apply_registrations<T: ?Sized>(
    m: Map<Seq<char>, Arc<T>>,
    regs: Seq<(Seq<char>, Arc<T>)>,
    k: Seq<char>,
)
    ensures
        last_registration(regs, k) matches Some(v) ==> apply_registrations(m, regs).contains_key(k)
            && apply_registrations(m, regs)[k] == v,
        last_registration(regs, k) is None ==> (apply_registrations(m, regs).contains_key(k)
            == m.contains_key(k)) && (m.contains_key(k) ==> apply_registrations(m, regs)[k] == m[k]),
    decreases regs.len(),
{
    if regs.len() > 0 {
        lemma_apply_registrations(m, regs.drop_last(), k);
    }
}

/// After any sequence of registrations, rows of type `k` are served by the
/// renderer of the last registration made for `k`, and by the renderer that
/// served them before when none was made.
pub proof fn law_get_after_registrations<R, T: ?Sized + RowRenderer<R>>(
    before: RowRendererRegistry<R, T>,
    after: RowRendererRegistry<R, T>,
    regs: Seq<(Seq<char>, Arc<T>)>,
    k: Seq<char>,
)
    requires
        after.registered() == apply_registrations(before.registered(), regs),
        after.default_view() == before.default_view(),
    ensures
        after.lookup(k) == (match last_registration(regs, k) {
            Some(v) => v,
            None => before.lookup(k),
        }),
{
    lemma_apply_registrations(before.registered(), regs, k);
}

} // verus!
