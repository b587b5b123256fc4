//! The data fields of a panel, kept in the order they were added and found
//! again by their key.
use vstd::prelude::*;
use crate::row_renderer_registry::{
    distinct_keys, entries_map, lemma_entries_absent, lemma_entries_present, lemma_entries_update,
};
use crate::text::{owned, str_eq};
use crate::ui_model::config_stub::ConfigProvider;
use crate::ui_model::data_field::{right_aligned5, visible_after, DataField};

verus! {

/// The view of an optional string slice.
pub open spec fn opt_text(v: Option<&str>) -> Option<Seq<char>> {
    match v {
        Some(s) => Some(s@),
        None => None,
    }
}

/// The view of an optional string.
pub open spec fn opt_string(v: Option<String>) -> Option<Seq<char>> {
    match v {
        Some(s) => Some(s@),
        None => None,
    }
}

/// True when `f` is the field that [`DefaultFieldManager::add_field`] makes
/// from its arguments: a new [`DataField`] with the configuration key (empty
/// when there is none) and the format, showing the preview value as it is
/// when there is one.
pub open spec fn made_field(
    f: DataField,
    key: Seq<char>,
    label: Seq<char>,
    unit: Seq<char>,
    config_key: Option<Seq<char>>,
    hide_when_na: bool,
    hide_when_zero: bool,
    preview_value: Option<Seq<char>>,
    format: Option<Seq<char>>,
) -> bool {
    &&& f.key@ == key
    &&& f.label@ == label
    &&& f.unit@ == unit
    &&& f.config_key@ == (match config_key {
        Some(c) => c,
        None => Seq::empty(),
    })
    &&& f.hide_when_na == hide_when_na
    &&& f.hide_when_zero == hide_when_zero
    &&& f.visible
    &&& f.current_value@ == (match preview_value {
        Some(p) => p,
        None => "---"@,
    })
    &&& f.buffer@ == Seq::<char>::empty()
    &&& f.length == 0
    &&& f.precision == 0
    &&& opt_string(f.format) == format
    &&& f.na_when_evaluator is None
}

/// True when `after` is `before` showing `value` (see
/// [`DataField::set_value_with_visibility`]).
pub open spec fn shown(after: DataField, before: DataField, value: Seq<char>, na_string: Seq<char>) -> bool {
    &&& after.current_value@ == right_aligned5(value)
    &&& after.visible == visible_after(before.hide_when_na, before.visible, value, na_string)
    &&& after.unit == before.unit
    &&& after.same_setup(&before)
}

/// The number of visible fields among the first `n` of `fs`.
pub open spec fn visible_in(fs: Seq<DataField>, n: int) -> int
    decreases n,
{
    if n <= 0 {
        0
    } else {
        visible_in(fs, n - 1) + if fs[n - 1].visible {
            1int
        } else {
            0int
        }
    }
}

proof fn lemma_visible_in_bounds(fs: Seq<DataField>, n: int)
    requires
        0 <= n,
    ensures
        0 <= visible_in(fs, n) <= n,
    decreases n,
{
    if n > 0 {
        lemma_visible_in_bounds(fs, n - 1);
    }
}

/// The data fields of a panel, in the order they were added, each found by its
/// key; adding a key again points the key at the new field.  A configuration
/// can disable fields by their configuration key.
pub struct DefaultFieldManager<C: ?Sized + ConfigProvider = dyn ConfigProvider> {
    fields: Vec<DataField>,
    index: Vec<(String, usize)>,
    config: Option<Box<C>>,
}

impl<C: ?Sized + ConfigProvider> DefaultFieldManager<C> {
    #[verifier::type_invariant]
    spec fn well_formed(self) -> bool {
        &&& distinct_keys(self.index_view())
        &&& forall|i: int|
            0 <= i < self.index@.len() ==> #[trigger] self.index@[i].1 < self.fields@.len()
    }

    spec fn index_view(self) -> Seq<(Seq<char>, usize)> {
        self.index@.map_values(|e: (String, usize)| (e.0@, e.1))
    }

    /// The fields, in the order they were added.
    pub closed spec fn field_list(self) -> Seq<DataField> {
        self.fields@
    }

    /// The position of the field of each key.
    pub closed spec fn positions(self) -> Map<Seq<char>, usize> {
        entries_map(self.index_view())
    }

    /// The configuration, when one was given.
    pub closed spec fn config_view(&self) -> Option<&C> {
        match self.config {
            Some(c) => Some(&*c),
            None => None,
        }
    }

    /// True when a configuration was given.
    pub closed spec fn has_config(self) -> bool {
        self.config is Some
    }

    /// The field of `key`, if any, is one of the fields.
    proof fn lemma_key_in_range(&self, key: Seq<char>)
        requires
            self.well_formed(),
        ensures
            self.positions().contains_key(key) ==> self.positions()[key] < self.field_list().len(),
    {
        if self.positions().contains_key(key) {
            lemma_entries_in_range(self.index_view(), key, self.fields@.len() as int);
        }
    }

    /// No fields yet.
    pub fn new(config: Option<Box<C>>) -> (r: DefaultFieldManager<C>)
        ensures
            r.field_list() == Seq::<DataField>::empty(),
            r.positions() == Map::<Seq<char>, usize>::empty(),
            r.has_config() == config is Some,
    {
        let r = DefaultFieldManager { fields: Vec::new(), index: Vec::new(), config };
        assert(r.index_view() =~= Seq::empty());
        r
    }

    /// The position of the field of `key`.
    pub fn index_of(&self, key: &str) -> (r: Option<usize>)
        ensures
            r == self.positions().get(key@),
    {
        proof {
            use_type_invariant(self);
        }
        let ghost s = self.index_view();
        let mut i: usize = 0;
        while i < self.index.len()
            invariant
                i <= self.index@.len(),
                s == self.index_view(),
                s.len() == self.index@.len(),
                distinct_keys(s),
                forall|j: int| 0 <= j < i ==> #[trigger] s[j].0 != key@,
            decreases self.index.len() - i,
        {
            let entry = &self.index[i];
            assert(s[i as int] == (entry.0@, entry.1));
            if str_eq(entry.0.as_str(), key) {
                proof {
                    lemma_entries_present(s, i as int);
                }
                return Some(entry.1);
            }
            i += 1;
        }
        proof {
            lemma_entries_absent(s, key@);
        }
        None
    }

    /// Points `key` at position `pos`.
    fn set_position(&mut self, key: &str, pos: usize)
        requires
            pos < old(self).fields@.len(),
        ensures
            final(self).positions() == old(self).positions().insert(key@, pos),
            final(self).fields == old(self).fields,
            final(self).config == old(self).config,
    {
        proof {
            use_type_invariant(&*self);
        }
        let ghost s = self.index_view();
        let ghost n = self.fields@.len();
        let mut entries: Vec<(String, usize)> = Vec::new();
        std::mem::swap(&mut entries, &mut self.index);
        assert(entries@.map_values(|e: (String, usize)| (e.0@, e.1)) == s);
        let mut i: usize = 0;
        while i < entries.len()
            invariant
                i <= entries@.len(),
                s == entries@.map_values(|e: (String, usize)| (e.0@, e.1)),
                s.len() == entries@.len(),
                distinct_keys(s),
                forall|j: int| 0 <= j < i ==> #[trigger] s[j].0 != key@,
            ensures
                i <= entries@.len(),
                i < entries@.len() ==> s[i as int].0 == key@,
                forall|j: int| 0 <= j < i ==> #[trigger] s[j].0 != key@,
            decreases entries.len() - i,
        {
            assert(s[i as int].0 == entries@[i as int].0@);
            if str_eq(entries[i].0.as_str(), key) {
                break;
            }
            i += 1;
        }
        if i < entries.len() {
            let k = owned(key);
            entries.set(i, (k, pos));
            proof {
                let t = entries@.map_values(|e: (String, usize)| (e.0@, e.1));
                assert(t =~= s.update(i as int, (s[i as int].0, pos)));
                lemma_entries_update(s, i as int, pos);
                assert forall|a: int, b: int| 0 <= a < b < t.len() implies #[trigger] t[a].0
                    != #[trigger] t[b].0 by {
                    assert(t[a].0 == s[a].0);
                    assert(t[b].0 == s[b].0);
                }
            }
        } else {
            entries.push((owned(key), pos));
            proof {
                let t = entries@.map_values(|e: (String, usize)| (e.0@, e.1));
                assert(t.drop_last() =~= s);
                assert forall|a: int, b: int| 0 <= a < b < t.len() implies #[trigger] t[a].0
                    != #[trigger] t[b].0 by {
                    if b < s.len() {
                        assert(t[a].0 == s[a].0);
                        assert(t[b].0 == s[b].0);
                    } else {
                        assert(t[a].0 == s[a].0);
                    }
                }
            }
        }
        proof {
            let t = entries@.map_values(|e: (String, usize)| (e.0@, e.1));
            assert forall|j: int| 0 <= j < entries@.len() implies #[trigger] entries@[j].1 < n by {
                if j != i {
                    assert(entries@[j].1 == t[j].1);
                    assert(t[j].1 == s[j].1);
                }
            }
        }
        self.index = entries;
    }

    /// True when `after` is `before` with the field that [`made_field`]
    /// describes placed after the others and `key` pointing at it.
    pub open spec fn adds_field(
        after: DefaultFieldManager<C>,
        before: DefaultFieldManager<C>,
        key: Seq<char>,
        label: Seq<char>,
        unit: Seq<char>,
        config_key: Option<Seq<char>>,
        hide_when_na: bool,
        hide_when_zero: bool,
        preview_value: Option<Seq<char>>,
        format: Option<Seq<char>>,
    ) -> bool {
        &&& after.field_list().len() == before.field_list().len() + 1
        &&& after.field_list().drop_last() == before.field_list()
        &&& made_field(
            after.field_list().last(),
            key,
            label,
            unit,
            config_key,
            hide_when_na,
            hide_when_zero,
            preview_value,
            format,
        )
        &&& after.positions() == before.positions().insert(key, before.field_list().len() as usize)
        &&& after.has_config() == before.has_config()
    }

    /// Adds a field (see [`DefaultFieldManager::adds_field`]) unless the
    /// configuration disables it.  When a configuration and a configuration key
    /// are both given the configuration is asked about that configuration key,
    /// and nothing changes when it answers that the field is disabled;
    /// otherwise the field is added.
    pub fn add_field(
        &mut self,
        key: &str,
        label: &str,
        unit: &str,
        config_key: Option<&str>,
        hide_when_na: bool,
        hide_when_zero: bool,
        preview_value: Option<&str>,
        format: Option<&str>,
    )
        ensures
            match (old(self).config_view(), config_key) {
                (Some(c), Some(k)) => exists|disabled: bool|
                    {
                        &&& call_ensures(C::is_field_disabled, (c, k), disabled)
                        &&& disabled ==> *final(self) == *old(self)
                        &&& !disabled ==> Self::adds_field(
                            *final(self),
                            *old(self),
                            key@,
                            label@,
                            unit@,
                            opt_text(config_key),
                            hide_when_na,
                            hide_when_zero,
                            opt_text(preview_value),
                            opt_text(format),
                        )
                    },
                _ => Self::adds_field(
                    *final(self),
                    *old(self),
                    key@,
                    label@,
                    unit@,
                    opt_text(config_key),
                    hide_when_na,
                    hide_when_zero,
                    opt_text(preview_value),
                    opt_text(format),
                ),
            },
    {
        let disabled = match (&self.config, config_key) {
            (Some(config), Some(cfg_key)) => config.is_field_disabled(cfg_key),
            _ => false,
        };
        self.add_field_unless(
            disabled,
            key,
            label,
            unit,
            config_key,
            hide_when_na,
            hide_when_zero,
            preview_value,
            format,
        );
    }

    /// Adds a field (see [`DefaultFieldManager::adds_field`]) unless
    /// `disabled`, in which case nothing changes.
    pub fn add_field_unless(
        &mut self,
        disabled: bool,
        key: &str,
        label: &str,
        unit: &str,
        config_key: Option<&str>,
        hide_when_na: bool,
        hide_when_zero: bool,
        preview_value: Option<&str>,
        format: Option<&str>,
    )
        ensures
            disabled ==> *final(self) == *old(self),
            !disabled ==> Self::adds_field(
                *final(self),
                *old(self),
                key@,
                label@,
                unit@,
                opt_text(config_key),
                hide_when_na,
                hide_when_zero,
                opt_text(preview_value),
                opt_text(format),
            ),
    {
        proof {
            use_type_invariant(&*self);
        }
        if disabled {
            return;
        }
        let ck = match config_key {
            Some(c) => c,
            None => {
                proof {
                    reveal_strlit("");
                }
                ""
            },
        };
        let mut field = DataField::new(key, label, unit, ck, hide_when_na, hide_when_zero);
        field.format = match format {
            Some(f) => Some(owned(f)),
            None => None,
        };
        match preview_value {
            Some(p) => {
                field.current_value = owned(p);
            },
            None => {},
        }
        assert(made_field(
            field,
            key@,
            label@,
            unit@,
            opt_text(config_key),
            hide_when_na,
            hide_when_zero,
            opt_text(preview_value),
            opt_text(format),
        )) by {
            assert(field.config_key@ == (match opt_text(config_key) {
                Some(c) => c,
                None => Seq::<char>::empty(),
            }));
            assert(field.current_value@ == (match opt_text(preview_value) {
                Some(p) => p,
                None => "---"@,
            }));
            assert(opt_string(field.format) == opt_text(format));
        }
        let ghost n = self.fields@.len();
        assert(made_field(
            field,
            key@,
            label@,
            unit@,
            opt_text(config_key),
            hide_when_na,
            hide_when_zero,
            opt_text(preview_value),
            opt_text(format),
        )) by {
            assert(field.config_key@ == (match opt_text(config_key) {
                Some(c) => c,
                None => Seq::<char>::empty(),
            }));
            assert(field.current_value@ == (match opt_text(preview_value) {
                Some(p) => p,
                None => "---"@,
            }));
            assert(opt_string(field.format) == opt_text(format));
        }
        let mut index: Vec<(String, usize)> = Vec::new();
        std::mem::swap(&mut index, &mut self.index);
        let mut fields: Vec<DataField> = Vec::new();
        std::mem::swap(&mut fields, &mut self.fields);
        fields.push(field);
        let pos = fields.len() - 1;
        std::mem::swap(&mut fields, &mut self.fields);
        std::mem::swap(&mut index, &mut self.index);
        self.set_position(key, pos);
        proof {
            assert(self.fields@.drop_last() =~= old(self).fields@);
        }
    }

    /// Shows `value` in the field of `key` (see
    /// [`DataField::set_value_with_visibility`]); nothing happens when no field
    /// has that key.
    pub fn update_field(&mut self, key: &str, value: &str, na_string: &str)
        ensures
            final(self).positions() == old(self).positions(),
            final(self).has_config() == old(self).has_config(),
            !old(self).positions().contains_key(key@) ==> final(self).field_list() == old(
                self,
            ).field_list(),
            old(self).positions().contains_key(key@) ==> {
                let i = old(self).positions()[key@] as int;
                &&& final(self).field_list() == old(self).field_list().update(
                    i,
                    final(self).field_list()[i],
                )
                &&& shown(final(self).field_list()[i], old(self).field_list()[i], value@, na_string@)
            },
    {
        proof {
            use_type_invariant(&*self);
            self.lemma_key_in_range(key@);
        }
        match self.index_of(key) {
            Some(i) => {
                let f = self.field_mut(i);
                f.set_value_with_visibility(value, na_string);
            },
            None => {},
        }
    }

    /// Sets the unit of the field of `key`; nothing happens when no field has
    /// that key.
    pub fn update_field_unit(&mut self, key: &str, unit: &str)
        ensures
            final(self).positions() == old(self).positions(),
            final(self).has_config() == old(self).has_config(),
            !old(self).positions().contains_key(key@) ==> final(self).field_list() == old(
                self,
            ).field_list(),
            old(self).positions().contains_key(key@) ==> {
                let i = old(self).positions()[key@] as int;
                &&& final(self).field_list() == old(self).field_list().update(
                    i,
                    final(self).field_list()[i],
                )
                &&& final(self).field_list()[i].unit@ == unit@
                &&& final(self).field_list()[i].current_value == old(self).field_list()[i].current_value
                &&& final(self).field_list()[i].visible == old(self).field_list()[i].visible
                &&& final(self).field_list()[i].same_setup(&old(self).field_list()[i])
            },
    {
        proof {
            use_type_invariant(&*self);
            self.lemma_key_in_range(key@);
        }
        match self.index_of(key) {
            Some(i) => {
                let f = self.field_mut(i);
                f.set_unit(unit);
            },
            None => {},
        }
    }

    /// Shows or hides the field of `key`; nothing happens when no field has
    /// that key.
    pub fn set_field_visible(&mut self, key: &str, visible: bool)
        ensures
            final(self).positions() == old(self).positions(),
            final(self).has_config() == old(self).has_config(),
            !old(self).positions().contains_key(key@) ==> final(self).field_list() == old(
                self,
            ).field_list(),
            old(self).positions().contains_key(key@) ==> {
                let i = old(self).positions()[key@] as int;
                &&& final(self).field_list() == old(self).field_list().update(
                    i,
                    final(self).field_list()[i],
                )
                &&& final(self).field_list()[i].visible == visible
                &&& final(self).field_list()[i].current_value == old(self).field_list()[i].current_value
                &&& final(self).field_list()[i].unit == old(self).field_list()[i].unit
                &&& final(self).field_list()[i].same_setup(&old(self).field_list()[i])
            },
    {
        proof {
            use_type_invariant(&*self);
            self.lemma_key_in_range(key@);
        }
        match self.index_of(key) {
            Some(i) => {
                let f = self.field_mut(i);
                f.visible = visible;
            },
            None => {},
        }
    }

    /// Sets the number of decimals and the format of the field of `key`, as
    /// binding a value to it does; nothing happens when no field has that key.
    pub fn set_display(&mut self, key: &str, precision: i32, format: Option<&str>)
        ensures
            final(self).positions() == old(self).positions(),
            final(self).has_config() == old(self).has_config(),
            !old(self).positions().contains_key(key@) ==> final(self).field_list() == old(
                self,
            ).field_list(),
            old(self).positions().contains_key(key@) ==> {
                let i = old(self).positions()[key@] as int;
                let (a, b) = (final(self).field_list()[i], old(self).field_list()[i]);
                &&& final(self).field_list() == old(self).field_list().update(i, a)
                &&& a.precision == precision
                &&& opt_string(a.format) == opt_text(format)
                &&& a.key == b.key && a.label == b.label && a.unit == b.unit
                &&& a.config_key == b.config_key && a.hide_when_na == b.hide_when_na
                &&& a.hide_when_zero == b.hide_when_zero && a.visible == b.visible
                &&& a.current_value == b.current_value && a.buffer == b.buffer
                &&& a.length == b.length && a.na_when_evaluator == b.na_when_evaluator
            },
    {
        proof {
            use_type_invariant(&*self);
            self.lemma_key_in_range(key@);
        }
        match self.index_of(key) {
            Some(i) => {
                let f = self.field_mut(i);
                f.precision = precision;
                f.format = match format {
                    Some(t) => Some(owned(t)),
                    None => None,
                };
            },
            None => {},
        }
    }

    /// The field at position `i`, to change.
    pub fn field_mut(&mut self, i: usize) -> (r: &mut DataField)
        requires
            i < old(self).field_list().len(),
        ensures
            *r == old(self).field_list()[i as int],
            final(self).field_list() == old(self).field_list().update(i as int, *final(r)),
            final(self).positions() == old(self).positions(),
            final(self).has_config() == old(self).has_config(),
    {
        proof {
            use_type_invariant(&*self);
        }
        &mut self.fields[i]
    }

    /// The fields, in the order they were added.
    pub fn get_fields(&self) -> (r: &[DataField])
        ensures
            r@ == self.field_list(),
    {
        self.fields.as_slice()
    }

    /// The field of `key`.
    pub fn get_field(&self, key: &str) -> (r: Option<&DataField>)
        ensures
            match r {
                Some(f) => self.positions().contains_key(key@) && *f == self.field_list()[self.positions()[key@] as int],
                None => !self.positions().contains_key(key@),
            },
    {
        proof {
            use_type_invariant(&*self);
            self.lemma_key_in_range(key@);
        }
        match self.index_of(key) {
            Some(i) => Some(&self.fields[i]),
            None => None,
        }
    }

    /// Removes every field and key.
    pub fn clear_all(&mut self)
        ensures
            final(self).field_list() == Seq::<DataField>::empty(),
            final(self).positions() == Map::<Seq<char>, usize>::empty(),
            final(self).has_config() == old(self).has_config(),
    {
        self.index = Vec::new();
        self.fields = Vec::new();
        proof {
            assert(self.index_view() =~= Seq::empty());
        }
    }

    /// The number of fields.
    pub fn size(&self) -> (r: i32)
        ensures
            r == self.field_list().len() as i32,
    {
        self.fields.len() as i32
    }

    /// The number of visible fields.
    pub fn visible_count(&self) -> (r: i32)
        requires
            self.field_list().len() <= i32::MAX,
        ensures
            r == visible_in(self.field_list(), self.field_list().len() as int),
    {
        let mut count: i32 = 0;
        let mut i: usize = 0;
        while i < self.fields.len()
            invariant
                i <= self.fields@.len(),
                self.fields@.len() <= i32::MAX,
                count == visible_in(self.fields@, i as int),
            decreases self.fields.len() - i,
        {
            proof {
                lemma_visible_in_bounds(self.fields@, i as int);
            }
            if self.fields[i].visible {
                count = count + 1;
            }
            i = i + 1;
        }
        count
    }
}

proof fn lemma_entries_in_range(s: Seq<(Seq<char>, usize)>, k: Seq<char>, n: int)
    requires
        forall|i: int| 0 <= i < s.len() ==> #[trigger] s[i].1 < n,
        entries_map(s).contains_key(k),
    ensures
        entries_map(s)[k] < n,
    decreases s.len(),
{
    if s.len() > 0 && s.last().0 != k {
        assert forall|i: int| 0 <= i < s.drop_last().len() implies #[trigger] s.drop_last()[i].1
            < n by {
            assert(s.drop_last()[i] == s[i]);
        }
        lemma_entries_in_range(s.drop_last(), k, n);
    } else if s.len() > 0 {
        assert(s[s.len() - 1].1 < n);
    }
}

/// After a field is added for `key`, `key` finds the new field, and every other
/// key finds the field it found before.
pub proof fn law_find_after_add<C: ?Sized + ConfigProvider>(
    before: DefaultFieldManager<C>,
    after: DefaultFieldManager<C>,
    key: Seq<char>,
    other: Seq<char>,
)
    requires
        forall|k: Seq<char>| #[trigger]
            before.positions().contains_key(k) ==> before.positions()[k] < before.field_list().len(),
        before.field_list().len() < usize::MAX,
        after.field_list().len() == before.field_list().len() + 1,
        after.field_list().drop_last() == before.field_list(),
        after.positions() == before.positions().insert(key, before.field_list().len() as usize),
    ensures
        after.positions().contains_key(key),
        after.field_list()[after.positions()[key] as int] == after.field_list().last(),
        other != key ==> after.positions().get(other) == before.positions().get(other),
        other != key && before.positions().contains_key(other) ==> after.field_list()[after.positions()[other] as int]
            == before.field_list()[before.positions()[other] as int],
{
    if other != key && before.positions().contains_key(other) {
        let i = before.positions()[other] as int;
        assert(after.field_list().drop_last()[i] == after.field_list()[i]);
    }
}

} // verus!
