//! Display settings of data rows read from the layout file.
use std::rc::Rc;
use vstd::prelude::*;
use crate::config_loader::{GroupConfig, RowConfig};
use crate::sexp_parser::{children_model, lemma_children_model_index, AtomType, SExp, SExpModel};
use crate::text::{eq_ignore_ascii_case, eq_ignore_ascii_case_spec, owned, str_eq};

verus! {

/// Output format of a row (`:format`).
#[derive(Debug, Clone, Copy, PartialEq, Eq, Structural)]
pub enum FormatKind {
    Plain,
    /// Minutes and seconds, `mm'ss` (`TIME_MM_SS`).
    TimeMmSs,
}

/// Display mode of a row (from `:unit-source` / `:precision-source`).
#[derive(Debug, Clone, Copy, PartialEq, Eq, Structural)]
pub enum DisplayMode {
    Metric,
    /// Switches between imperial (`P/x.x''`, one decimal) and metric (`Ata`,
    /// two decimals) display of the manifold pressure.
    ImperialManifold,
}

impl FormatKind {
    /// The format named by a row's `:format` text: `TIME_MM_SS` in any ASCII
    /// case selects minutes and seconds, anything else the plain format.
    pub fn from_format(format: &str) -> (r: FormatKind)
        ensures
            r == (if eq_ignore_ascii_case_spec(format@, "TIME_MM_SS"@) {
                FormatKind::TimeMmSs
            } else {
                FormatKind::Plain
            }),
    {
        if eq_ignore_ascii_case(format, "TIME_MM_SS") {
            FormatKind::TimeMmSs
        } else {
            FormatKind::Plain
        }
    }
}

impl DisplayMode {
    /// The display mode of a row: the imperial manifold display when the row
    /// names a unit source or a precision source, metric otherwise.
    pub fn from_sources(has_unit_source: bool, has_precision_source: bool) -> (r: DisplayMode)
        ensures
            r == (if has_unit_source || has_precision_source {
                DisplayMode::ImperialManifold
            } else {
                DisplayMode::Metric
            }),
    {
        if has_unit_source || has_precision_source {
            DisplayMode::ImperialManifold
        } else {
            DisplayMode::Metric
        }
    }
}

/// A condition on a row's value or on the aircraft.  A comparison keeps the
/// text of the number it compares with.
pub enum Cond {
    NotEq(String),
    Gte(String),
    Gt(String),
    Lt(String),
    Lte(String),
    Eq(String),
    IsJetEngine,
    IsPropEngine,
    IsPistonEngine,
    HasWep,
    HasBooster,
    Not(Box<Cond>),
    And(Box<Cond>, Box<Cond>),
    Or(Box<Cond>, Box<Cond>),
}

/// The mathematical value of a [`Cond`].
pub enum CondModel {
    NotEq(Seq<char>),
    Gte(Seq<char>),
    Gt(Seq<char>),
    Lt(Seq<char>),
    Lte(Seq<char>),
    Eq(Seq<char>),
    IsJetEngine,
    IsPropEngine,
    IsPistonEngine,
    HasWep,
    HasBooster,
    Not(Box<CondModel>),
    And(Box<CondModel>, Box<CondModel>),
    Or(Box<CondModel>, Box<CondModel>),
}

impl Cond {
    pub open spec fn model(&self) -> CondModel
        decreases self,
    {
        match self {
            Cond::NotEq(t) => CondModel::NotEq(t@),
            Cond::Gte(t) => CondModel::Gte(t@),
            Cond::Gt(t) => CondModel::Gt(t@),
            Cond::Lt(t) => CondModel::Lt(t@),
            Cond::Lte(t) => CondModel::Lte(t@),
            Cond::Eq(t) => CondModel::Eq(t@),
            Cond::IsJetEngine => CondModel::IsJetEngine,
            Cond::IsPropEngine => CondModel::IsPropEngine,
            Cond::IsPistonEngine => CondModel::IsPistonEngine,
            Cond::HasWep => CondModel::HasWep,
            Cond::HasBooster => CondModel::HasBooster,
            Cond::Not(c) => CondModel::Not(Box::new(c.model())),
            Cond::And(a, b) => CondModel::And(Box::new(a.model()), Box::new(b.model())),
            Cond::Or(a, b) => CondModel::Or(Box::new(a.model()), Box::new(b.model())),
        }
    }
}

/// The view of an optional condition.
pub open spec fn opt_cond(c: Option<Cond>) -> Option<CondModel> {
    match c {
        Some(x) => Some(x.model()),
        None => None,
    }
}

/// True when `h` is one of the comparison heads `>`, `>=`, `<`, `<=`, `=`, `!=`.
pub open spec fn is_comparison(h: Seq<char>) -> bool {
    h == ">"@ || h == ">="@ || h == "<"@ || h == "<="@ || h == "="@ || h == "!="@
}

/// The comparison of head `h` with the number text `n`.
pub open spec fn comparison(h: Seq<char>, n: Seq<char>) -> CondModel {
    if h == ">"@ {
        CondModel::Gt(n)
    } else if h == ">="@ {
        CondModel::Gte(n)
    } else if h == "<"@ {
        CondModel::Lt(n)
    } else if h == "<="@ {
        CondModel::Lte(n)
    } else if h == "="@ {
        CondModel::Eq(n)
    } else {
        CondModel::NotEq(n)
    }
}

/// The engine or equipment test named by the head `h`.
pub open spec fn aircraft_test(h: Seq<char>) -> Option<CondModel> {
    if h == "isJetEngine"@ {
        Some(CondModel::IsJetEngine)
    } else if h == "isPropEngine"@ {
        Some(CondModel::IsPropEngine)
    } else if h == "isPistonEngine"@ {
        Some(CondModel::IsPistonEngine)
    } else if h == "hasWep"@ {
        Some(CondModel::HasWep)
    } else if h == "hasBooster"@ {
        Some(CondModel::HasBooster)
    } else {
        None
    }
}

/// `a` and `b` joined by `and` or by `or`.
pub open spec fn joined_cond(a: CondModel, b: CondModel, is_and: bool) -> CondModel {
    if is_and {
        CondModel::And(Box::new(a), Box::new(b))
    } else {
        CondModel::Or(Box::new(a), Box::new(b))
    }
}

/// The condition an expression stands for: `(op value N)` for a comparison
/// with the number atom `N`, `(not C)` or `(! C)`, `(and C...)` and
/// `(or C...)` joining at least one condition from the left, or one of the
/// aircraft tests `(isJetEngine)`, …; `None` for any other expression.
pub open spec fn cond_of(m: SExpModel) -> Option<CondModel>
    decreases m, 0int,
{
    match m {
        SExpModel::Atom(_, _) => None,
        SExpModel::List(items) => if items.len() == 0 {
            None
        } else {
            match items[0] {
                SExpModel::List(_) => None,
                SExpModel::Atom(h, _) => if is_comparison(h) {
                    if items.len() < 3 {
                        None
                    } else {
                        match (items[1], items[2]) {
                            (SExpModel::Atom(sym, _), SExpModel::Atom(n, t)) => if sym == "value"@ && t
                                == AtomType::Number {
                                Some(comparison(h, n))
                            } else {
                                None
                            },
                            _ => None,
                        }
                    }
                } else if h == "not"@ || h == "!"@ {
                    if items.len() < 2 {
                        None
                    } else {
                        match cond_of(items[1]) {
                            Some(c) => Some(CondModel::Not(Box::new(c))),
                            None => None,
                        }
                    }
                } else if h == "and"@ || h == "or"@ {
                    if items.len() < 2 {
                        None
                    } else {
                        match cond_of(items[1]) {
                            Some(c) => joined_from(items, 2, c, h == "and"@),
                            None => None,
                        }
                    }
                } else {
                    aircraft_test(h)
                },
            }
        },
    }
}

/// `acc` joined with the conditions of `items[i..]`, from the left; `None`
/// when one of them is not a condition.
pub open spec fn joined_from(items: Seq<SExpModel>, i: int, acc: CondModel, is_and: bool) -> Option<
    CondModel,
>
    decreases items, items.len() - i,
{
    if i < 0 || i >= items.len() {
        Some(acc)
    } else {
        match cond_of(items[i]) {
            Some(c) => joined_from(items, i + 1, joined_cond(acc, c, is_and), is_and),
            None => None,
        }
    }
}

/// True when [`compile_cond`] can read `m`: the head of a list is an atom, a
/// comparison's operands are atoms as far as they are read, and every
/// condition read below is readable.
pub open spec fn cond_ok(m: SExpModel) -> bool
    decreases m, 0int,
{
    match m {
        SExpModel::Atom(_, _) => true,
        SExpModel::List(items) => items.len() == 0 || match items[0] {
            SExpModel::List(_) => false,
            SExpModel::Atom(h, _) => if is_comparison(h) {
                &&& items.len() >= 2 ==> items[1] is Atom
                &&& (items.len() >= 3 && (items[1] matches SExpModel::Atom(sym, _) && sym == "value"@))
                    ==> items[2] is Atom
            } else if h == "not"@ || h == "!"@ {
                items.len() >= 2 ==> cond_ok(items[1])
            } else if h == "and"@ || h == "or"@ {
                items.len() >= 2 ==> (cond_ok(items[1]) && (cond_of(items[1]) is Some ==> joined_ok(
                    items,
                    2,
                )))
            } else {
                true
            },
        },
    }
}

/// True when the conditions of `items[i..]` can be read from the left, up to
/// the first that is not a condition.
pub open spec fn joined_ok(items: Seq<SExpModel>, i: int) -> bool
    decreases items, items.len() - i,
{
    if i < 0 || i >= items.len() {
        true
    } else {
        cond_ok(items[i]) && (cond_of(items[i]) is Some ==> joined_ok(items, i + 1))
    }
}

fn is_comparison_exec(h: &str) -> (r: bool)
    ensures
        r == is_comparison(h@),
{
    str_eq(h, ">") || str_eq(h, ">=") || str_eq(h, "<") || str_eq(h, "<=") || str_eq(h, "=")
        || str_eq(h, "!=")
}

fn comparison_exec(h: &str, n: String) -> (r: Cond)
    ensures
        r.model() == comparison(h@, n@),
{
    if str_eq(h, ">") {
        Cond::Gt(n)
    } else if str_eq(h, ">=") {
        Cond::Gte(n)
    } else if str_eq(h, "<") {
        Cond::Lt(n)
    } else if str_eq(h, "<=") {
        Cond::Lte(n)
    } else if str_eq(h, "=") {
        Cond::Eq(n)
    } else {
        Cond::NotEq(n)
    }
}

fn aircraft_test_exec(h: &str) -> (r: Option<Cond>)
    ensures
        opt_cond(r) == aircraft_test(h@),
{
    if str_eq(h, "isJetEngine") {
        Some(Cond::IsJetEngine)
    } else if str_eq(h, "isPropEngine") {
        Some(Cond::IsPropEngine)
    } else if str_eq(h, "isPistonEngine") {
        Some(Cond::IsPistonEngine)
    } else if str_eq(h, "hasWep") {
        Some(Cond::HasWep)
    } else if str_eq(h, "hasBooster") {
        Some(Cond::HasBooster)
    } else {
        None
    }
}

fn joined_exec(a: Cond, b: Cond, is_and: bool) -> (r: Cond)
    ensures
        r.model() == joined_cond(a.model(), b.model(), is_and),
{
    if is_and {
        Cond::And(Box::new(a), Box::new(b))
    } else {
        Cond::Or(Box::new(a), Box::new(b))
    }
}

/// The condition the expression `e` stands for (see [`cond_of`]).
pub fn compile_cond(e: &SExp) -> (r: Option<Cond>)
    requires
        cond_ok(e.model()),
    ensures
        opt_cond(r) == cond_of(e.model()),
    decreases e,
{
    let list = match e {
        SExp::Atom(_) => {
            return None;
        },
        SExp::List(l) => l,
    };
    let ghost cs = list.children@;
    let ghost items = children_model(cs);
    proof {
        lemma_children_model_index(cs);
        assert(e.model() == SExpModel::List(items));
    }
    let n = list.children.len();
    if n == 0 {
        return None;
    }
    let head = list.children[0].as_atom();
    let h = head.value.as_str();
    if is_comparison_exec(h) {
        if n < 3 {
            return None;
        }
        let sym = list.children[1].as_atom();
        if !str_eq(sym.value.as_str(), "value") {
            return None;
        }
        let num = list.children[2].as_atom();
        let is_number = match num.atom_type {
            AtomType::Number => true,
            _ => false,
        };
        if !is_number {
            return None;
        }
        Some(comparison_exec(h, owned(num.value.as_str())))
    } else if str_eq(h, "not") || str_eq(h, "!") {
        if n < 2 {
            return None;
        }
        assert(decreases_to!(e => list.children));
        match compile_cond(&list.children[1]) {
            Some(c) => Some(Cond::Not(Box::new(c))),
            None => None,
        }
    } else if str_eq(h, "and") || str_eq(h, "or") {
        let is_and = str_eq(h, "and");
        if n < 2 {
            return None;
        }
        assert(decreases_to!(e => list.children));
        let first = match compile_cond(&list.children[1]) {
            Some(c) => c,
            None => {
                return None;
            },
        };
        let ghost c1 = first.model();
        assert(cond_of(e.model()) == joined_from(items, 2, c1, is_and));
        let mut acc = first;
        let mut i: usize = 2;
        while i < n
            invariant
                2 <= i <= n,
                n == cs.len() == items.len(),
                cs == list.children@,
                items == children_model(cs),
                forall|k: int| 0 <= k < cs.len() ==> #[trigger] items[k] == (*cs[k]).model(),
                joined_ok(items, i as int),
                joined_from(items, 2, c1, is_and) == joined_from(items, i as int, acc.model(), is_and),
                cond_of(e.model()) == joined_from(items, 2, c1, is_and),
                decreases_to!(e => list.children),
            decreases n - i,
        {
            match compile_cond(&list.children[i]) {
                Some(c) => {
                    acc = joined_exec(acc, c, is_and);
                },
                None => {
                    return None;
                },
            }
            i += 1;
        }
        Some(acc)
    } else {
        aircraft_test_exec(h)
    }
}

// --- Row definitions of a group ---

/// The definition of one data row, ready for a panel.
pub struct RowDef {
    /// Display name: the row's target name, else its label.
    pub label: String,
    pub unit: String,
    /// The value shown in preview mode, as written.
    pub preview_value: String,
    /// What the value is read from: the row's property, else its label.
    pub source: String,
    /// Number of decimals.
    pub precision: u8,
    pub format: FormatKind,
    pub display: DisplayMode,
    pub visible_when: Option<Cond>,
    pub na_when: Option<Cond>,
}

/// The text of an optional string, or `dflt` when it is absent.
pub open spec fn text_or(o: Option<String>, dflt: Seq<char>) -> Seq<char> {
    match o {
        Some(s) => s@,
        None => dflt,
    }
}

/// The condition an optional condition expression stands for.
pub open spec fn expr_cond(e: Option<Rc<SExp>>) -> Option<CondModel> {
    match e {
        Some(x) => cond_of((*x).model()),
        None => None,
    }
}

/// True when the row's condition expressions can be compiled (see [`cond_ok`]).
pub open spec fn row_conds_ok(c: RowConfig) -> bool {
    &&& (c.visible_when matches Some(e) ==> cond_ok((*e).model()))
    &&& (c.na_when matches Some(e) ==> cond_ok((*e).model()))
}

/// True when `d` is the definition of the row `c`: the target name or label
/// as display name, the unit, the preview value or `0`, the property or label
/// as source, the precision (negative ones as 0) reduced to a byte, the
/// `TIME_MM_SS` format in any ASCII case, the imperial manifold display when a
/// unit or precision source is named, and the compiled conditions.
pub open spec fn defines(d: RowDef, c: RowConfig) -> bool {
    &&& d.label@ == text_or(c.target_name, c.label@)
    &&& d.unit@ == c.unit@
    &&& d.preview_value@ == text_or(c.preview_value, "0"@)
    &&& d.source@ == text_or(c.property, c.label@)
    &&& d.precision == (if c.precision < 0 {
        0
    } else {
        c.precision % 256
    }) as u8
    &&& d.format == (if eq_ignore_ascii_case_spec(c.format@, "TIME_MM_SS"@) {
        FormatKind::TimeMmSs
    } else {
        FormatKind::Plain
    })
    &&& d.display == (if c.unit_source is Some || c.precision_source is Some {
        DisplayMode::ImperialManifold
    } else {
        DisplayMode::Metric
    })
    &&& opt_cond(d.visible_when) == expr_cond(c.visible_when)
    &&& opt_cond(d.na_when) == expr_cond(c.na_when)
}

/// True when the definitions `ds` are those of the rows `cs`, in order.
pub open spec fn defines_all(ds: Seq<RowDef>, cs: Seq<RowConfig>) -> bool {
    &&& ds.len() == cs.len()
    &&& forall|j: int| 0 <= j < ds.len() ==> defines(#[trigger] ds[j], cs[j])
}

/// True for a data row: its kind is `DATA` in any ASCII case.
pub open spec fn is_data_row(c: RowConfig) -> bool {
    eq_ignore_ascii_case_spec(c.row_type@, "DATA"@)
}

/// The data rows among `rows`, in order, those nested in other rows taken
/// in place of the row that holds them.
pub open spec fn data_rows(rows: Seq<RowConfig>) -> Seq<RowConfig>
    decreases rows,
{
    if rows.len() == 0 {
        Seq::empty()
    } else {
        data_rows(rows.drop_last()) + data_rows_of(rows.last())
    }
}

/// The data rows of one row: the row itself when it is a data row, else the
/// data rows nested in it.
pub open spec fn data_rows_of(c: RowConfig) -> Seq<RowConfig>
    decreases c,
{
    if is_data_row(c) {
        seq![c]
    } else {
        data_rows(c.children@)
    }
}

/// The rows of `rows` whose flag in `disabled` is false, in order.
pub open spec fn kept(rows: Seq<RowConfig>, disabled: Seq<bool>) -> Seq<RowConfig>
    decreases rows.len(),
{
    if rows.len() == 0 {
        Seq::empty()
    } else {
        let rest = kept(rows.drop_last(), disabled.drop_last());
        if disabled.last() {
            rest
        } else {
            rest.push(rows.last())
        }
    }
}

proof fn lemma_data_rows_append(a: Seq<RowConfig>, b: Seq<RowConfig>)
    ensures
        data_rows(a + b) == data_rows(a) + data_rows(b),
    decreases b.len(),
{
    if b.len() == 0 {
        assert(a + b =~= a);
        assert(data_rows(a) + data_rows(b) =~= data_rows(a));
    } else {
        lemma_data_rows_append(a, b.drop_last());
        assert((a + b).drop_last() =~= a + b.drop_last());
        assert((a + b).last() == b.last());
        assert(data_rows(a) + data_rows(b) =~= data_rows(a) + data_rows(b.drop_last())
            + data_rows_of(b.last()));
    }
}

proof fn lemma_kept_append(d1: Seq<RowConfig>, f1: Seq<bool>, d2: Seq<RowConfig>, f2: Seq<bool>)
    requires
        d1.len() == f1.len(),
        d2.len() == f2.len(),
    ensures
        kept(d1 + d2, f1 + f2) == kept(d1, f1) + kept(d2, f2),
    decreases d2.len(),
{
    if d2.len() == 0 {
        assert(d1 + d2 =~= d1);
        assert(f1 + f2 =~= f1);
        assert(kept(d1, f1) + kept(d2, f2) =~= kept(d1, f1));
    } else {
        lemma_kept_append(d1, f1, d2.drop_last(), f2.drop_last());
        assert((d1 + d2).drop_last() =~= d1 + d2.drop_last());
        assert((f1 + f2).drop_last() =~= f1 + f2.drop_last());
        assert((d1 + d2).last() == d2.last());
        assert((f1 + f2).last() == f2.last());
        if !f2.last() {
            assert(kept(d1, f1) + kept(d2, f2) =~= (kept(d1, f1) + kept(
                d2.drop_last(),
                f2.drop_last(),
            )).push(d2.last()));
        }
    }
}

fn text_or_exec(o: &Option<String>, dflt: &str) -> (r: String)
    ensures
        r@ == text_or(*o, dflt@),
{
    match o {
        Some(s) => owned(s.as_str()),
        None => owned(dflt),
    }
}

fn expr_cond_exec(e: &Option<Rc<SExp>>) -> (r: Option<Cond>)
    requires
        e matches Some(x) ==> cond_ok((*x).model()),
    ensures
        opt_cond(r) == expr_cond(*e),
{
    match e {
        Some(x) => compile_cond(x),
        None => None,
    }
}

/// The definition of the data row `c` (see [`defines`]).
pub fn row_from_config(c: &RowConfig) -> (d: RowDef)
    requires
        row_conds_ok(*c),
    ensures
        defines(d, *c),
{
    let precision: u8 = if c.precision < 0 {
        0
    } else {
        (c.precision % 256) as u8
    };
    RowDef {
        label: text_or_exec(&c.target_name, c.label.as_str()),
        unit: owned(c.unit.as_str()),
        preview_value: text_or_exec(&c.preview_value, "0"),
        source: text_or_exec(&c.property, c.label.as_str()),
        precision,
        format: FormatKind::from_format(c.format.as_str()),
        display: DisplayMode::from_sources(c.unit_source.is_some(), c.precision_source.is_some()),
        visible_when: expr_cond_exec(&c.visible_when),
        na_when: expr_cond_exec(&c.na_when),
    }
}

fn walk_rows<F: Fn(&RowConfig) -> bool>(rows: &Vec<RowConfig>, disabled: &F, out: &mut Vec<RowDef>) -> (flags: Ghost<Seq<bool>>)
    requires
        forall|c: RowConfig| call_requires(*disabled, (&c,)),
        forall|j: int| 0 <= j < data_rows(rows@).len() ==> row_conds_ok(#[trigger] data_rows(rows@)[j]),
    ensures
        flags@.len() == data_rows(rows@).len(),
        forall|j: int| 0 <= j < flags@.len() ==> call_ensures(*disabled, (&data_rows(rows@)[j],), #[trigger] flags@[j]),
        final(out)@.len() >= old(out)@.len(),
        final(out)@.subrange(0, old(out)@.len() as int) == old(out)@,
        defines_all(final(out)@.subrange(old(out)@.len() as int, final(out)@.len() as int), kept(data_rows(rows@), flags@)),
    decreases rows@,
{
    let ghost o0 = out@;
    let ghost start = out@.len() as int;
    let ghost all = data_rows(rows@);
    let ghost mut fl: Seq<bool> = Seq::empty();
    let mut i: usize = 0;
    assert(rows@.take(0) =~= Seq::<RowConfig>::empty());
    assert(out@.subrange(start, out@.len() as int) =~= Seq::<RowDef>::empty());
    assert(out@.subrange(0, start) =~= o0);
    while i < rows.len()
        invariant
            i <= rows@.len(),
            start == o0.len(),
            all == data_rows(rows@),
            forall|c: RowConfig| call_requires(*disabled, (&c,)),
            forall|j: int| 0 <= j < all.len() ==> row_conds_ok(#[trigger] all[j]),
            fl.len() == data_rows(rows@.take(i as int)).len(),
            forall|j: int| 0 <= j < fl.len() ==> call_ensures(*disabled, (&data_rows(rows@.take(i as int))[j],), #[trigger] fl[j]),
            out@.len() >= start,
            out@.subrange(0, start) == o0,
            defines_all(out@.subrange(start, out@.len() as int), kept(data_rows(rows@.take(i as int)), fl)),
        decreases rows.len() - i,
    {
        let ghost pre = data_rows(rows@.take(i as int));
        let ghost o1 = out@;
        let ghost kept1 = kept(pre, fl);
        let r = &rows[i];
        let ghost here = data_rows_of(rows@[i as int]);
        proof {
            assert(rows@.take(i + 1).drop_last() =~= rows@.take(i as int));
            assert(rows@.take(i + 1).last() == rows@[i as int]);
            assert(data_rows(rows@.take(i + 1)) == pre + here);
            assert(rows@ =~= rows@.take(i + 1) + rows@.skip(i + 1));
            lemma_data_rows_append(rows@.take(i + 1), rows@.skip(i + 1));
            assert(all == pre + here + data_rows(rows@.skip(i + 1)));
            assert forall|j: int| 0 <= j < here.len() implies #[trigger] here[j] == all[pre.len() + j] by {
                assert((pre + here)[pre.len() + j] == here[j]);
            }
        }
        if eq_ignore_ascii_case(r.row_type.as_str(), "DATA") {
            assert(here =~= seq![*r]);
            assert(all[pre.len() as int] == *r);
            let b = disabled(r);
            if !b {
                let d = row_from_config(r);
                out.push(d);
            }
            proof {
                let nf = fl.push(b);
                assert(pre + here =~= pre.push(*r));
                assert(nf.drop_last() =~= fl);
                assert((pre + here).drop_last() =~= pre);
                assert(kept(pre + here, nf) == if b { kept1 } else { kept1.push(*r) });
                assert(out@.subrange(0, start) =~= o0);
                if !b {
                    assert(out@.subrange(start, out@.len() as int) =~= o1.subrange(start, o1.len() as int).push(out@.last()));
                } else {
                    assert(out@.subrange(start, out@.len() as int) =~= o1.subrange(start, o1.len() as int));
                }
                fl = nf;
            }
        } else {
            assert(here == data_rows(r.children@));
            assert(decreases_to!(rows@ => rows@[i as int]));
            let f2 = walk_rows(&r.children, disabled, out);
            proof {
                lemma_kept_append(pre, fl, here, f2@);
                let nf = fl + f2@;
                assert forall|j: int| 0 <= j < nf.len() implies call_ensures(*disabled, (&(pre + here)[j],), #[trigger] nf[j]) by {
                    if j < fl.len() {
                        assert(nf[j] == fl[j]);
                        assert((pre + here)[j] == pre[j]);
                    } else {
                        assert(nf[j] == f2@[j - fl.len()]);
                        assert((pre + here)[j] == here[j - fl.len()]);
                    }
                }
                let a = o1.subrange(start, o1.len() as int);
                let b2 = out@.subrange(o1.len() as int, out@.len() as int);
                assert(out@.subrange(0, o1.len() as int) == o1);
                assert(out@.subrange(start, out@.len() as int) =~= a + b2);
                assert(out@.subrange(0, start) =~= o1.subrange(0, start));
                fl = nf;
            }
        }
        i += 1;
    }
    assert(rows@.take(rows@.len() as int) =~= rows@);
    Ghost(fl)
}

/// The definitions of the data rows of a group, in order (rows nested in
/// other rows taken in their place), leaving out those for which `disabled`
/// answers true.
pub fn rows_from_group<F: Fn(&RowConfig) -> bool>(gc: &GroupConfig, disabled: &F) -> (r: Vec<RowDef>)
    requires
        forall|c: RowConfig| call_requires(*disabled, (&c,)),
        forall|j: int| 0 <= j < data_rows(gc.rows@).len() ==> row_conds_ok(#[trigger] data_rows(gc.rows@)[j]),
    ensures
        exists|flags: Seq<bool>|
            {
                &&& flags.len() == data_rows(gc.rows@).len()
                &&& forall|j: int| 0 <= j < flags.len() ==> call_ensures(*disabled, (&data_rows(gc.rows@)[j],), #[trigger] flags[j])
                &&& defines_all(r@, kept(data_rows(gc.rows@), flags))
            },
{
    let mut out: Vec<RowDef> = Vec::new();
    let flags = walk_rows(&gc.rows, disabled, &mut out);
    assert(out@.subrange(0, out@.len() as int) =~= out@);
    out
}

} // verus!
