use vm_core::config_loader::{GroupConfig, RowConfig};
use vm_core::row_def::{compile_cond, row_from_config, rows_from_group, Cond, DisplayMode, FormatKind};
use vm_core::sexp_parser::SExpParser;

fn cond(text: &str) -> Option<Cond> {
    let exprs = SExpParser::new().parse(text);
    assert_eq!(exprs.len(), 1);
    compile_cond(&exprs[0])
}

/// A compact printed form of a condition.
fn show(c: &Cond) -> String {
    match c {
        Cond::NotEq(n) => format!("!={n}"),
        Cond::Gte(n) => format!(">={n}"),
        Cond::Gt(n) => format!(">{n}"),
        Cond::Lt(n) => format!("<{n}"),
        Cond::Lte(n) => format!("<={n}"),
        Cond::Eq(n) => format!("={n}"),
        Cond::IsJetEngine => "jet".to_string(),
        Cond::IsPropEngine => "prop".to_string(),
        Cond::IsPistonEngine => "piston".to_string(),
        Cond::HasWep => "wep".to_string(),
        Cond::HasBooster => "booster".to_string(),
        Cond::Not(a) => format!("not({})", show(a)),
        Cond::And(a, b) => format!("and({},{})", show(a), show(b)),
        Cond::Or(a, b) => format!("or({},{})", show(a), show(b)),
    }
}

fn shown(text: &str) -> Option<String> {
    cond(text).map(|c| show(&c))
}

#[test]
fn comparisons_keep_their_number_text() {
    assert_eq!(shown("(> value 5)"), Some(">5".to_string()));
    assert_eq!(shown("(>= value 0.5)"), Some(">=0.5".to_string()));
    assert_eq!(shown("(< value -3)"), Some("<-3".to_string()));
    assert_eq!(shown("(<= value 1e3)"), Some("<=1e3".to_string()));
    assert_eq!(shown("(= value 0)"), Some("=0".to_string()));
    assert_eq!(shown("(!= value 0)"), Some("!=0".to_string()));
}

#[test]
fn comparisons_need_value_and_a_number() {
    assert_eq!(shown("(> speed 5)"), None);
    assert_eq!(shown("(> value \"5\")"), None);
    assert_eq!(shown("(> value)"), None);
    // the operand after a name other than `value` is not read
    assert_eq!(shown("(> speed (x))"), None);
}

#[test]
fn aircraft_tests() {
    assert_eq!(shown("(isJetEngine)"), Some("jet".to_string()));
    assert_eq!(shown("(isPropEngine)"), Some("prop".to_string()));
    assert_eq!(shown("(isPistonEngine)"), Some("piston".to_string()));
    assert_eq!(shown("(hasWep)"), Some("wep".to_string()));
    assert_eq!(shown("(hasBooster)"), Some("booster".to_string()));
    assert_eq!(shown("(hasNitro)"), None);
}

#[test]
fn not_and_or_combine_from_the_left() {
    assert_eq!(shown("(not (hasWep))"), Some("not(wep)".to_string()));
    assert_eq!(shown("(! (= value 0))"), Some("not(=0)".to_string()));
    assert_eq!(
        shown("(and (isJetEngine) (> value 1) (hasWep))"),
        Some("and(and(jet,>1),wep)".to_string())
    );
    assert_eq!(shown("(or (hasWep))"), Some("wep".to_string()));
    assert_eq!(shown("(or (hasWep) (not (hasBooster)))"), Some("or(wep,not(booster))".to_string()));
}

#[test]
fn any_unreadable_part_gives_no_condition() {
    assert_eq!(shown("(and)"), None);
    assert_eq!(shown("(not)"), None);
    assert_eq!(shown("(and (hasWep) (x))"), None);
    assert_eq!(shown("()"), None);
    assert_eq!(shown("hasWep"), None);
}

#[test]
fn row_format_and_display() {
    assert_eq!(FormatKind::from_format("time_mm_ss"), FormatKind::TimeMmSs);
    assert_eq!(FormatKind::from_format("PLAIN"), FormatKind::Plain);
    assert_eq!(DisplayMode::from_sources(false, true), DisplayMode::ImperialManifold);
    assert_eq!(DisplayMode::from_sources(false, false), DisplayMode::Metric);
}

fn data_row(label: &str) -> RowConfig {
    RowConfig::new(label.to_string(), None, String::new())
}

#[test]
fn rows_from_group_takes_enabled_data_rows_in_order() {
    let mut a = data_row("A");
    a.target_name = Some("Alpha".to_string());
    a.precision = -3;
    a.unit = "km".to_string();
    let b = data_row("B");
    let mut c = data_row("C");
    c.row_type = "data".to_string();
    c.format = "time_mm_ss".to_string();
    c.unit_source = Some("u".to_string());
    c.property = Some("ias".to_string());
    c.preview_value = Some("12".to_string());
    c.precision = 258;
    let mut header = data_row("H");
    header.row_type = "HEADER".to_string();
    header.children.push(b);
    header.children.push(c);
    let mut switch = data_row("S");
    switch.row_type = "SWITCH".to_string();
    let mut gc = GroupConfig::new("g".to_string());
    gc.rows.push(a);
    gc.rows.push(header);
    gc.rows.push(switch);

    let defs = rows_from_group(&gc, &|r: &RowConfig| r.label == "B");
    assert_eq!(defs.len(), 2);
    assert_eq!(defs[0].label, "Alpha");
    assert_eq!(defs[0].source, "A");
    assert_eq!(defs[0].unit, "km");
    assert_eq!(defs[0].preview_value, "0");
    assert_eq!(defs[0].precision, 0);
    assert_eq!(defs[0].format, FormatKind::Plain);
    assert_eq!(defs[0].display, DisplayMode::Metric);
    assert!(defs[0].visible_when.is_none());
    assert_eq!(defs[1].label, "C");
    assert_eq!(defs[1].source, "ias");
    assert_eq!(defs[1].preview_value, "12");
    assert_eq!(defs[1].precision, 2);
    assert_eq!(defs[1].format, FormatKind::TimeMmSs);
    assert_eq!(defs[1].display, DisplayMode::ImperialManifold);
}

#[test]
fn row_from_config_compiles_conditions() {
    let mut p = SExpParser::new();
    let mut row = data_row("R");
    row.visible_when = Some(p.parse("(> value 5)").remove(0));
    row.na_when = Some(p.parse("(isJetEngine)").remove(0));
    let d = row_from_config(&row);
    assert!(matches!(d.visible_when, Some(Cond::Gt(ref n)) if n == "5"));
    assert!(matches!(d.na_when, Some(Cond::IsJetEngine)));
}
