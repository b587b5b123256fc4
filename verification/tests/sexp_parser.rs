//! Tests of the S-expression reader.
use std::rc::Rc;
use vm_core::sexp_parser::{java_is_whitespace, AtomType, SAtom, SExp, SExpParser, SList};

/// Parses and renders every top-level expression.
fn parse_str(s: &str) -> Vec<String> {
    let mut parser = SExpParser::new();
    parser.parse(s).iter().map(|e| e.to_string()).collect()
}

/// Parses the only top-level expression.
fn parse_one(s: &str) -> Rc<SExp> {
    let mut parser = SExpParser::new();
    let es = parser.parse(s);
    assert_eq!(es.len(), 1);
    es.into_iter().next().unwrap()
}

/// (text, kind) of every top-level atom.
fn atom_types(s: &str) -> Vec<(String, AtomType)> {
    let mut parser = SExpParser::new();
    parser
        .parse(s)
        .into_iter()
        .map(|e| {
            let a = e.as_atom();
            (a.get_string().to_string(), a.atom_type)
        })
        .collect()
}

#[test]
fn sexp_parser_empty_and_whitespace_input_yield_no_expressions() {
    assert_eq!(parse_str(""), Vec::<String>::new());
    assert_eq!(parse_str("   \t\r\n"), Vec::<String>::new());
}

#[test]
fn sexp_parser_simple_list_of_symbols() {
    let e = parse_one("(a b c)");
    assert!(e.is_list() && !e.is_atom());
    let l = e.as_list();
    assert_eq!(l.children.len(), 3);
    for c in &l.children {
        assert!(c.is_atom() && c.as_atom().is_symbol());
    }
    assert_eq!(l.children[1].as_atom().get_string(), "b");
    assert_eq!(e.to_string(), "(a b c)");
}

#[test]
fn sexp_parser_multiple_top_level_expressions() {
    assert_eq!(parse_str("a b c"), vec!["a", "b", "c"]);
}

#[test]
fn sexp_parser_nested_lists() {
    let e = parse_one("(a (b c) d)");
    let l = e.as_list();
    assert_eq!(l.children.len(), 3);
    let inner = l.children[1].as_list();
    assert_eq!(inner.to_string(), "(b c)");
    assert_eq!(e.to_string(), "(a (b c) d)");
}

#[test]
fn sexp_parser_empty_list_and_nested_empty() {
    let e = parse_one("()");
    assert_eq!(e.as_list().children.len(), 0);
    assert_eq!(e.to_string(), "()");
    assert_eq!(parse_one("(())").to_string(), "(())");
}

#[test]
fn sexp_parser_string_literal_with_spaces() {
    let e = parse_one("(a \"hello world\")");
    let a = e.as_list().children[1].as_atom();
    assert_eq!(a.atom_type, AtomType::String);
    assert_eq!(a.get_string(), "hello world");
    assert_eq!(e.to_string(), "(a \"hello world\")");
}

#[test]
fn sexp_parser_string_escape_handling() {
    // 输入字符: " a \" b \\ c " — \" → ", \\ → \
    let e = parse_one(r#""a\"b\\c""#);
    let a = e.as_atom();
    assert_eq!(a.atom_type, AtomType::String);
    assert_eq!(a.get_string(), "a\"b\\c");
}

#[test]
fn sexp_parser_string_escape_keeps_char_verbatim() {
    let e = parse_one(r#""\n""#);
    assert_eq!(e.as_atom().get_string(), "n");
}

#[test]
fn sexp_parser_string_escape_at_end_appends_backslash() {
    // 末尾孤立反斜杠 (i+1 == len): 条件不满足, 走 else 原样收编 '\'
    let e = parse_one(r#""ab\"#);
    assert_eq!(e.as_atom().get_string(), "ab\\");
}

#[test]
fn sexp_parser_unterminated_string_takes_rest() {
    let e = parse_one("\"abc");
    let a = e.as_atom();
    assert_eq!(a.atom_type, AtomType::String);
    assert_eq!(a.get_string(), "abc");
}

#[test]
fn sexp_parser_quote_does_not_break_atom() {
    let e = parse_one("a\"b\"c");
    let a = e.as_atom();
    assert!(a.is_symbol());
    assert_eq!(a.get_string(), "a\"b\"c");
}

#[test]
fn sexp_parser_semicolon_inside_string_kept() {
    let e = parse_one(r#"("a;b")"#);
    let a = e.as_list().children[0].as_atom();
    assert_eq!(a.atom_type, AtomType::String);
    assert_eq!(a.get_string(), "a;b");
}

#[test]
fn sexp_parser_comments_skipped_to_end_of_line() {
    assert_eq!(parse_str("; (a)\n(b)"), vec!["(b)"]);
    assert_eq!(parse_str("(a) ; trailing comment"), vec!["(a)"]);
    // \r\n: 注释循环只认 \n, \r 留在注释里, \n 交回外层当空白
    assert_eq!(parse_str("x ; c\r\ny"), vec!["x", "y"]);
}

#[test]
fn sexp_parser_comment_without_newline_swallows_rest() {
    assert_eq!(parse_str("(a) ; no newline (b)"), vec!["(a)"]);
    // 未加引号的 a;b — 原子断在 ';', 注释吞掉 b
    assert_eq!(parse_str("a;b"), vec!["a"]);
}

#[test]
fn sexp_parser_keyword_atoms() {
    let types = atom_types(":x :type :cols");
    assert!(types.iter().all(|(_, t)| *t == AtomType::Keyword));
    // ':' 前缀优先于布尔/数字判定 — :true 是 KEYWORD 不是 BOOLEAN
    assert_eq!(atom_types(":true :5"), vec![
        (":true".into(), AtomType::Keyword),
        (":5".into(), AtomType::Keyword),
    ]);
}

#[test]
fn sexp_parser_boolean_atoms_exact_case() {
    assert_eq!(
        atom_types("true false"),
        vec![
            ("true".into(), AtomType::Boolean),
            ("false".into(), AtomType::Boolean),
        ]
    );
    // tokenizer 用 equals 精确匹配 — "True"/"TRUE" 落 SYMBOL
    assert_eq!(
        atom_types("True TRUE"),
        vec![
            ("True".into(), AtomType::Symbol),
            ("TRUE".into(), AtomType::Symbol),
        ]
    );
}

#[test]
fn sexp_parser_number_atom_classification() {
    assert!(atom_types("123 12.34 -5 +5 1e5 1E-5 .5 5. 5f 5d 1e5f NaN -NaN Infinity -Infinity 0x1p1 0X1.8P1")
        .iter()
        .all(|(_, t)| *t == AtomType::Number));
    assert!(atom_types("5,5 abc 12.34.56 1_000 nan infinity INF 0x8 e5 5-")
        .iter()
        .all(|(_, t)| *t == AtomType::Symbol));
}

#[test]
fn sexp_parser_stray_rparen_becomes_symbol_atom() {
    // parseExpression 对非 LPAREN 一律走 parseAtom — 顶层多余的 ) 收编为 SYMBOL 原子
    let types = atom_types("a) b");
    assert_eq!(
        types,
        vec![
            ("a".into(), AtomType::Symbol),
            (")".into(), AtomType::Symbol),
            ("b".into(), AtomType::Symbol),
        ]
    );
    assert_eq!(parse_str("(a))"), vec!["(a)", ")"]);
}

#[test]
fn sexp_parser_unclosed_paren_terminates_at_eof() {
    let e = parse_one("(a b");
    assert_eq!(e.as_list().children.len(), 2);
    assert_eq!(e.to_string(), "(a b)");
}

#[test]
fn sexp_parser_parser_instance_reusable() {
    let mut parser = SExpParser::new();
    assert_eq!(parser.parse("(a) (b)").len(), 2);
    let second = parser.parse("(x y)");
    assert_eq!(second.len(), 1);
    assert_eq!(second[0].to_string(), "(x y)");
}

#[test]
fn sexp_parser_cjk_and_astral_chars_in_atoms() {
    let e = parse_one("(速度 🚀)");
    let a = e.as_list().children[1].as_atom();
    assert_eq!(a.get_string(), "🚀");
    assert_eq!(e.to_string(), "(速度 🚀)");
}

#[test]
fn sexp_parser_java_is_whitespace_matches_jdk8_oracle() {
    for c in [
        ' ', '\t', '\n', '\u{b}', '\u{c}', '\r', '\u{1c}', '\u{1d}', '\u{1e}', '\u{1f}',
        '\u{1680}', '\u{180e}', '\u{2000}', '\u{200a}', '\u{2028}', '\u{2029}', '\u{205f}',
        '\u{3000}',
    ] {
        assert!(java_is_whitespace(c), "U+{:04X} 应为空白", c as u32);
    }
    for c in ['\u{85}', '\u{a0}', '\u{2007}', '\u{202f}', '\u{feff}', '\u{1b}', 'a', '0'] {
        assert!(!java_is_whitespace(c), "U+{:04X} 不应为空白", c as u32);
    }
}

#[test]
fn sexp_parser_nbsp_is_not_a_delimiter() {
    for ws in ['\u{a0}', '\u{202f}'] {
        let src = format!("a{}b", ws);
        let e = parse_one(&src);
        let a = e.as_atom();
        assert!(a.is_symbol());
        assert_eq!(a.get_string(), src);
    }
}

#[test]
fn sexp_parser_info_separators_and_mongolian_vowel_split_atoms() {
    for ws in ['\u{1c}', '\u{1f}', '\u{180e}'] {
        let src = format!("a{}b", ws);
        assert_eq!(parse_str(&src), vec!["a", "b"]);
    }
    assert_eq!(parse_str("a\r\nb"), vec!["a", "b"]);
    assert_eq!(parse_str("a\rb"), vec!["a", "b"]);
}

#[test]
fn sexp_parser_get_bool_matches_java_parse_boolean() {
    for s in ["true", "TRUE", "True"] {
        assert!(SAtom::new(s.into(), AtomType::Boolean).get_bool(), "{}", s);
    }
    for s in [" false", "false ", "yes", "", "truetrue", "ｔｒｕｅ", "false"] {
        assert!(!SAtom::new(s.into(), AtomType::Boolean).get_bool(), "{}", s);
    }
}

#[test]
fn sexp_parser_get_string_and_type_predicates() {
    let kw = SAtom::new(":type".into(), AtomType::Keyword);
    assert!(kw.is_keyword() && !kw.is_symbol());
    assert_eq!(kw.get_string(), ":type");
    let sym = SAtom::new("panel".into(), AtomType::Symbol);
    assert!(sym.is_symbol() && !sym.is_keyword());
    assert_eq!(sym.get_string(), "panel");
}

#[test]
fn sexp_parser_display_list_joins_with_single_space() {
    let mut l = SList::new();
    l.add(Rc::new(SExp::Atom(SAtom::new("a".into(), AtomType::Symbol))));
    l.add(Rc::new(SExp::Atom(SAtom::new("b".into(), AtomType::Symbol))));
    l.add(Rc::new(SExp::Atom(SAtom::new("c".into(), AtomType::Symbol))));
    assert_eq!(l.to_string(), "(a b c)");
}

#[test]
fn sexp_parser_display_string_atom_does_not_reescape() {
    let a = SAtom::new("he\"llo".into(), AtomType::String);
    assert_eq!(a.to_string(), "\"he\"llo\"");
    // 键值/数字/布尔原子原样输出
    for (v, t) in [
        (":type", AtomType::Keyword),
        ("12.34", AtomType::Number),
        ("true", AtomType::Boolean),
        ("panel", AtomType::Symbol),
    ] {
        assert_eq!(SAtom::new(v.into(), t).to_string(), v);
    }
}

#[test]
fn sexp_parser_display_is_virtual_dispatch() {
    let inner = Rc::new(SExp::List(SList::new()));
    let mut outer = SList::new();
    outer.add(inner.clone());
    outer.add(Rc::new(SExp::Atom(SAtom::new("x".into(), AtomType::Symbol))));
    assert_eq!(outer.to_string(), "(() x)");
    assert_eq!(Rc::new(SExp::List(outer)).to_string(), "(() x)");
}

#[test]
fn tests_empty_and_whitespace_input_yield_no_expressions() {
    assert_eq!(parse_str(""), Vec::<String>::new());
    assert_eq!(parse_str("   \t\r\n"), Vec::<String>::new());
}

#[test]
fn tests_simple_list_of_symbols() {
    let e = parse_one("(a b c)");
    assert!(e.is_list() && !e.is_atom());
    let l = e.as_list();
    assert_eq!(l.children.len(), 3);
    for c in &l.children {
        assert!(c.is_atom() && c.as_atom().is_symbol());
    }
    assert_eq!(l.children[1].as_atom().get_string(), "b");
    assert_eq!(e.to_string(), "(a b c)");
}

#[test]
fn tests_multiple_top_level_expressions() {
    assert_eq!(parse_str("a b c"), vec!["a", "b", "c"]);
}

#[test]
fn tests_nested_lists() {
    let e = parse_one("(a (b c) d)");
    let l = e.as_list();
    assert_eq!(l.children.len(), 3);
    let inner = l.children[1].as_list();
    assert_eq!(inner.to_string(), "(b c)");
    assert_eq!(e.to_string(), "(a (b c) d)");
}

#[test]
fn tests_empty_list_and_nested_empty() {
    let e = parse_one("()");
    assert_eq!(e.as_list().children.len(), 0);
    assert_eq!(e.to_string(), "()");
    assert_eq!(parse_one("(())").to_string(), "(())");
}

#[test]
fn tests_string_literal_with_spaces() {
    let e = parse_one("(a \"hello world\")");
    let a = e.as_list().children[1].as_atom();
    assert_eq!(a.atom_type, AtomType::String);
    assert_eq!(a.get_string(), "hello world");
    assert_eq!(e.to_string(), "(a \"hello world\")");
}

#[test]
fn tests_string_escape_handling() {
    // 输入字符: " a \" b \\ c " — \" → ", \\ → \
    let e = parse_one(r#""a\"b\\c""#);
    let a = e.as_atom();
    assert_eq!(a.atom_type, AtomType::String);
    assert_eq!(a.get_string(), "a\"b\\c");
}

#[test]
fn tests_string_escape_keeps_char_verbatim() {
    let e = parse_one(r#""\n""#);
    assert_eq!(e.as_atom().get_string(), "n");
}

#[test]
fn tests_string_escape_at_end_appends_backslash() {
    // 末尾孤立反斜杠 (i+1 == len): 条件不满足, 走 else 原样收编 '\'
    let e = parse_one(r#""ab\"#);
    assert_eq!(e.as_atom().get_string(), "ab\\");
}

#[test]
fn tests_unterminated_string_takes_rest() {
    let e = parse_one("\"abc");
    let a = e.as_atom();
    assert_eq!(a.atom_type, AtomType::String);
    assert_eq!(a.get_string(), "abc");
}

#[test]
fn tests_quote_does_not_break_atom() {
    let e = parse_one("a\"b\"c");
    let a = e.as_atom();
    assert!(a.is_symbol());
    assert_eq!(a.get_string(), "a\"b\"c");
}

#[test]
fn tests_semicolon_inside_string_kept() {
    let e = parse_one(r#"("a;b")"#);
    let a = e.as_list().children[0].as_atom();
    assert_eq!(a.atom_type, AtomType::String);
    assert_eq!(a.get_string(), "a;b");
}

#[test]
fn tests_comments_skipped_to_end_of_line() {
    assert_eq!(parse_str("; (a)\n(b)"), vec!["(b)"]);
    assert_eq!(parse_str("(a) ; trailing comment"), vec!["(a)"]);
    // \r\n: 注释循环只认 \n, \r 留在注释里, \n 交回外层当空白
    assert_eq!(parse_str("x ; c\r\ny"), vec!["x", "y"]);
}

#[test]
fn tests_comment_without_newline_swallows_rest() {
    assert_eq!(parse_str("(a) ; no newline (b)"), vec!["(a)"]);
    // 未加引号的 a;b — 原子断在 ';', 注释吞掉 b
    assert_eq!(parse_str("a;b"), vec!["a"]);
}

#[test]
fn tests_keyword_atoms() {
    let types = atom_types(":x :type :cols");
    assert!(types.iter().all(|(_, t)| *t == AtomType::Keyword));
    // ':' 前缀优先于布尔/数字判定 — :true 是 KEYWORD 不是 BOOLEAN
    assert_eq!(atom_types(":true :5"), vec![
        (":true".into(), AtomType::Keyword),
        (":5".into(), AtomType::Keyword),
    ]);
}

#[test]
fn tests_boolean_atoms_exact_case() {
    assert_eq!(
        atom_types("true false"),
        vec![
            ("true".into(), AtomType::Boolean),
            ("false".into(), AtomType::Boolean),
        ]
    );
    // tokenizer 用 equals 精确匹配 — "True"/"TRUE" 落 SYMBOL
    assert_eq!(
        atom_types("True TRUE"),
        vec![
            ("True".into(), AtomType::Symbol),
            ("TRUE".into(), AtomType::Symbol),
        ]
    );
}

#[test]
fn tests_number_atom_classification() {
    assert!(atom_types("123 12.34 -5 +5 1e5 1E-5 .5 5. 5f 5d 1e5f NaN -NaN Infinity -Infinity 0x1p1 0X1.8P1")
        .iter()
        .all(|(_, t)| *t == AtomType::Number));
    assert!(atom_types("5,5 abc 12.34.56 1_000 nan infinity INF 0x8 e5 5-")
        .iter()
        .all(|(_, t)| *t == AtomType::Symbol));
}

#[test]
fn tests_stray_rparen_becomes_symbol_atom() {
    // parseExpression 对非 LPAREN 一律走 parseAtom — 顶层多余的 ) 收编为 SYMBOL 原子
    let types = atom_types("a) b");
    assert_eq!(
        types,
        vec![
            ("a".into(), AtomType::Symbol),
            (")".into(), AtomType::Symbol),
            ("b".into(), AtomType::Symbol),
        ]
    );
    assert_eq!(parse_str("(a))"), vec!["(a)", ")"]);
}

#[test]
fn tests_unclosed_paren_terminates_at_eof() {
    let e = parse_one("(a b");
    assert_eq!(e.as_list().children.len(), 2);
    assert_eq!(e.to_string(), "(a b)");
}

#[test]
fn tests_parser_instance_reusable() {
    let mut parser = SExpParser::new();
    assert_eq!(parser.parse("(a) (b)").len(), 2);
    let second = parser.parse("(x y)");
    assert_eq!(second.len(), 1);
    assert_eq!(second[0].to_string(), "(x y)");
}

#[test]
fn tests_cjk_and_astral_chars_in_atoms() {
    let e = parse_one("(速度 🚀)");
    let a = e.as_list().children[1].as_atom();
    assert_eq!(a.get_string(), "🚀");
    assert_eq!(e.to_string(), "(速度 🚀)");
}

#[test]
fn tests_java_is_whitespace_matches_jdk8_oracle() {
    for c in [
        ' ', '\t', '\n', '\u{b}', '\u{c}', '\r', '\u{1c}', '\u{1d}', '\u{1e}', '\u{1f}',
        '\u{1680}', '\u{180e}', '\u{2000}', '\u{200a}', '\u{2028}', '\u{2029}', '\u{205f}',
        '\u{3000}',
    ] {
        assert!(java_is_whitespace(c), "U+{:04X} 应为空白", c as u32);
    }
    for c in ['\u{85}', '\u{a0}', '\u{2007}', '\u{202f}', '\u{feff}', '\u{1b}', 'a', '0'] {
        assert!(!java_is_whitespace(c), "U+{:04X} 不应为空白", c as u32);
    }
}

#[test]
fn tests_nbsp_is_not_a_delimiter() {
    for ws in ['\u{a0}', '\u{202f}'] {
        let src = format!("a{}b", ws);
        let e = parse_one(&src);
        let a = e.as_atom();
        assert!(a.is_symbol());
        assert_eq!(a.get_string(), src);
    }
}

#[test]
fn tests_info_separators_and_mongolian_vowel_split_atoms() {
    for ws in ['\u{1c}', '\u{1f}', '\u{180e}'] {
        let src = format!("a{}b", ws);
        assert_eq!(parse_str(&src), vec!["a", "b"]);
    }
    assert_eq!(parse_str("a\r\nb"), vec!["a", "b"]);
    assert_eq!(parse_str("a\rb"), vec!["a", "b"]);
}

#[test]
fn tests_get_bool_matches_java_parse_boolean() {
    for s in ["true", "TRUE", "True"] {
        assert!(SAtom::new(s.into(), AtomType::Boolean).get_bool(), "{}", s);
    }
    for s in [" false", "false ", "yes", "", "truetrue", "ｔｒｕｅ", "false"] {
        assert!(!SAtom::new(s.into(), AtomType::Boolean).get_bool(), "{}", s);
    }
}

#[test]
fn tests_get_string_and_type_predicates() {
    let kw = SAtom::new(":type".into(), AtomType::Keyword);
    assert!(kw.is_keyword() && !kw.is_symbol());
    assert_eq!(kw.get_string(), ":type");
    let sym = SAtom::new("panel".into(), AtomType::Symbol);
    assert!(sym.is_symbol() && !sym.is_keyword());
    assert_eq!(sym.get_string(), "panel");
}

#[test]
fn tests_display_list_joins_with_single_space() {
    let mut l = SList::new();
    l.add(Rc::new(SExp::Atom(SAtom::new("a".into(), AtomType::Symbol))));
    l.add(Rc::new(SExp::Atom(SAtom::new("b".into(), AtomType::Symbol))));
    l.add(Rc::new(SExp::Atom(SAtom::new("c".into(), AtomType::Symbol))));
    assert_eq!(l.to_string(), "(a b c)");
}

#[test]
fn tests_display_string_atom_does_not_reescape() {
    let a = SAtom::new("he\"llo".into(), AtomType::String);
    assert_eq!(a.to_string(), "\"he\"llo\"");
    // 键值/数字/布尔原子原样输出
    for (v, t) in [
        (":type", AtomType::Keyword),
        ("12.34", AtomType::Number),
        ("true", AtomType::Boolean),
        ("panel", AtomType::Symbol),
    ] {
        assert_eq!(SAtom::new(v.into(), t).to_string(), v);
    }
}

#[test]
fn tests_display_is_virtual_dispatch() {
    let inner = Rc::new(SExp::List(SList::new()));
    let mut outer = SList::new();
    outer.add(inner.clone());
    outer.add(Rc::new(SExp::Atom(SAtom::new("x".into(), AtomType::Symbol))));
    assert_eq!(outer.to_string(), "(() x)");
    assert_eq!(Rc::new(SExp::List(outer)).to_string(), "(() x)");
}

#[test]
fn comments_and_whitespace_only_parse_to_nothing() {
    let mut p = SExpParser::new();
    assert!(p.parse("; a comment\n  \t; another").is_empty());
    assert!(p.parse("\u{3000};x\n").is_empty());
    assert_eq!(p.parse("; c\nx").len(), 1);
}

#[test]
fn expression_count_never_exceeds_token_count() {
    let mut p = SExpParser::new();
    assert_eq!(p.parse("a b c").len(), 3);
    assert_eq!(p.parse("(a b) c").len(), 2);
    assert_eq!(p.parse(") ) (").len(), 3);
}

#[test]
fn printed_expression_reads_back_as_itself() {
    let mut inner = SList::new();
    inner.add(Rc::new(SExp::Atom(SAtom::new("b".to_string(), AtomType::Symbol))));
    inner.add(Rc::new(SExp::Atom(SAtom::new("two words".to_string(), AtomType::String))));
    let mut outer = SList::new();
    outer.add(Rc::new(SExp::Atom(SAtom::new(":k".to_string(), AtomType::Keyword))));
    outer.add(Rc::new(SExp::List(inner)));
    outer.add(Rc::new(SExp::Atom(SAtom::new("12.5".to_string(), AtomType::Number))));
    let e = SExp::List(outer);
    let text = e.to_string();
    assert_eq!(text, "(:k (b \"two words\") 12.5)");
    let back = parse_one(&text);
    assert_eq!(*back, e);
    assert_eq!(back.to_string(), text);
}

#[test]
fn single_words_read_as_their_classified_atoms() {
    assert_eq!(
        atom_types(":true True false 0x1p1 0x8"),
        vec![
            (":true".to_string(), AtomType::Keyword),
            ("True".to_string(), AtomType::Symbol),
            ("false".to_string(), AtomType::Boolean),
            ("0x1p1".to_string(), AtomType::Number),
            ("0x8".to_string(), AtomType::Symbol),
        ]
    );
}

#[test]
fn words_inside_lists_read_as_their_classified_atoms() {
    let e = parse_one("(x (:k true) 0x1p1 0x8)");
    let items = &e.as_list().children;
    assert_eq!(items[0].as_atom().atom_type, AtomType::Symbol);
    let inner = &items[1].as_list().children;
    assert_eq!(inner[0].as_atom().atom_type, AtomType::Keyword);
    assert_eq!(inner[1].as_atom().atom_type, AtomType::Boolean);
    assert_eq!(items[2].as_atom().atom_type, AtomType::Number);
    assert_eq!(items[3].as_atom().atom_type, AtomType::Symbol);
}
