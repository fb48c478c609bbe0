use spawner::opts::{
    expand_derive_cmd_line_options, expect_str, Attribute, Data, DeriveInput, Fault, Field, Lit,
    Meta, MetaList, MetaNameValue, NestedMeta, Opt, OptAttribute, OptContainer,
    OptContainerAttribute, OptError, OptKind, OptKindOpt, Setter,
};

// Every node gets its own number, so that an error says which node it means.
struct Tree(usize);

impl Tree {
    fn next(&mut self) -> usize {
        self.0 += 1;
        self.0
    }

    fn str_lit(&mut self, text: &str) -> Lit {
        Lit { span: self.next(), text: Some(text.to_string()) }
    }

    fn int_lit(&mut self) -> Lit {
        Lit { span: self.next(), text: None }
    }

    fn name_value(&mut self, ident: &str, text: &str) -> Meta {
        let span = self.next();
        Meta::NameValue(MetaNameValue { span, ident: ident.to_string(), lit: self.str_lit(text) })
    }

    fn list(&mut self, ident: &str, nested: Vec<NestedMeta>) -> Meta {
        Meta::List(MetaList { span: self.next(), ident: ident.to_string(), nested })
    }

    fn names(&mut self, names: &[&str]) -> Meta {
        let nested = names.iter().map(|n| NestedMeta::Literal(self.str_lit(n))).collect();
        self.list("names", nested)
    }

    fn attr(&mut self, path: &[&str], meta: Option<Meta>) -> Attribute {
        Attribute { span: self.next(), path: path.iter().map(|s| s.to_string()).collect(), meta }
    }

    fn opt_attr(&mut self, ident: &str, items: Vec<Meta>) -> Attribute {
        let nested = items.into_iter().map(NestedMeta::Meta).collect();
        let meta = self.list(ident, nested);
        self.attr(&[ident], Some(meta))
    }

    fn field(&mut self, attrs: Vec<Attribute>) -> Field {
        Field { span: self.next(), attrs }
    }
}

fn span_of(meta: &Meta) -> usize {
    meta.span()
}

fn fault(fault: Fault, span: usize) -> OptError {
    OptError { fault, span }
}

#[test]
fn a_string_literal_gives_its_text() {
    let mut t = Tree(0);
    assert_eq!(expect_str(&t.str_lit("abc")), Ok(String::from("abc")));
    let other = t.int_lit();
    assert_eq!(expect_str(&other), Err(fault(Fault::ExpectedStringLiteral, other.span)));
}

#[test]
fn the_four_settings_of_an_option() {
    let mut t = Tree(0);
    for (ident, text) in [("name", "-a"), ("desc", "d"), ("value_desc", "<v>"), ("parser", "P")] {
        let meta = t.name_value(ident, text);
        let span = span_of(&meta);
        match (ident, OptAttribute::from_meta(&meta)) {
            ("name", Ok(OptAttribute::Name(s, v))) => assert_eq!((s, v.as_str()), (span, "-a")),
            ("desc", Ok(OptAttribute::Desc(s, v))) => assert_eq!((s, v.as_str()), (span, "d")),
            ("value_desc", Ok(OptAttribute::ValueDesc(s, v))) => {
                assert_eq!((s, v.as_str()), (span, "<v>"))
            }
            ("parser", Ok(OptAttribute::Parser(s, v))) => assert_eq!((s, v.as_str()), (span, "P")),
            _ => panic!("{} was not read", ident),
        }
    }
}

#[test]
fn an_unknown_setting_is_refused() {
    let mut t = Tree(0);
    let meta = t.name_value("nmae", "-a");
    assert_eq!(
        OptAttribute::from_meta(&meta).err(),
        Some(fault(Fault::ExpectedOptAttribute, span_of(&meta)))
    );
    let word = Meta::Word(77, String::from("name"));
    assert_eq!(
        OptAttribute::from_meta(&word).err(),
        Some(fault(Fault::ExpectedOptAttribute, 77))
    );
    let list = t.list("name", vec![]);
    assert_eq!(
        OptAttribute::from_meta(&list).err(),
        Some(fault(Fault::ExpectedOptAttribute, span_of(&list)))
    );
}

#[test]
fn a_setting_needs_a_string() {
    let mut t = Tree(0);
    let lit = t.int_lit();
    let lit_span = lit.span;
    let nv = MetaNameValue { span: t.next(), ident: String::from("desc"), lit };
    assert_eq!(
        OptAttribute::from_name_value(&nv).err(),
        Some(fault(Fault::ExpectedStringLiteral, lit_span))
    );
    // The name of the setting is looked at first.
    let nv = MetaNameValue { span: 90, ident: String::from("other"), lit: t.int_lit() };
    assert_eq!(
        OptAttribute::from_name_value(&nv).err(),
        Some(fault(Fault::ExpectedOptAttribute, 90))
    );
}

#[test]
fn names_are_string_literals() {
    let mut t = Tree(0);
    let meta = t.names(&["-tl", "--time-limit"]);
    match OptAttribute::from_meta(&meta) {
        Ok(OptAttribute::Names(span, names)) => {
            assert_eq!(span, span_of(&meta));
            assert_eq!(names, vec![String::from("-tl"), String::from("--time-limit")]);
        }
        _ => panic!("names were not read"),
    }
    let good = NestedMeta::Literal(t.str_lit("-a"));
    let bad = t.int_lit();
    let bad_span = bad.span;
    let worse = Meta::Word(t.next(), String::from("x"));
    let list = MetaList {
        span: t.next(),
        ident: String::from("names"),
        nested: vec![good, NestedMeta::Literal(bad), NestedMeta::Meta(worse)],
    };
    assert_eq!(
        OptAttribute::names_from_meta_list(&list).err(),
        Some(fault(Fault::ExpectedStringLiteral, bad_span))
    );
    let word = Meta::Word(55, String::from("x"));
    let list =
        MetaList { span: 56, ident: String::from("names"), nested: vec![NestedMeta::Meta(word)] };
    assert_eq!(
        OptAttribute::names_from_meta_list(&list).err(),
        Some(fault(Fault::ExpectedStringLiteral, 55))
    );
}

#[test]
fn an_option_with_a_value() {
    let mut t = Tree(0);
    let items = vec![
        t.names(&["-tl", "--time-limit"]),
        t.name_value("desc", "Time limit"),
        t.name_value("value_desc", "<ms>"),
        t.name_value("parser", "MsParser"),
    ];
    let attr = t.opt_attr("opt", items);
    let opt = Opt::from_meta(100, attr.span, &attr.meta).ok().unwrap();
    assert_eq!(opt.names, vec![String::from("-tl"), String::from("--time-limit")]);
    assert_eq!(opt.desc, "Time limit");
    assert_eq!(opt.field, 100);
    match opt.kind {
        OptKind::Opt(o) => {
            assert_eq!(o.value_desc, "<ms>");
            assert_eq!(o.parser, Some(String::from("MsParser")));
        }
        _ => panic!("not an option with a value"),
    }
}

#[test]
fn a_flag() {
    let mut t = Tree(0);
    let items = vec![t.name_value("name", "-q"), t.name_value("desc", "Quiet")];
    let attr = t.opt_attr("flag", items);
    let opt = Opt::from_meta(7, attr.span, &attr.meta).ok().unwrap();
    assert_eq!(opt.names, vec![String::from("-q")]);
    assert_eq!(opt.desc, "Quiet");
    assert!(matches!(opt.kind, OptKind::Flag));
}

#[test]
fn a_later_name_replaces_the_names() {
    let mut t = Tree(0);
    let items = vec![t.names(&["-a", "-b"]), t.name_value("name", "-c")];
    let attr = t.opt_attr("flag", items);
    let opt = Opt::from_meta(7, attr.span, &attr.meta).ok().unwrap();
    assert_eq!(opt.names, vec![String::from("-c")]);
}

#[test]
fn a_flag_takes_no_value_description_and_no_parser() {
    let mut t = Tree(0);
    let value_desc = t.name_value("value_desc", "<v>");
    let at = span_of(&value_desc);
    let items = vec![t.name_value("name", "-q"), value_desc];
    let attr = t.opt_attr("flag", items);
    assert_eq!(
        Opt::from_meta(7, attr.span, &attr.meta).err(),
        Some(fault(Fault::ValueDescOnOption, at))
    );
    let parser = t.name_value("parser", "P");
    let at = span_of(&parser);
    let items = vec![parser, t.name_value("name", "-q")];
    let attr = t.opt_attr("flag", items);
    assert_eq!(
        Opt::from_meta(7, attr.span, &attr.meta).err(),
        Some(fault(Fault::ParserOnOption, at))
    );
}

#[test]
fn all_items_are_read_before_any_is_applied() {
    let mut t = Tree(0);
    let value_desc = t.name_value("value_desc", "<v>");
    let unknown = t.name_value("colour", "red");
    let at = span_of(&unknown);
    let attr = t.opt_attr("flag", vec![value_desc, unknown]);
    assert_eq!(
        Opt::from_meta(7, attr.span, &attr.meta).err(),
        Some(fault(Fault::ExpectedOptAttribute, at))
    );
}

#[test]
fn a_literal_is_no_setting() {
    let mut t = Tree(0);
    let lit = t.str_lit("-q");
    let at = lit.span;
    let list = MetaList {
        span: t.next(),
        ident: String::from("flag"),
        nested: vec![NestedMeta::Literal(lit)],
    };
    assert_eq!(Opt::from_meta_list(7, &list).err(), Some(fault(Fault::ExpectedOptAttribute, at)));
}

#[test]
fn an_option_needs_a_name() {
    let mut t = Tree(0);
    let items = vec![t.name_value("desc", "Quiet")];
    let attr = t.opt_attr("flag", items);
    let list_span = span_of(attr.meta.as_ref().unwrap());
    assert_eq!(
        Opt::from_meta(7, attr.span, &attr.meta).err(),
        Some(fault(Fault::UnnamedOption, list_span))
    );
    let items = vec![t.names(&[])];
    let attr = t.opt_attr("opt", items);
    let list_span = span_of(attr.meta.as_ref().unwrap());
    assert_eq!(
        Opt::from_meta(7, attr.span, &attr.meta).err(),
        Some(fault(Fault::UnnamedOption, list_span))
    );
}

#[test]
fn an_option_attribute_is_a_list() {
    let mut t = Tree(0);
    let meta = t.name_value("opt", "x");
    assert_eq!(
        Opt::from_meta(7, 300, &Some(meta)).err(),
        Some(fault(Fault::InvalidOptAttribute, 300))
    );
    assert_eq!(Opt::from_meta(7, 301, &None).err(), Some(fault(Fault::InvalidOptAttribute, 301)));
    let word = Meta::Word(5, String::from("flag"));
    assert_eq!(
        Opt::from_meta(7, 302, &Some(word)).err(),
        Some(fault(Fault::InvalidOptAttribute, 302))
    );
}

#[test]
fn a_list_under_another_name_is_no_option() {
    let mut t = Tree(0);
    let items = vec![NestedMeta::Meta(t.name_value("name", "-x"))];
    let list = MetaList { span: t.next(), ident: String::from("other"), nested: items };
    let opt = Opt::from_meta_list(7, &list).ok().unwrap();
    assert!(matches!(opt.kind, OptKind::Invalid));
    assert_eq!(opt.names, vec![String::from("-x")]);
}

#[test]
fn the_options_of_a_field_come_last_attribute_first() {
    let mut t = Tree(0);
    let first = {
        let items = vec![t.name_value("name", "-a")];
        t.opt_attr("flag", items)
    };
    let doc = t.attr(&["doc"], None);
    let second = {
        let items = vec![t.name_value("name", "-b")];
        t.opt_attr("opt", items)
    };
    let field = t.field(vec![first, doc, second]);
    let opts = Opt::from_field(&field).ok().unwrap();
    assert_eq!(opts.len(), 2);
    assert_eq!(opts[0].names, vec![String::from("-b")]);
    assert!(matches!(opts[0].kind, OptKind::Opt(_)));
    assert_eq!(opts[1].names, vec![String::from("-a")]);
    assert!(matches!(opts[1].kind, OptKind::Flag));
    assert_eq!(opts[0].field, field.span);
}

#[test]
fn a_field_without_option_attributes_is_no_option() {
    let mut t = Tree(0);
    let doc = t.attr(&["doc"], None);
    let long = {
        let items = vec![t.name_value("name", "-a")];
        let nested = items.into_iter().map(NestedMeta::Meta).collect();
        let meta = t.list("opt", nested);
        t.attr(&["some", "opt"], Some(meta))
    };
    let field = t.field(vec![doc, long]);
    let opts = Opt::from_field(&field).ok().unwrap();
    assert_eq!(opts.len(), 1);
    assert!(matches!(opts[0].kind, OptKind::Invalid));
    assert!(opts[0].names.is_empty());
    assert_eq!(opts[0].desc, "");
    assert_eq!(opts[0].field, field.span);
}

#[test]
fn the_last_attribute_at_fault_is_reported_for_a_field() {
    let mut t = Tree(0);
    let first = t.attr(&["opt"], None);
    let second = t.attr(&["flag"], None);
    let second_span = second.span;
    let field = t.field(vec![first, second]);
    assert_eq!(
        Opt::from_field(&field).err(),
        Some(fault(Fault::InvalidOptAttribute, second_span))
    );
}

#[test]
fn the_settings_of_the_structure() {
    let mut t = Tree(0);
    for (ident, text) in [("delimeters", "=:"), ("usage", "tool"), ("default_parser", "P")] {
        let meta = t.name_value(ident, text);
        match (ident, OptContainerAttribute::from_meta(&meta)) {
            ("delimeters", Ok(OptContainerAttribute::Delimeters(s))) => assert_eq!(s, "=:"),
            ("usage", Ok(OptContainerAttribute::Usage(s))) => assert_eq!(s, "tool"),
            ("default_parser", Ok(OptContainerAttribute::DefaultParser(s))) => assert_eq!(s, "P"),
            _ => panic!("{} was not read", ident),
        }
    }
    let meta = t.name_value("delimiters", "=");
    assert_eq!(
        OptContainerAttribute::from_meta(&meta).err(),
        Some(fault(Fault::ExpectedContainerAttribute, span_of(&meta)))
    );
    let meta = t.names(&["a"]);
    assert_eq!(
        OptContainerAttribute::from_meta(&meta).err(),
        Some(fault(Fault::ExpectedContainerAttribute, span_of(&meta)))
    );
    let lit = t.int_lit();
    let at = lit.span;
    let meta = Meta::NameValue(MetaNameValue { span: t.next(), ident: String::from("usage"), lit });
    assert_eq!(
        OptContainerAttribute::from_meta(&meta).err(),
        Some(fault(Fault::ExpectedStringLiteral, at))
    );
}

#[test]
fn the_attribute_of_the_structure_is_a_list_of_settings() {
    let mut t = Tree(0);
    assert_eq!(
        OptContainer::parse_meta(9, &None).err(),
        Some(fault(Fault::InvalidContainerAttribute, 9))
    );
    let lit = t.str_lit("x");
    let at = lit.span;
    let list = MetaList {
        span: t.next(),
        ident: String::from("optcont"),
        nested: vec![NestedMeta::Literal(lit)],
    };
    assert_eq!(
        OptContainer::parse_meta_list(&list).err(),
        Some(fault(Fault::ExpectedContainerAttribute, at))
    );
    let list = MetaList {
        span: t.next(),
        ident: String::from("optcont"),
        nested: vec![NestedMeta::Meta(t.name_value("usage", "u"))],
    };
    assert_eq!(OptContainer::parse_meta_list(&list).ok().unwrap().len(), 1);
}

#[test]
fn all_faulty_attributes_of_the_structure_are_reported() {
    let mut t = Tree(0);
    let bad1 = t.attr(&["optcont"], None);
    let good = {
        let items = vec![t.name_value("usage", "u")];
        t.opt_attr("optcont", items)
    };
    let other = t.attr(&["derive"], None);
    let bad2 = t.attr(&["optcont"], None);
    let spans = (bad1.span, bad2.span);
    let errors = OptContainer::parse_attrs(&vec![bad1, good, other, bad2]).err().unwrap();
    assert_eq!(
        errors,
        vec![
            fault(Fault::InvalidContainerAttribute, spans.0),
            fault(Fault::InvalidContainerAttribute, spans.1)
        ]
    );
}

fn sample_input(t: &mut Tree) -> DeriveInput {
    let cont = {
        let items = vec![
            t.name_value("delimeters", ":="),
            t.name_value("usage", "tool [options]"),
            t.name_value("usage", "tool [options] program"),
            t.name_value("default_parser", "DefaultParser"),
        ];
        t.opt_attr("optcont", items)
    };
    let time_limit = {
        let items = vec![
            t.names(&["-tl", "--time-limit"]),
            t.name_value("desc", "Time limit"),
            t.name_value("value_desc", "<ms>"),
        ];
        let attr = t.opt_attr("opt", items);
        t.field(vec![attr])
    };
    let memory = {
        let items = vec![t.name_value("name", "-ml"), t.name_value("parser", "MemParser")];
        let attr = t.opt_attr("opt", items);
        t.field(vec![attr])
    };
    let quiet = {
        let items = vec![t.name_value("name", "-q"), t.name_value("desc", "Quiet")];
        let attr = t.opt_attr("flag", items);
        t.field(vec![attr])
    };
    let plain = t.field(vec![]);
    DeriveInput {
        ident: t.next(),
        attrs: vec![cont],
        data: Data::Struct(vec![time_limit, memory, quiet, plain]),
    }
}

#[test]
fn a_structure_is_read_whole() {
    let mut t = Tree(0);
    let input = sample_input(&mut t);
    let cont = OptContainer::from_ast(&input).ok().unwrap();
    assert_eq!(cont.delimeters, ":=");
    assert_eq!(cont.usage, "tool [options] program");
    assert_eq!(cont.default_parser, Some(String::from("DefaultParser")));
    assert_eq!(cont.opts.len(), 4);
    assert_eq!(cont.opt_parser(&cont.opts[0]), Ok(String::from("DefaultParser")));
    assert_eq!(cont.opt_parser(&cont.opts[1]), Ok(String::from("MemParser")));
    assert_eq!(cont.opt_parser(&cont.opts[2]), Err(fault(Fault::NoParser, cont.opts[2].field)));
    assert_eq!(cont.opt_parser(&cont.opts[3]), Err(fault(Fault::NoParser, cont.opts[3].field)));
}

#[test]
fn a_structure_is_laid_out() {
    let mut t = Tree(0);
    let input = sample_input(&mut t);
    let fields: Vec<usize> = match &input.data {
        Data::Struct(fields) => fields.iter().map(|f| f.span).collect(),
        _ => Vec::new(),
    };
    let x = expand_derive_cmd_line_options(&input).ok().unwrap();
    assert_eq!(x.usage, "tool [options] program");
    assert_eq!(x.delimeters, ":=");
    let pad = |n: usize| " ".repeat(n);
    let expected = format!(
        "  -tl:<ms>, --time-limit:<ms> Time limit\n  -ml:\n  -q{}Quiet\n  \n",
        pad(26)
    );
    assert_eq!(String::from_utf8(x.help).unwrap(), expected);
    assert_eq!(x.registrations.len(), 3);
    assert!(!x.registrations[0].flag);
    assert_eq!(x.registrations[0].names, vec![String::from("-tl"), String::from("--time-limit")]);
    assert!(!x.registrations[1].flag);
    assert!(x.registrations[2].flag);
    assert_eq!(x.registrations[2].names, vec![String::from("-q")]);
    assert_eq!(x.setters.len(), 3);
    match &x.setters[0] {
        Setter::Value { field, name, parser } => {
            assert_eq!((*field, name.as_str(), parser.as_str()), (fields[0], "-tl", "DefaultParser"))
        }
        _ => panic!("the first option takes a value"),
    }
    match &x.setters[1] {
        Setter::Value { field, name, parser } => {
            assert_eq!((*field, name.as_str(), parser.as_str()), (fields[1], "-ml", "MemParser"))
        }
        _ => panic!("the second option takes a value"),
    }
    match &x.setters[2] {
        Setter::Flag { field, name } => assert_eq!((*field, name.as_str()), (fields[2], "-q")),
        _ => panic!("the third option is a flag"),
    }
}

#[test]
fn enums_and_unions_are_refused() {
    let input = DeriveInput { ident: 4, attrs: vec![], data: Data::Enum };
    assert_eq!(
        expand_derive_cmd_line_options(&input).err(),
        Some(vec![fault(Fault::EnumNotSupported, 4)])
    );
    let input = DeriveInput { ident: 5, attrs: vec![], data: Data::Union };
    assert_eq!(OptContainer::init_opts(&input).err(), Some(vec![fault(Fault::UnionNotSupported, 5)]));
}

#[test]
fn the_errors_of_all_fields_are_reported_and_those_of_the_structure_wait() {
    let mut t = Tree(0);
    let bad_cont = t.attr(&["optcont"], None);
    let bad1 = t.attr(&["opt"], None);
    let bad2 = t.attr(&["flag"], None);
    let spans = (bad1.span, bad2.span, bad_cont.span);
    let f1 = t.field(vec![bad1]);
    let good = {
        let items = vec![t.name_value("name", "-q")];
        let attr = t.opt_attr("flag", items);
        t.field(vec![attr])
    };
    let f2 = t.field(vec![bad2]);
    let input =
        DeriveInput { ident: t.next(), attrs: vec![bad_cont], data: Data::Struct(vec![f1, good, f2]) };
    assert_eq!(
        expand_derive_cmd_line_options(&input).err(),
        Some(vec![
            fault(Fault::InvalidOptAttribute, spans.0),
            fault(Fault::InvalidOptAttribute, spans.1)
        ])
    );
    let input = DeriveInput { ident: 1, attrs: input.attrs, data: Data::Struct(vec![]) };
    assert_eq!(
        expand_derive_cmd_line_options(&input).err(),
        Some(vec![fault(Fault::InvalidContainerAttribute, spans.2)])
    );
}

#[test]
fn an_option_with_a_value_needs_a_parser() {
    let mut t = Tree(0);
    let mut fields = Vec::new();
    for name in ["-a", "-b"] {
        let items = vec![t.name_value("name", name)];
        let attr = t.opt_attr("opt", items);
        fields.push(t.field(vec![attr]));
    }
    let spans: Vec<usize> = fields.iter().map(|f| f.span).collect();
    let input = DeriveInput { ident: t.next(), attrs: vec![], data: Data::Struct(fields) };
    let cont = OptContainer::from_ast(&input).ok().unwrap();
    assert_eq!(cont.delimeters, "");
    assert_eq!(cont.default_parser, None);
    assert_eq!(cont.build_register_opts().len(), 2);
    let expected = vec![fault(Fault::NoParser, spans[0]), fault(Fault::NoParser, spans[1])];
    assert_eq!(cont.build_set_opts().err(), Some(expected.clone()));
    assert_eq!(expand_derive_cmd_line_options(&input).err(), Some(expected));
}

#[test]
fn without_delimiters_a_space_is_shown() {
    let mut t = Tree(0);
    let items = vec![
        t.name_value("name", "-n"),
        t.name_value("value_desc", "<n>"),
        t.name_value("parser", "P"),
    ];
    let attr = t.opt_attr("opt", items);
    let field = t.field(vec![attr]);
    let input = DeriveInput { ident: t.next(), attrs: vec![], data: Data::Struct(vec![field]) };
    let x = expand_derive_cmd_line_options(&input).ok().unwrap();
    assert_eq!(String::from_utf8(x.help).unwrap(), "  -n <n>\n");
}

#[test]
fn defaults_of_an_option() {
    let o = OptKindOpt::default();
    assert_eq!(o.value_desc, "");
    assert_eq!(o.parser, None);
    let opt = Opt::new(OptKind::Flag, 3);
    assert!(opt.names.is_empty());
    assert_eq!(opt.desc, "");
    assert_eq!(opt.field, 3);
}

#[test]
fn every_fault_has_its_message() {
    assert_eq!(Fault::ExpectedStringLiteral.message(), "Expected string literal");
    assert_eq!(
        Fault::ExpectedOptAttribute.message(),
        "Expected one of: name = \"...\", names(...), desc = \"...\", value_desc = \"...\" parser = \"...\""
    );
    assert_eq!(Fault::ValueDescOnOption.message(), "Value description allowed on options only");
    assert_eq!(Fault::ParserOnOption.message(), "Parser allowed on options only");
    assert_eq!(Fault::UnnamedOption.message(), "Unnamed options are not allowed");
    assert_eq!(
        Fault::InvalidOptAttribute.message(),
        "Invalid attribute in #[opt(...)] or in #[flag(...)]"
    );
    assert_eq!(
        Fault::ExpectedContainerAttribute.message(),
        "Expected one of: delimeters = \"...\", usage = \"...\" default_parser = \"...\""
    );
    assert_eq!(
        Fault::InvalidContainerAttribute.message(),
        "Invalid attributes in #[optcont(...)]"
    );
    assert_eq!(Fault::EnumNotSupported.message(), "Derive for enums is not supported");
    assert_eq!(Fault::UnionNotSupported.message(), "Derive for unions is not supported");
    assert_eq!(Fault::NoParser.message(), "Unable to find parser for this field");
}
