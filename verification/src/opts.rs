//! The attributes of a command-line options structure and what they mean.
//!
//! A structure is annotated as in
//!
//! ```text
//! #[optcont(delimeters = "=:", usage = "tool [options]", default_parser = "Parser")]
//! struct Options {
//!     #[opt(names("-tl", "--time-limit"), desc = "Time limit", value_desc = "<ms>")]
//!     time_limit: u64,
//!     #[flag(name = "-q", desc = "Quiet")]
//!     quiet: bool,
//! }
//! ```
//!
//! The caller parses the source into the tree of this module, in which
//! every node carries a [`Span`]: a number by which the caller finds the
//! place in the source again. This module says what the attributes mean,
//! or which node is at fault and why.

use vstd::prelude::*;

verus! {

/// A handle for a place in the source.
pub type Span = usize;

/// A literal. `text` is what a string literal holds; any other literal has
/// none.
pub struct Lit {
    pub span: Span,
    pub text: Option<String>,
}

/// `ident = lit`
pub struct MetaNameValue {
    pub span: Span,
    pub ident: String,
    pub lit: Lit,
}

/// `ident(nested, ...)`
pub struct MetaList {
    pub span: Span,
    pub ident: String,
    pub nested: Vec<NestedMeta>,
}

/// The content of an attribute.
pub enum Meta {
    /// A bare identifier.
    Word(Span, String),
    List(MetaList),
    NameValue(MetaNameValue),
}

/// What can stand in a list.
pub enum NestedMeta {
    Meta(Meta),
    Literal(Lit),
}

/// What is wrong with an attribute.
#[derive(Copy, Clone, Debug, PartialEq, Eq, Structural)]
pub enum Fault {
    ExpectedStringLiteral,
    ExpectedOptAttribute,
    ValueDescOnOption,
    ParserOnOption,
    UnnamedOption,
    InvalidOptAttribute,
    ExpectedContainerAttribute,
    InvalidContainerAttribute,
    EnumNotSupported,
    UnionNotSupported,
    NoParser,
}

/// A fault and the node that has it.
#[derive(Copy, Clone, Debug, PartialEq, Eq, Structural)]
pub struct OptError {
    pub fault: Fault,
    pub span: Span,
}

impl Fault {
    /// The message for the user.
    pub fn message(&self) -> (text: &'static str)
        ensures
            text@ == match self {
                Fault::ExpectedStringLiteral => "Expected string literal"@,
                Fault::ExpectedOptAttribute =>
                    "Expected one of: name = \"...\", names(...), desc = \"...\", value_desc = \"...\" parser = \"...\""@,
                Fault::ValueDescOnOption => "Value description allowed on options only"@,
                Fault::ParserOnOption => "Parser allowed on options only"@,
                Fault::UnnamedOption => "Unnamed options are not allowed"@,
                Fault::InvalidOptAttribute =>
                    "Invalid attribute in #[opt(...)] or in #[flag(...)]"@,
                Fault::ExpectedContainerAttribute =>
                    "Expected one of: delimeters = \"...\", usage = \"...\" default_parser = \"...\""@,
                Fault::InvalidContainerAttribute => "Invalid attributes in #[optcont(...)]"@,
                Fault::EnumNotSupported => "Derive for enums is not supported"@,
                Fault::UnionNotSupported => "Derive for unions is not supported"@,
                Fault::NoParser => "Unable to find parser for this field"@,
            },
    {
        match self {
            Fault::ExpectedStringLiteral => "Expected string literal",
            Fault::ExpectedOptAttribute =>
                "Expected one of: name = \"...\", names(...), desc = \"...\", value_desc = \"...\" parser = \"...\"",
            Fault::ValueDescOnOption => "Value description allowed on options only",
            Fault::ParserOnOption => "Parser allowed on options only",
            Fault::UnnamedOption => "Unnamed options are not allowed",
            Fault::InvalidOptAttribute => "Invalid attribute in #[opt(...)] or in #[flag(...)]",
            Fault::ExpectedContainerAttribute =>
                "Expected one of: delimeters = \"...\", usage = \"...\" default_parser = \"...\"",
            Fault::InvalidContainerAttribute => "Invalid attributes in #[optcont(...)]",
            Fault::EnumNotSupported => "Derive for enums is not supported",
            Fault::UnionNotSupported => "Derive for unions is not supported",
            Fault::NoParser => "Unable to find parser for this field",
        }
    }
}

impl Meta {
    pub open spec fn spec_span(self) -> Span {
        match self {
            Meta::Word(span, _) => span,
            Meta::List(list) => list.span,
            Meta::NameValue(nv) => nv.span,
        }
    }

    /// The place of the whole item.
    pub fn span(&self) -> (span: Span)
        ensures
            span == self.spec_span(),
    {
        match self {
            Meta::Word(span, _) => *span,
            Meta::List(list) => list.span,
            Meta::NameValue(nv) => nv.span,
        }
    }
}

impl NestedMeta {
    pub open spec fn spec_span(self) -> Span {
        match self {
            NestedMeta::Meta(meta) => meta.spec_span(),
            NestedMeta::Literal(lit) => lit.span,
        }
    }

    /// The place of the whole item.
    pub fn span(&self) -> (span: Span)
        ensures
            span == self.spec_span(),
    {
        match self {
            NestedMeta::Meta(meta) => meta.span(),
            NestedMeta::Literal(lit) => lit.span,
        }
    }
}

/// Whether `ident` is the word `word`.
fn is_word(ident: &String, word: &'static str) -> (r: bool)
    ensures
        r == (ident@ == word@),
{
    let word: String = word.to_owned();
    *ident == word
}

/// The texts of some strings.
pub open spec fn texts(strings: Seq<String>) -> Seq<Seq<char>> {
    Seq::new(strings.len(), |i: int| strings[i]@)
}

/// The text of a result that holds a string.
pub open spec fn text_view(r: Result<String, OptError>) -> Result<Seq<char>, OptError> {
    match r {
        Ok(s) => Ok(s@),
        Err(e) => Err(e),
    }
}

/// The text of a string literal; any other literal is at fault.
pub open spec fn spec_expect_str(lit: Lit) -> Result<Seq<char>, OptError> {
    match lit.text {
        Some(s) => Ok(s@),
        None => Err(OptError { fault: Fault::ExpectedStringLiteral, span: lit.span }),
    }
}

/// The text of a string literal; any other literal is at fault.
pub fn expect_str(lit: &Lit) -> (r: Result<String, OptError>)
    ensures
        text_view(r) == spec_expect_str(*lit),
{
    match &lit.text {
        Some(s) => Ok(s.clone()),
        None => Err(OptError { fault: Fault::ExpectedStringLiteral, span: lit.span }),
    }
}

/// A copy of some strings.
fn clone_strings(strings: &Vec<String>) -> (copy: Vec<String>)
    ensures
        copy@ == strings@,
{
    let mut copy: Vec<String> = Vec::new();
    let mut i: usize = 0;
    while i < strings.len()
        invariant
            i <= strings@.len(),
            copy@ == strings@.take(i as int),
        decreases strings@.len() - i,
    {
        copy.push(strings[i].clone());
        assert(strings@.take(i + 1) == strings@.take(i as int).push(strings@[i as int]));
        i = i + 1;
    }
    assert(strings@.take(i as int) == strings@);
    copy
}


/// One setting inside `#[opt(...)]` or `#[flag(...)]`, with the place it
/// stands at.
pub enum OptAttribute {
    Name(Span, String),
    Names(Span, Vec<String>),
    Desc(Span, String),
    ValueDesc(Span, String),
    Parser(Span, String),
}

/// The view of an [`OptAttribute`]: its texts in place of its strings.
pub enum OptAttributeView {
    Name(Span, Seq<char>),
    Names(Span, Seq<Seq<char>>),
    Desc(Span, Seq<char>),
    ValueDesc(Span, Seq<char>),
    Parser(Span, Seq<char>),
}

impl View for OptAttribute {
    type V = OptAttributeView;

    open spec fn view(&self) -> OptAttributeView {
        match self {
            OptAttribute::Name(span, s) => OptAttributeView::Name(*span, s@),
            OptAttribute::Names(span, v) => OptAttributeView::Names(*span, texts(v@)),
            OptAttribute::Desc(span, s) => OptAttributeView::Desc(*span, s@),
            OptAttribute::ValueDesc(span, s) => OptAttributeView::ValueDesc(*span, s@),
            OptAttribute::Parser(span, s) => OptAttributeView::Parser(*span, s@),
        }
    }
}

/// The view of a result that holds an [`OptAttribute`].
pub open spec fn attribute_view(r: Result<OptAttribute, OptError>) -> Result<
    OptAttributeView,
    OptError,
> {
    match r {
        Ok(a) => Ok(a@),
        Err(e) => Err(e),
    }
}

/// The error of the place at which `ident(...)` or `ident = ...` is none
/// of the settings of an option.
pub open spec fn expected_opt_attribute(span: Span) -> OptError {
    OptError { fault: Fault::ExpectedOptAttribute, span }
}

/// The name that an entry of `names(...)` gives: the entry has to be a
/// string literal.
pub open spec fn spec_name_of(entry: NestedMeta) -> Result<Seq<char>, OptError> {
    match entry {
        NestedMeta::Literal(lit) => spec_expect_str(lit),
        NestedMeta::Meta(meta) => Err(
            OptError { fault: Fault::ExpectedStringLiteral, span: meta.spec_span() },
        ),
    }
}

/// The names that the entries of `names(...)` give, or the error of the
/// first entry that gives none.
pub open spec fn spec_names_of(entries: Seq<NestedMeta>) -> Result<Seq<Seq<char>>, OptError>
    decreases entries.len(),
{
    if entries.len() == 0 {
        Ok(Seq::empty())
    } else {
        match spec_names_of(entries.drop_last()) {
            Err(e) => Err(e),
            Ok(names) => match spec_name_of(entries.last()) {
                Ok(name) => Ok(names.push(name)),
                Err(e) => Err(e),
            },
        }
    }
}

/// An error among the first entries is the error of all of them.
pub proof fn law_names_of_first_error(entries: Seq<NestedMeta>, k: int)
    requires
        0 <= k <= entries.len(),
        spec_names_of(entries.take(k)) is Err,
    ensures
        spec_names_of(entries) == spec_names_of(entries.take(k)),
    decreases entries.len(),
{
    if k < entries.len() {
        assert(entries.drop_last().take(k) == entries.take(k));
        law_names_of_first_error(entries.drop_last(), k);
    } else {
        assert(entries.take(k) == entries);
    }
}

/// What `ident = lit` sets: one of `name`, `desc`, `value_desc` and
/// `parser`, each with a string literal.
pub open spec fn spec_from_name_value(nv: MetaNameValue) -> Result<OptAttributeView, OptError> {
    if nv.ident@ == "name"@ {
        match spec_expect_str(nv.lit) {
            Ok(s) => Ok(OptAttributeView::Name(nv.span, s)),
            Err(e) => Err(e),
        }
    } else if nv.ident@ == "desc"@ {
        match spec_expect_str(nv.lit) {
            Ok(s) => Ok(OptAttributeView::Desc(nv.span, s)),
            Err(e) => Err(e),
        }
    } else if nv.ident@ == "value_desc"@ {
        match spec_expect_str(nv.lit) {
            Ok(s) => Ok(OptAttributeView::ValueDesc(nv.span, s)),
            Err(e) => Err(e),
        }
    } else if nv.ident@ == "parser"@ {
        match spec_expect_str(nv.lit) {
            Ok(s) => Ok(OptAttributeView::Parser(nv.span, s)),
            Err(e) => Err(e),
        }
    } else {
        Err(expected_opt_attribute(nv.span))
    }
}

/// What `names(...)` sets: the names that its entries give.
pub open spec fn spec_names_from_meta_list(list: MetaList) -> Result<OptAttributeView, OptError> {
    match spec_names_of(list.nested@) {
        Ok(names) => Ok(OptAttributeView::Names(list.span, names)),
        Err(e) => Err(e),
    }
}

/// What one item of `#[opt(...)]` or `#[flag(...)]` sets: `names(...)`,
/// or `ident = lit` with one of the four settings.
pub open spec fn spec_attribute_from_meta(meta: Meta) -> Result<OptAttributeView, OptError> {
    match meta {
        Meta::List(list) => if list.ident@ != "names"@ {
            Err(expected_opt_attribute(list.span))
        } else {
            spec_names_from_meta_list(list)
        },
        Meta::NameValue(nv) => spec_from_name_value(nv),
        Meta::Word(span, _) => Err(expected_opt_attribute(span)),
    }
}

impl OptAttribute {
    /// Reads `names(...)`.
    pub fn names_from_meta_list(list: &MetaList) -> (r: Result<OptAttribute, OptError>)
        ensures
            attribute_view(r) == spec_names_from_meta_list(*list),
    {
        let mut names: Vec<String> = Vec::new();
        let mut i: usize = 0;
        assert(texts(names@) == Seq::<Seq<char>>::empty());
        while i < list.nested.len()
            invariant
                i <= list.nested@.len(),
                spec_names_of(list.nested@.take(i as int)) == Ok::<Seq<Seq<char>>, OptError>(
                    texts(names@),
                ),
            decreases list.nested@.len() - i,
        {
            proof {
                let upto = list.nested@.take(i + 1);
                assert(upto.drop_last() == list.nested@.take(i as int));
                assert(upto.last() == list.nested@[i as int]);
            }
            let name: Result<String, OptError> = match &list.nested[i] {
                NestedMeta::Literal(lit) => expect_str(lit),
                NestedMeta::Meta(meta) => Err(
                    OptError { fault: Fault::ExpectedStringLiteral, span: meta.span() },
                ),
            };
            match name {
                Ok(name) => {
                    let ghost before = names@;
                    names.push(name);
                    assert(texts(names@) == texts(before).push(name@));
                },
                Err(e) => {
                    proof {
                        law_names_of_first_error(list.nested@, i + 1);
                    }
                    return Err(e);
                },
            }
            i = i + 1;
        }
        assert(list.nested@.take(i as int) == list.nested@);
        Ok(OptAttribute::Names(list.span, names))
    }

    /// Reads `ident = lit`.
    pub fn from_name_value(nameval: &MetaNameValue) -> (r: Result<OptAttribute, OptError>)
        ensures
            attribute_view(r) == spec_from_name_value(*nameval),
    {
        if is_word(&nameval.ident, "name") {
            match expect_str(&nameval.lit) {
                Ok(s) => Ok(OptAttribute::Name(nameval.span, s)),
                Err(e) => Err(e),
            }
        } else if is_word(&nameval.ident, "desc") {
            match expect_str(&nameval.lit) {
                Ok(s) => Ok(OptAttribute::Desc(nameval.span, s)),
                Err(e) => Err(e),
            }
        } else if is_word(&nameval.ident, "value_desc") {
            match expect_str(&nameval.lit) {
                Ok(s) => Ok(OptAttribute::ValueDesc(nameval.span, s)),
                Err(e) => Err(e),
            }
        } else if is_word(&nameval.ident, "parser") {
            match expect_str(&nameval.lit) {
                Ok(s) => Ok(OptAttribute::Parser(nameval.span, s)),
                Err(e) => Err(e),
            }
        } else {
            Err(OptError { fault: Fault::ExpectedOptAttribute, span: nameval.span })
        }
    }

    /// Reads one item of `#[opt(...)]` or `#[flag(...)]`.
    pub fn from_meta(meta: &Meta) -> (r: Result<OptAttribute, OptError>)
        ensures
            attribute_view(r) == spec_attribute_from_meta(*meta),
    {
        match meta {
            Meta::List(list) => {
                if !is_word(&list.ident, "names") {
                    Err(OptError { fault: Fault::ExpectedOptAttribute, span: list.span })
                } else {
                    OptAttribute::names_from_meta_list(list)
                }
            },
            Meta::NameValue(nameval) => OptAttribute::from_name_value(nameval),
            Meta::Word(span, _) => Err(
                OptError { fault: Fault::ExpectedOptAttribute, span: *span },
            ),
        }
    }
}


/// What an option with a value has beyond a flag.
pub struct OptKindOpt {
    /// How the help text shows the value.
    pub value_desc: String,
    /// The path of the parser for the value, where the field has its own.
    pub parser: Option<String>,
}

/// What kind of option a field is.
pub enum OptKind {
    /// No option at all.
    Invalid,
    /// An option that takes a value.
    Opt(OptKindOpt),
    /// A flag: present or absent.
    Flag,
}

/// One option of the structure.
pub struct Opt {
    pub kind: OptKind,
    /// The names under which the option can be given.
    pub names: Vec<String>,
    /// The description for the help text.
    pub desc: String,
    /// The field that the option sets.
    pub field: Span,
}

/// The view of an [`OptKind`].
pub enum OptKindView {
    Invalid,
    Opt { value_desc: Seq<char>, parser: Option<Seq<char>> },
    Flag,
}

/// The view of an [`Opt`].
pub struct OptView {
    pub kind: OptKindView,
    pub names: Seq<Seq<char>>,
    pub desc: Seq<char>,
    pub field: Span,
}

/// The text of a string that may be absent.
pub open spec fn optional_text(s: Option<String>) -> Option<Seq<char>> {
    match s {
        Some(s) => Some(s@),
        None => None,
    }
}

impl View for OptKind {
    type V = OptKindView;

    open spec fn view(&self) -> OptKindView {
        match self {
            OptKind::Invalid => OptKindView::Invalid,
            OptKind::Opt(o) => OptKindView::Opt {
                value_desc: o.value_desc@,
                parser: optional_text(o.parser),
            },
            OptKind::Flag => OptKindView::Flag,
        }
    }
}

impl View for Opt {
    type V = OptView;

    open spec fn view(&self) -> OptView {
        OptView {
            kind: self.kind@,
            names: texts(self.names@),
            desc: self.desc@,
            field: self.field,
        }
    }
}

/// The views of some attributes.
pub open spec fn attribute_views(attrs: Seq<OptAttribute>) -> Seq<OptAttributeView> {
    Seq::new(attrs.len(), |i: int| attrs[i]@)
}

/// The views of some options.
pub open spec fn opt_views(opts: Seq<Opt>) -> Seq<OptView> {
    Seq::new(opts.len(), |i: int| opts[i]@)
}

/// The view of a result that holds an [`Opt`].
pub open spec fn opt_view(r: Result<Opt, OptError>) -> Result<OptView, OptError> {
    match r {
        Ok(o) => Ok(o@),
        Err(e) => Err(e),
    }
}

/// The view of a result that holds options.
pub open spec fn opts_view(r: Result<Vec<Opt>, OptError>) -> Result<Seq<OptView>, OptError> {
    match r {
        Ok(v) => Ok(opt_views(v@)),
        Err(e) => Err(e),
    }
}

/// The kind that the name of an attribute stands for: `opt` for an option
/// with a value, no description of it and no parser yet; `flag` for a flag.
pub open spec fn spec_kind_of(ident: Seq<char>) -> OptKindView {
    if ident == "opt"@ {
        OptKindView::Opt { value_desc: Seq::empty(), parser: None }
    } else if ident == "flag"@ {
        OptKindView::Flag
    } else {
        OptKindView::Invalid
    }
}

/// An option of `kind` for `field`, without names or description.
pub open spec fn spec_new_opt(kind: OptKindView, field: Span) -> OptView {
    OptView { kind, names: Seq::empty(), desc: Seq::empty(), field }
}

/// What one item inside `#[opt(...)]` or `#[flag(...)]` sets. A literal
/// sets nothing and is at fault.
pub open spec fn spec_attribute_of(item: NestedMeta) -> Result<OptAttributeView, OptError> {
    match item {
        NestedMeta::Meta(meta) => spec_attribute_from_meta(meta),
        NestedMeta::Literal(lit) => Err(expected_opt_attribute(lit.span)),
    }
}

/// What the items set, in order, or the error of the first item that is at
/// fault.
pub open spec fn spec_attributes_of(items: Seq<NestedMeta>) -> Result<
    Seq<OptAttributeView>,
    OptError,
>
    decreases items.len(),
{
    if items.len() == 0 {
        Ok(Seq::empty())
    } else {
        match spec_attributes_of(items.drop_last()) {
            Err(e) => Err(e),
            Ok(attrs) => match spec_attribute_of(items.last()) {
                Ok(attr) => Ok(attrs.push(attr)),
                Err(e) => Err(e),
            },
        }
    }
}

/// An error among the first items is the error of all of them.
pub proof fn law_attributes_of_first_error(items: Seq<NestedMeta>, k: int)
    requires
        0 <= k <= items.len(),
        spec_attributes_of(items.take(k)) is Err,
    ensures
        spec_attributes_of(items) == spec_attributes_of(items.take(k)),
    decreases items.len(),
{
    if k < items.len() {
        assert(items.drop_last().take(k) == items.take(k));
        law_attributes_of_first_error(items.drop_last(), k);
    } else {
        assert(items.take(k) == items);
    }
}

/// The option after one setting. A name replaces all names; a description
/// of the value and a parser are for options with a value only.
pub open spec fn spec_apply(opt: OptView, attr: OptAttributeView) -> Result<OptView, OptError> {
    match attr {
        OptAttributeView::Name(_, s) => Ok(OptView { names: seq![s], ..opt }),
        OptAttributeView::Names(_, v) => Ok(OptView { names: v, ..opt }),
        OptAttributeView::Desc(_, s) => Ok(OptView { desc: s, ..opt }),
        OptAttributeView::ValueDesc(span, s) => match opt.kind {
            OptKindView::Opt { value_desc, parser } => Ok(
                OptView { kind: OptKindView::Opt { value_desc: s, parser }, ..opt },
            ),
            _ => Err(OptError { fault: Fault::ValueDescOnOption, span }),
        },
        OptAttributeView::Parser(span, s) => match opt.kind {
            OptKindView::Opt { value_desc, parser } => Ok(
                OptView { kind: OptKindView::Opt { value_desc, parser: Some(s) }, ..opt },
            ),
            _ => Err(OptError { fault: Fault::ParserOnOption, span }),
        },
    }
}

/// The option after the settings, one after the other, or the error of the
/// first that cannot be applied.
pub open spec fn spec_apply_all(opt: OptView, attrs: Seq<OptAttributeView>) -> Result<
    OptView,
    OptError,
>
    decreases attrs.len(),
{
    if attrs.len() == 0 {
        Ok(opt)
    } else {
        match spec_apply_all(opt, attrs.drop_last()) {
            Err(e) => Err(e),
            Ok(so_far) => spec_apply(so_far, attrs.last()),
        }
    }
}

/// An error among the first settings is the error of all of them.
pub proof fn law_apply_all_first_error(opt: OptView, attrs: Seq<OptAttributeView>, k: int)
    requires
        0 <= k <= attrs.len(),
        spec_apply_all(opt, attrs.take(k)) is Err,
    ensures
        spec_apply_all(opt, attrs) == spec_apply_all(opt, attrs.take(k)),
    decreases attrs.len(),
{
    if k < attrs.len() {
        assert(attrs.drop_last().take(k) == attrs.take(k));
        law_apply_all_first_error(opt, attrs.drop_last(), k);
    } else {
        assert(attrs.take(k) == attrs);
    }
}

/// The option that `ident(items...)` on `field` describes: the kind is
/// that of `ident`, the items are read first and then applied in order,
/// and an option without a name is at fault.
pub open spec fn spec_opt_from_meta_list(field: Span, list: MetaList) -> Result<OptView, OptError> {
    match spec_attributes_of(list.nested@) {
        Err(e) => Err(e),
        Ok(attrs) => match spec_apply_all(
            spec_new_opt(spec_kind_of(list.ident@), field),
            attrs,
        ) {
            Err(e) => Err(e),
            Ok(opt) => if opt.names.len() == 0 {
                Err(OptError { fault: Fault::UnnamedOption, span: list.span })
            } else {
                Ok(opt)
            },
        },
    }
}

/// The option that the attribute at `attr` on `field` describes: its
/// content has to be a list.
pub open spec fn spec_opt_from_meta(field: Span, attr: Span, meta: Option<Meta>) -> Result<
    OptView,
    OptError,
> {
    match meta {
        Some(Meta::List(list)) => spec_opt_from_meta_list(field, list),
        _ => Err(OptError { fault: Fault::InvalidOptAttribute, span: attr }),
    }
}

impl Default for OptKindOpt {
    fn default() -> (o: OptKindOpt)
        ensures
            o.value_desc@ == Seq::<char>::empty(),
            o.parser is None,
    {
        OptKindOpt { value_desc: String::new(), parser: None }
    }
}

fn kind_of(ident: &String) -> (kind: OptKind)
    ensures
        kind@ == spec_kind_of(ident@),
{
    if is_word(ident, "opt") {
        OptKind::Opt(OptKindOpt::default())
    } else if is_word(ident, "flag") {
        OptKind::Flag
    } else {
        OptKind::Invalid
    }
}

fn apply(opt: Opt, attr: &OptAttribute) -> (r: Result<Opt, OptError>)
    ensures
        opt_view(r) == spec_apply(opt@, attr@),
{
    let Opt { kind, names, desc, field } = opt;
    match attr {
        OptAttribute::Name(_, s) => {
            let mut one: Vec<String> = Vec::new();
            one.push(s.clone());
            assert(texts(one@) == seq![s@]);
            Ok(Opt { kind, names: one, desc, field })
        },
        OptAttribute::Names(_, v) => Ok(Opt { kind, names: clone_strings(v), desc, field }),
        OptAttribute::Desc(_, s) => Ok(Opt { kind, names, desc: s.clone(), field }),
        OptAttribute::ValueDesc(span, s) => match kind {
            OptKind::Opt(o) => Ok(
                Opt {
                    kind: OptKind::Opt(OptKindOpt { value_desc: s.clone(), parser: o.parser }),
                    names,
                    desc,
                    field,
                },
            ),
            _ => Err(OptError { fault: Fault::ValueDescOnOption, span: *span }),
        },
        OptAttribute::Parser(span, s) => match kind {
            OptKind::Opt(o) => Ok(
                Opt {
                    kind: OptKind::Opt(
                        OptKindOpt { value_desc: o.value_desc, parser: Some(s.clone()) },
                    ),
                    names,
                    desc,
                    field,
                },
            ),
            _ => Err(OptError { fault: Fault::ParserOnOption, span: *span }),
        },
    }
}

impl Opt {
    /// An option of `kind` for `field`, without names or description.
    pub fn new(kind: OptKind, field: Span) -> (opt: Opt)
        ensures
            opt@ == spec_new_opt(kind@, field),
    {
        let opt = Opt { kind, names: Vec::new(), desc: String::new(), field };
        assert(texts(opt.names@) == Seq::<Seq<char>>::empty());
        opt
    }

    /// Reads `opt(...)` or `flag(...)` on `field`.
    pub fn from_meta_list(field: Span, list: &MetaList) -> (r: Result<Opt, OptError>)
        ensures
            opt_view(r) == spec_opt_from_meta_list(field, *list),
    {
        let mut attrs: Vec<OptAttribute> = Vec::new();
        let mut i: usize = 0;
        assert(attribute_views(attrs@) == Seq::<OptAttributeView>::empty());
        while i < list.nested.len()
            invariant
                i <= list.nested@.len(),
                spec_attributes_of(list.nested@.take(i as int)) == Ok::<
                    Seq<OptAttributeView>,
                    OptError,
                >(attribute_views(attrs@)),
            decreases list.nested@.len() - i,
        {
            proof {
                let upto = list.nested@.take(i + 1);
                assert(upto.drop_last() == list.nested@.take(i as int));
                assert(upto.last() == list.nested@[i as int]);
            }
            let attr: Result<OptAttribute, OptError> = match &list.nested[i] {
                NestedMeta::Meta(meta) => OptAttribute::from_meta(meta),
                NestedMeta::Literal(lit) => Err(
                    OptError { fault: Fault::ExpectedOptAttribute, span: lit.span },
                ),
            };
            match attr {
                Ok(attr) => {
                    let ghost before = attrs@;
                    attrs.push(attr);
                    assert(attribute_views(attrs@) == attribute_views(before).push(attr@));
                },
                Err(e) => {
                    proof {
                        law_attributes_of_first_error(list.nested@, i + 1);
                    }
                    return Err(e);
                },
            }
            i = i + 1;
        }
        assert(list.nested@.take(i as int) == list.nested@);

        let mut opt: Opt = Opt::new(kind_of(&list.ident), field);
        let ghost start = opt@;
        let ghost all = attribute_views(attrs@);
        let mut j: usize = 0;
        while j < attrs.len()
            invariant
                j <= attrs@.len(),
                all == attribute_views(attrs@),
                spec_attributes_of(list.nested@) == Ok::<Seq<OptAttributeView>, OptError>(all),
                start == spec_new_opt(spec_kind_of(list.ident@), field),
                spec_apply_all(start, all.take(j as int)) == Ok::<OptView, OptError>(opt@),
            decreases attrs@.len() - j,
        {
            proof {
                let upto = all.take(j + 1);
                assert(upto.drop_last() == all.take(j as int));
                assert(upto.last() == attrs@[j as int]@);
            }
            match apply(opt, &attrs[j]) {
                Ok(next) => {
                    opt = next;
                },
                Err(e) => {
                    proof {
                        law_apply_all_first_error(start, all, j + 1);
                    }
                    return Err(e);
                },
            }
            j = j + 1;
        }
        assert(all.take(j as int) == all);

        if opt.names.len() == 0 {
            return Err(OptError { fault: Fault::UnnamedOption, span: list.span });
        }
        Ok(opt)
    }

    /// Reads the attribute at `attr` on `field`, whose content is `meta`.
    pub fn from_meta(field: Span, attr: Span, meta: &Option<Meta>) -> (r: Result<Opt, OptError>)
        ensures
            opt_view(r) == spec_opt_from_meta(field, attr, *meta),
    {
        match meta {
            Some(Meta::List(list)) => Opt::from_meta_list(field, list),
            _ => Err(OptError { fault: Fault::InvalidOptAttribute, span: attr }),
        }
    }
}


/// An attribute as it stands on a field or on the structure.
pub struct Attribute {
    pub span: Span,
    /// The segments of its path: `opt` for `#[opt(...)]`.
    pub path: Vec<String>,
    /// Its content, where it has the form of a word, a list or a
    /// name and a value.
    pub meta: Option<Meta>,
}

/// A field of the structure.
pub struct Field {
    pub span: Span,
    pub attrs: Vec<Attribute>,
}

/// What the derive is applied to.
pub enum Data {
    Struct(Vec<Field>),
    Enum,
    Union,
}

/// The input of the derive.
pub struct DeriveInput {
    /// The place of the name of the type.
    pub ident: Span,
    pub attrs: Vec<Attribute>,
    pub data: Data,
}

impl Attribute {
    /// Whether the attribute is `#[word...]`: its path is the one segment
    /// `word`.
    pub open spec fn spec_is_named(self, word: Seq<char>) -> bool {
        self.path@.len() == 1 && self.path@[0]@ == word
    }

    /// Whether the attribute describes an option: `#[opt...]` or
    /// `#[flag...]`.
    pub open spec fn describes_option(self) -> bool {
        self.spec_is_named("opt"@) || self.spec_is_named("flag"@)
    }

    fn is_named(&self, word: &'static str) -> (r: bool)
        ensures
            r == self.spec_is_named(word@),
    {
        self.path.len() == 1 && is_word(&self.path[0], word)
    }
}

/// The options that the attributes of a field describe. The attributes are
/// read from the last to the first, and so are the options ordered; the
/// first attribute read that is at fault gives the error.
pub open spec fn spec_field_opts(field: Span, attrs: Seq<Attribute>) -> Result<
    Seq<OptView>,
    OptError,
>
    decreases attrs.len(),
{
    if attrs.len() == 0 {
        Ok(Seq::empty())
    } else if attrs.last().describes_option() {
        match spec_opt_from_meta(field, attrs.last().span, attrs.last().meta) {
            Err(e) => Err(e),
            Ok(opt) => match spec_field_opts(field, attrs.drop_last()) {
                Err(e) => Err(e),
                Ok(rest) => Ok(seq![opt] + rest),
            },
        }
    } else {
        spec_field_opts(field, attrs.drop_last())
    }
}

/// The options of a field: those that its attributes describe, or where
/// they describe none, one that is no option at all.
pub open spec fn spec_opts_from_field(field: Field) -> Result<Seq<OptView>, OptError> {
    match spec_field_opts(field.span, field.attrs@) {
        Err(e) => Err(e),
        Ok(opts) => if opts.len() == 0 {
            Ok(seq![spec_new_opt(OptKindView::Invalid, field.span)])
        } else {
            Ok(opts)
        },
    }
}

impl Opt {
    /// Reads the options of a field.
    pub fn from_field(field: &Field) -> (r: Result<Vec<Opt>, OptError>)
        ensures
            opts_view(r) == spec_opts_from_field(*field),
    {
        let mut opts: Vec<Opt> = Vec::new();
        let mut i: usize = field.attrs.len();
        assert(field.attrs@.take(i as int) == field.attrs@);
        assert(opt_views(opts@) == Seq::<OptView>::empty());
        while i > 0
            invariant
                i <= field.attrs@.len(),
                match spec_field_opts(field.span, field.attrs@.take(i as int)) {
                    Ok(rest) => spec_field_opts(field.span, field.attrs@) == Ok::<
                        Seq<OptView>,
                        OptError,
                    >(opt_views(opts@) + rest),
                    Err(e) => spec_field_opts(field.span, field.attrs@) == Err::<
                        Seq<OptView>,
                        OptError,
                    >(e),
                },
            decreases i,
        {
            proof {
                let upto = field.attrs@.take(i as int);
                assert(upto.drop_last() == field.attrs@.take(i - 1));
                assert(upto.last() == field.attrs@[i - 1]);
            }
            i = i - 1;
            let attr: &Attribute = &field.attrs[i];
            if attr.is_named("opt") || attr.is_named("flag") {
                match Opt::from_meta(field.span, attr.span, &attr.meta) {
                    Ok(opt) => {
                        let ghost before = opts@;
                        opts.push(opt);
                        proof {
                            assert(opt_views(opts@) == opt_views(before).push(opt@));
                            if let Ok(rest) = spec_field_opts(
                                field.span,
                                field.attrs@.take(i as int),
                            ) {
                                assert(opt_views(before) + (seq![opt@] + rest) == opt_views(opts@)
                                    + rest);
                            }
                        }
                    },
                    Err(e) => {
                        return Err(e);
                    },
                }
            }
        }
        assert(field.attrs@.take(0) == Seq::<Attribute>::empty());
        assert(opt_views(opts@) + Seq::<OptView>::empty() == opt_views(opts@));
        if opts.len() == 0 {
            let invalid: Opt = Opt::new(OptKind::Invalid, field.span);
            opts.push(invalid);
            assert(opt_views(opts@) == seq![invalid@]);
        }
        Ok(opts)
    }
}

/// One setting inside `#[optcont(...)]`.
pub enum OptContainerAttribute {
    Delimeters(String),
    Usage(String),
    DefaultParser(String),
}

/// The view of an [`OptContainerAttribute`].
pub enum OptContainerAttributeView {
    Delimeters(Seq<char>),
    Usage(Seq<char>),
    DefaultParser(Seq<char>),
}

impl View for OptContainerAttribute {
    type V = OptContainerAttributeView;

    open spec fn view(&self) -> OptContainerAttributeView {
        match self {
            OptContainerAttribute::Delimeters(s) => OptContainerAttributeView::Delimeters(s@),
            OptContainerAttribute::Usage(s) => OptContainerAttributeView::Usage(s@),
            OptContainerAttribute::DefaultParser(s) => OptContainerAttributeView::DefaultParser(
                s@,
            ),
        }
    }
}

/// The views of some settings.
pub open spec fn container_attribute_views(attrs: Seq<OptContainerAttribute>) -> Seq<
    OptContainerAttributeView,
> {
    Seq::new(attrs.len(), |i: int| attrs[i]@)
}

/// The view of a result that holds a setting.
pub open spec fn container_attribute_view(r: Result<OptContainerAttribute, OptError>) -> Result<
    OptContainerAttributeView,
    OptError,
> {
    match r {
        Ok(a) => Ok(a@),
        Err(e) => Err(e),
    }
}

/// The view of a result that holds settings.
pub open spec fn container_attributes_view(
    r: Result<Vec<OptContainerAttribute>, OptError>,
) -> Result<Seq<OptContainerAttributeView>, OptError> {
    match r {
        Ok(v) => Ok(container_attribute_views(v@)),
        Err(e) => Err(e),
    }
}

/// The error of the place at which something is none of the settings of
/// the structure.
pub open spec fn expected_container_attribute(span: Span) -> OptError {
    OptError { fault: Fault::ExpectedContainerAttribute, span }
}

/// What one item of `#[optcont(...)]` sets: `ident = lit` with one of
/// `delimeters`, `usage` and `default_parser`, each with a string literal.
pub open spec fn spec_container_attribute_from_meta(meta: Meta) -> Result<
    OptContainerAttributeView,
    OptError,
> {
    match meta {
        Meta::NameValue(nv) => if nv.ident@ == "delimeters"@ {
            match spec_expect_str(nv.lit) {
                Ok(s) => Ok(OptContainerAttributeView::Delimeters(s)),
                Err(e) => Err(e),
            }
        } else if nv.ident@ == "usage"@ {
            match spec_expect_str(nv.lit) {
                Ok(s) => Ok(OptContainerAttributeView::Usage(s)),
                Err(e) => Err(e),
            }
        } else if nv.ident@ == "default_parser"@ {
            match spec_expect_str(nv.lit) {
                Ok(s) => Ok(OptContainerAttributeView::DefaultParser(s)),
                Err(e) => Err(e),
            }
        } else {
            Err(expected_container_attribute(nv.span))
        },
        _ => Err(expected_container_attribute(meta.spec_span())),
    }
}

/// What one item inside `#[optcont(...)]` sets. A literal sets nothing and
/// is at fault.
pub open spec fn spec_container_attribute_of(item: NestedMeta) -> Result<
    OptContainerAttributeView,
    OptError,
> {
    match item {
        NestedMeta::Meta(meta) => spec_container_attribute_from_meta(meta),
        NestedMeta::Literal(lit) => Err(expected_container_attribute(lit.span)),
    }
}

/// What the items set, in order, or the error of the first item that is at
/// fault.
pub open spec fn spec_container_attributes_of(items: Seq<NestedMeta>) -> Result<
    Seq<OptContainerAttributeView>,
    OptError,
>
    decreases items.len(),
{
    if items.len() == 0 {
        Ok(Seq::empty())
    } else {
        match spec_container_attributes_of(items.drop_last()) {
            Err(e) => Err(e),
            Ok(attrs) => match spec_container_attribute_of(items.last()) {
                Ok(attr) => Ok(attrs.push(attr)),
                Err(e) => Err(e),
            },
        }
    }
}

/// An error among the first items is the error of all of them.
pub proof fn law_container_attributes_of_first_error(items: Seq<NestedMeta>, k: int)
    requires
        0 <= k <= items.len(),
        spec_container_attributes_of(items.take(k)) is Err,
    ensures
        spec_container_attributes_of(items) == spec_container_attributes_of(items.take(k)),
    decreases items.len(),
{
    if k < items.len() {
        assert(items.drop_last().take(k) == items.take(k));
        law_container_attributes_of_first_error(items.drop_last(), k);
    } else {
        assert(items.take(k) == items);
    }
}

/// What `#[optcont...]` sets: its content has to be a list.
pub open spec fn spec_parse_meta(attr: Span, meta: Option<Meta>) -> Result<
    Seq<OptContainerAttributeView>,
    OptError,
> {
    match meta {
        Some(Meta::List(list)) => spec_container_attributes_of(list.nested@),
        _ => Err(OptError { fault: Fault::InvalidContainerAttribute, span: attr }),
    }
}

/// Settings and errors gathered side by side.
pub struct Gathered<T> {
    pub items: Seq<T>,
    pub errors: Seq<OptError>,
}

impl<T> Gathered<T> {
    /// The items where nothing went wrong, else all the errors.
    pub open spec fn outcome(self) -> Result<Seq<T>, Seq<OptError>> {
        if self.errors.len() == 0 {
            Ok(self.items)
        } else {
            Err(self.errors)
        }
    }
}

/// What the `#[optcont...]` attributes among `attrs` set, in order, and
/// the errors of those that are at fault, in order.
pub open spec fn spec_gather_attrs(attrs: Seq<Attribute>) -> Gathered<OptContainerAttributeView>
    decreases attrs.len(),
{
    if attrs.len() == 0 {
        Gathered { items: Seq::empty(), errors: Seq::empty() }
    } else {
        let before = spec_gather_attrs(attrs.drop_last());
        if attrs.last().spec_is_named("optcont"@) {
            match spec_parse_meta(attrs.last().span, attrs.last().meta) {
                Ok(found) => Gathered { items: before.items + found, ..before },
                Err(e) => Gathered { errors: before.errors.push(e), ..before },
            }
        } else {
            before
        }
    }
}

impl OptContainerAttribute {
    /// Reads one item of `#[optcont(...)]`.
    pub fn from_meta(meta: &Meta) -> (r: Result<OptContainerAttribute, OptError>)
        ensures
            container_attribute_view(r) == spec_container_attribute_from_meta(*meta),
    {
        match meta {
            Meta::NameValue(nameval) => {
                if is_word(&nameval.ident, "delimeters") {
                    match expect_str(&nameval.lit) {
                        Ok(s) => Ok(OptContainerAttribute::Delimeters(s)),
                        Err(e) => Err(e),
                    }
                } else if is_word(&nameval.ident, "usage") {
                    match expect_str(&nameval.lit) {
                        Ok(s) => Ok(OptContainerAttribute::Usage(s)),
                        Err(e) => Err(e),
                    }
                } else if is_word(&nameval.ident, "default_parser") {
                    match expect_str(&nameval.lit) {
                        Ok(s) => Ok(OptContainerAttribute::DefaultParser(s)),
                        Err(e) => Err(e),
                    }
                } else {
                    Err(OptError { fault: Fault::ExpectedContainerAttribute, span: nameval.span })
                }
            },
            _ => Err(OptError { fault: Fault::ExpectedContainerAttribute, span: meta.span() }),
        }
    }
}

/// What the attributes of a structure and of its fields come to.
pub struct OptContainer {
    /// The characters that may stand between the name of an option and its
    /// value.
    pub delimeters: String,
    /// The usage line of the help text.
    pub usage: String,
    /// The path of the parser for the fields that name none of their own.
    pub default_parser: Option<String>,
    pub opts: Vec<Opt>,
}

/// The view of an [`OptContainer`].
pub struct OptContainerView {
    pub delimeters: Seq<char>,
    pub usage: Seq<char>,
    pub default_parser: Option<Seq<char>>,
    pub opts: Seq<OptView>,
}

impl View for OptContainer {
    type V = OptContainerView;

    open spec fn view(&self) -> OptContainerView {
        OptContainerView {
            delimeters: self.delimeters@,
            usage: self.usage@,
            default_parser: optional_text(self.default_parser),
            opts: opt_views(self.opts@),
        }
    }
}

/// The options of the fields, in order, and the errors of the fields that
/// are at fault, in order.
pub open spec fn spec_gather_opts(fields: Seq<Field>) -> Gathered<OptView>
    decreases fields.len(),
{
    if fields.len() == 0 {
        Gathered { items: Seq::empty(), errors: Seq::empty() }
    } else {
        let before = spec_gather_opts(fields.drop_last());
        match spec_opts_from_field(fields.last()) {
            Ok(found) => Gathered { items: before.items + found, ..before },
            Err(e) => Gathered { errors: before.errors.push(e), ..before },
        }
    }
}

/// The options of the input: only a structure has any.
pub open spec fn spec_init_opts(ast: DeriveInput) -> Result<Seq<OptView>, Seq<OptError>> {
    match ast.data {
        Data::Struct(fields) => spec_gather_opts(fields@).outcome(),
        Data::Enum => Err(seq![OptError { fault: Fault::EnumNotSupported, span: ast.ident }]),
        Data::Union => Err(seq![OptError { fault: Fault::UnionNotSupported, span: ast.ident }]),
    }
}

/// The container after one setting.
pub open spec fn spec_configure(
    cont: OptContainerView,
    attr: OptContainerAttributeView,
) -> OptContainerView {
    match attr {
        OptContainerAttributeView::Delimeters(d) => OptContainerView { delimeters: d, ..cont },
        OptContainerAttributeView::Usage(u) => OptContainerView { usage: u, ..cont },
        OptContainerAttributeView::DefaultParser(p) => OptContainerView {
            default_parser: Some(p),
            ..cont
        },
    }
}

/// The container after the settings, one after the other: of two settings
/// of one thing the later one stays.
pub open spec fn spec_configure_all(
    cont: OptContainerView,
    attrs: Seq<OptContainerAttributeView>,
) -> OptContainerView
    decreases attrs.len(),
{
    if attrs.len() == 0 {
        cont
    } else {
        spec_configure(spec_configure_all(cont, attrs.drop_last()), attrs.last())
    }
}

/// What the input comes to: the options of the fields, then the settings
/// of the structure. Errors of the fields come alone, without those of the
/// structure.
pub open spec fn spec_from_ast(ast: DeriveInput) -> Result<OptContainerView, Seq<OptError>> {
    match spec_init_opts(ast) {
        Err(errors) => Err(errors),
        Ok(opts) => match spec_gather_attrs(ast.attrs@).outcome() {
            Err(errors) => Err(errors),
            Ok(attrs) => Ok(
                spec_configure_all(
                    OptContainerView {
                        delimeters: Seq::empty(),
                        usage: Seq::empty(),
                        default_parser: None,
                        opts,
                    },
                    attrs,
                ),
            ),
        },
    }
}

/// The view of a result that holds a container.
pub open spec fn container_view(r: Result<OptContainer, Vec<OptError>>) -> Result<
    OptContainerView,
    Seq<OptError>,
> {
    match r {
        Ok(c) => Ok(c@),
        Err(e) => Err(e@),
    }
}

/// The view of a result that holds settings or errors.
pub open spec fn container_attributes_or_errors(
    r: Result<Vec<OptContainerAttribute>, Vec<OptError>>,
) -> Result<Seq<OptContainerAttributeView>, Seq<OptError>> {
    match r {
        Ok(v) => Ok(container_attribute_views(v@)),
        Err(e) => Err(e@),
    }
}

/// The view of a result that holds options or errors.
pub open spec fn opts_or_errors(r: Result<Vec<Opt>, Vec<OptError>>) -> Result<
    Seq<OptView>,
    Seq<OptError>,
> {
    match r {
        Ok(v) => Ok(opt_views(v@)),
        Err(e) => Err(e@),
    }
}

/// The parser for the value of `opt`: its own, else the default of the
/// structure. A field that is no option with a value has none.
pub open spec fn spec_opt_parser(default_parser: Option<Seq<char>>, opt: OptView) -> Result<
    Seq<char>,
    OptError,
> {
    match opt.kind {
        OptKindView::Opt { value_desc, parser: Some(p) } => Ok(p),
        OptKindView::Opt { value_desc, parser: None } => match default_parser {
            Some(p) => Ok(p),
            None => Err(OptError { fault: Fault::NoParser, span: opt.field }),
        },
        _ => Err(OptError { fault: Fault::NoParser, span: opt.field }),
    }
}

impl OptContainer {
    /// Reads the items of `optcont(...)`.
    pub fn parse_meta_list(list: &MetaList) -> (r: Result<Vec<OptContainerAttribute>, OptError>)
        ensures
            container_attributes_view(r) == spec_container_attributes_of(list.nested@),
    {
        let mut attrs: Vec<OptContainerAttribute> = Vec::new();
        let mut i: usize = 0;
        assert(container_attribute_views(attrs@) == Seq::<OptContainerAttributeView>::empty());
        while i < list.nested.len()
            invariant
                i <= list.nested@.len(),
                spec_container_attributes_of(list.nested@.take(i as int)) == Ok::<
                    Seq<OptContainerAttributeView>,
                    OptError,
                >(container_attribute_views(attrs@)),
            decreases list.nested@.len() - i,
        {
            proof {
                let upto = list.nested@.take(i + 1);
                assert(upto.drop_last() == list.nested@.take(i as int));
                assert(upto.last() == list.nested@[i as int]);
            }
            let attr: Result<OptContainerAttribute, OptError> = match &list.nested[i] {
                NestedMeta::Meta(meta) => OptContainerAttribute::from_meta(meta),
                NestedMeta::Literal(lit) => Err(
                    OptError { fault: Fault::ExpectedContainerAttribute, span: lit.span },
                ),
            };
            match attr {
                Ok(attr) => {
                    let ghost before = attrs@;
                    attrs.push(attr);
                    assert(container_attribute_views(attrs@) == container_attribute_views(
                        before,
                    ).push(attr@));
                },
                Err(e) => {
                    proof {
                        law_container_attributes_of_first_error(list.nested@, i + 1);
                    }
                    return Err(e);
                },
            }
            i = i + 1;
        }
        assert(list.nested@.take(i as int) == list.nested@);
        Ok(attrs)
    }

    /// Reads the attribute at `attr`, whose content is `meta`.
    pub fn parse_meta(attr: Span, meta: &Option<Meta>) -> (r: Result<
        Vec<OptContainerAttribute>,
        OptError,
    >)
        ensures
            container_attributes_view(r) == spec_parse_meta(attr, *meta),
    {
        match meta {
            Some(Meta::List(list)) => OptContainer::parse_meta_list(list),
            _ => Err(OptError { fault: Fault::InvalidContainerAttribute, span: attr }),
        }
    }

    /// Reads the `#[optcont...]` attributes among `attrs`: what they set,
    /// or if any is at fault, the errors of all that are.
    pub fn parse_attrs(attrs: &Vec<Attribute>) -> (r: Result<
        Vec<OptContainerAttribute>,
        Vec<OptError>,
    >)
        ensures
            container_attributes_or_errors(r) == spec_gather_attrs(attrs@).outcome(),
            r matches Err(errors) ==> errors@.len() > 0,
    {
        let mut errors: Vec<OptError> = Vec::new();
        let mut result: Vec<OptContainerAttribute> = Vec::new();
        let mut i: usize = 0;
        assert(container_attribute_views(result@) == Seq::<OptContainerAttributeView>::empty());
        while i < attrs.len()
            invariant
                i <= attrs@.len(),
                spec_gather_attrs(attrs@.take(i as int)) == (Gathered {
                    items: container_attribute_views(result@),
                    errors: errors@,
                }),
            decreases attrs@.len() - i,
        {
            proof {
                let upto = attrs@.take(i + 1);
                assert(upto.drop_last() == attrs@.take(i as int));
                assert(upto.last() == attrs@[i as int]);
            }
            let attr: &Attribute = &attrs[i];
            if attr.is_named("optcont") {
                match OptContainer::parse_meta(attr.span, &attr.meta) {
                    Ok(mut found) => {
                        let ghost before = result@;
                        let ghost added = found@;
                        result.append(&mut found);
                        assert(container_attribute_views(result@) == container_attribute_views(
                            before,
                        ) + container_attribute_views(added));
                    },
                    Err(e) => {
                        errors.push(e);
                    },
                }
            }
            i = i + 1;
        }
        assert(attrs@.take(i as int) == attrs@);
        if errors.len() == 0 {
            Ok(result)
        } else {
            Err(errors)
        }
    }

    /// Reads the options of the fields: all of them, or if any field is at
    /// fault, the errors of all that are.
    pub fn init_opts(ast: &DeriveInput) -> (r: Result<Vec<Opt>, Vec<OptError>>)
        ensures
            opts_or_errors(r) == spec_init_opts(*ast),
            r matches Err(errors) ==> errors@.len() > 0,
    {
        let fields: &Vec<Field> = match &ast.data {
            Data::Struct(fields) => fields,
            Data::Enum => {
                let mut errors: Vec<OptError> = Vec::new();
                errors.push(OptError { fault: Fault::EnumNotSupported, span: ast.ident });
                return Err(errors);
            },
            Data::Union => {
                let mut errors: Vec<OptError> = Vec::new();
                errors.push(OptError { fault: Fault::UnionNotSupported, span: ast.ident });
                return Err(errors);
            },
        };
        let mut errors: Vec<OptError> = Vec::new();
        let mut opts: Vec<Opt> = Vec::new();
        let mut i: usize = 0;
        assert(opt_views(opts@) == Seq::<OptView>::empty());
        while i < fields.len()
            invariant
                i <= fields@.len(),
                spec_gather_opts(fields@.take(i as int)) == (Gathered {
                    items: opt_views(opts@),
                    errors: errors@,
                }),
            decreases fields@.len() - i,
        {
            proof {
                let upto = fields@.take(i + 1);
                assert(upto.drop_last() == fields@.take(i as int));
                assert(upto.last() == fields@[i as int]);
            }
            match Opt::from_field(&fields[i]) {
                Ok(mut found) => {
                    let ghost before = opts@;
                    let ghost added = found@;
                    opts.append(&mut found);
                    assert(opt_views(opts@) == opt_views(before) + opt_views(added));
                },
                Err(e) => {
                    errors.push(e);
                },
            }
            i = i + 1;
        }
        assert(fields@.take(i as int) == fields@);
        if errors.len() == 0 {
            Ok(opts)
        } else {
            Err(errors)
        }
    }

    /// Takes in the settings of the structure: what its `#[optcont...]`
    /// attributes set, each in turn. If any attribute is at fault nothing
    /// is taken in, and the errors of all that are come back.
    pub fn init_attrs(&mut self, attrs: &Vec<Attribute>) -> (r: Result<(), Vec<OptError>>)
        ensures
            match spec_gather_attrs(attrs@).outcome() {
                Ok(found) => r is Ok && final(self)@ == spec_configure_all(old(self)@, found),
                Err(errors) => r matches Err(es) && es@ == errors && final(self)@ == old(self)@,
            },
            r matches Err(errors) ==> errors@.len() > 0,
    {
        let found: Vec<OptContainerAttribute> = match OptContainer::parse_attrs(attrs) {
            Ok(found) => found,
            Err(errors) => {
                return Err(errors);
            },
        };
        let ghost all = container_attribute_views(found@);
        let mut i: usize = 0;
        while i < found.len()
            invariant
                i <= found@.len(),
                all == container_attribute_views(found@),
                self@ == spec_configure_all(old(self)@, all.take(i as int)),
            decreases found@.len() - i,
        {
            proof {
                let upto = all.take(i + 1);
                assert(upto.drop_last() == all.take(i as int));
                assert(upto.last() == found@[i as int]@);
            }
            match &found[i] {
                OptContainerAttribute::Delimeters(d) => {
                    self.delimeters = d.clone();
                },
                OptContainerAttribute::Usage(u) => {
                    self.usage = u.clone();
                },
                OptContainerAttribute::DefaultParser(p) => {
                    self.default_parser = Some(p.clone());
                },
            }
            i = i + 1;
        }
        assert(all.take(i as int) == all);
        Ok(())
    }

    /// Reads the whole input.
    pub fn from_ast(ast: &DeriveInput) -> (r: Result<OptContainer, Vec<OptError>>)
        ensures
            container_view(r) == spec_from_ast(*ast),
            r matches Err(errors) ==> errors@.len() > 0,
    {
        let opts: Vec<Opt> = match OptContainer::init_opts(ast) {
            Ok(opts) => opts,
            Err(errors) => {
                return Err(errors);
            },
        };
        let mut cont = OptContainer {
            delimeters: String::new(),
            usage: String::new(),
            default_parser: None,
            opts,
        };
        match cont.init_attrs(&ast.attrs) {
            Ok(()) => Ok(cont),
            Err(errors) => Err(errors),
        }
    }

    /// The parser for the value of `opt`.
    pub fn opt_parser(&self, opt: &Opt) -> (r: Result<String, OptError>)
        ensures
            text_view(r) == spec_opt_parser(self@.default_parser, opt@),
    {
        if let OptKind::Opt(o) = &opt.kind {
            if let Some(parser) = &o.parser {
                return Ok(parser.clone());
            }
            if let Some(parser) = &self.default_parser {
                return Ok(parser.clone());
            }
        }
        Err(OptError { fault: Fault::NoParser, span: opt.field })
    }
}


/// An option to make known to the parser of the command line.
pub struct Registration {
    /// Whether it is a flag; else it takes a value.
    pub flag: bool,
    pub names: Vec<String>,
}

/// The view of a [`Registration`].
pub struct RegistrationView {
    pub flag: bool,
    pub names: Seq<Seq<char>>,
}

impl View for Registration {
    type V = RegistrationView;

    open spec fn view(&self) -> RegistrationView {
        RegistrationView { flag: self.flag, names: texts(self.names@) }
    }
}

/// How a field gets its value from the parsed command line.
pub enum Setter {
    /// The field becomes `true` where the flag `name` was given.
    Flag { field: Span, name: String },
    /// Each value given for the option `name` goes through `parser` into
    /// the field.
    Value { field: Span, name: String, parser: String },
}

/// The view of a [`Setter`].
pub enum SetterView {
    Flag { field: Span, name: Seq<char> },
    Value { field: Span, name: Seq<char>, parser: Seq<char> },
}

impl View for Setter {
    type V = SetterView;

    open spec fn view(&self) -> SetterView {
        match self {
            Setter::Flag { field, name } => SetterView::Flag { field: *field, name: name@ },
            Setter::Value { field, name, parser } => SetterView::Value {
                field: *field,
                name: name@,
                parser: parser@,
            },
        }
    }
}

/// The views of some registrations.
pub open spec fn registration_views(regs: Seq<Registration>) -> Seq<RegistrationView> {
    Seq::new(regs.len(), |i: int| regs[i]@)
}

/// The views of some setters.
pub open spec fn setter_views(setters: Seq<Setter>) -> Seq<SetterView> {
    Seq::new(setters.len(), |i: int| setters[i]@)
}

/// The view of a result that holds setters or errors.
pub open spec fn setters_or_errors(r: Result<Vec<Setter>, Vec<OptError>>) -> Result<
    Seq<SetterView>,
    Seq<OptError>,
> {
    match r {
        Ok(v) => Ok(setter_views(v@)),
        Err(e) => Err(e@),
    }
}

/// The options to register, in order: the flags and the options with a
/// value, each under all its names.
pub open spec fn spec_registrations(opts: Seq<OptView>) -> Seq<RegistrationView>
    decreases opts.len(),
{
    if opts.len() == 0 {
        Seq::empty()
    } else {
        let before = spec_registrations(opts.drop_last());
        match opts.last().kind {
            OptKindView::Flag => before.push(
                RegistrationView { flag: true, names: opts.last().names },
            ),
            OptKindView::Opt { value_desc, parser } => before.push(
                RegistrationView { flag: false, names: opts.last().names },
            ),
            OptKindView::Invalid => before,
        }
    }
}

/// The name under which the parsed command line is asked for an option:
/// its first, or the empty name where it has none.
pub open spec fn spec_first_name(names: Seq<Seq<char>>) -> Seq<char> {
    if names.len() == 0 {
        Seq::empty()
    } else {
        names[0]
    }
}

/// The setters of the options, in order, and the errors of the options
/// with a value for which there is no parser, in order.
pub open spec fn spec_gather_setters(
    default_parser: Option<Seq<char>>,
    opts: Seq<OptView>,
) -> Gathered<SetterView>
    decreases opts.len(),
{
    if opts.len() == 0 {
        Gathered { items: Seq::empty(), errors: Seq::empty() }
    } else {
        let before = spec_gather_setters(default_parser, opts.drop_last());
        let opt = opts.last();
        match opt.kind {
            OptKindView::Flag => Gathered {
                items: before.items.push(
                    SetterView::Flag { field: opt.field, name: spec_first_name(opt.names) },
                ),
                ..before
            },
            OptKindView::Opt { value_desc, parser } => match spec_opt_parser(
                default_parser,
                opt,
            ) {
                Ok(p) => Gathered {
                    items: before.items.push(
                        SetterView::Value {
                            field: opt.field,
                            name: spec_first_name(opt.names),
                            parser: p,
                        },
                    ),
                    ..before
                },
                Err(e) => Gathered { errors: before.errors.push(e), ..before },
            },
            OptKindView::Invalid => before,
        }
    }
}

fn first_name(names: &Vec<String>) -> (name: String)
    ensures
        name@ == spec_first_name(texts(names@)),
{
    if names.len() == 0 {
        String::new()
    } else {
        names[0].clone()
    }
}

impl OptContainer {
    /// The options to register with the parser of the command line.
    pub fn build_register_opts(&self) -> (regs: Vec<Registration>)
        ensures
            registration_views(regs@) == spec_registrations(self@.opts),
    {
        let ghost all = opt_views(self.opts@);
        let mut regs: Vec<Registration> = Vec::new();
        let mut i: usize = 0;
        assert(registration_views(regs@) == Seq::<RegistrationView>::empty());
        while i < self.opts.len()
            invariant
                i <= self.opts@.len(),
                all == opt_views(self.opts@),
                registration_views(regs@) == spec_registrations(all.take(i as int)),
            decreases self.opts@.len() - i,
        {
            proof {
                let upto = all.take(i + 1);
                assert(upto.drop_last() == all.take(i as int));
                assert(upto.last() == self.opts@[i as int]@);
            }
            let opt: &Opt = &self.opts[i];
            let flag: Option<bool> = match &opt.kind {
                OptKind::Flag => Some(true),
                OptKind::Opt(_) => Some(false),
                OptKind::Invalid => None,
            };
            if let Some(flag) = flag {
                let ghost before = regs@;
                let reg = Registration { flag, names: clone_strings(&opt.names) };
                regs.push(reg);
                assert(registration_views(regs@) == registration_views(before).push(reg@));
            }
            i = i + 1;
        }
        assert(all.take(i as int) == all);
        regs
    }

    /// How each field gets its value: the setters of all options, or if
    /// any option with a value has no parser, the errors of all that have
    /// none.
    pub fn build_set_opts(&self) -> (r: Result<Vec<Setter>, Vec<OptError>>)
        ensures
            setters_or_errors(r) == spec_gather_setters(
                self@.default_parser,
                self@.opts,
            ).outcome(),
            r matches Err(errors) ==> errors@.len() > 0,
    {
        let ghost all = opt_views(self.opts@);
        let mut set_opts: Vec<Setter> = Vec::new();
        let mut errors: Vec<OptError> = Vec::new();
        let mut i: usize = 0;
        assert(setter_views(set_opts@) == Seq::<SetterView>::empty());
        while i < self.opts.len()
            invariant
                i <= self.opts@.len(),
                all == opt_views(self.opts@),
                spec_gather_setters(self@.default_parser, all.take(i as int)) == (Gathered {
                    items: setter_views(set_opts@),
                    errors: errors@,
                }),
            decreases self.opts@.len() - i,
        {
            proof {
                let upto = all.take(i + 1);
                assert(upto.drop_last() == all.take(i as int));
                assert(upto.last() == self.opts@[i as int]@);
            }
            let opt: &Opt = &self.opts[i];
            let ghost before = set_opts@;
            match &opt.kind {
                OptKind::Flag => {
                    let setter = Setter::Flag { field: opt.field, name: first_name(&opt.names) };
                    set_opts.push(setter);
                    assert(setter_views(set_opts@) == setter_views(before).push(setter@));
                },
                OptKind::Opt(_) => match self.opt_parser(opt) {
                    Ok(parser) => {
                        let setter = Setter::Value {
                            field: opt.field,
                            name: first_name(&opt.names),
                            parser,
                        };
                        set_opts.push(setter);
                        assert(setter_views(set_opts@) == setter_views(before).push(setter@));
                    },
                    Err(e) => {
                        errors.push(e);
                    },
                },
                OptKind::Invalid => {},
            }
            i = i + 1;
        }
        assert(all.take(i as int) == all);
        if errors.len() == 0 {
            Ok(set_opts)
        } else {
            Err(errors)
        }
    }
}

/// All that the implementation of the options trait for a structure is
/// written from.
pub struct Expansion {
    /// The usage line of the help text.
    pub usage: String,
    /// The help entries of all options, in UTF-8.
    pub help: Vec<u8>,
    /// The characters that may stand between a name and its value.
    pub delimeters: String,
    pub registrations: Vec<Registration>,
    pub setters: Vec<Setter>,
}

/// The view of an [`Expansion`].
pub struct ExpansionView {
    pub usage: Seq<char>,
    pub help: Seq<u8>,
    pub delimeters: Seq<char>,
    pub registrations: Seq<RegistrationView>,
    pub setters: Seq<SetterView>,
}

impl View for Expansion {
    type V = ExpansionView;

    open spec fn view(&self) -> ExpansionView {
        ExpansionView {
            usage: self.usage@,
            help: self.help@,
            delimeters: self.delimeters@,
            registrations: registration_views(self.registrations@),
            setters: setter_views(self.setters@),
        }
    }
}

/// The view of a result that holds an expansion.
pub open spec fn expansion_view(r: Result<Expansion, Vec<OptError>>) -> Result<
    ExpansionView,
    Seq<OptError>,
> {
    match r {
        Ok(x) => Ok(x@),
        Err(e) => Err(e@),
    }
}

/// What the derive writes for an input: the help entries of the options
/// with the first delimiter between name and value, the registrations and
/// the setters; or the errors of the attributes, or else those of the
/// options without a parser.
pub open spec fn spec_expand(ast: DeriveInput) -> Result<ExpansionView, Seq<OptError>> {
    match spec_from_ast(ast) {
        Err(errors) => Err(errors),
        Ok(cont) => match spec_gather_setters(cont.default_parser, cont.opts).outcome() {
            Err(errors) => Err(errors),
            Ok(setters) => Ok(
                ExpansionView {
                    usage: cont.usage,
                    help: crate::help::help_entries(
                        cont.opts,
                        crate::help::shown_delimiter(cont.delimeters),
                    ),
                    delimeters: cont.delimeters,
                    registrations: spec_registrations(cont.opts),
                    setters,
                },
            ),
        },
    }
}

/// Reads the input of the derive and lays out what is to be written for
/// it, or says what is wrong with the input.
pub fn expand_derive_cmd_line_options(ast: &DeriveInput) -> (r: Result<Expansion, Vec<OptError>>)
    ensures
        expansion_view(r) == spec_expand(*ast),
        r matches Err(errors) ==> errors@.len() > 0,
{
    let cont: OptContainer = match OptContainer::from_ast(ast) {
        Ok(cont) => cont,
        Err(errors) => {
            return Err(errors);
        },
    };
    let delim: Vec<u8> = crate::help::first_delimiter(&cont.delimeters);
    let help: Vec<u8> = crate::help::options_help(&cont.opts, delim.as_slice());
    let registrations: Vec<Registration> = cont.build_register_opts();
    let setters: Vec<Setter> = match cont.build_set_opts() {
        Ok(setters) => setters,
        Err(errors) => {
            return Err(errors);
        },
    };
    Ok(Expansion { usage: cont.usage, help, delimeters: cont.delimeters, registrations, setters })
}

} // verus!
