//! The help text of a command-line option.
//!
//! Text is handled as UTF-8 bytes throughout, and widths are counted in
//! bytes. An entry looks like this, the description starting in column 30:
//!
//! ```text
//!   -tl, --time-limit=<number>  The time limit
//!                               in seconds
//! ```

use vstd::prelude::*;
use vstd::utf8::{encode_scalar, encode_utf8, encode_utf8_first_scalar};
use crate::opts::{Opt, OptKind, OptKindView, OptView};
use crate::split::{join_with, law_split_is_never_empty, law_split_then_join, split_on};

verus! {

/// The column in which descriptions start.
pub const DESC_OFFSET: usize = 30;

/// `n` spaces.
pub open spec fn spaces(n: nat) -> Seq<u8> {
    Seq::new(n, |i: int| 0x20u8)
}

/// A line break.
pub open spec fn newline() -> Seq<u8> {
    seq![0x0Au8]
}

/// One name as the heading shows it: for an option with a value, followed
/// by the delimiter and the description of the value.
pub open spec fn shown_name(name: Seq<u8>, value_desc: Option<Seq<u8>>, delim: Seq<u8>) -> Seq<u8> {
    match value_desc {
        Some(v) => name + delim + v,
        None => name,
    }
}

/// The names as the heading shows them, with a comma and a space between
/// each two.
pub open spec fn shown_names(
    names: Seq<Seq<u8>>,
    value_desc: Option<Seq<u8>>,
    delim: Seq<u8>,
) -> Seq<u8>
    decreases names.len(),
{
    if names.len() == 0 {
        Seq::empty()
    } else if names.len() == 1 {
        shown_name(names[0], value_desc, delim)
    } else {
        shown_names(names.drop_last(), value_desc, delim) + seq![0x2Cu8, 0x20u8] + shown_name(
            names.last(),
            value_desc,
            delim,
        )
    }
}

/// The heading of an entry: two spaces, then the names.
pub open spec fn heading(names: Seq<Seq<u8>>, value_desc: Option<Seq<u8>>, delim: Seq<u8>) -> Seq<
    u8,
> {
    spaces(2) + shown_names(names, value_desc, delim)
}

/// A text under construction, and whether a line of the description has
/// been placed in it.
pub struct Layout {
    pub text: Seq<u8>,
    pub described: bool,
}

/// The layout with one more line of the description. An empty line is
/// dropped. The first line that is placed stands on the heading's line, in
/// the description column, where the heading ends before that column;
/// every other line stands on a line of its own, in that column.
pub open spec fn place_line(layout: Layout, line: Seq<u8>) -> Layout {
    if line.len() == 0 {
        layout
    } else if !layout.described && layout.text.len() < DESC_OFFSET {
        Layout {
            text: layout.text + spaces((DESC_OFFSET - layout.text.len()) as nat) + line,
            described: true,
        }
    } else {
        Layout {
            text: layout.text + newline() + spaces(DESC_OFFSET as nat) + line,
            described: true,
        }
    }
}

/// The layout with the lines placed one after the other.
pub open spec fn place_lines(layout: Layout, lines: Seq<Seq<u8>>) -> Layout
    decreases lines.len(),
{
    if lines.len() == 0 {
        layout
    } else {
        place_line(place_lines(layout, lines.drop_last()), lines.last())
    }
}

/// The help entry of an option: the heading, the lines of the description
/// placed after it, and a line break.
pub open spec fn help_entry(
    names: Seq<Seq<u8>>,
    value_desc: Option<Seq<u8>>,
    desc: Seq<u8>,
    delim: Seq<u8>,
) -> Seq<u8> {
    place_lines(
        Layout { text: heading(names, value_desc, delim), described: false },
        split_on(desc, 0x0Au8),
    ).text + newline()
}

/// The names in UTF-8.
pub open spec fn name_bytes(names: Seq<Seq<char>>) -> Seq<Seq<u8>> {
    Seq::new(names.len(), |i: int| encode_utf8(names[i]))
}

/// The description of the value in UTF-8, for an option that takes one.
pub open spec fn value_desc_bytes(kind: OptKindView) -> Option<Seq<u8>> {
    match kind {
        OptKindView::Opt { value_desc, parser } => Some(encode_utf8(value_desc)),
        _ => None,
    }
}

/// The help entry of `opt`, in UTF-8.
pub open spec fn help_entry_of(opt: OptView, delim: Seq<u8>) -> Seq<u8> {
    help_entry(name_bytes(opt.names), value_desc_bytes(opt.kind), encode_utf8(opt.desc), delim)
}

/// The delimiter that the help text shows between a name and its value:
/// the first character of the delimiters, a space where there is none.
pub open spec fn shown_delimiter(delimiters: Seq<char>) -> Seq<u8> {
    if delimiters.len() == 0 {
        seq![0x20u8]
    } else {
        encode_scalar(delimiters[0] as u32)
    }
}

fn append(out: &mut Vec<u8>, part: &[u8])
    ensures
        final(out)@ == old(out)@ + part@,
{
    let mut i: usize = 0;
    while i < part.len()
        invariant
            i <= part@.len(),
            out@ == old(out)@ + part@.take(i as int),
        decreases part@.len() - i,
    {
        out.push(part[i]);
        assert(part@.take(i + 1) == part@.take(i as int).push(part@[i as int]));
        i = i + 1;
    }
    assert(part@.take(i as int) == part@);
}

fn append_spaces(out: &mut Vec<u8>, n: usize)
    ensures
        final(out)@ == old(out)@ + spaces(n as nat),
{
    let mut i: usize = 0;
    while i < n
        invariant
            i <= n,
            out@ == old(out)@ + spaces(i as nat),
        decreases n - i,
    {
        out.push(0x20u8);
        assert(spaces((i + 1) as nat) == spaces(i as nat).push(0x20u8));
        i = i + 1;
    }
}

/// The runs of `bytes` between its line breaks. There is at least one
/// line, no line holds a line break, and the lines joined with line breaks
/// are `bytes`.
pub fn split_lines(bytes: &[u8]) -> (lines: Vec<Vec<u8>>)
    ensures
        lines@.len() == split_on(bytes@, 0x0Au8).len(),
        forall|k: int| 0 <= k < lines@.len() ==> (#[trigger] lines@[k])@ == split_on(
            bytes@,
            0x0Au8,
        )[k],
        lines@.len() >= 1,
        forall|k: int, j: int|
            0 <= k < lines@.len() && 0 <= j < lines@[k]@.len() ==> #[trigger] lines@[k]@[j]
                != 0x0Au8,
        join_with(Seq::new(lines@.len(), |k: int| lines@[k]@), 0x0Au8) == bytes@,
{
    let mut done: Vec<Vec<u8>> = Vec::new();
    let mut current: Vec<u8> = Vec::new();
    let mut i: usize = 0;
    while i < bytes.len()
        invariant
            i <= bytes@.len(),
            split_on(bytes@.take(i as int), 0x0Au8).len() == done@.len() + 1,
            forall|k: int|
                0 <= k < done@.len() ==> (#[trigger] done@[k])@ == split_on(
                    bytes@.take(i as int),
                    0x0Au8,
                )[k],
            current@ == split_on(bytes@.take(i as int), 0x0Au8).last(),
        decreases bytes@.len() - i,
    {
        let byte: u8 = bytes[i];
        proof {
            let next = bytes@.take(i + 1);
            assert(next.drop_last() == bytes@.take(i as int));
            assert(next.last() == byte);
        }
        if byte == 0x0Au8 {
            done.push(current);
            current = Vec::new();
        } else {
            current.push(byte);
        }
        i = i + 1;
    }
    assert(bytes@.take(i as int) == bytes@);
    done.push(current);
    proof {
        law_split_is_never_empty(bytes@, 0x0Au8);
        law_split_then_join(bytes@, 0x0Au8);
        assert(Seq::new(done@.len(), |k: int| done@[k]@) == split_on(bytes@, 0x0Au8));
    }
    done
}

/// The first character of `delimiters` in UTF-8, a space where there is
/// none.
pub fn first_delimiter(delimiters: &String) -> (delim: Vec<u8>)
    ensures
        delim@ == shown_delimiter(delimiters@),
{
    let bytes: &[u8] = delimiters.as_str().as_bytes();
    let mut delim: Vec<u8> = Vec::new();
    if bytes.len() == 0 {
        proof {
            if delimiters@.len() > 0 {
                encode_utf8_first_scalar(delimiters@);
            }
        }
        delim.push(0x20u8);
        return delim;
    }
    proof {
        assert(delimiters@.len() > 0);
        encode_utf8_first_scalar(delimiters@);
        let first = encode_scalar(delimiters@[0] as u32);
        assert(bytes@ == first + encode_utf8(delimiters@.drop_first()));
        assert(bytes@.take(first.len() as int) == first);
    }
    let lead: u8 = bytes[0];
    let width: usize = if lead <= 0x7f {
        1
    } else if 0xc0 <= lead && lead <= 0xdf {
        2
    } else if 0xe0 <= lead && lead <= 0xef {
        3
    } else {
        4
    };
    let mut i: usize = 0;
    while i < width
        invariant
            i <= width <= bytes@.len(),
            delim@ == bytes@.take(i as int),
        decreases width - i,
    {
        delim.push(bytes[i]);
        assert(bytes@.take(i + 1) == bytes@.take(i as int).push(bytes@[i as int]));
        i = i + 1;
    }
    delim
}

/// Writes the help entry of `opt`, with `delim` between a name and the
/// description of its value.
pub fn opt_help(opt: &Opt, delim: &[u8]) -> (help: Vec<u8>)
    ensures
        help@ == help_entry_of(opt@, delim@),
{
    let ghost names = name_bytes(opt@.names);
    let ghost value_desc = value_desc_bytes(opt@.kind);
    let mut help: Vec<u8> = Vec::new();
    append_spaces(&mut help, 2);
    let mut shown: Vec<u8> = Vec::new();
    let mut i: usize = 0;
    while i < opt.names.len()
        invariant
            i <= opt.names@.len(),
            names == name_bytes(opt@.names),
            value_desc == value_desc_bytes(opt@.kind),
            shown@ == shown_names(names.take(i as int), value_desc, delim@),
        decreases opt.names@.len() - i,
    {
        let ghost before = shown@;
        if i > 0 {
            shown.push(0x2Cu8);
            shown.push(0x20u8);
        }
        let name: &[u8] = opt.names[i].as_str().as_bytes();
        append(&mut shown, name);
        if let OptKind::Opt(o) = &opt.kind {
            append(&mut shown, delim);
            append(&mut shown, o.value_desc.as_str().as_bytes());
        }
        proof {
            let upto = names.take(i + 1);
            assert(upto.drop_last() == names.take(i as int));
            assert(upto.last() == name@);
            let this = shown_name(name@, value_desc, delim@);
            if i > 0 {
                assert(shown@ =~= before + seq![0x2Cu8, 0x20u8] + this);
            } else {
                assert(before =~= Seq::<u8>::empty());
                assert(shown@ =~= this);
                assert(upto[0] == upto.last());
            }
        }
        i = i + 1;
    }
    assert(names.take(i as int) == names);
    append(&mut help, shown.as_slice());
    assert(help@ == heading(names, value_desc, delim@));

    let lines: Vec<Vec<u8>> = split_lines(opt.desc.as_str().as_bytes());
    let ghost all = split_on(encode_utf8(opt.desc@), 0x0Au8);
    let ghost start = Layout { text: help@, described: false };
    let mut is_first: bool = true;
    let mut k: usize = 0;
    while k < lines.len()
        invariant
            k <= lines@.len(),
            lines@.len() == all.len(),
            forall|j: int| 0 <= j < lines@.len() ==> (#[trigger] lines@[j])@ == all[j],
            place_lines(start, all.take(k as int)) == (Layout {
                text: help@,
                described: !is_first,
            }),
        decreases lines@.len() - k,
    {
        let ghost before = help@;
        let line: &Vec<u8> = &lines[k];
        proof {
            let upto = all.take(k + 1);
            assert(upto.drop_last() == all.take(k as int));
            assert(upto.last() == line@);
        }
        if line.len() > 0 {
            let help_len: usize = help.len();
            if is_first && help_len < DESC_OFFSET {
                append_spaces(&mut help, DESC_OFFSET - help_len);
            } else {
                help.push(0x0Au8);
                append_spaces(&mut help, DESC_OFFSET);
                assert(help@ =~= before + newline() + spaces(DESC_OFFSET as nat));
            }
            append(&mut help, line.as_slice());
            is_first = false;
        }
        k = k + 1;
    }
    assert(all.take(k as int) == all);
    help.push(0x0Au8);
    assert(help@ =~= place_lines(start, all).text + newline());
    help
}

/// The help entries of `opts`, one after the other.
pub open spec fn help_entries(opts: Seq<OptView>, delim: Seq<u8>) -> Seq<u8>
    decreases opts.len(),
{
    if opts.len() == 0 {
        Seq::empty()
    } else {
        help_entries(opts.drop_last(), delim) + help_entry_of(opts.last(), delim)
    }
}

/// Writes the help entries of all of `opts`, in order.
pub fn options_help(opts: &Vec<Opt>, delim: &[u8]) -> (help: Vec<u8>)
    ensures
        help@ == help_entries(crate::opts::opt_views(opts@), delim@),
{
    let ghost views = crate::opts::opt_views(opts@);
    let mut help: Vec<u8> = Vec::new();
    let mut i: usize = 0;
    while i < opts.len()
        invariant
            i <= opts@.len(),
            views == crate::opts::opt_views(opts@),
            help@ == help_entries(views.take(i as int), delim@),
        decreases opts@.len() - i,
    {
        let entry: Vec<u8> = opt_help(&opts[i], delim);
        append(&mut help, entry.as_slice());
        proof {
            let upto = views.take(i + 1);
            assert(upto.drop_last() == views.take(i as int));
            assert(upto.last() == opts@[i as int]@);
        }
        i = i + 1;
    }
    assert(views.take(i as int) == views);
    help
}

} // verus!
