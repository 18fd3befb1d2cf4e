//! Rendering one collection of a snapshot in one output format.
//!
//! Every collection is rendered as a sequence of named groups of named
//! values. The three source formats open with a two-line banner holding an
//! attribution and the capture time; the JSON format has none.

use vstd::prelude::*;
use crate::model::{
    entries_view, entry_view, module_view, modules_view, schema_classes, Button, Entry, EntryView, GroupView,
    Module, Results, SchemaModule,
};
use crate::names::{sanitize_name, sanitized};
use crate::text::{dec_digits, hex_digits, push_dec, push_hex, push_spaces, spaces};

verus! {

/// The output formats, in the order in which files are written.
#[derive(Debug, Clone, Copy, PartialEq, Eq, Structural)]
pub enum Format {
    Cs,
    Hpp,
    Json,
    Rs,
}

/// The collections of a snapshot, in the order in which files are written.
#[derive(Debug, Clone, Copy, PartialEq, Eq, Structural)]
pub enum Item {
    Buttons,
    Interfaces,
    Offsets,
    Schemas,
}

/// What `serde_json` writes for a string: the string quoted and escaped.
pub uninterp spec fn json_quoted_of(s: Seq<char>) -> Seq<char>;

/// Relies on `serde_json::to_string` on a `str`: the JSON string literal of
/// the text. Its writer is a `Vec<u8>`, which never fails.
#[verifier::external_body]
pub(crate) fn json_quoted(s: &str) -> (r: String)
    ensures
        r@ == json_quoted_of(s@),
{
    match serde_json::to_string(s) {
        Ok(t) => t,
        Err(_) => String::new(),
    }
}

pub open spec fn banner_text(stamp: Seq<char>) -> Seq<char> {
    "// Generated using https://github.com/a2x/cs2-dumper\n"@ + "// "@ + stamp + "\n\n"@
}

pub open spec fn preamble_text(f: Format) -> Seq<char> {
    match f {
        Format::Cs => Seq::empty(),
        Format::Hpp => "#pragma once\n\n#include <cstddef>\n\n"@,
        Format::Json => Seq::empty(),
        Format::Rs => "#![allow(non_upper_case_globals, unused)]\n\n"@,
    }
}

pub open spec fn outer_open_text(f: Format) -> Seq<char> {
    match f {
        Format::Cs => "namespace Dumper {\n"@,
        Format::Hpp => "namespace dumper {\n"@,
        Format::Json => "{"@,
        Format::Rs => "pub mod dumper {\n"@,
    }
}

pub open spec fn group_open_text(f: Format) -> Seq<char> {
    match f {
        Format::Cs => "public static class "@,
        Format::Hpp => "namespace "@,
        Format::Json => Seq::empty(),
        Format::Rs => "pub mod "@,
    }
}

pub open spec fn entry_open_text(f: Format) -> Seq<char> {
    match f {
        Format::Cs => "public const nint "@,
        Format::Hpp => "constexpr std::ptrdiff_t "@,
        Format::Json => Seq::empty(),
        Format::Rs => "pub const "@,
    }
}

pub open spec fn entry_mid_text(f: Format) -> Seq<char> {
    match f {
        Format::Cs => " = 0x"@,
        Format::Hpp => " = 0x"@,
        Format::Json => ": "@,
        Format::Rs => ": usize = 0x"@,
    }
}

/// What stands before an element of a JSON object: a comma after an
/// earlier element, then a line break.
pub open spec fn separator_text(first: bool) -> Seq<char> {
    if first { "\n"@ } else { ",\n"@ }
}

pub open spec fn entry_text(f: Format, indent: nat, first: bool, e: EntryView) -> Seq<char> {
    if f == Format::Json {
        separator_text(first) + spaces(indent) + spaces(indent) + json_quoted_of(e.0) + ": "@
            + dec_digits(e.1 as nat)
    } else {
        spaces(indent) + spaces(indent) + entry_open_text(f) + sanitized(e.0) + entry_mid_text(f)
            + hex_digits(e.1 as nat) + ";\n"@
    }
}

pub open spec fn entries_text(f: Format, indent: nat, es: Seq<EntryView>) -> Seq<char>
    decreases es.len(),
{
    if es.len() == 0 {
        Seq::empty()
    } else {
        entries_text(f, indent, es.drop_last()) + entry_text(f, indent, es.len() == 1, es.last())
    }
}

pub open spec fn group_text(f: Format, indent: nat, first: bool, g: GroupView) -> Seq<char> {
    if f == Format::Json {
        separator_text(first) + spaces(indent) + json_quoted_of(g.0) + ": {"@ + entries_text(
            f,
            indent,
            g.1,
        ) + if g.1.len() == 0 {
            "}"@
        } else {
            "\n"@ + spaces(indent) + "}"@
        }
    } else {
        spaces(indent) + group_open_text(f) + sanitized(g.0) + " {\n"@ + entries_text(f, indent, g.1)
            + spaces(indent) + "}\n"@
    }
}

pub open spec fn groups_text(f: Format, indent: nat, gs: Seq<GroupView>) -> Seq<char>
    decreases gs.len(),
{
    if gs.len() == 0 {
        Seq::empty()
    } else {
        groups_text(f, indent, gs.drop_last()) + group_text(f, indent, gs.len() == 1, gs.last())
    }
}

pub open spec fn outer_close_text(f: Format, empty: bool) -> Seq<char> {
    if f == Format::Json && !empty {
        "\n}\n"@
    } else {
        "}\n"@
    }
}

/// The whole text of one file: banner (not for JSON), preamble, and the
/// groups inside an outer namespace or object.
pub open spec fn document_text(f: Format, indent: nat, gs: Seq<GroupView>, stamp: Seq<char>) -> Seq<
    char,
> {
    let body = preamble_text(f) + outer_open_text(f) + groups_text(f, indent, gs)
        + outer_close_text(f, gs.len() == 0);
    if f == Format::Json {
        body
    } else {
        banner_text(stamp) + body
    }
}

/// The groups that a collection of the snapshot is rendered as.
pub open spec fn item_groups(
    item: Item,
    buttons: Seq<Button>,
    interfaces: Seq<Module>,
    offsets: Seq<Module>,
    schemas: Seq<SchemaModule>,
) -> Seq<GroupView> {
    match item {
        Item::Buttons => seq![("buttons"@, entries_view(buttons))],
        Item::Interfaces => modules_view(interfaces),
        Item::Offsets => modules_view(offsets),
        Item::Schemas => schema_classes(schemas),
    }
}

fn push_separator(out: &mut String, first: bool)
    ensures
        final(out)@ == old(out)@ + separator_text(first),
{
    if first {
        out.append("\n");
    } else {
        out.append(",\n");
    }
}

fn push_entry(out: &mut String, f: Format, indent: usize, first: bool, e: &Entry)
    ensures
        final(out)@ == old(out)@ + entry_text(f, indent as nat, first, entry_view(*e)),
{
    let ghost start = out@;
    if f == Format::Json {
        push_separator(out, first);
        push_spaces(out, indent);
        push_spaces(out, indent);
        let q = json_quoted(e.name.as_str());
        out.append(q.as_str());
        out.append(": ");
        push_dec(out, e.value);
    } else {
        push_spaces(out, indent);
        push_spaces(out, indent);
        match f {
            Format::Cs => out.append("public const nint "),
            Format::Hpp => out.append("constexpr std::ptrdiff_t "),
            Format::Json => {},
            Format::Rs => out.append("pub const "),
        }
        let n = sanitize_name(e.name.as_str());
        out.append(n.as_str());
        match f {
            Format::Cs => out.append(" = 0x"),
            Format::Hpp => out.append(" = 0x"),
            Format::Json => out.append(": "),
            Format::Rs => out.append(": usize = 0x"),
        }
        push_hex(out, e.value);
        out.append(";\n");
    }
    assert(out@ =~= start + entry_text(f, indent as nat, first, entry_view(*e)));
}

fn push_entries(out: &mut String, f: Format, indent: usize, es: &Vec<Entry>)
    ensures
        final(out)@ == old(out)@ + entries_text(f, indent as nat, entries_view(es@)),
{
    let ghost start = out@;
    let mut i: usize = 0;
    while i < es.len()
        invariant
            i <= es.len(),
            out@ == start + entries_text(f, indent as nat, entries_view(es@.take(i as int))),
        decreases es.len() - i,
    {
        let ghost before = out@;
        push_entry(out, f, indent, i == 0, &es[i]);
        let ghost done = entries_view(es@.take(i as int));
        assert(entries_view(es@.take(i + 1)).drop_last() =~= done);
        assert(entries_view(es@.take(i + 1)).last() == entry_view(es@[i as int]));
        i = i + 1;
        assert(out@ =~= start + entries_text(f, indent as nat, entries_view(es@.take(i as int))));
    }
    assert(es@.take(es.len() as int) =~= es@);
}

fn push_group(out: &mut String, f: Format, indent: usize, first: bool, name: &String, es: &Vec<Entry>)
    ensures
        final(out)@ == old(out)@ + group_text(f, indent as nat, first, (name@, entries_view(es@))),
{
    let ghost start = out@;
    if f == Format::Json {
        push_separator(out, first);
        push_spaces(out, indent);
        let q = json_quoted(name.as_str());
        out.append(q.as_str());
        out.append(": {");
        push_entries(out, f, indent, es);
        if es.len() == 0 {
            out.append("}");
        } else {
            out.append("\n");
            push_spaces(out, indent);
            out.append("}");
        }
    } else {
        push_spaces(out, indent);
        match f {
            Format::Cs => out.append("public static class "),
            Format::Hpp => out.append("namespace "),
            Format::Json => {},
            Format::Rs => out.append("pub mod "),
        }
        let n = sanitize_name(name.as_str());
        out.append(n.as_str());
        out.append(" {\n");
        push_entries(out, f, indent, es);
        push_spaces(out, indent);
        out.append("}\n");
    }
    assert(out@ =~= start + group_text(f, indent as nat, first, (name@, entries_view(es@))));
}

/// The groups of one collection of `results`.
pub open spec fn results_groups(item: Item, results: Results) -> Seq<GroupView> {
    item_groups(item, results.buttons@, results.interfaces@, results.offsets@, results.schemas@)
}

proof fn lemma_groups_push(f: Format, indent: nat, done: Seq<GroupView>, g: GroupView)
    ensures
        groups_text(f, indent, done.push(g)) == groups_text(f, indent, done) + group_text(
            f,
            indent,
            done.len() == 0,
            g,
        ),
{
    assert(done.push(g).drop_last() =~= done);
}

fn push_modules(out: &mut String, f: Format, indent: usize, ms: &Vec<Module>)
    ensures
        final(out)@ == old(out)@ + groups_text(f, indent as nat, modules_view(ms@)),
{
    let ghost start = out@;
    let mut i: usize = 0;
    while i < ms.len()
        invariant
            i <= ms.len(),
            out@ == start + groups_text(f, indent as nat, modules_view(ms@.take(i as int))),
        decreases ms.len() - i,
    {
        let ghost done = modules_view(ms@.take(i as int));
        push_group(out, f, indent, i == 0, &ms[i].name, &ms[i].entries);
        proof {
            lemma_groups_push(f, indent as nat, done, module_view(ms@[i as int]));
            assert(modules_view(ms@.take(i + 1)) =~= done.push(module_view(ms@[i as int])));
        }
        i = i + 1;
        assert(out@ =~= start + groups_text(f, indent as nat, modules_view(ms@.take(i as int))));
    }
    assert(ms@.take(ms.len() as int) =~= ms@);
}

fn push_schemas(out: &mut String, f: Format, indent: usize, sms: &Vec<SchemaModule>) -> (empty: bool)
    ensures
        empty == (schema_classes(sms@).len() == 0),
        final(out)@ == old(out)@ + groups_text(f, indent as nat, schema_classes(sms@)),
{
    let ghost start = out@;
    let mut first = true;
    let mut i: usize = 0;
    while i < sms.len()
        invariant
            i <= sms.len(),
            first == (schema_classes(sms@.take(i as int)).len() == 0),
            out@ == start + groups_text(f, indent as nat, schema_classes(sms@.take(i as int))),
        decreases sms.len() - i,
    {
        let ghost prior = schema_classes(sms@.take(i as int));
        let classes = &sms[i].classes;
        let mut j: usize = 0;
        while j < classes.len()
            invariant
                i < sms.len(),
                classes == sms@[i as int].classes,
                j <= classes.len(),
                first == ((prior + modules_view(classes@.take(j as int))).len() == 0),
                out@ == start + groups_text(
                    f,
                    indent as nat,
                    prior + modules_view(classes@.take(j as int)),
                ),
            decreases classes.len() - j,
        {
            let ghost done = prior + modules_view(classes@.take(j as int));
            push_group(out, f, indent, first, &classes[j].name, &classes[j].entries);
            proof {
                lemma_groups_push(f, indent as nat, done, module_view(classes@[j as int]));
                assert(prior + modules_view(classes@.take(j + 1)) =~= done.push(
                    module_view(classes@[j as int]),
                ));
            }
            first = false;
            j = j + 1;
        }
        proof {
            assert(classes@.take(classes.len() as int) =~= classes@);
            assert(sms@.take(i + 1).drop_last() =~= sms@.take(i as int));
        }
        i = i + 1;
    }
    assert(sms@.take(sms.len() as int) =~= sms@);
    first
}

/// Renders one collection of `results` in format `f`, with `stamp` as the
/// capture time in the banner.
pub fn render_with_stamp(item: Item, f: Format, results: &Results, indent: usize, stamp: &str) -> (r:
    String)
    ensures
        r@ == document_text(f, indent as nat, results_groups(item, *results), stamp@),
{
    let mut out = String::new();
    if f != Format::Json {
        out.append("// Generated using https://github.com/a2x/cs2-dumper\n");
        out.append("// ");
        out.append(stamp);
        out.append("\n\n");
    }
    match f {
        Format::Cs => {},
        Format::Hpp => out.append("#pragma once\n\n#include <cstddef>\n\n"),
        Format::Json => {},
        Format::Rs => out.append("#![allow(non_upper_case_globals, unused)]\n\n"),
    }
    match f {
        Format::Cs => out.append("namespace Dumper {\n"),
        Format::Hpp => out.append("namespace dumper {\n"),
        Format::Json => out.append("{"),
        Format::Rs => out.append("pub mod dumper {\n"),
    }
    let ghost head = out@;
    let empty = match item {
        Item::Buttons => {
            push_group(&mut out, f, indent, true, &String::from_str("buttons"), &results.buttons);
            proof {
                lemma_groups_push(f, indent as nat, Seq::empty(), ("buttons"@, entries_view(results.buttons@)));
                assert(seq![("buttons"@, entries_view(results.buttons@))] =~= Seq::<GroupView>::empty().push(("buttons"@, entries_view(results.buttons@))));
            }
            false
        },
        Item::Interfaces => {
            push_modules(&mut out, f, indent, &results.interfaces);
            results.interfaces.len() == 0
        },
        Item::Offsets => {
            push_modules(&mut out, f, indent, &results.offsets);
            results.offsets.len() == 0
        },
        Item::Schemas => {
            push_schemas(&mut out, f, indent, &results.schemas)
        },
    };
    if f == Format::Json && !empty {
        out.append("\n}\n");
    } else {
        out.append("}\n");
    }
    let ghost gs = results_groups(item, *results);
    assert(out@ =~= document_text(f, indent as nat, gs, stamp@));
    out
}

/// Rendering is a function of the snapshot, the format and the indent
/// width: two texts that both meet what `render_with_stamp` or
/// `Results::generate` promise for the same inputs are the same text.
pub proof fn lemma_render_deterministic(
    item: Item,
    f: Format,
    results: Results,
    indent: nat,
    stamp: Seq<char>,
    first: Seq<char>,
    second: Seq<char>,
)
    requires
        first == document_text(f, indent, results_groups(item, results), stamp),
        second == document_text(f, indent, results_groups(item, results), stamp),
    ensures
        first == second,
{
}

/// Every file in a source format opens with the banner: the attribution
/// line, then the capture time in a line comment, then a blank line.
pub proof fn lemma_source_banner(f: Format, indent: nat, gs: Seq<GroupView>, stamp: Seq<char>)
    requires
        f != Format::Json,
    ensures
        document_text(f, indent, gs, stamp).take(banner_text(stamp).len() as int) == banner_text(stamp),
{
    let b = banner_text(stamp);
    let d = document_text(f, indent, gs, stamp);
    assert(d.take(b.len() as int) =~= b);
}

/// A JSON file opens with `{`, so never with the banner, whose first
/// character is `/`.
pub proof fn lemma_json_without_banner(indent: nat, gs: Seq<GroupView>, stamp: Seq<char>)
    ensures
        document_text(Format::Json, indent, gs, stamp)[0] == '{',
        banner_text(stamp)[0] == '/',
        !(document_text(Format::Json, indent, gs, stamp).len() >= banner_text(stamp).len()
            && document_text(Format::Json, indent, gs, stamp).take(banner_text(stamp).len() as int)
            == banner_text(stamp)),
{
    reveal_strlit("{");
    reveal_strlit("// Generated using https://github.com/a2x/cs2-dumper\n");
    let d = document_text(Format::Json, indent, gs, stamp);
    let b = banner_text(stamp);
    assert(d =~= "{"@ + groups_text(Format::Json, indent, gs) + outer_close_text(Format::Json, gs.len() == 0));
    assert(d[0] == '{');
    assert(b[0] == '/');
    if d.len() >= b.len() && d.take(b.len() as int) == b {
        assert(d.take(b.len() as int)[0] == d[0]);
    }
}

} // verus!
