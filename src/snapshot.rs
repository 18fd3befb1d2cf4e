//! Building a snapshot and planning the files that a dump writes: every
//! collection in every format, then `info.json`.

use vstd::prelude::*;
use crate::model::{
    module_names, schema_module_names, unique_names, Button, InterfaceMap, OffsetMap, Results,
    SchemaMap, Timestamp,
};
use crate::render::{
    document_text, json_quoted, json_quoted_of, render_with_stamp, results_groups, Format, Item,
};
use crate::text::{dec_digits, push_dec};
use crate::time::{now, representable, rfc3339_of, rfc3339_text, utc_display_of, utc_text};

verus! {

/// Why a file of a dump could not be produced.
#[derive(Debug, Clone, Copy, PartialEq, Eq, Structural)]
pub enum DumpError {
    /// The capture time cannot be written as a date.
    Timestamp,
}

/// One file of a dump: its name within the output directory, and its text.
#[derive(Debug, Clone)]
pub struct OutputFile {
    pub name: String,
    pub contents: String,
}

pub open spec fn item_name(item: Item) -> Seq<char> {
    match item {
        Item::Buttons => "buttons"@,
        Item::Interfaces => "interfaces"@,
        Item::Offsets => "offsets"@,
        Item::Schemas => "schemas"@,
    }
}

pub open spec fn extension(f: Format) -> Seq<char> {
    match f {
        Format::Cs => "cs"@,
        Format::Hpp => "hpp"@,
        Format::Json => "json"@,
        Format::Rs => "rs"@,
    }
}

/// The collections in the order in which they are written.
pub open spec fn item_at(k: int) -> Item {
    if k == 0 { Item::Buttons } else if k == 1 { Item::Interfaces } else if k == 2 { Item::Offsets } else { Item::Schemas }
}

/// The formats in the order in which they are written.
pub open spec fn format_at(k: int) -> Format {
    if k == 0 { Format::Cs } else if k == 1 { Format::Hpp } else if k == 2 { Format::Json } else { Format::Rs }
}

/// The name of the file for a collection in a format.
pub open spec fn file_name(item: Item, f: Format) -> Seq<char> {
    item_name(item) + "."@ + extension(f)
}

/// The names of all files of a dump, in the order in which they are written.
pub open spec fn dump_file_names() -> Seq<Seq<char>> {
    Seq::new(16, |k: int| file_name(item_at(k / 4), format_at(k % 4))).push("info.json"@)
}

/// The text of `info.json`.
pub open spec fn info_text(timestamp: Seq<char>, build_number: u32) -> Seq<char> {
    "{\n  \"build_number\": "@ + dec_digits(build_number as nat) + ",\n  \"timestamp\": "@
        + json_quoted_of(timestamp) + "\n}"@
}

/// The offset read for the build number: among the offsets of all modules
/// in order, the first one named `dwBuildNumber`, as (module, offset) indices.
pub open spec fn is_build_number_at(offsets: OffsetMap, i: int, j: int) -> bool {
    0 <= i < offsets@.len() && 0 <= j < offsets@[i].entries@.len()
        && offsets@[i].entries@[j].name@ == "dwBuildNumber"@
}

pub open spec fn module_has_build_number(offsets: OffsetMap, i: int) -> bool {
    exists|j: int| is_build_number_at(offsets, i, j)
}

pub open spec fn first_build_number_at(offsets: OffsetMap, i: int, j: int) -> bool {
    &&& is_build_number_at(offsets, i, j)
    &&& forall|a: int| 0 <= a < i ==> !module_has_build_number(offsets, a)
    &&& forall|b: int| 0 <= b < j ==> !is_build_number_at(offsets, i, b)
}

pub open spec fn has_build_number(offsets: OffsetMap) -> bool {
    exists|i: int, j: int| is_build_number_at(offsets, i, j)
}

/// The build number recorded: what was read where an offset for it exists,
/// zero where none does or the read failed.
pub open spec fn recorded_build_number(offsets: OffsetMap, read: Option<u32>) -> u32 {
    if has_build_number(offsets) {
        match read {
            Some(v) => v,
            None => 0,
        }
    } else {
        0
    }
}

fn item_of(k: usize) -> (item: Item)
    ensures
        item == item_at(k as int),
{
    if k == 0 { Item::Buttons } else if k == 1 { Item::Interfaces } else if k == 2 { Item::Offsets } else { Item::Schemas }
}

fn format_of(k: usize) -> (f: Format)
    ensures
        f == format_at(k as int),
{
    if k == 0 { Format::Cs } else if k == 1 { Format::Hpp } else if k == 2 { Format::Json } else { Format::Rs }
}

fn file_name_of(item: Item, f: Format) -> (r: String)
    ensures
        r@ == file_name(item, f),
{
    let mut r = String::new();
    match item {
        Item::Buttons => r.append("buttons"),
        Item::Interfaces => r.append("interfaces"),
        Item::Offsets => r.append("offsets"),
        Item::Schemas => r.append("schemas"),
    }
    r.append(".");
    match f {
        Format::Cs => r.append("cs"),
        Format::Hpp => r.append("hpp"),
        Format::Json => r.append("json"),
        Format::Rs => r.append("rs"),
    }
    r
}

/// The address of the build number: a module's base plus the offset, or
/// `None` where the sum leaves the address space.
pub fn build_number_address(module_base: u64, offset: u64) -> (r: Option<u64>)
    ensures
        r == (if module_base + offset <= u64::MAX { Some((module_base + offset) as u64) } else { None::<u64> }),
{
    module_base.checked_add(offset)
}

impl Results {
    /// A snapshot of the given collections, taken now.
    pub fn new(buttons: Vec<Button>, interfaces: InterfaceMap, offsets: OffsetMap, schemas: SchemaMap) -> (r: Self)
        requires
            unique_names(module_names(interfaces@)),
            unique_names(module_names(offsets@)),
            unique_names(schema_module_names(schemas@)),
        ensures
            r.wf(),
            r.buttons == buttons,
            r.interfaces == interfaces,
            r.offsets == offsets,
            r.schemas == schemas,
            r.timestamp.secs >= 0,
            r.timestamp.nanos < 1_000_000_000,
    {
        Results { timestamp: now(), buttons, interfaces, offsets, schemas }
    }

    /// A snapshot of the given collections, taken at `timestamp`.
    pub fn with_timestamp(
        timestamp: Timestamp,
        buttons: Vec<Button>,
        interfaces: InterfaceMap,
        offsets: OffsetMap,
        schemas: SchemaMap,
    ) -> (r: Self)
        requires
            unique_names(module_names(interfaces@)),
            unique_names(module_names(offsets@)),
            unique_names(schema_module_names(schemas@)),
        ensures
            r.wf(),
            r == (Results { timestamp, buttons, interfaces, offsets, schemas }),
    {
        Results { timestamp, buttons, interfaces, offsets, schemas }
    }

    /// The text of one collection in one format. The banner of the source
    /// formats needs the capture time as a date; JSON does not.
    pub fn generate(&self, item: Item, indent_size: usize, format: Format) -> (r: Result<String, DumpError>)
        ensures
            r matches Ok(s) ==> s@ == document_text(
                format,
                indent_size as nat,
                results_groups(item, *self),
                utc_display_of(self.timestamp.secs as int, self.timestamp.nanos as int),
            ),
            r is Err ==> r == Err::<String, DumpError>(DumpError::Timestamp),
            (format == Format::Json || representable(self.timestamp)) ==> r is Ok,
    {
        if format == Format::Json {
            return Ok(render_with_stamp(item, format, self, indent_size, ""));
        }
        match utc_text(self.timestamp) {
            Some(stamp) => Ok(render_with_stamp(item, format, self, indent_size, stamp.as_str())),
            None => Err(DumpError::Timestamp),
        }
    }
}

impl Results {
    /// Where the build number is to be read: the first offset named
    /// `dwBuildNumber`, modules in order and offsets in order within each, as
    /// (module, offset) indices into `offsets`.
    pub fn find_build_number(&self) -> (r: Option<(usize, usize)>)
        ensures
            r matches Some((i, j)) ==> first_build_number_at(self.offsets, i as int, j as int),
            r is None <==> !has_build_number(self.offsets),
    {
        let key = String::from_str("dwBuildNumber");
        let mut i: usize = 0;
        while i < self.offsets.len()
            invariant
                i <= self.offsets@.len(),
                key@ == "dwBuildNumber"@,
                forall|a: int| 0 <= a < i ==> !module_has_build_number(self.offsets, a),
            decreases self.offsets.len() - i,
        {
            let entries = &self.offsets[i].entries;
            let mut j: usize = 0;
            while j < entries.len()
                invariant
                    i < self.offsets@.len(),
                    entries == self.offsets@[i as int].entries,
                    j <= entries@.len(),
                    key@ == "dwBuildNumber"@,
                    forall|a: int| 0 <= a < i ==> !module_has_build_number(self.offsets, a),
                    forall|b: int| 0 <= b < j ==> !is_build_number_at(self.offsets, i as int, b),
                decreases entries.len() - j,
            {
                if entries[j].name == key {
                    assert(is_build_number_at(self.offsets, i as int, j as int));
                    return Some((i, j));
                }
                j = j + 1;
            }
            assert(!module_has_build_number(self.offsets, i as int));
            i = i + 1;
        }
        assert forall|a: int, b: int| !is_build_number_at(self.offsets, a, b) by {
            if is_build_number_at(self.offsets, a, b) {
                assert(module_has_build_number(self.offsets, a));
            }
        }
        None
    }

    /// The text of `info.json`: the capture time in RFC 3339 and the build
    /// number.
    pub fn info_json(&self, build_number: u32) -> (r: Result<String, DumpError>)
        ensures
            r matches Ok(s) ==> s@ == info_text(
                rfc3339_of(self.timestamp.secs as int, self.timestamp.nanos as int),
                build_number,
            ),
            r is Err ==> r == Err::<String, DumpError>(DumpError::Timestamp),
            representable(self.timestamp) ==> r is Ok,
    {
        match rfc3339_text(self.timestamp) {
            Some(stamp) => {
                let mut out = String::new();
                out.append("{\n  \"build_number\": ");
                push_dec(&mut out, build_number as u64);
                out.append(",\n  \"timestamp\": ");
                let q = json_quoted(stamp.as_str());
                out.append(q.as_str());
                out.append("\n}");
                Ok(out)
            },
            None => Err(DumpError::Timestamp),
        }
    }

    /// Every collection in every format: sixteen files, collections in the
    /// order buttons, interfaces, offsets, schemas, and formats in the order
    /// cs, hpp, json, rs within each.
    pub fn render_all(&self, indent_size: usize) -> (r: Result<Vec<OutputFile>, DumpError>)
        ensures
            r matches Ok(v) ==> self.rendered(indent_size as nat, v@, 16),
            r is Err ==> r == Err::<Vec<OutputFile>, DumpError>(DumpError::Timestamp),
            representable(self.timestamp) ==> r is Ok,
    {
        let mut files: Vec<OutputFile> = Vec::new();
        let mut k: usize = 0;
        while k < 16
            invariant
                k <= 16,
                self.rendered(indent_size as nat, files@, k as int),
            decreases 16 - k,
        {
            let item = item_of(k / 4);
            let format = format_of(k % 4);
            let contents = match self.generate(item, indent_size, format) {
                Ok(c) => c,
                Err(e) => return Err(e),
            };
            files.push(OutputFile { name: file_name_of(item, format), contents });
            k = k + 1;
        }
        Ok(files)
    }

    /// The first `n` files of a dump, as `render_all` produces them.
    pub open spec fn rendered(&self, indent: nat, files: Seq<OutputFile>, n: int) -> bool {
        &&& files.len() == n
        &&& forall|k: int| 0 <= k < n ==> {
            &&& (#[trigger] files[k]).name@ == file_name(item_at(k / 4), format_at(k % 4))
            &&& files[k].contents@ == document_text(
                format_at(k % 4),
                indent,
                results_groups(item_at(k / 4), *self),
                utc_display_of(self.timestamp.secs as int, self.timestamp.nanos as int),
            )
        }
    }

    /// All seventeen files of a dump, in the order in which they are written:
    /// those of `render_all`, then `info.json`. `read` is what reading the
    /// build number from the process gave (`None` where the module was not
    /// found or the read failed); it counts only where an offset named
    /// `dwBuildNumber` exists.
    pub fn dump_plan(&self, indent_size: usize, read: Option<u32>) -> (r: Result<Vec<OutputFile>, DumpError>)
        ensures
            r matches Ok(v) ==> {
                &&& self.rendered(indent_size as nat, v@.take(16), 16)
                &&& v@.len() == 17
                &&& v@.map_values(|f: OutputFile| f.name@) == dump_file_names()
                &&& v@[16].contents@ == info_text(
                    rfc3339_of(self.timestamp.secs as int, self.timestamp.nanos as int),
                    recorded_build_number(self.offsets, read),
                )
            },
            r is Err ==> r == Err::<Vec<OutputFile>, DumpError>(DumpError::Timestamp),
            representable(self.timestamp) ==> r is Ok,
    {
        let mut files = match self.render_all(indent_size) {
            Ok(v) => v,
            Err(e) => return Err(e),
        };
        let build_number: u32 = match self.find_build_number() {
            None => 0,
            Some(_) => match read {
                Some(v) => v,
                None => 0,
            },
        };
        let info = match self.info_json(build_number) {
            Ok(s) => s,
            Err(e) => return Err(e),
        };
        let ghost first = files@;
        files.push(OutputFile { name: String::from_str("info.json"), contents: info });
        assert(files@.take(16) =~= first);
        assert(files@.map_values(|f: OutputFile| f.name@) =~= dump_file_names());
        Ok(files)
    }
}

/// A dump writes exactly these seventeen files, in this order.
pub proof fn lemma_dump_file_names()
    ensures
        dump_file_names() == seq![
        "buttons.cs"@,
        "buttons.hpp"@,
        "buttons.json"@,
        "buttons.rs"@,
        "interfaces.cs"@,
        "interfaces.hpp"@,
        "interfaces.json"@,
        "interfaces.rs"@,
        "offsets.cs"@,
        "offsets.hpp"@,
        "offsets.json"@,
        "offsets.rs"@,
        "schemas.cs"@,
        "schemas.hpp"@,
        "schemas.json"@,
        "schemas.rs"@,
        "info.json"@,
    ],
{
    reveal_strlit("buttons");
    reveal_strlit("interfaces");
    reveal_strlit("offsets");
    reveal_strlit("schemas");
    reveal_strlit("cs");
    reveal_strlit("hpp");
    reveal_strlit("json");
    reveal_strlit("rs");
    reveal_strlit(".");
    reveal_strlit("buttons.cs");
    reveal_strlit("buttons.hpp");
    reveal_strlit("buttons.json");
    reveal_strlit("buttons.rs");
    reveal_strlit("interfaces.cs");
    reveal_strlit("interfaces.hpp");
    reveal_strlit("interfaces.json");
    reveal_strlit("interfaces.rs");
    reveal_strlit("offsets.cs");
    reveal_strlit("offsets.hpp");
    reveal_strlit("offsets.json");
    reveal_strlit("offsets.rs");
    reveal_strlit("schemas.cs");
    reveal_strlit("schemas.hpp");
    reveal_strlit("schemas.json");
    reveal_strlit("schemas.rs");
    reveal_strlit("info.json");
    assert(dump_file_names()[0] =~= "buttons.cs"@);
    assert(dump_file_names()[1] =~= "buttons.hpp"@);
    assert(dump_file_names()[2] =~= "buttons.json"@);
    assert(dump_file_names()[3] =~= "buttons.rs"@);
    assert(dump_file_names()[4] =~= "interfaces.cs"@);
    assert(dump_file_names()[5] =~= "interfaces.hpp"@);
    assert(dump_file_names()[6] =~= "interfaces.json"@);
    assert(dump_file_names()[7] =~= "interfaces.rs"@);
    assert(dump_file_names()[8] =~= "offsets.cs"@);
    assert(dump_file_names()[9] =~= "offsets.hpp"@);
    assert(dump_file_names()[10] =~= "offsets.json"@);
    assert(dump_file_names()[11] =~= "offsets.rs"@);
    assert(dump_file_names()[12] =~= "schemas.cs"@);
    assert(dump_file_names()[13] =~= "schemas.hpp"@);
    assert(dump_file_names()[14] =~= "schemas.json"@);
    assert(dump_file_names()[15] =~= "schemas.rs"@);
    assert(dump_file_names()[16] =~= "info.json"@);
    assert(dump_file_names() =~= seq![
        "buttons.cs"@,
        "buttons.hpp"@,
        "buttons.json"@,
        "buttons.rs"@,
        "interfaces.cs"@,
        "interfaces.hpp"@,
        "interfaces.json"@,
        "interfaces.rs"@,
        "offsets.cs"@,
        "offsets.hpp"@,
        "offsets.json"@,
        "offsets.rs"@,
        "schemas.cs"@,
        "schemas.hpp"@,
        "schemas.json"@,
        "schemas.rs"@,
        "info.json"@,
    ]);
}

/// Without an offset named `dwBuildNumber` in any module, the build number
/// recorded is zero, whatever was read.
pub proof fn lemma_build_number_fallback(offsets: OffsetMap, read: Option<u32>)
    requires
        forall|i: int, j: int|
            0 <= i < offsets@.len() && 0 <= j < offsets@[i].entries@.len() ==> offsets@[i].entries@[j].name@
                != "dwBuildNumber"@,
    ensures
        recorded_build_number(offsets, read) == 0,
{
}

} // verus!
