//! The captured data: named records grouped by module, and the snapshot
//! that holds every collection with the time it was taken.

use vstd::prelude::*;

verus! {

/// A named value: a button, an interface, an offset or a class field.
#[derive(Debug, Clone)]
pub struct Entry {
    pub name: String,
    pub value: u64,
}

pub type Button = Entry;

pub type Interface = Entry;

pub type Offset = Entry;

/// A named, ordered sequence of entries: the interfaces or offsets of one
/// module, or the fields of one schema class.
#[derive(Debug, Clone)]
pub struct Module {
    pub name: String,
    pub entries: Vec<Entry>,
}

/// A schema class: its name and its fields with their offsets.
pub type SchemaClass = Module;

/// The schema classes of one module.
#[derive(Debug, Clone)]
pub struct SchemaModule {
    pub name: String,
    pub classes: Vec<SchemaClass>,
}

/// Interfaces by module, in order, each module named once.
pub type InterfaceMap = Vec<Module>;

/// Offsets by module, in order, each module named once.
pub type OffsetMap = Vec<Module>;

/// Schema classes by module, in order, each module named once.
pub type SchemaMap = Vec<SchemaModule>;

/// An instant in UTC: whole seconds since the Unix epoch and the
/// nanoseconds past them.
#[derive(Debug, Clone, Copy, PartialEq, Eq, Structural)]
pub struct Timestamp {
    pub secs: i64,
    pub nanos: u32,
}

/// A snapshot: when it was taken and the four collections it holds.
#[derive(Debug, Clone)]
pub struct Results {
    /// Time of the capture.
    pub timestamp: Timestamp,
    /// Buttons, in order.
    pub buttons: Vec<Button>,
    /// Interfaces by module.
    pub interfaces: InterfaceMap,
    /// Offsets by module.
    pub offsets: OffsetMap,
    /// Schema classes by module.
    pub schemas: SchemaMap,
}

impl Results {
    /// Module names are unique in each of the three maps.
    pub open spec fn wf(&self) -> bool {
        &&& unique_names(module_names(self.interfaces@))
        &&& unique_names(module_names(self.offsets@))
        &&& unique_names(schema_module_names(self.schemas@))
    }
}

/// An entry as a name and a value.
pub type EntryView = (Seq<char>, u64);

/// A group of entries as a name and its entries.
pub type GroupView = (Seq<char>, Seq<EntryView>);

pub open spec fn entry_view(e: Entry) -> EntryView {
    (e.name@, e.value)
}

pub open spec fn entries_view(es: Seq<Entry>) -> Seq<EntryView> {
    es.map_values(|e: Entry| entry_view(e))
}

pub open spec fn module_view(m: Module) -> GroupView {
    (m.name@, entries_view(m.entries@))
}

pub open spec fn modules_view(ms: Seq<Module>) -> Seq<GroupView> {
    ms.map_values(|m: Module| module_view(m))
}

/// The classes of all schema modules, module after module.
pub open spec fn schema_classes(ms: Seq<SchemaModule>) -> Seq<GroupView>
    decreases ms.len(),
{
    if ms.len() == 0 {
        Seq::empty()
    } else {
        schema_classes(ms.drop_last()) + modules_view(ms.last().classes@)
    }
}

/// No two modules share a name.
pub open spec fn unique_names(names: Seq<Seq<char>>) -> bool {
    forall|i: int, j: int| 0 <= i < j < names.len() ==> names[i] != names[j]
}

pub open spec fn module_names(ms: Seq<Module>) -> Seq<Seq<char>> {
    ms.map_values(|m: Module| m.name@)
}

pub open spec fn schema_module_names(ms: Seq<SchemaModule>) -> Seq<Seq<char>> {
    ms.map_values(|m: SchemaModule| m.name@)
}

/// Whether no two modules of an interface or offset map share a name.
pub fn modules_have_unique_names(ms: &Vec<Module>) -> (r: bool)
    ensures
        r == unique_names(module_names(ms@)),
{
    let ghost v = module_names(ms@);
    let mut i: usize = 0;
    while i < ms.len()
        invariant
            v == module_names(ms@),
            i <= ms.len(),
            forall|a: int, b: int| 0 <= a < b < v.len() && a < i ==> v[a] != v[b],
        decreases ms.len() - i,
    {
        let mut j: usize = i + 1;
        while j < ms.len()
            invariant
                v == module_names(ms@),
                i < j <= ms.len(),
                forall|a: int, b: int| 0 <= a < b < v.len() && a < i ==> v[a] != v[b],
                forall|b: int| i < b < j ==> v[i as int] != v[b],
            decreases ms.len() - j,
        {
            if ms[i].name == ms[j].name {
                assert(v[i as int] == v[j as int]);
                return false;
            }
            j = j + 1;
        }
        i = i + 1;
    }
    true
}

/// Whether no two modules of a schema map share a name.
pub fn schema_modules_have_unique_names(ms: &Vec<SchemaModule>) -> (r: bool)
    ensures
        r == unique_names(schema_module_names(ms@)),
{
    let ghost v = schema_module_names(ms@);
    let mut i: usize = 0;
    while i < ms.len()
        invariant
            v == schema_module_names(ms@),
            i <= ms.len(),
            forall|a: int, b: int| 0 <= a < b < v.len() && a < i ==> v[a] != v[b],
        decreases ms.len() - i,
    {
        let mut j: usize = i + 1;
        while j < ms.len()
            invariant
                v == schema_module_names(ms@),
                i < j <= ms.len(),
                forall|a: int, b: int| 0 <= a < b < v.len() && a < i ==> v[a] != v[b],
                forall|b: int| i < b < j ==> v[i as int] != v[b],
            decreases ms.len() - j,
        {
            if ms[i].name == ms[j].name {
                assert(v[i as int] == v[j as int]);
                return false;
            }
            j = j + 1;
        }
        i = i + 1;
    }
    true
}

} // verus!
