//! An NBT document: a tree of named tags held in one arena of nodes.
//! Compounds map names to child nodes, lists hold children of one tag
//! type. References into the tree are cursors (plain node indices) and
//! take the document alongside; removing an entry detaches the child,
//! which stays allocated but unreachable.
//!
//! Floating-point tags carry their raw IEEE bit patterns, so the tree
//! itself is made of plain values.

use vstd::prelude::*;
use vstd::string::*;
use crate::strutil::str_eq;

verus! {

/// The tag byte of each NBT node kind.
pub type TagType = u8;

pub const TAG_BYTE_ID: u8 = 1;

pub const TAG_SHORT_ID: u8 = 2;

pub const TAG_INT_ID: u8 = 3;

pub const TAG_LONG_ID: u8 = 4;

pub const TAG_FLOAT_ID: u8 = 5;

pub const TAG_DOUBLE_ID: u8 = 6;

pub const TAG_BYTE_ARRAY_ID: u8 = 7;

pub const TAG_STRING_ID: u8 = 8;

pub const TAG_LIST_ID: u8 = 9;

pub const TAG_COMPOUND_ID: u8 = 10;

pub const TAG_INT_ARRAY_ID: u8 = 11;

pub const TAG_LONG_ARRAY_ID: u8 = 12;

/// The entries of a compound: names with the indices of their nodes,
/// in insertion order.
#[derive(Debug)]
pub struct NBTCompound(pub Vec<(String, usize)>);

/// One node of the arena. `Float` and `Double` hold raw IEEE-754 bits.
#[derive(Debug)]
pub enum NBTNode {
    Byte(i8),
    Short(i16),
    Int(i32),
    Long(i64),
    Float(u32),
    Double(u64),
    ByteArray(Vec<i8>),
    String(String),
    List { type_id: TagType, children: Vec<usize> },
    Compound(NBTCompound),
    IntArray(Vec<i32>),
    LongArray(Vec<i64>),
}

/// The tag byte of a node.
pub open spec fn tag_of(n: NBTNode) -> TagType {
    match n {
        NBTNode::Byte(..) => TAG_BYTE_ID,
        NBTNode::Short(..) => TAG_SHORT_ID,
        NBTNode::Int(..) => TAG_INT_ID,
        NBTNode::Long(..) => TAG_LONG_ID,
        NBTNode::Float(..) => TAG_FLOAT_ID,
        NBTNode::Double(..) => TAG_DOUBLE_ID,
        NBTNode::ByteArray(..) => TAG_BYTE_ARRAY_ID,
        NBTNode::String(..) => TAG_STRING_ID,
        NBTNode::List { .. } => TAG_LIST_ID,
        NBTNode::Compound(..) => TAG_COMPOUND_ID,
        NBTNode::IntArray(..) => TAG_INT_ARRAY_ID,
        NBTNode::LongArray(..) => TAG_LONG_ARRAY_ID,
    }
}

impl NBTNode {
    /// The tag byte of this node.
    pub fn get_type(&self) -> (r: TagType)
        ensures
            r == tag_of(*self),
    {
        match self {
            NBTNode::Byte(..) => TAG_BYTE_ID,
            NBTNode::Short(..) => TAG_SHORT_ID,
            NBTNode::Int(..) => TAG_INT_ID,
            NBTNode::Long(..) => TAG_LONG_ID,
            NBTNode::Float(..) => TAG_FLOAT_ID,
            NBTNode::Double(..) => TAG_DOUBLE_ID,
            NBTNode::ByteArray(..) => TAG_BYTE_ARRAY_ID,
            NBTNode::String(..) => TAG_STRING_ID,
            NBTNode::List { .. } => TAG_LIST_ID,
            NBTNode::Compound(..) => TAG_COMPOUND_ID,
            NBTNode::IntArray(..) => TAG_INT_ARRAY_ID,
            NBTNode::LongArray(..) => TAG_LONG_ARRAY_ID,
        }
    }
}

/// Whether every child index a node holds lies below `len`.
pub open spec fn node_ok(len: int, n: NBTNode) -> bool {
    match n {
        NBTNode::List { children, .. } => forall|j: int|
            0 <= j < children@.len() ==> (#[trigger] children@[j]) < len,
        NBTNode::Compound(c) => forall|j: int|
            0 <= j < c.0@.len() ==> (#[trigger] c.0@[j]).1 < len,
        _ => true,
    }
}

proof fn lemma_node_ok_monotone(l1: int, l2: int, n: NBTNode)
    requires
        node_ok(l1, n),
        l1 <= l2,
    ensures
        node_ok(l2, n),
{
}

/// An NBT document: the arena and the index of its root compound.
#[derive(Debug)]
pub struct NBT {
    pub nodes: Vec<NBTNode>,
    pub root: usize,
}

/// The entries of the compound node at `idx` (empty if `idx` does not
/// hold a compound).
pub open spec fn entries_at(nbt: NBT, idx: usize) -> Seq<(String, usize)> {
    match nbt.nodes@[idx as int] {
        NBTNode::Compound(c) => c.0@,
        _ => Seq::empty(),
    }
}

/// The children of the list node at `idx` (empty if `idx` does not hold
/// a list).
pub open spec fn children_at(nbt: NBT, idx: usize) -> Seq<usize> {
    match nbt.nodes@[idx as int] {
        NBTNode::List { children, .. } => children@,
        _ => Seq::empty(),
    }
}

/// The element type of the list node at `idx`.
pub open spec fn list_type_at(nbt: NBT, idx: usize) -> TagType {
    match nbt.nodes@[idx as int] {
        NBTNode::List { type_id, .. } => type_id,
        _ => 0,
    }
}

pub open spec fn is_compound_at(nbt: NBT, idx: usize) -> bool {
    idx < nbt.nodes@.len() && nbt.nodes@[idx as int] is Compound
}

pub open spec fn is_list_at(nbt: NBT, idx: usize) -> bool {
    idx < nbt.nodes@.len() && nbt.nodes@[idx as int] is List
}

impl NBT {
    /// Every index stored anywhere in the arena is in bounds, and the
    /// root is a compound.
    pub open spec fn wf(self) -> bool {
        is_compound_at(self, self.root) && forall|i: int|
            0 <= i < self.nodes@.len() ==> node_ok(
                self.nodes@.len() as int,
                #[trigger] self.nodes@[i],
            )
    }

    /// An empty document: one root compound with no entries.
    pub fn new() -> (r: NBT)
        ensures
            r.wf(),
            r.root == 0,
            r.nodes@.len() == 1,
            entries_at(r, 0) == Seq::<(String, usize)>::empty(),
    {
        let mut nodes: Vec<NBTNode> = Vec::new();
        nodes.push(NBTNode::Compound(NBTCompound(Vec::new())));
        NBT { nodes, root: 0 }
    }

    /// A read cursor for the root compound.
    pub fn as_compound(&self) -> (r: CompoundRef)
        requires
            self.wf(),
        ensures
            r.node_idx == self.root,
            r.wf(*self),
    {
        CompoundRef { node_idx: self.root }
    }

    /// A write cursor for the root compound.
    pub fn as_compound_mut(&self) -> (r: CompoundRefMut)
        requires
            self.wf(),
        ensures
            r.node_idx == self.root,
            r.wf(*self),
    {
        CompoundRefMut { node_idx: self.root }
    }

    /// The node at an index.
    pub fn get_node(&self, idx: usize) -> (r: &NBTNode)
        requires
            idx < self.nodes@.len(),
        ensures
            *r == self.nodes@[idx as int],
    {
        &self.nodes[idx]
    }
}

/// Position of the first entry named `key`, or the number of entries if
/// there is none.
pub open spec fn entry_pos(entries: Seq<(String, usize)>, key: Seq<char>) -> int
    decreases entries.len(),
{
    if entries.len() == 0 {
        0
    } else if entries[0].0@ == key {
        0
    } else {
        1 + entry_pos(entries.skip(1), key)
    }
}

/// The node index of the first entry named `key`, if any.
pub open spec fn entry_find(entries: Seq<(String, usize)>, key: Seq<char>) -> Option<usize> {
    if entry_pos(entries, key) < entries.len() {
        Some(entries[entry_pos(entries, key)].1)
    } else {
        None
    }
}

pub proof fn lemma_entry_pos(entries: Seq<(String, usize)>, key: Seq<char>)
    ensures
        0 <= entry_pos(entries, key) <= entries.len(),
        entry_pos(entries, key) < entries.len() ==> entries[entry_pos(entries, key)].0@ == key,
        forall|j: int| 0 <= j < entry_pos(entries, key) ==> (#[trigger] entries[j]).0@ != key,
    decreases entries.len(),
{
    if entries.len() != 0 && entries[0].0@ != key {
        lemma_entry_pos(entries.skip(1), key);
        assert forall|j: int| 0 <= j < entry_pos(entries, key) implies (#[trigger] entries[j]).0@
            != key by {
            if j > 0 {
                assert(entries.skip(1)[j - 1] == entries[j]);
            }
        }
        if entry_pos(entries, key) < entries.len() {
            assert(entries.skip(1)[entry_pos(entries, key) - 1] == entries[entry_pos(
                entries,
                key,
            )]);
        }
    }
}

pub proof fn lemma_entry_pos_is(entries: Seq<(String, usize)>, key: Seq<char>, i: int)
    requires
        0 <= i <= entries.len(),
        forall|j: int| 0 <= j < i ==> (#[trigger] entries[j]).0@ != key,
        i < entries.len() ==> entries[i].0@ == key,
    ensures
        entry_pos(entries, key) == i,
    decreases entries.len(),
{
    if entries.len() != 0 && entries[0].0@ != key {
        assert forall|j: int| 0 <= j < i - 1 implies (#[trigger] entries.skip(1)[j]).0@ != key by {
            assert(entries.skip(1)[j] == entries[j + 1]);
        }
        if i - 1 < entries.skip(1).len() {
            assert(entries.skip(1)[i - 1] == entries[i]);
        }
        lemma_entry_pos_is(entries.skip(1), key, i - 1);
    }
}

/// Scan a compound's entries for the first one named `key` and return
/// its position, or the entry count if there is none.
fn scan_entries(c: &NBTCompound, key: &str) -> (p: usize)
    ensures
        p as int == entry_pos(c.0@, key@),
{
    let mut j: usize = 0;
    let l = c.0.len();
    while j < l
        invariant
            j <= l,
            l == c.0@.len(),
            forall|m: int| 0 <= m < j ==> (#[trigger] c.0@[m]).0@ != key@,
        decreases l - j,
    {
        if str_eq(c.0[j].0.as_str(), key) {
            proof {
                lemma_entry_pos_is(c.0@, key@, j as int);
            }
            return j;
        }
        j = j + 1;
    }
    proof {
        lemma_entry_pos_is(c.0@, key@, l as int);
    }
    l
}

// ---------------------------------------------------------------------
// Read cursor over a compound
// ---------------------------------------------------------------------

/// A read cursor for a compound node.
#[derive(Clone, Copy, Debug)]
pub struct CompoundRef {
    pub node_idx: usize,
}

/// A read cursor for a list node, remembering its element type.
#[derive(Clone, Copy, Debug)]
pub struct ListRef {
    pub node_idx: usize,
    pub children_type: TagType,
}

impl CompoundRef {
    /// The cursor points at a compound of a well-formed document.
    pub open spec fn wf(self, nbt: NBT) -> bool {
        nbt.wf() && is_compound_at(nbt, self.node_idx)
    }

    pub open spec fn entries_spec(self, nbt: NBT) -> Seq<(String, usize)> {
        entries_at(nbt, self.node_idx)
    }

    /// The position of the first entry named `key`, if it exists.
    pub fn find_idx(&self, nbt: &NBT, key: &str) -> (r: Option<usize>)
        requires
            self.wf(*nbt),
        ensures
            r == entry_find(self.entries_spec(*nbt), key@),
    {
        match &nbt.nodes[self.node_idx] {
            NBTNode::Compound(c) => {
                let p = scan_entries(c, key);
                proof {
                    lemma_entry_pos(c.0@, key@);
                }
                if p < c.0.len() {
                    Some(c.0[p].1)
                } else {
                    None
                }
            },
            _ => {
                proof {
                    assert(false);
                }
                None
            },
        }
    }

    /// Whether the compound has no entries.
    pub fn is_empty(&self, nbt: &NBT) -> (r: bool)
        requires
            self.wf(*nbt),
        ensures
            r == (self.entries_spec(*nbt).len() == 0),
    {
        match &nbt.nodes[self.node_idx] {
            NBTNode::Compound(c) => c.0.len() == 0,
            _ => {
                proof {
                    assert(false);
                }
                true
            },
        }
    }

    /// The number of entries.
    pub fn len(&self, nbt: &NBT) -> (r: usize)
        requires
            self.wf(*nbt),
        ensures
            r == self.entries_spec(*nbt).len(),
    {
        match &nbt.nodes[self.node_idx] {
            NBTNode::Compound(c) => c.0.len(),
            _ => {
                proof {
                    assert(false);
                }
                0
            },
        }
    }

    /// The entry names, in order.
    pub fn keys(&self, nbt: &NBT) -> (r: Vec<String>)
        requires
            self.wf(*nbt),
        ensures
            r@.len() == self.entries_spec(*nbt).len(),
            forall|i: int|
                0 <= i < r@.len() ==> (#[trigger] r@[i])@ == self.entries_spec(*nbt)[i].0@,
    {
        match &nbt.nodes[self.node_idx] {
            NBTNode::Compound(c) => {
                let mut r: Vec<String> = Vec::new();
                let l = c.0.len();
                let mut j: usize = 0;
                while j < l
                    invariant
                        j <= l,
                        l == c.0@.len(),
                        r@.len() == j,
                        forall|i: int| 0 <= i < j ==> (#[trigger] r@[i])@ == c.0@[i].0@,
                    decreases l - j,
                {
                    r.push(c.0[j].0.clone());
                    j = j + 1;
                }
                r
            },
            _ => {
                proof {
                    assert(false);
                }
                Vec::new()
            },
        }
    }

    /// An iterator over the entries.
    pub fn entries(&self, nbt: &NBT) -> (r: CompoundIterator)
        requires
            self.wf(*nbt),
        ensures
            r.node_idx == self.node_idx,
            r.index == 0,
            r.wf(*nbt),
    {
        CompoundIterator { node_idx: self.node_idx, index: 0 }
    }

    /// The list named `key`, if there is one of exactly this element
    /// type.
    pub fn find_list(&self, nbt: &NBT, key: &str, type_id: TagType) -> (r: Option<ListRef>)
        requires
            self.wf(*nbt),
        ensures
            ({
                let found = entry_find(self.entries_spec(*nbt), key@);
                match r {
                    Some(list) => found == Some(list.node_idx) && is_list_at(*nbt, list.node_idx)
                        && list_type_at(*nbt, list.node_idx) == type_id && list.children_type
                        == type_id && list.wf(*nbt),
                    None => match found {
                        Some(i) => !(is_list_at(*nbt, i) && list_type_at(*nbt, i) == type_id),
                        None => true,
                    },
                }
            }),
    {
        let idx = match self.find_idx(nbt, key) {
            Some(idx) => idx,
            None => {
                return None;
            },
        };
        proof {
            self.lemma_entry_in_bounds(*nbt, key@);
        }
        match &nbt.nodes[idx] {
            NBTNode::List { type_id: list_type_id, .. } => {
                if *list_type_id == type_id {
                    Some(ListRef { node_idx: idx, children_type: type_id })
                } else {
                    None
                }
            },
            _ => None,
        }
    }

    /// The list named `key` of whatever element type, if there is one.
    pub fn find_list_of_any(&self, nbt: &NBT, key: &str) -> (r: Option<ListRef>)
        requires
            self.wf(*nbt),
        ensures
            ({
                let found = entry_find(self.entries_spec(*nbt), key@);
                match r {
                    Some(list) => found == Some(list.node_idx) && is_list_at(*nbt, list.node_idx)
                        && list.children_type == list_type_at(*nbt, list.node_idx) && list.wf(*nbt),
                    None => match found {
                        Some(i) => !is_list_at(*nbt, i),
                        None => true,
                    },
                }
            }),
    {
        let idx = match self.find_idx(nbt, key) {
            Some(idx) => idx,
            None => {
                return None;
            },
        };
        proof {
            self.lemma_entry_in_bounds(*nbt, key@);
        }
        match &nbt.nodes[idx] {
            NBTNode::List { type_id: list_type_id, .. } => {
                Some(ListRef { node_idx: idx, children_type: *list_type_id })
            },
            _ => None,
        }
    }

    /// The compound named `key`, if there is one.
    pub fn find_compound(&self, nbt: &NBT, key: &str) -> (r: Option<CompoundRef>)
        requires
            self.wf(*nbt),
        ensures
            ({
                let found = entry_find(self.entries_spec(*nbt), key@);
                match r {
                    Some(c) => found == Some(c.node_idx) && c.wf(*nbt),
                    None => match found {
                        Some(i) => !is_compound_at(*nbt, i),
                        None => true,
                    },
                }
            }),
    {
        let idx = match self.find_idx(nbt, key) {
            Some(idx) => idx,
            None => {
                return None;
            },
        };
        proof {
            self.lemma_entry_in_bounds(*nbt, key@);
        }
        match &nbt.nodes[idx] {
            NBTNode::Compound(..) => Some(CompoundRef { node_idx: idx }),
            _ => None,
        }
    }

    /// Whether an entry named `key` exists.
    pub fn contains_key(&self, nbt: &NBT, key: &str) -> (r: bool)
        requires
            self.wf(*nbt),
        ensures
            r == (entry_find(self.entries_spec(*nbt), key@) is Some),
    {
        self.find_idx(nbt, key).is_some()
    }

    /// The node at an arena index, as found entries report them.
    pub fn get_node<'a>(&self, nbt: &'a NBT, idx: usize) -> (r: &'a NBTNode)
        requires
            idx < nbt.nodes@.len(),
        ensures
            *r == nbt.nodes@[idx as int],
    {
        &nbt.nodes[idx]
    }

    /// A found entry's node index lies inside the arena.
    proof fn lemma_entry_in_bounds(self, nbt: NBT, key: Seq<char>)
        requires
            self.wf(nbt),
        ensures
            match entry_find(self.entries_spec(nbt), key) {
                Some(i) => i < nbt.nodes@.len(),
                None => true,
            },
    {
        lemma_entry_pos(self.entries_spec(nbt), key);
        assert(node_ok(nbt.nodes@.len() as int, nbt.nodes@[self.node_idx as int]));
    }
}

impl ListRef {
    /// The cursor points at a list of this element type in a well-formed
    /// document.
    pub open spec fn wf(self, nbt: NBT) -> bool {
        nbt.wf() && is_list_at(nbt, self.node_idx) && list_type_at(nbt, self.node_idx)
            == self.children_type
    }

    pub open spec fn children_spec(self, nbt: NBT) -> Seq<usize> {
        children_at(nbt, self.node_idx)
    }

    /// The number of elements.
    pub fn len(&self, nbt: &NBT) -> (r: usize)
        requires
            self.wf(*nbt),
        ensures
            r == self.children_spec(*nbt).len(),
    {
        match &nbt.nodes[self.node_idx] {
            NBTNode::List { children, .. } => children.len(),
            _ => {
                proof {
                    assert(false);
                }
                0
            },
        }
    }

    /// The node index of the element at `index`, if in range.
    pub fn get(&self, nbt: &NBT, index: usize) -> (r: Option<usize>)
        requires
            self.wf(*nbt),
        ensures
            ({
                let ch = self.children_spec(*nbt);
                if index < ch.len() {
                    r == Some(ch[index as int]) && ch[index as int] < nbt.nodes@.len()
                } else {
                    r is None
                }
            }),
    {
        match &nbt.nodes[self.node_idx] {
            NBTNode::List { children, .. } => {
                if index < children.len() {
                    proof {
                        assert(node_ok(nbt.nodes@.len() as int, nbt.nodes@[self.node_idx as int]));
                    }
                    Some(children[index])
                } else {
                    None
                }
            },
            _ => {
                proof {
                    assert(false);
                }
                None
            },
        }
    }

    /// An iterator over the element node indices.
    pub fn iter(&self, nbt: &NBT) -> (r: ListIterator)
        requires
            self.wf(*nbt),
        ensures
            r.node_idx == self.node_idx,
            r.index == 0,
            r.wf(*nbt),
    {
        ListIterator { node_idx: self.node_idx, index: 0 }
    }
}

// ---------------------------------------------------------------------
// Iterators
// ---------------------------------------------------------------------

/// Walks the element node indices of a list.
#[derive(Clone, Copy, Debug)]
pub struct ListIterator {
    pub node_idx: usize,
    pub index: usize,
}

impl ListIterator {
    pub open spec fn wf(self, nbt: NBT) -> bool {
        nbt.wf() && is_list_at(nbt, self.node_idx)
    }

    /// The next element's node index, advancing the cursor.
    pub fn next(&mut self, nbt: &NBT) -> (r: Option<usize>)
        requires
            old(self).wf(*nbt),
        ensures
            final(self).node_idx == old(self).node_idx,
            final(self).wf(*nbt),
            ({
                let ch = children_at(*nbt, old(self).node_idx);
                if old(self).index < ch.len() {
                    r == Some(ch[old(self).index as int]) && final(self).index == old(self).index
                        + 1 && ch[old(self).index as int] < nbt.nodes@.len()
                } else {
                    r is None && final(self).index == old(self).index
                }
            }),
    {
        match &nbt.nodes[self.node_idx] {
            NBTNode::List { children, .. } => {
                if self.index < children.len() {
                    let r = children[self.index];
                    proof {
                        assert(node_ok(nbt.nodes@.len() as int, nbt.nodes@[self.node_idx as int]));
                    }
                    self.index = self.index + 1;
                    Some(r)
                } else {
                    None
                }
            },
            _ => {
                proof {
                    assert(false);
                }
                None
            },
        }
    }
}

/// Walks the entries of a compound.
#[derive(Clone, Copy, Debug)]
pub struct CompoundIterator {
    pub node_idx: usize,
    pub index: usize,
}

impl CompoundIterator {
    pub open spec fn wf(self, nbt: NBT) -> bool {
        nbt.wf() && is_compound_at(nbt, self.node_idx)
    }

    /// The next entry as its name and node index, advancing the cursor.
    pub fn next(&mut self, nbt: &NBT) -> (r: Option<(String, usize)>)
        requires
            old(self).wf(*nbt),
        ensures
            final(self).node_idx == old(self).node_idx,
            final(self).wf(*nbt),
            ({
                let entries = entries_at(*nbt, old(self).node_idx);
                if old(self).index < entries.len() {
                    r matches Some(p) && p.0@ == entries[old(self).index as int].0@ && p.1
                        == entries[old(self).index as int].1 && p.1 < nbt.nodes@.len()
                        && final(self).index == old(self).index + 1
                } else {
                    r is None && final(self).index == old(self).index
                }
            }),
    {
        match &nbt.nodes[self.node_idx] {
            NBTNode::Compound(c) => {
                if self.index < c.0.len() {
                    let name = c.0[self.index].0.clone();
                    let idx = c.0[self.index].1;
                    proof {
                        assert(node_ok(nbt.nodes@.len() as int, nbt.nodes@[self.node_idx as int]));
                    }
                    self.index = self.index + 1;
                    Some((name, idx))
                } else {
                    None
                }
            },
            _ => {
                proof {
                    assert(false);
                }
                None
            },
        }
    }
}

// ---------------------------------------------------------------------
// Write cursors
// ---------------------------------------------------------------------

/// A write cursor for a compound node.
#[derive(Clone, Copy, Debug)]
pub struct CompoundRefMut {
    pub node_idx: usize,
}

/// A write cursor for a list node.
#[derive(Clone, Copy, Debug)]
pub struct ListRefMut {
    pub node_idx: usize,
}

impl CompoundRefMut {
    /// The cursor points at a compound of a well-formed document.
    pub open spec fn wf(self, nbt: NBT) -> bool {
        nbt.wf() && is_compound_at(nbt, self.node_idx)
    }

    pub open spec fn entries_spec(self, nbt: NBT) -> Seq<(String, usize)> {
        entries_at(nbt, self.node_idx)
    }

    /// The same position as a read cursor.
    pub fn as_immutable_ref(&self) -> (r: CompoundRef)
        ensures
            r.node_idx == self.node_idx,
    {
        CompoundRef { node_idx: self.node_idx }
    }

    /// The position of the first entry named `key`, if it exists.
    pub fn find_idx(&self, nbt: &NBT, key: &str) -> (r: Option<usize>)
        requires
            self.wf(*nbt),
        ensures
            r == entry_find(self.entries_spec(*nbt), key@),
    {
        self.as_immutable_ref().find_idx(nbt, key)
    }

    /// Whether the compound has no entries.
    pub fn is_empty(&self, nbt: &NBT) -> (r: bool)
        requires
            self.wf(*nbt),
        ensures
            r == (self.entries_spec(*nbt).len() == 0),
    {
        self.as_immutable_ref().is_empty(nbt)
    }

    /// An iterator over the entries.
    pub fn entries(&self, nbt: &NBT) -> (r: CompoundIterator)
        requires
            self.wf(*nbt),
        ensures
            r.node_idx == self.node_idx,
            r.index == 0,
            r.wf(*nbt),
    {
        CompoundIterator { node_idx: self.node_idx, index: 0 }
    }

    /// Whether an entry named `key` exists.
    pub fn contains_key(&self, nbt: &NBT, key: &str) -> (r: bool)
        requires
            self.wf(*nbt),
        ensures
            r == (entry_find(self.entries_spec(*nbt), key@) is Some),
    {
        self.as_immutable_ref().contains_key(nbt, key)
    }

    /// The node at an arena index, as found entries report them.
    pub fn get_node<'a>(&self, nbt: &'a NBT, idx: usize) -> (r: &'a NBTNode)
        requires
            idx < nbt.nodes@.len(),
        ensures
            *r == nbt.nodes@[idx as int],
    {
        &nbt.nodes[idx]
    }

    /// The list named `key`, if there is one of exactly this element
    /// type.
    pub fn find_list(&self, nbt: &NBT, key: &str, type_id: TagType) -> (r: Option<ListRef>)
        requires
            self.wf(*nbt),
        ensures
            ({
                let found = entry_find(self.entries_spec(*nbt), key@);
                match r {
                    Some(list) => found == Some(list.node_idx) && is_list_at(*nbt, list.node_idx)
                        && list_type_at(*nbt, list.node_idx) == type_id && list.children_type
                        == type_id && list.wf(*nbt),
                    None => match found {
                        Some(i) => !(is_list_at(*nbt, i) && list_type_at(*nbt, i) == type_id),
                        None => true,
                    },
                }
            }),
    {
        self.as_immutable_ref().find_list(nbt, key, type_id)
    }

    /// The list named `key` of whatever element type, if there is one.
    pub fn find_list_of_any(&self, nbt: &NBT, key: &str) -> (r: Option<ListRef>)
        requires
            self.wf(*nbt),
        ensures
            ({
                let found = entry_find(self.entries_spec(*nbt), key@);
                match r {
                    Some(list) => found == Some(list.node_idx) && is_list_at(*nbt, list.node_idx)
                        && list.children_type == list_type_at(*nbt, list.node_idx) && list.wf(*nbt),
                    None => match found {
                        Some(i) => !is_list_at(*nbt, i),
                        None => true,
                    },
                }
            }),
    {
        self.as_immutable_ref().find_list_of_any(nbt, key)
    }

    /// The compound named `key`, if there is one.
    pub fn find_compound(&self, nbt: &NBT, key: &str) -> (r: Option<CompoundRef>)
        requires
            self.wf(*nbt),
        ensures
            ({
                let found = entry_find(self.entries_spec(*nbt), key@);
                match r {
                    Some(c) => found == Some(c.node_idx) && c.wf(*nbt),
                    None => match found {
                        Some(i) => !is_compound_at(*nbt, i),
                        None => true,
                    },
                }
            }),
    {
        self.as_immutable_ref().find_compound(nbt, key)
    }

    /// The list named `key` as a write cursor, if there is one of
    /// exactly this element type.
    pub fn find_list_mut(&self, nbt: &NBT, key: &str, type_id: TagType) -> (r: Option<ListRefMut>)
        requires
            self.wf(*nbt),
        ensures
            ({
                let found = entry_find(self.entries_spec(*nbt), key@);
                match r {
                    Some(list) => found == Some(list.node_idx) && is_list_at(*nbt, list.node_idx)
                        && list_type_at(*nbt, list.node_idx) == type_id && list.wf(*nbt),
                    None => match found {
                        Some(i) => !(is_list_at(*nbt, i) && list_type_at(*nbt, i) == type_id),
                        None => true,
                    },
                }
            }),
    {
        match self.as_immutable_ref().find_list(nbt, key, type_id) {
            Some(list) => Some(ListRefMut { node_idx: list.node_idx }),
            None => None,
        }
    }

    /// The compound named `key` as a write cursor, if there is one.
    pub fn find_compound_mut(&self, nbt: &NBT, key: &str) -> (r: Option<CompoundRefMut>)
        requires
            self.wf(*nbt),
        ensures
            ({
                let found = entry_find(self.entries_spec(*nbt), key@);
                match r {
                    Some(c) => found == Some(c.node_idx) && c.wf(*nbt),
                    None => match found {
                        Some(i) => !is_compound_at(*nbt, i),
                        None => true,
                    },
                }
            }),
    {
        match self.as_immutable_ref().find_compound(nbt, key) {
            Some(c) => Some(CompoundRefMut { node_idx: c.node_idx }),
            None => None,
        }
    }

    /// Allocate `node` and bind it to `key`: an existing entry of that
    /// name is repointed at the new node, otherwise the entry is
    /// appended. Returns the new node's index.
    pub fn insert_node(&self, nbt: &mut NBT, key: &str, node: NBTNode) -> (idx: usize)
        requires
            self.wf(*old(nbt)),
            node_ok(old(nbt).nodes@.len() as int, node),
        ensures
            final(nbt).wf(),
            self.wf(*final(nbt)),
            final(nbt).root == old(nbt).root,
            idx == old(nbt).nodes@.len(),
            final(nbt).nodes@.len() == old(nbt).nodes@.len() + 1,
            final(nbt).nodes@[idx as int] == node,
            forall|i: int|
                0 <= i < old(nbt).nodes@.len() && i != self.node_idx ==> final(nbt).nodes@[i]
                    == old(nbt).nodes@[i],
            ({
                let old_e = entries_at(*old(nbt), self.node_idx);
                let new_e = entries_at(*final(nbt), self.node_idx);
                let p = entry_pos(old_e, key@);
                if p < old_e.len() {
                    new_e == old_e.update(p, (old_e[p].0, idx))
                } else {
                    new_e.len() == old_e.len() + 1 && new_e.take(old_e.len() as int) == old_e
                        && new_e.last().0@ == key@ && new_e.last().1 == idx
                }
            }),
    {
        let idx = nbt.nodes.len();
        nbt.nodes.push(node);
        let ghost mid = *nbt;
        match &mut nbt.nodes[self.node_idx] {
            NBTNode::Compound(comp) => {
                let p = scan_entries(&*comp, key);
                proof {
                    lemma_entry_pos(comp.0@, key@);
                }
                if p < comp.0.len() {
                    let e = &mut comp.0[p];
                    e.1 = idx;
                } else {
                    comp.0.push((String::from_str(key), idx));
                }
            },
            _ => {
                proof {
                    assert(false);
                }
            },
        }
        proof {
            let n = nbt.nodes@.len() as int;
            assert forall|i: int| 0 <= i < n implies node_ok(n, #[trigger] nbt.nodes@[i]) by {
                if i != self.node_idx {
                    if i < old(nbt).nodes@.len() {
                        lemma_node_ok_monotone(old(nbt).nodes@.len() as int, n, nbt.nodes@[i]);
                    } else {
                        lemma_node_ok_monotone(old(nbt).nodes@.len() as int, n, node);
                    }
                }
            }
        }
        idx
    }

    /// Allocate an empty list of `type_id` under `key`.
    pub fn create_list(&self, nbt: &mut NBT, key: &str, type_id: TagType) -> (r: ListRefMut)
        requires
            self.wf(*old(nbt)),
        ensures
            final(nbt).wf(),
            self.wf(*final(nbt)),
            final(nbt).root == old(nbt).root,
            r.node_idx == old(nbt).nodes@.len(),
            r.wf(*final(nbt)),
            final(nbt).nodes@.len() == old(nbt).nodes@.len() + 1,
            children_at(*final(nbt), r.node_idx) == Seq::<usize>::empty(),
            list_type_at(*final(nbt), r.node_idx) == type_id,
            forall|i: int|
                0 <= i < old(nbt).nodes@.len() && i != self.node_idx ==> final(nbt).nodes@[i]
                    == old(nbt).nodes@[i],
            entry_find(entries_at(*final(nbt), self.node_idx), key@) == Some(r.node_idx),
    {
        let idx = self.insert_node(nbt, key, NBTNode::List { type_id, children: Vec::new() });
        proof {
            Self::lemma_upsert_finds(
                entries_at(*old(nbt), self.node_idx),
                entries_at(*nbt, self.node_idx),
                key@,
                idx,
            );
        }
        ListRefMut { node_idx: idx }
    }

    /// Allocate an empty compound under `key`.
    pub fn create_compound(&self, nbt: &mut NBT, key: &str) -> (r: CompoundRefMut)
        requires
            self.wf(*old(nbt)),
        ensures
            final(nbt).wf(),
            self.wf(*final(nbt)),
            final(nbt).root == old(nbt).root,
            r.node_idx == old(nbt).nodes@.len(),
            r.wf(*final(nbt)),
            final(nbt).nodes@.len() == old(nbt).nodes@.len() + 1,
            entries_at(*final(nbt), r.node_idx) == Seq::<(String, usize)>::empty(),
            forall|i: int|
                0 <= i < old(nbt).nodes@.len() && i != self.node_idx ==> final(nbt).nodes@[i]
                    == old(nbt).nodes@[i],
            entry_find(entries_at(*final(nbt), self.node_idx), key@) == Some(r.node_idx),
    {
        let idx = self.insert_node(nbt, key, NBTNode::Compound(NBTCompound(Vec::new())));
        proof {
            Self::lemma_upsert_finds(
                entries_at(*old(nbt), self.node_idx),
                entries_at(*nbt, self.node_idx),
                key@,
                idx,
            );
        }
        CompoundRefMut { node_idx: idx }
    }

    /// After an upsert of `key` to `idx`, looking `key` up finds `idx`.
    proof fn lemma_upsert_finds(
        old_e: Seq<(String, usize)>,
        new_e: Seq<(String, usize)>,
        key: Seq<char>,
        idx: usize,
    )
        requires
            ({
                let p = entry_pos(old_e, key);
                if p < old_e.len() {
                    new_e == old_e.update(p, (old_e[p].0, idx))
                } else {
                    new_e.len() == old_e.len() + 1 && new_e.take(old_e.len() as int) == old_e
                        && new_e.last().0@ == key && new_e.last().1 == idx
                }
            }),
        ensures
            entry_find(new_e, key) == Some(idx),
    {
        let p = entry_pos(old_e, key);
        lemma_entry_pos(old_e, key);
        if p < old_e.len() {
            assert forall|j: int| 0 <= j < p implies (#[trigger] new_e[j]).0@ != key by {
                assert(new_e[j] == old_e[j]);
            }
            lemma_entry_pos_is(new_e, key, p);
        } else {
            assert forall|j: int| 0 <= j < old_e.len() implies (#[trigger] new_e[j]).0@ != key by {
                assert(new_e[j] == old_e.take(old_e.len() as int)[j]);
            }
            lemma_entry_pos_is(new_e, key, old_e.len() as int);
            assert(new_e[old_e.len() as int] == new_e.last());
        }
    }

    /// Detach the entry named `key`, if it exists: the entry disappears
    /// and its node becomes unreachable but stays allocated.
    pub fn remove(&self, nbt: &mut NBT, key: &str) -> (r: bool)
        requires
            self.wf(*old(nbt)),
        ensures
            final(nbt).wf(),
            self.wf(*final(nbt)),
            final(nbt).root == old(nbt).root,
            final(nbt).nodes@.len() == old(nbt).nodes@.len(),
            forall|i: int|
                0 <= i < old(nbt).nodes@.len() && i != self.node_idx ==> final(nbt).nodes@[i]
                    == old(nbt).nodes@[i],
            ({
                let old_e = entries_at(*old(nbt), self.node_idx);
                let new_e = entries_at(*final(nbt), self.node_idx);
                let p = entry_pos(old_e, key@);
                if p < old_e.len() {
                    r == true && new_e == old_e.remove(p)
                } else {
                    r == false && new_e == old_e
                }
            }),
    {
        let mut removed = false;
        match &mut nbt.nodes[self.node_idx] {
            NBTNode::Compound(comp) => {
                let p = scan_entries(&*comp, key);
                proof {
                    lemma_entry_pos(comp.0@, key@);
                }
                if p < comp.0.len() {
                    comp.0.remove(p);
                    removed = true;
                }
            },
            _ => {
                proof {
                    assert(false);
                }
            },
        }
        proof {
            let n = nbt.nodes@.len() as int;
            assert forall|i: int| 0 <= i < n implies node_ok(n, #[trigger] nbt.nodes@[i]) by {
                if i != self.node_idx {
                    assert(nbt.nodes@[i] == old(nbt).nodes@[i]);
                }
            }
        }
        removed
    }
}

impl ListRefMut {
    /// The cursor points at a list of a well-formed document.
    pub open spec fn wf(self, nbt: NBT) -> bool {
        nbt.wf() && is_list_at(nbt, self.node_idx)
    }

    pub open spec fn children_spec(self, nbt: NBT) -> Seq<usize> {
        children_at(nbt, self.node_idx)
    }

    /// The number of elements.
    pub fn len(&self, nbt: &NBT) -> (r: usize)
        requires
            self.wf(*nbt),
        ensures
            r == self.children_spec(*nbt).len(),
    {
        match &nbt.nodes[self.node_idx] {
            NBTNode::List { children, .. } => children.len(),
            _ => {
                proof {
                    assert(false);
                }
                0
            },
        }
    }

    /// Allocate `node` and append it to the list. The node's tag must
    /// match the list's element type.
    pub fn insert_node(&self, nbt: &mut NBT, node: NBTNode) -> (idx: usize)
        requires
            self.wf(*old(nbt)),
            node_ok(old(nbt).nodes@.len() as int, node),
            tag_of(node) == list_type_at(*old(nbt), self.node_idx),
        ensures
            final(nbt).wf(),
            self.wf(*final(nbt)),
            final(nbt).root == old(nbt).root,
            idx == old(nbt).nodes@.len(),
            final(nbt).nodes@.len() == old(nbt).nodes@.len() + 1,
            final(nbt).nodes@[idx as int] == node,
            forall|i: int|
                0 <= i < old(nbt).nodes@.len() && i != self.node_idx ==> final(nbt).nodes@[i]
                    == old(nbt).nodes@[i],
            children_at(*final(nbt), self.node_idx) == children_at(
                *old(nbt),
                self.node_idx,
            ).push(idx),
            list_type_at(*final(nbt), self.node_idx) == list_type_at(*old(nbt), self.node_idx),
    {
        let idx = nbt.nodes.len();
        nbt.nodes.push(node);
        match &mut nbt.nodes[self.node_idx] {
            NBTNode::List { children, .. } => {
                children.push(idx);
            },
            _ => {
                proof {
                    assert(false);
                }
            },
        }
        proof {
            let n = nbt.nodes@.len() as int;
            assert forall|i: int| 0 <= i < n implies node_ok(n, #[trigger] nbt.nodes@[i]) by {
                if i != self.node_idx {
                    if i < old(nbt).nodes@.len() {
                        lemma_node_ok_monotone(old(nbt).nodes@.len() as int, n, nbt.nodes@[i]);
                    } else {
                        lemma_node_ok_monotone(old(nbt).nodes@.len() as int, n, node);
                    }
                }
            }
        }
        idx
    }

    /// Allocate an empty compound and append it to this list of
    /// compounds.
    pub fn create_compound(&self, nbt: &mut NBT) -> (r: CompoundRefMut)
        requires
            self.wf(*old(nbt)),
            list_type_at(*old(nbt), self.node_idx) == TAG_COMPOUND_ID,
        ensures
            final(nbt).wf(),
            self.wf(*final(nbt)),
            final(nbt).root == old(nbt).root,
            r.node_idx == old(nbt).nodes@.len(),
            r.wf(*final(nbt)),
            final(nbt).nodes@.len() == old(nbt).nodes@.len() + 1,
            entries_at(*final(nbt), r.node_idx) == Seq::<(String, usize)>::empty(),
            children_at(*final(nbt), self.node_idx) == children_at(
                *old(nbt),
                self.node_idx,
            ).push(r.node_idx),
            forall|i: int|
                0 <= i < old(nbt).nodes@.len() && i != self.node_idx ==> final(nbt).nodes@[i]
                    == old(nbt).nodes@[i],
    {
        let idx = self.insert_node(nbt, NBTNode::Compound(NBTCompound(Vec::new())));
        CompoundRefMut { node_idx: idx }
    }

    /// Allocate an empty list of `type_id` and append it to this list
    /// of lists.
    pub fn create_list(&self, nbt: &mut NBT, type_id: TagType) -> (r: ListRefMut)
        requires
            self.wf(*old(nbt)),
            list_type_at(*old(nbt), self.node_idx) == TAG_LIST_ID,
        ensures
            final(nbt).wf(),
            self.wf(*final(nbt)),
            final(nbt).root == old(nbt).root,
            r.node_idx == old(nbt).nodes@.len(),
            r.wf(*final(nbt)),
            final(nbt).nodes@.len() == old(nbt).nodes@.len() + 1,
            children_at(*final(nbt), r.node_idx) == Seq::<usize>::empty(),
            list_type_at(*final(nbt), r.node_idx) == type_id,
            children_at(*final(nbt), self.node_idx) == children_at(
                *old(nbt),
                self.node_idx,
            ).push(r.node_idx),
            forall|i: int|
                0 <= i < old(nbt).nodes@.len() && i != self.node_idx ==> final(nbt).nodes@[i]
                    == old(nbt).nodes@[i],
    {
        let idx = self.insert_node(nbt, NBTNode::List { type_id, children: Vec::new() });
        ListRefMut { node_idx: idx }
    }

    /// Replace the element at `index` with a fresh `node`, or append it
    /// if `index` is one past the end. The replaced slot must not be
    /// the list itself or the document root, which a tree built through
    /// this interface never stores as an element.
    pub fn set_node_at(&self, nbt: &mut NBT, index: usize, node: NBTNode) -> (idx: usize)
        requires
            self.wf(*old(nbt)),
            node_ok(old(nbt).nodes@.len() as int, node),
            tag_of(node) == list_type_at(*old(nbt), self.node_idx),
            index <= children_at(*old(nbt), self.node_idx).len(),
            index < children_at(*old(nbt), self.node_idx).len() ==> children_at(
                *old(nbt),
                self.node_idx,
            )[index as int] != self.node_idx && children_at(*old(nbt), self.node_idx)[index as int]
                != old(nbt).root,
        ensures
            final(nbt).wf(),
            self.wf(*final(nbt)),
            final(nbt).root == old(nbt).root,
            list_type_at(*final(nbt), self.node_idx) == list_type_at(*old(nbt), self.node_idx),
            ({
                let ch = children_at(*old(nbt), self.node_idx);
                if index < ch.len() {
                    idx == ch[index as int] && final(nbt).nodes@ == old(nbt).nodes@.update(
                        idx as int,
                        node,
                    ) && children_at(*final(nbt), self.node_idx) == ch
                } else {
                    idx == old(nbt).nodes@.len() && final(nbt).nodes@.len() == old(
                        nbt,
                    ).nodes@.len() + 1 && final(nbt).nodes@[idx as int] == node && children_at(
                        *final(nbt),
                        self.node_idx,
                    ) == ch.push(idx)
                }
            }),
    {
        let child = match &nbt.nodes[self.node_idx] {
            NBTNode::List { children, .. } => {
                if index == children.len() {
                    usize::MAX
                } else {
                    proof {
                        assert(node_ok(nbt.nodes@.len() as int, nbt.nodes@[self.node_idx as int]));
                    }
                    children[index]
                }
            },
            _ => {
                proof {
                    assert(false);
                }
                usize::MAX
            },
        };
        if index == self.len(nbt) {
            return self.insert_node(nbt, node);
        }
        let slot = &mut nbt.nodes[child];
        *slot = node;
        proof {
            let n = nbt.nodes@.len() as int;
            assert forall|i: int| 0 <= i < n implies node_ok(n, #[trigger] nbt.nodes@[i]) by {
                if i != child {
                    assert(nbt.nodes@[i] == old(nbt).nodes@[i]);
                }
            }
        }
        child
    }
}

// ---------------------------------------------------------------------
// Deep copies
// ---------------------------------------------------------------------

/// Two nodes with the same shape and contents. Keys and strings are
/// compared by their characters, everything else by value.
pub open spec fn node_like(a: NBTNode, b: NBTNode) -> bool {
    match (a, b) {
        (NBTNode::Byte(x), NBTNode::Byte(y)) => x == y,
        (NBTNode::Short(x), NBTNode::Short(y)) => x == y,
        (NBTNode::Int(x), NBTNode::Int(y)) => x == y,
        (NBTNode::Long(x), NBTNode::Long(y)) => x == y,
        (NBTNode::Float(x), NBTNode::Float(y)) => x == y,
        (NBTNode::Double(x), NBTNode::Double(y)) => x == y,
        (NBTNode::ByteArray(x), NBTNode::ByteArray(y)) => x@ == y@,
        (NBTNode::String(x), NBTNode::String(y)) => x@ == y@,
        (
            NBTNode::List { type_id: t1, children: c1 },
            NBTNode::List { type_id: t2, children: c2 },
        ) => t1 == t2 && c1@ == c2@,
        (NBTNode::Compound(c1), NBTNode::Compound(c2)) => c1.0@.len() == c2.0@.len() && forall|
            j: int,
        |
            0 <= j < c1.0@.len() ==> (#[trigger] c1.0@[j]).0@ == c2.0@[j].0@ && c1.0@[j].1
                == c2.0@[j].1,
        (NBTNode::IntArray(x), NBTNode::IntArray(y)) => x@ == y@,
        (NBTNode::LongArray(x), NBTNode::LongArray(y)) => x@ == y@,
        _ => false,
    }
}

fn copy_vec<T: Copy>(v: &Vec<T>) -> (r: Vec<T>)
    ensures
        r@ == v@,
{
    let mut r: Vec<T> = Vec::new();
    let mut i: usize = 0;
    while i < v.len()
        invariant
            i <= v@.len(),
            r@ == v@.take(i as int),
        decreases v@.len() - i,
    {
        r.push(v[i]);
        proof {
            assert(v@.take(i as int + 1) =~= v@.take(i as int).push(v@[i as int]));
        }
        i = i + 1;
    }
    proof {
        assert(v@.take(v@.len() as int) =~= v@);
    }
    r
}

fn copy_entries(v: &Vec<(String, usize)>) -> (r: Vec<(String, usize)>)
    ensures
        r@.len() == v@.len(),
        forall|j: int|
            0 <= j < v@.len() ==> (#[trigger] r@[j]).0@ == v@[j].0@ && r@[j].1 == v@[j].1,
{
    let mut r: Vec<(String, usize)> = Vec::new();
    let mut i: usize = 0;
    while i < v.len()
        invariant
            i <= v@.len(),
            r@.len() == i,
            forall|j: int|
                0 <= j < i ==> (#[trigger] r@[j]).0@ == v@[j].0@ && r@[j].1 == v@[j].1,
        decreases v@.len() - i,
    {
        r.push((v[i].0.clone(), v[i].1));
        i = i + 1;
    }
    r
}

/// A fresh node with the same shape and contents.
fn clone_node(n: &NBTNode) -> (r: NBTNode)
    ensures
        node_like(*n, r),
{
    match n {
        NBTNode::Byte(v) => NBTNode::Byte(*v),
        NBTNode::Short(v) => NBTNode::Short(*v),
        NBTNode::Int(v) => NBTNode::Int(*v),
        NBTNode::Long(v) => NBTNode::Long(*v),
        NBTNode::Float(v) => NBTNode::Float(*v),
        NBTNode::Double(v) => NBTNode::Double(*v),
        NBTNode::ByteArray(v) => NBTNode::ByteArray(copy_vec(v)),
        NBTNode::String(v) => NBTNode::String(v.clone()),
        NBTNode::List { type_id, children } => NBTNode::List {
            type_id: *type_id,
            children: copy_vec(children),
        },
        NBTNode::Compound(c) => NBTNode::Compound(NBTCompound(copy_entries(&c.0))),
        NBTNode::IntArray(v) => NBTNode::IntArray(copy_vec(v)),
        NBTNode::LongArray(v) => NBTNode::LongArray(copy_vec(v)),
    }
}

impl CompoundRef {
    /// A fresh document whose root is a copy of this compound: the
    /// whole arena is copied node for node and the root repointed, so
    /// the subtree below this cursor reads the same in the copy.
    pub fn clone_nbt(&self, nbt: &NBT) -> (r: NBT)
        requires
            self.wf(*nbt),
        ensures
            r.wf(),
            r.root == self.node_idx,
            r.nodes@.len() == nbt.nodes@.len(),
            forall|i: int|
                0 <= i < nbt.nodes@.len() ==> node_like(
                    #[trigger] nbt.nodes@[i],
                    r.nodes@[i],
                ),
    {
        let mut nodes: Vec<NBTNode> = Vec::new();
        let mut i: usize = 0;
        while i < nbt.nodes.len()
            invariant
                i <= nbt.nodes@.len(),
                nodes@.len() == i,
                forall|j: int|
                    0 <= j < i ==> node_like(#[trigger] nbt.nodes@[j], nodes@[j]),
            decreases nbt.nodes@.len() - i,
        {
            let copy = clone_node(&nbt.nodes[i]);
            nodes.push(copy);
            i = i + 1;
        }
        let r = NBT { nodes, root: self.node_idx };
        proof {
            let n = r.nodes@.len() as int;
            assert forall|k: int| 0 <= k < n implies node_ok(n, #[trigger] r.nodes@[k]) by {
                assert(node_like(nbt.nodes@[k], r.nodes@[k]));
                assert(node_ok(n, nbt.nodes@[k]));
                match nbt.nodes@[k] {
                    NBTNode::Compound(c1) => match r.nodes@[k] {
                        NBTNode::Compound(c2) => {
                            assert forall|j: int| 0 <= j < c2.0@.len() implies (#[trigger] c2.0@[j]).1
                                < n by {
                                assert(c1.0@[j].0@ == c2.0@[j].0@ && c1.0@[j].1 == c2.0@[j].1);
                            }
                        },
                        _ => {},
                    },
                    _ => {},
                }
            }
            assert(node_like(nbt.nodes@[self.node_idx as int], r.nodes@[self.node_idx as int]));
        }
        r
    }
}

} // verus!
