//! Color lookup tables by name.
//!
//! A table is 768 bytes: 256 red values, then 256 green, then 256 blue. The
//! host registers tables under their names; the library lists the names in
//! order and splits a table into its channels.

use vstd::prelude::*;
use vstd::slice::{slice_subrange, slice_to_vec};
use vstd::string::StringExecFns;

verus! {

/// The number of entries in each channel of a table.
pub const LUT_CHANNEL_LEN: usize = 256;

/// The number of bytes in a table.
pub const LUT_BYTES: usize = 768;

/// The three channels of a color lookup table.
#[derive(Debug, Clone)]
pub struct LutData {
    pub red: Vec<u8>,
    pub green: Vec<u8>,
    pub blue: Vec<u8>,
}

impl LutData {
    /// Each channel has 256 entries.
    pub open spec fn wf(&self) -> bool {
        &&& self.red@.len() == LUT_CHANNEL_LEN
        &&& self.green@.len() == LUT_CHANNEL_LEN
        &&& self.blue@.len() == LUT_CHANNEL_LEN
    }

    /// The channels are the three thirds of `bytes`.
    pub open spec fn holds(&self, bytes: Seq<u8>) -> bool {
        &&& self.red@ == bytes.subrange(0, 256)
        &&& self.green@ == bytes.subrange(256, 512)
        &&& self.blue@ == bytes.subrange(512, 768)
    }
}

/// Why a table could not be registered or loaded.
#[derive(Clone, Debug, PartialEq, Eq)]
pub enum LutError {
    /// No table is registered under the name, which the error carries.
    NotFound(String),
    /// The table is not 768 bytes long.
    InvalidData,
}

impl LutError {
    /// What is wrong, in words. A table that was not found is named.
    pub open spec fn message(&self) -> Seq<char> {
        match self {
            LutError::NotFound(name) => "LUT '"@ + name@ + "' not found"@,
            LutError::InvalidData => "Invalid LUT file size"@,
        }
    }

    /// What is wrong, in words. A table that was not found is named.
    pub fn to_string(&self) -> (s: String)
        ensures
            s@ == self.message(),
    {
        match self {
            LutError::NotFound(name) => "LUT '".to_owned().concat(name.as_str()).concat(
                "' not found",
            ),
            LutError::InvalidData => "Invalid LUT file size".to_owned(),
        }
    }
}

/// Splits the bytes of a table into its channels. Anything but 768 bytes is
/// refused.
pub fn split_channels(bytes: &[u8]) -> (r: Result<LutData, LutError>)
    ensures
        bytes@.len() == LUT_BYTES ==> r is Ok && r.unwrap().holds(bytes@) && r.unwrap().wf(),
        bytes@.len() != LUT_BYTES ==> r matches Err(LutError::InvalidData),
{
    if bytes.len() != LUT_BYTES {
        return Err(LutError::InvalidData);
    }
    let red: Vec<u8> = slice_to_vec(slice_subrange(bytes, 0, 256));
    let green: Vec<u8> = slice_to_vec(slice_subrange(bytes, 256, 512));
    let blue: Vec<u8> = slice_to_vec(slice_subrange(bytes, 512, 768));
    Ok(LutData { red, green, blue })
}

/// `a` comes before `b`, or equals it, in the order of strings: character
/// by character by code point, a prefix before what extends it.
pub open spec fn name_le(a: Seq<char>, b: Seq<char>) -> bool
    decreases a.len(),
{
    if a.len() == 0 {
        true
    } else if b.len() == 0 {
        false
    } else if a[0] != b[0] {
        (a[0] as u32) < (b[0] as u32)
    } else {
        name_le(a.drop_first(), b.drop_first())
    }
}

/// The names are in ascending order.
pub open spec fn ascending(names: Seq<Seq<char>>) -> bool {
    forall|i: int, j: int| 0 <= i <= j < names.len() ==> name_le(names[i], names[j])
}

/// The order of names as a relation.
pub open spec fn name_order() -> spec_fn(Seq<char>, Seq<char>) -> bool {
    |a: Seq<char>, b: Seq<char>| name_le(a, b)
}

/// Every name comes before itself or equals it.
pub proof fn lemma_name_le_reflexive(a: Seq<char>)
    ensures
        name_le(a, a),
    decreases a.len(),
{
    if a.len() > 0 {
        lemma_name_le_reflexive(a.drop_first());
    }
}

/// Two names of which each comes before the other, or equals it, are
/// equal.
pub proof fn lemma_name_le_antisymmetric(a: Seq<char>, b: Seq<char>)
    requires
        name_le(a, b),
        name_le(b, a),
    ensures
        a == b,
    decreases a.len(),
{
    if a.len() == 0 {
        assert(a =~= b);
    } else {
        assert(a[0] == b[0]);
        lemma_name_le_antisymmetric(a.drop_first(), b.drop_first());
        assert(a =~= seq![a[0]] + a.drop_first());
        assert(b =~= seq![b[0]] + b.drop_first());
    }
}

/// The order of names carries over a name between two others.
pub proof fn lemma_name_le_transitive(a: Seq<char>, b: Seq<char>, c: Seq<char>)
    requires
        name_le(a, b),
        name_le(b, c),
    ensures
        name_le(a, c),
    decreases a.len(),
{
    if a.len() > 0 && a[0] == b[0] && b[0] == c[0] {
        lemma_name_le_transitive(a.drop_first(), b.drop_first(), c.drop_first());
    }
}

/// Of two names, one comes before the other or equals it.
pub proof fn lemma_name_le_connected(a: Seq<char>, b: Seq<char>)
    ensures
        name_le(a, b) || name_le(b, a),
    decreases a.len(),
{
    if a.len() > 0 && b.len() > 0 {
        if a[0] == b[0] {
            lemma_name_le_connected(a.drop_first(), b.drop_first());
        } else {
            vstd::utf8::char_u32_cast(a[0], a[0] as u32);
            vstd::utf8::char_u32_cast(b[0], b[0] as u32);
        }
    }
}

/// The order of names is a total order.
pub proof fn lemma_name_order_total()
    ensures
        vstd::relations::total_ordering(name_order()),
{
    assert forall|a: Seq<char>| #[trigger] name_order()(a, a) by {
        lemma_name_le_reflexive(a);
    }
    assert forall|a: Seq<char>, b: Seq<char>| #[trigger]
        name_order()(a, b) && #[trigger] name_order()(b, a) implies a == b by {
        lemma_name_le_antisymmetric(a, b);
    }
    assert forall|a: Seq<char>, b: Seq<char>, c: Seq<char>| #[trigger]
        name_order()(a, b) && #[trigger] name_order()(b, c) implies name_order()(a, c) by {
        lemma_name_le_transitive(a, b, c);
    }
    assert forall|a: Seq<char>, b: Seq<char>| #[trigger]
        name_order()(a, b) || #[trigger] name_order()(b, a) by {
        lemma_name_le_connected(a, b);
    }
}

/// There is one way only to put names in ascending order: two ascending
/// sequences that hold the same names, each as often, are equal.
pub proof fn lemma_ascending_unique(x: Seq<Seq<char>>, y: Seq<Seq<char>>)
    requires
        ascending(x),
        ascending(y),
        x.to_multiset() == y.to_multiset(),
    ensures
        x == y,
{
    lemma_name_order_total();
    assert(vstd::relations::sorted_by(x, name_order()));
    assert(vstd::relations::sorted_by(y, name_order()));
    vstd::seq_lib::lemma_sorted_unique(x, y, name_order());
}

/// The character sequences of a sequence of strings.
pub open spec fn views(names: Seq<String>) -> Seq<Seq<char>> {
    names.map_values(|s: String| s@)
}

/// Sorts the names with `sort` of the standard library's slices. Assumed of
/// it: what comes out is a rearrangement of what went in, in the ascending
/// order that the standard library documents for strings.
#[verifier::external_body]
fn sort_names(names: &mut Vec<String>)
    ensures
        views(final(names)@).to_multiset() == views(old(names)@).to_multiset(),
        ascending(views(final(names)@)),
{
    names.sort();
}

struct LutEntry {
    name: String,
    data: Vec<u8>,
}

/// The registry of color lookup tables.
pub struct LutManager {
    entries: Vec<LutEntry>,
}

impl LutManager {
    /// The registered names, in the order of registration.
    pub closed spec fn names(&self) -> Seq<Seq<char>> {
        self.entries@.map_values(|e: LutEntry| e.name@)
    }

    /// The registered tables, each at the place of its name.
    pub closed spec fn tables(&self) -> Seq<Seq<u8>> {
        self.entries@.map_values(|e: LutEntry| e.data@)
    }

    /// No name is registered twice, and every table is 768 bytes long.
    pub closed spec fn wf(&self) -> bool {
        &&& self.names().no_duplicates()
        &&& forall|i: int|
            0 <= i < self.tables().len() ==> (#[trigger] self.tables()[i]).len() == LUT_BYTES
    }

    /// Every registered table is whole: a name that is registered has a
    /// table of 768 bytes.
    pub proof fn lemma_tables_are_whole(&self, name: Seq<char>)
        requires
            self.wf(),
        ensures
            self.lookup(name) is Some <==> self.names().contains(name),
            self.lookup(name) matches Some(bytes) ==> bytes.len() == LUT_BYTES,
    {
    }

    /// The table registered under `name`, if there is one.
    pub open spec fn lookup(&self, name: Seq<char>) -> Option<Seq<u8>> {
        if self.names().contains(name) {
            Some(self.tables()[self.names().index_of(name)])
        } else {
            None
        }
    }

    /// `name` is registered and no registered name comes before it.
    pub open spec fn is_first(&self, name: Seq<char>) -> bool {
        &&& self.names().contains(name)
        &&& forall|other: Seq<char>| self.names().contains(other) ==> name_le(name, other)
    }

    /// A registry without tables.
    pub fn new() -> (r: LutManager)
        ensures
            r.wf(),
            r.names() == Seq::<Seq<char>>::empty(),
            r.tables() == Seq::<Seq<u8>>::empty(),
    {
        let r = LutManager { entries: Vec::new() };
        assert(r.names() =~= Seq::<Seq<char>>::empty());
        assert(r.tables() =~= Seq::<Seq<u8>>::empty());
        r
    }

    /// The place of `name` among the entries, if it is registered.
    fn find(&self, name: &str) -> (r: Option<usize>)
        requires
            self.wf(),
        ensures
            self.names().len() == self.tables().len(),
            match r {
                Some(i) => i < self.names().len() && self.names()[i as int] == name@
                    && self.names().contains(name@) && self.names().index_of(name@) == i,
                None => !self.names().contains(name@),
            },
    {
        let wanted: String = name.to_owned();
        let mut i: usize = 0;
        while i < self.entries.len()
            invariant
                i <= self.entries.len(),
                self.wf(),
                wanted@ == name@,
                forall|j: int| 0 <= j < i ==> self.names()[j] != name@,
            decreases self.entries.len() - i,
        {
            if self.entries[i].name == wanted {
                assert(self.names()[i as int] == name@);
                return Some(i);
            }
            i = i + 1;
        }
        None
    }

    /// Registers `data` under `name`, in place of what the name held before.
    /// Anything but 768 bytes is refused and changes nothing.
    pub fn insert(&mut self, name: &str, data: Vec<u8>) -> (r: Result<(), LutError>)
        requires
            old(self).wf(),
        ensures
            final(self).wf(),
            data@.len() != LUT_BYTES ==> (r matches Err(LutError::InvalidData)) && *final(self)
                == *old(self),
            data@.len() == LUT_BYTES ==> {
                &&& r is Ok
                &&& final(self).lookup(name@) == Some(data@)
                &&& forall|other: Seq<char>|
                    other != name@ ==> final(self).lookup(other) == old(self).lookup(other)
                &&& old(self).names().contains(name@) ==> final(self).names() == old(
                    self,
                ).names()
                &&& !old(self).names().contains(name@) ==> final(self).names() == old(
                    self,
                ).names().push(name@)
            },
    {
        if data.len() != LUT_BYTES {
            return Err(LutError::InvalidData);
        }
        let found: Option<usize> = self.find(name);
        let ghost before = *self;
        match found {
            Some(i) => {
                let entry = LutEntry { name: name.to_owned(), data };
                self.entries.set(i, entry);
                assert(self.names() =~= before.names());
                assert(self.tables() =~= before.tables().update(i as int, data@));
                assert forall|other: Seq<char>| other != name@ implies self.lookup(other)
                    == before.lookup(other) by {
                    if before.names().contains(other) {
                        assert(before.names().index_of(other) != i);
                    }
                }
            },
            None => {
                let entry = LutEntry { name: name.to_owned(), data };
                self.entries.push(entry);
                assert(self.names() =~= before.names().push(name@));
                assert(self.tables() =~= before.tables().push(data@));
                let ghost n = before.names().len() as int;
                assert(self.names()[n] == name@);
                assert(self.names().no_duplicates());
                assert(self.names().index_of(name@) == n);
                assert forall|other: Seq<char>| other != name@ implies self.lookup(other)
                    == before.lookup(other) by {
                    if before.names().contains(other) {
                        let k = before.names().index_of(other);
                        assert(self.names()[k] == other);
                        assert(self.names().index_of(other) == k);
                    } else if self.names().contains(other) {
                        let k = self.names().index_of(other);
                        assert(k < n);
                        assert(before.names()[k] == other);
                    }
                }
            },
        }
        Ok(())
    }

    /// The registered names in ascending order.
    pub fn get_available_luts(&self) -> (r: Vec<String>)
        requires
            self.wf(),
        ensures
            ascending(views(r@)),
            views(r@).to_multiset() == self.names().to_multiset(),
            r@.len() == self.names().len(),
            views(r@).no_duplicates(),
            forall|i: int, j: int|
                0 <= i < j < r@.len() ==> views(r@)[i] != views(r@)[j] && name_le(
                    views(r@)[i],
                    views(r@)[j],
                ),
            forall|name: Seq<char>| views(r@).contains(name) <==> self.names().contains(name),
    {
        let mut luts: Vec<String> = Vec::new();
        let mut i: usize = 0;
        while i < self.entries.len()
            invariant
                i <= self.entries.len(),
                luts@.len() == i,
                forall|j: int| 0 <= j < i ==> luts@[j]@ == self.names()[j],
            decreases self.entries.len() - i,
        {
            luts.push(self.entries[i].name.clone());
            i = i + 1;
        }
        assert(views(luts@) =~= self.names());
        let ghost unsorted = luts@;
        sort_names(&mut luts);
        proof {
            let sorted = views(luts@);
            let names = self.names();
            vstd::seq_lib::to_multiset_len(sorted);
            vstd::seq_lib::to_multiset_len(views(unsorted));
            names.lemma_multiset_has_no_duplicates();
            sorted.lemma_multiset_has_no_duplicates_conv();
            sorted.to_multiset_ensures();
            names.to_multiset_ensures();
            assert forall|name: Seq<char>| sorted.contains(name) <==> names.contains(name) by {
                assert(sorted.to_multiset().count(name) == names.to_multiset().count(name));
            }
        }
        luts
    }

    /// The list of names is a function of what is registered: any two
    /// ascending lists of the registered names are the same list.
    pub proof fn lemma_available_luts_agree(&self, first: Seq<Seq<char>>, second: Seq<Seq<char>>)
        requires
            ascending(first),
            ascending(second),
            first.to_multiset() == self.names().to_multiset(),
            second.to_multiset() == self.names().to_multiset(),
        ensures
            first == second,
    {
        lemma_ascending_unique(first, second);
    }

    /// The first of the registered names in ascending order, if any name is
    /// registered.
    pub fn first_lut(&self) -> (r: Option<String>)
        requires
            self.wf(),
        ensures
            r is None <==> self.names().len() == 0,
            r matches Some(name) ==> self.is_first(name@),
    {
        let available: Vec<String> = self.get_available_luts();
        if available.len() == 0 {
            return None;
        }
        let first: String = available[0].clone();
        proof {
            let sorted = views(available@);
            let names = self.names();
            sorted.to_multiset_ensures();
            names.to_multiset_ensures();
            assert(sorted[0] == first@);
            assert(names.to_multiset().count(first@) > 0);
            assert forall|other: Seq<char>| names.contains(other) implies name_le(
                first@,
                other,
            ) by {
                assert(sorted.to_multiset().count(other) > 0);
                let j = choose|j: int| 0 <= j < sorted.len() && sorted[j] == other;
                assert(name_le(sorted[0], sorted[j]));
            }
        }
        Some(first)
    }

    /// The channels of the table registered under `name`. It succeeds
    /// exactly for the registered names; for any other, the error carries
    /// the name asked for.
    pub fn load_lut(&self, name: &str) -> (r: Result<LutData, LutError>)
        requires
            self.wf(),
        ensures
            r is Ok <==> self.names().contains(name@),
            match self.lookup(name@) {
                None => (r matches Err(LutError::NotFound(missing)) && missing@ == name@),
                Some(bytes) => r is Ok && r.unwrap().holds(bytes) && r.unwrap().wf(),
            },
            r matches Err(e) ==> (e.message() == "LUT '"@ + name@ + "' not found"@),
    {
        match self.find(name) {
            None => Err(LutError::NotFound(name.to_owned())),
            Some(i) => {
                assert(self.tables()[i as int] == self.entries@[i as int].data@);
                split_channels(self.entries[i].data.as_slice())
            },
        }
    }
}

impl Default for LutManager {
    fn default() -> (r: LutManager)
        ensures
            r.wf(),
            r.names() == Seq::<Seq<char>>::empty(),
    {
        LutManager::new()
    }
}

} // verus!
