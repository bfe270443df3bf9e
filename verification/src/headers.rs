//! A small model of an HTTP header map: an ordered list of name/value pairs
//! of raw bytes.
//!
//! Names are kept exactly as stored (the wider system normalizes them to
//! lower case before they reach this core), and every lookup takes the first
//! field whose name matches, so an `insert` shadows any earlier field of the
//! same name.

use vstd::prelude::*;

verus! {

/// One header field: a name and a value, both raw bytes.
pub struct HeaderField {
    pub name: Vec<u8>,
    pub value: Vec<u8>,
}

/// A header map: fields in order, first match wins on lookup.
pub struct HeaderMap {
    pub fields: Vec<HeaderField>,
}

/// The value of the first field in `fields` whose name is `name`, if any.
pub open spec fn first_value_in(fields: Seq<HeaderField>, name: Seq<u8>) -> Option<Seq<u8>>
    decreases fields.len(),
{
    if fields.len() == 0 {
        Option::None
    } else if fields[0].name@ == name {
        Option::Some(fields[0].value@)
    } else {
        first_value_in(fields.drop_first(), name)
    }
}

/// Dropping a non-matching first field does not change a lookup.
proof fn lemma_first_value_skip_head(fields: Seq<HeaderField>, name: Seq<u8>)
    requires
        fields.len() > 0,
        fields[0].name@ != name,
    ensures
        first_value_in(fields, name) == first_value_in(fields.drop_first(), name),
{
}

/// Byte-slice equality, decided element by element.
pub fn bytes_eq(a: &[u8], b: &[u8]) -> (r: bool)
    ensures
        r == (a@ == b@),
{
    if a.len() != b.len() {
        assert(a@ != b@) by {
            assert(a@.len() != b@.len());
        }
        return false;
    }
    let n = a.len();
    let mut i: usize = 0;
    while i < n
        invariant
            n == a@.len() == b@.len(),
            0 <= i <= n,
            forall|j: int| 0 <= j < i ==> a@[j] == b@[j],
        decreases n - i,
    {
        if a[i] != b[i] {
            assert(a@ != b@);
            return false;
        }
        i += 1;
    }
    assert(a@ =~= b@);
    true
}

/// Copy a byte slice into a fresh vector.
pub fn copy_bytes(src: &[u8]) -> (v: Vec<u8>)
    ensures
        v@ == src@,
{
    let mut v: Vec<u8> = Vec::new();
    let n = src.len();
    let mut i: usize = 0;
    while i < n
        invariant
            n == src@.len(),
            0 <= i <= n,
            v@ == src@.take(i as int),
        decreases n - i,
    {
        v.push(src[i]);
        assert(v@ =~= src@.take(i + 1 as int));
        i += 1;
    }
    assert(src@.take(n as int) =~= src@);
    v
}

impl HeaderMap {
    /// Whether a field of this name is present.
    pub open spec fn spec_contains(self, name: Seq<u8>) -> bool {
        first_value_in(self.fields@, name) is Some
    }

    /// The value a lookup of `name` finds, if any.
    pub open spec fn spec_value_of(self, name: Seq<u8>) -> Option<Seq<u8>> {
        first_value_in(self.fields@, name)
    }

    /// An empty map.
    pub fn new() -> (m: HeaderMap)
        ensures
            m.fields@.len() == 0,
            forall|n: Seq<u8>| !m.spec_contains(n),
            forall|n: Seq<u8>| m.spec_value_of(n) is None,
    {
        HeaderMap { fields: Vec::new() }
    }

    /// Find the index of the first field named `name`.
    fn find(&self, name: &[u8]) -> (r: Option<usize>)
        ensures
            match r {
                Option::Some(i) => {
                    &&& 0 <= i < self.fields@.len()
                    &&& self.fields@[i as int].name@ == name@
                    &&& self.spec_value_of(name@) == Option::Some(self.fields@[i as int].value@)
                },
                Option::None => !self.spec_contains(name@),
            },
    {
        let n = self.fields.len();
        let mut i: usize = 0;
        proof {
            assert(self.fields@.skip(0) =~= self.fields@);
        }
        while i < n
            invariant
                n == self.fields@.len(),
                0 <= i <= n,
                first_value_in(self.fields@, name@) == first_value_in(
                    self.fields@.skip(i as int),
                    name@,
                ),
                forall|j: int| 0 <= j < i ==> self.fields@[j].name@ != name@,
            decreases n - i,
        {
            let hit = bytes_eq(self.fields[i].name.as_slice(), name);
            proof {
                assert(self.fields@.skip(i as int).len() > 0);
                assert(self.fields@.skip(i as int)[0] == self.fields@[i as int]);
            }
            if hit {
                return Some(i);
            }
            proof {
                lemma_first_value_skip_head(self.fields@.skip(i as int), name@);
                assert(self.fields@.skip(i as int).drop_first() =~= self.fields@.skip(i + 1));
            }
            i += 1;
        }
        proof {
            assert(self.fields@.skip(n as int) =~= Seq::<HeaderField>::empty());
        }
        None
    }

    /// Whether a field of this name is present.
    pub fn contains_key(&self, name: &[u8]) -> (r: bool)
        ensures
            r == self.spec_contains(name@),
    {
        self.find(name).is_some()
    }

    /// The value a lookup of `name` finds, copied out.
    pub fn value_of(&self, name: &[u8]) -> (r: Option<Vec<u8>>)
        ensures
            match r {
                Option::Some(v) => self.spec_value_of(name@) == Option::Some(v@),
                Option::None => !self.spec_contains(name@),
            },
    {
        match self.find(name) {
            Some(i) => Some(copy_bytes(self.fields[i].value.as_slice())),
            None => None,
        }
    }

    /// Set `name` to `value`: the new field shadows any earlier one of the
    /// same name, and every lookup of another name is unchanged.
    pub fn insert(&mut self, name: Vec<u8>, value: Vec<u8>)
        ensures
            final(self).spec_value_of(name@) == Option::Some(value@),
            final(self).spec_contains(name@),
            forall|n: Seq<u8>| n != name@ ==> final(self).spec_value_of(n)
                == old(self).spec_value_of(n),
            forall|n: Seq<u8>| n != name@ ==> final(self).spec_contains(n)
                == old(self).spec_contains(n),
    {
        let ghost old_fields = self.fields@;
        self.fields.insert(0, HeaderField { name, value });
        proof {
            assert(self.fields@.drop_first() =~= old_fields);
            assert forall|nm: Seq<u8>| nm != name@ implies first_value_in(self.fields@, nm)
                == first_value_in(old_fields, nm) by {
                lemma_first_value_skip_head(self.fields@, nm);
            }
        }
    }
}

} // verus!
