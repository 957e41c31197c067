//! The runtime services of the stub firmware: UEFI variables, each named by
//! a vendor GUID and a UCS-2 name, holding attributes and data.

use crate::guid::Guid;
use crate::status::{Status, BUFFER_TOO_SMALL, NOT_FOUND, SUCCESS};
use vstd::prelude::*;

verus! {

/// A variable's key: its vendor GUID and its name.
pub type VariableKey = (Guid, Seq<u16>);

/// A variable's value: its attributes and its data.
pub type VariableData = (u32, Seq<u8>);

/// One stored variable.
pub struct Variable {
    /// The vendor GUID.
    pub vendor: Guid,
    /// The name, in UCS-2 code units without the terminating null.
    pub name: Vec<u16>,
    /// The attributes.
    pub attributes: u32,
    /// The data; never empty.
    pub data: Vec<u8>,
}

/// The variables of `vs` by key.
pub open spec fn vars_map(vs: Seq<Variable>) -> Map<VariableKey, VariableData> {
    Map::new(
        |k: VariableKey| exists|i: int| 0 <= i < vs.len() && key_of(vs[i]) == k,
        |k: VariableKey|
            {
                let i = choose|i: int| 0 <= i < vs.len() && key_of(vs[i]) == k;
                (vs[i].attributes, vs[i].data@)
            },
    )
}

/// No key occurs twice in `vs` and no data is empty.
pub open spec fn vars_wf(vs: Seq<Variable>) -> bool {
    &&& forall|i: int, j: int|
        0 <= i < vs.len() && 0 <= j < vs.len() && i != j ==> key_of(#[trigger] vs[i]) != key_of(
            #[trigger] vs[j],
        )
    &&& forall|i: int| 0 <= i < vs.len() ==> #[trigger] vs[i].data@.len() > 0
}

/// With distinct keys, the variable at position `i` is the value of its key.
proof fn lemma_vars_map_at(vs: Seq<Variable>, i: int)
    requires
        vars_wf(vs),
        0 <= i < vs.len(),
    ensures
        vars_map(vs).contains_key(key_of(vs[i])),
        vars_map(vs)[key_of(vs[i])] == (vs[i].attributes, vs[i].data@),
{
    let k = key_of(vs[i]);
    let j = choose|j: int| 0 <= j < vs.len() && key_of(vs[j]) == k;
    if j != i {
        assert(key_of(vs[i]) != key_of(vs[j]));
    }
}

proof fn lemma_vars_map_remove(vs: Seq<Variable>, i: int)
    requires
        vars_wf(vs),
        0 <= i < vs.len(),
    ensures
        vars_wf(vs.remove(i)),
        vars_map(vs.remove(i)) =~= vars_map(vs).remove(key_of(vs[i])),
{
    let ws = vs.remove(i);
    assert forall|a: int| 0 <= a < ws.len() implies #[trigger] ws[a] == vs[if a < i { a } else { a + 1 }] by {}
    assert(vars_wf(ws)) by {
        assert forall|a: int, b: int| 0 <= a < ws.len() && 0 <= b < ws.len() && a != b implies key_of(
            #[trigger] ws[a],
        ) != key_of(#[trigger] ws[b]) by {
            let a2 = if a < i { a } else { a + 1 };
            let b2 = if b < i { b } else { b + 1 };
            assert(key_of(vs[a2]) != key_of(vs[b2]));
        }
        assert forall|a: int| 0 <= a < ws.len() implies #[trigger] ws[a].data@.len() > 0 by {
            let a2 = if a < i { a } else { a + 1 };
            assert(vs[a2].data@.len() > 0);
        }
    }
    let k = key_of(vs[i]);
    assert forall|key: VariableKey| #[trigger] vars_map(ws).contains_key(key) <==> vars_map(vs).remove(k).contains_key(key) by {
        if vars_map(ws).contains_key(key) {
            let a = choose|a: int| 0 <= a < ws.len() && key_of(ws[a]) == key;
            let a2 = if a < i { a } else { a + 1 };
            assert(key_of(vs[a2]) == key);
            assert(a2 != i);
            assert(key_of(vs[a2]) != key_of(vs[i]));
        }
        if vars_map(vs).remove(k).contains_key(key) {
            let a2 = choose|a2: int| 0 <= a2 < vs.len() && key_of(vs[a2]) == key;
            assert(a2 != i);
            let a = if a2 < i { a2 } else { a2 - 1 };
            assert(ws[a] == vs[a2]);
        }
    }
    assert forall|key: VariableKey| #[trigger] vars_map(ws).contains_key(key) implies vars_map(ws)[key] == vars_map(vs)[key] by {
        let a = choose|a: int| 0 <= a < ws.len() && key_of(ws[a]) == key;
        let a2 = if a < i { a } else { a + 1 };
        lemma_vars_map_at(ws, a);
        lemma_vars_map_at(vs, a2);
    }
}

proof fn lemma_vars_map_push(vs: Seq<Variable>, v: Variable)
    requires
        vars_wf(vs),
        !vars_map(vs).contains_key(key_of(v)),
        v.data@.len() > 0,
    ensures
        vars_wf(vs.push(v)),
        vars_map(vs.push(v)) =~= vars_map(vs).insert(key_of(v), (v.attributes, v.data@)),
{
    let ws = vs.push(v);
    assert(vars_wf(ws)) by {
        assert forall|a: int, b: int| 0 <= a < ws.len() && 0 <= b < ws.len() && a != b implies key_of(
            #[trigger] ws[a],
        ) != key_of(#[trigger] ws[b]) by {
            if a < vs.len() && b < vs.len() {
                assert(key_of(vs[a]) != key_of(vs[b]));
            } else if a < vs.len() {
                assert(key_of(vs[a]) != key_of(v));
            } else if b < vs.len() {
                assert(key_of(vs[b]) != key_of(v));
            }
        }
    }
    assert forall|key: VariableKey| #[trigger] vars_map(ws).contains_key(key) <==> vars_map(vs).insert(key_of(v), (v.attributes, v.data@)).contains_key(key) by {
        if vars_map(ws).contains_key(key) {
            let a = choose|a: int| 0 <= a < ws.len() && key_of(ws[a]) == key;
            if a < vs.len() {
                assert(key_of(vs[a]) == key);
            }
        }
        if vars_map(vs).contains_key(key) {
            let a = choose|a: int| 0 <= a < vs.len() && key_of(vs[a]) == key;
            assert(ws[a] == vs[a]);
        }
        assert(ws[vs.len() as int] == v);
    }
    assert forall|key: VariableKey| #[trigger] vars_map(ws).contains_key(key) implies vars_map(ws)[key]
        == vars_map(vs).insert(key_of(v), (v.attributes, v.data@))[key] by {
        let a = choose|a: int| 0 <= a < ws.len() && key_of(ws[a]) == key;
        lemma_vars_map_at(ws, a);
        if a < vs.len() {
            assert(ws[a] == vs[a]);
            lemma_vars_map_at(vs, a);
        }
    }
}

proof fn lemma_vars_map_set(vs: Seq<Variable>, i: int, v: Variable)
    requires
        vars_wf(vs),
        0 <= i < vs.len(),
        key_of(v) == key_of(vs[i]),
        v.data@.len() > 0,
    ensures
        vars_wf(vs.update(i, v)),
        vars_map(vs.update(i, v)) =~= vars_map(vs).insert(key_of(v), (v.attributes, v.data@)),
{
    let ws = vs.update(i, v);
    assert(vars_wf(ws)) by {
        assert forall|a: int, b: int| 0 <= a < ws.len() && 0 <= b < ws.len() && a != b implies key_of(
            #[trigger] ws[a],
        ) != key_of(#[trigger] ws[b]) by {
            assert(key_of(vs[a]) != key_of(vs[b]));
        }
    }
    assert forall|key: VariableKey| #[trigger] vars_map(ws).contains_key(key) <==> vars_map(vs).insert(key_of(v), (v.attributes, v.data@)).contains_key(key) by {
        if vars_map(ws).contains_key(key) {
            let a = choose|a: int| 0 <= a < ws.len() && key_of(ws[a]) == key;
            assert(key_of(vs[a]) == key);
        }
        if vars_map(vs).contains_key(key) {
            let a = choose|a: int| 0 <= a < vs.len() && key_of(vs[a]) == key;
            assert(key_of(ws[a]) == key);
        }
        assert(ws[i] == v);
    }
    assert forall|key: VariableKey| #[trigger] vars_map(ws).contains_key(key) implies vars_map(ws)[key]
        == vars_map(vs).insert(key_of(v), (v.attributes, v.data@))[key] by {
        let a = choose|a: int| 0 <= a < ws.len() && key_of(ws[a]) == key;
        lemma_vars_map_at(ws, a);
        if a != i {
            lemma_vars_map_at(vs, a);
        }
    }
}

/// The variables after writing `data` with `attributes` under `key`: empty
/// data deletes the variable, other data replaces or creates it.
pub open spec fn written(
    vars: Map<VariableKey, VariableData>,
    key: VariableKey,
    attributes: u32,
    data: Seq<u8>,
) -> Map<VariableKey, VariableData> {
    if data.len() == 0 {
        vars.remove(key)
    } else {
        vars.insert(key, (attributes, data))
    }
}

/// A variable written with data reads back as that data with those
/// attributes; one written with no data is gone; every other variable is
/// as it was.
pub proof fn lemma_read_after_write(
    vars: Map<VariableKey, VariableData>,
    key: VariableKey,
    attributes: u32,
    data: Seq<u8>,
    other: VariableKey,
)
    ensures
        data.len() > 0 ==> written(vars, key, attributes, data).contains_key(key) && written(
            vars,
            key,
            attributes,
            data,
        )[key] == (attributes, data),
        data.len() == 0 ==> !written(vars, key, attributes, data).contains_key(key),
        other != key ==> written(vars, key, attributes, data).contains_key(other)
            == vars.contains_key(other),
        other != key && vars.contains_key(other) ==> written(vars, key, attributes, data)[other]
            == vars[other],
{
}

/// Writing the same variable twice leaves what the second write wrote.
pub proof fn lemma_last_write_wins(
    vars: Map<VariableKey, VariableData>,
    key: VariableKey,
    a1: u32,
    d1: Seq<u8>,
    a2: u32,
    d2: Seq<u8>,
)
    ensures
        written(written(vars, key, a1, d1), key, a2, d2) == written(vars, key, a2, d2),
{
    assert(written(written(vars, key, a1, d1), key, a2, d2) =~= written(vars, key, a2, d2));
}

/// The runtime services' state: the stored variables.
pub struct State {
    variables: Vec<Variable>,
}

/// Whether two names are equal.
fn names_equal(a: &[u16], b: &[u16]) -> (r: bool)
    ensures
        r == (a@ == b@),
{
    if a.len() != b.len() {
        return false;
    }
    let mut i: usize = 0;
    while i < a.len()
        invariant
            a@.len() == b@.len(),
            i <= a@.len(),
            forall|j: int| 0 <= j < i ==> a@[j] == b@[j],
        decreases a@.len() - i,
    {
        if a[i] != b[i] {
            return false;
        }
        i = i + 1;
    }
    assert(a@ =~= b@);
    true
}

/// The key of a stored variable.
pub open spec fn key_of(v: Variable) -> VariableKey {
    (v.vendor, v.name@)
}

impl State {
    /// The stored variables, by key.
    pub closed spec fn view(&self) -> Map<VariableKey, VariableData> {
        vars_map(self.variables@)
    }

    /// No key occurs twice and no data is empty.
    pub closed spec fn wf(&self) -> bool {
        vars_wf(self.variables@)
    }

    /// A state with no variables.
    pub fn new() -> (s: State)
        ensures
            s.wf(),
            s.view() == Map::<VariableKey, VariableData>::empty(),
    {
        let s = State { variables: Vec::new() };
        assert(s.view() =~= Map::<VariableKey, VariableData>::empty());
        s
    }

    /// The position of the variable with the given key.
    fn find(&self, name: &[u16], vendor_guid: &Guid) -> (r: Option<usize>)
        requires
            self.wf(),
        ensures
            match r {
                Some(i) => i < self.variables@.len() && key_of(self.variables@[i as int]) == (
                *vendor_guid,
                name@,
                ),
                None => !self.view().contains_key((*vendor_guid, name@)),
            },
    {
        let mut i: usize = 0;
        while i < self.variables.len()
            invariant
                i <= self.variables@.len(),
                forall|j: int| 0 <= j < i ==> key_of(#[trigger] self.variables@[j]) != (*vendor_guid, name@),
            decreases self.variables@.len() - i,
        {
            if self.variables[i].vendor == *vendor_guid && names_equal(
                self.variables[i].name.as_slice(),
                name,
            ) {
                return Some(i);
            }
            i = i + 1;
        }
        None
    }

    /// Reads a variable: stores its attributes in `*attributes`, its data in
    /// `data` and its size in `*data_size` if `*data_size` bytes can hold
    /// it. Fails with `BUFFER_TOO_SMALL`, setting only `*data_size` to the
    /// size needed, if they cannot; with `NOT_FOUND`, changing nothing, if
    /// there is no such variable.
    pub fn get_variable(
        &self,
        variable_name: &[u16],
        vendor_guid: &Guid,
        attributes: &mut u32,
        data_size: &mut usize,
        data: &mut Vec<u8>,
    ) -> (status: Status)
        requires
            self.wf(),
        ensures
            ({
                let key = (*vendor_guid, variable_name@);
                if !self.view().contains_key(key) {
                    &&& status.0 == NOT_FOUND
                    &&& *final(attributes) == *old(attributes)
                    &&& *final(data_size) == *old(data_size)
                    &&& final(data)@ == old(data)@
                } else if *old(data_size) < self.view()[key].1.len() {
                    &&& status.0 == BUFFER_TOO_SMALL
                    &&& *final(data_size) == self.view()[key].1.len()
                    &&& *final(attributes) == *old(attributes)
                    &&& final(data)@ == old(data)@
                } else {
                    &&& status.0 == SUCCESS
                    &&& *final(attributes) == self.view()[key].0
                    &&& *final(data_size) == self.view()[key].1.len()
                    &&& final(data)@ == self.view()[key].1
                }
            }),
    {
        match self.find(variable_name, vendor_guid) {
            None => Status(NOT_FOUND),
            Some(i) => {
                proof {
                    lemma_vars_map_at(self.variables@, i as int);
                }
                let var = &self.variables[i];
                if *data_size < var.data.len() {
                    *data_size = var.data.len();
                    Status(BUFFER_TOO_SMALL)
                } else {
                    *attributes = var.attributes;
                    *data_size = var.data.len();
                    *data = var.data.clone();
                    Status(SUCCESS)
                }
            },
        }
    }

    /// Writes a variable: empty data deletes it, other data replaces or
    /// creates it.
    pub fn set_variable(
        &mut self,
        variable_name: &[u16],
        vendor_guid: &Guid,
        attributes: u32,
        data: &[u8],
    ) -> (status: Status)
        requires
            old(self).wf(),
        ensures
            final(self).wf(),
            status.0 == SUCCESS,
            final(self).view() == written(old(self).view(), (*vendor_guid, variable_name@), attributes, data@),
    {
        let ghost key = (*vendor_guid, variable_name@);
        let ghost old_view = self.view();
        let found = self.find(variable_name, vendor_guid);
        if data.len() == 0 {
            match found {
                None => {},
                Some(i) => {
                    let ghost before = self.variables@;
                    self.variables.remove(i);
                    proof {
                        lemma_vars_map_remove(before, i as int);
                    }
                },
            }
            assert(self.view() =~= old_view.remove(key));
            assert(self.view() == written(old_view, key, attributes, data@));
        } else {
            let value = vstd::slice::slice_to_vec(data);
            match found {
                None => {
                    let ghost before = self.variables@;
                    self.variables.push(
                        Variable {
                            vendor: *vendor_guid,
                            name: vstd::slice::slice_to_vec(variable_name),
                            attributes,
                            data: value,
                        },
                    );
                    proof {
                        lemma_vars_map_push(before, self.variables@.last());
                    }
                },
                Some(i) => {
                    let ghost before = self.variables@;
                    let var = Variable {
                        vendor: *vendor_guid,
                        name: vstd::slice::slice_to_vec(variable_name),
                        attributes,
                        data: value,
                    };
                    self.variables.set(i, var);
                    proof {
                        lemma_vars_map_set(before, i as int, self.variables@[i as int]);
                    }
                },
            }
            assert(self.view() =~= old_view.insert(key, (attributes, data@)));
            assert(self.view() == written(old_view, key, attributes, data@));
        }
        Status(SUCCESS)
    }
}

} // verus!
