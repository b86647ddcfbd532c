//! The simulated entity database: records keyed by an entity type and an
//! id, each holding an ordered mapping from field names to tagged values.
//! All operations are plain upserts, lookups and removals; recording test
//! failures for misuse is the host layer's concern.

use vstd::prelude::*;
use vstd::pervasive::VecAdditionalExecFns;
use crate::value::{Value, ValueView};

verus! {

/// The model of one entity: its fields in insertion order.
pub type EntityModel = Seq<(Seq<char>, ValueView)>;

/// The model of the whole store: its records in insertion order.
pub type StoreModel = Seq<(Seq<char>, Seq<char>, EntityModel)>;

/// One simulated record: an ordered mapping from field name to value.
#[derive(Debug, Clone)]
pub struct Entity {
    pub fields: Vec<(String, Value)>,
}

/// The models of a field list, element by element.
pub open spec fn field_views(s: Seq<(String, Value)>) -> EntityModel {
    s.map_values(|p: (String, Value)| (p.0@, p.1@))
}

/// Taking field models commutes with appending one field.
pub proof fn lemma_field_views_push(s: Seq<(String, Value)>, x: (String, Value))
    ensures
        field_views(s.push(x)) =~= field_views(s).push((x.0@, x.1@)),
{
    assert forall|k: int| 0 <= k < s.len() + 1 implies
        field_views(s.push(x))[k] == field_views(s).push((x.0@, x.1@))[k] by {
        if k < s.len() {
            assert(s.push(x)[k] == s[k]);
        } else {
            assert(s.push(x)[k] == x);
        }
    }
}

/// Taking field models commutes with updating one field.
pub proof fn lemma_field_views_update(s: Seq<(String, Value)>, i: int, x: (String, Value))
    requires
        0 <= i < s.len(),
    ensures
        field_views(s.update(i, x)) =~= field_views(s).update(i, (x.0@, x.1@)),
{
    assert forall|k: int| 0 <= k < s.len() implies
        field_views(s.update(i, x))[k] == field_views(s).update(i, (x.0@, x.1@))[k] by {
        if k != i {
            assert(s.update(i, x)[k] == s[k]);
        } else {
            assert(s.update(i, x)[k] == x);
        }
    }
}

impl Entity {
    /// The entity's model.
    pub open spec fn view_model(self) -> EntityModel {
        field_views(self.fields@)
    }

    /// Field names are unique.
    pub open spec fn wf(self) -> bool {
        forall|i: int, j: int|
            0 <= i < j < self.view_model().len()
                ==> self.view_model()[i].0 != self.view_model()[j].0
    }

    /// Some field carries this name.
    pub open spec fn has_field(self, name: Seq<char>) -> bool {
        exists|i: int| 0 <= i < self.view_model().len() && self.view_model()[i].0 == name
    }

    /// The position of the field with this name.
    pub open spec fn field_index(self, name: Seq<char>) -> int {
        choose|i: int| 0 <= i < self.view_model().len() && self.view_model()[i].0 == name
    }

    /// The value carried under this name.
    pub open spec fn field_value(self, name: Seq<char>) -> ValueView {
        self.view_model()[self.field_index(name)].1
    }

    /// An entity with no fields.
    pub fn new() -> (r: Entity)
        ensures
            r.view_model() =~= Seq::<(Seq<char>, ValueView)>::empty(),
            r.wf(),
    {
        Entity { fields: Vec::new() }
    }

    /// The position of the field named `name`, if any.
    fn find(&self, name: &String) -> (r: Option<usize>)
        ensures
            match r {
                Some(i) => i < self.view_model().len() && self.view_model()[i as int].0 == name@,
                None => !self.has_field(name@),
            },
    {
        let mut i: usize = 0;
        while i < self.fields.len()
            invariant
                i <= self.fields@.len(),
                forall|k: int| 0 <= k < i ==> self.view_model()[k].0 != name@,
            decreases self.fields@.len() - i,
        {
            if self.fields[i].0.eq(name) {
                return Some(i);
            }
            i = i + 1;
        }
        None
    }

    /// Inserts or replaces the field `name`, leaving every other field as
    /// it was: an update in place when the name is present, an appended
    /// field otherwise.
    pub fn set_field(&mut self, name: String, v: Value)
        requires
            old(self).wf(),
        ensures
            final(self).wf(),
            final(self).view_model() == if old(self).has_field(name@) {
                old(self).view_model().update(old(self).field_index(name@), (name@, v@))
            } else {
                old(self).view_model().push((name@, v@))
            },
            final(self).has_field(name@),
            final(self).field_value(name@) == v@,
    {
        let found = self.find(&name);
        match found {
            Some(i) => {
                proof {
                    let j = self.field_index(name@);
                    assert(0 <= j < self.view_model().len()
                        && self.view_model()[j].0 == name@);
                    assert(j == i as int);
                    lemma_field_views_update(self.fields@, i as int, (name, v));
                }
                let ghost nv = name@;
                self.fields.set(i, (name, v));
                proof {
                    assert(self.view_model()
                        =~= old(self).view_model().update(old(self).field_index(nv), (nv, v@)));
                    assert(self.view_model()[i as int].0 == nv);
                    let j2 = self.field_index(nv);
                    assert(self.view_model()[j2].0 == nv);
                    assert(j2 == i as int);
                }
            }
            None => {
                proof {
                    lemma_field_views_push(self.fields@, (name, v));
                }
                let ghost nv = name@;
                self.fields.push((name, v));
                proof {
                    let n = old(self).view_model().len() as int;
                    assert(self.view_model()
                        =~= old(self).view_model().push((nv, v@)));
                    assert(self.view_model()[n].0 == nv);
                    let j2 = self.field_index(nv);
                    assert(self.view_model()[j2].0 == nv);
                    assert(j2 == n);
                }
            }
        }
    }

    /// The value stored under `name`, if any.
    pub fn get_field(&self, name: &String) -> (r: Option<&Value>)
        requires
            self.wf(),
        ensures
            r.is_some() == self.has_field(name@),
            match r {
                Some(v) => v@ == self.field_value(name@),
                None => true,
            },
    {
        let found = self.find(name);
        match found {
            Some(i) => {
                proof {
                    let j = self.field_index(name@);
                    assert(0 <= j < self.view_model().len()
                        && self.view_model()[j].0 == name@);
                    assert(j == i as int);
                }
                Some(&self.fields[i].1)
            }
            None => None,
        }
    }

    /// A copy of the entity with the same model.
    pub fn duplicate(&self) -> (r: Entity)
        ensures
            r.view_model() == self.view_model(),
    {
        let mut fields: Vec<(String, Value)> = Vec::new();
        let mut i: usize = 0;
        while i < self.fields.len()
            invariant
                i <= self.fields@.len(),
                field_views(fields@) == field_views(self.fields@.subrange(0, i as int)),
            decreases self.fields@.len() - i,
        {
            let name = self.fields[i].0.clone();
            let v = crate::value::dup_value(&self.fields[i].1);
            let ghost prev = fields@;
            fields.push((name, v));
            proof {
                lemma_field_views_push(prev, fields@.last());
                lemma_field_views_push(
                    self.fields@.subrange(0, i as int),
                    self.fields@[i as int],
                );
                assert(self.fields@.subrange(0, i + 1 as int)
                    =~= self.fields@.subrange(0, i as int).push(self.fields@[i as int]));
                assert(field_views(fields@)
                    =~= field_views(self.fields@.subrange(0, i + 1 as int)));
            }
            i = i + 1;
        }
        proof {
            assert(self.fields@.subrange(0, self.fields@.len() as int) =~= self.fields@);
        }
        Entity { fields }
    }
}

/// The in-memory entity database.
pub struct MockStore {
    pub entries: Vec<(String, String, Entity)>,
}

/// The models of a record list, element by element.
pub open spec fn record_views(s: Seq<(String, String, Entity)>) -> StoreModel {
    s.map_values(|p: (String, String, Entity)| (p.0@, p.1@, p.2.view_model()))
}

/// Taking record models commutes with appending one record.
pub proof fn lemma_record_views_push(s: Seq<(String, String, Entity)>, x: (String, String, Entity))
    ensures
        record_views(s.push(x)) =~= record_views(s).push((x.0@, x.1@, x.2.view_model())),
{
    assert forall|k: int| 0 <= k < s.len() + 1 implies
        record_views(s.push(x))[k] == record_views(s).push((x.0@, x.1@, x.2.view_model()))[k] by {
        if k < s.len() {
            assert(s.push(x)[k] == s[k]);
        } else {
            assert(s.push(x)[k] == x);
        }
    }
}

/// Taking record models commutes with updating one record.
pub proof fn lemma_record_views_update(
    s: Seq<(String, String, Entity)>,
    i: int,
    x: (String, String, Entity),
)
    requires
        0 <= i < s.len(),
    ensures
        record_views(s.update(i, x)) =~= record_views(s).update(i, (x.0@, x.1@, x.2.view_model())),
{
    assert forall|k: int| 0 <= k < s.len() implies
        record_views(s.update(i, x))[k]
            == record_views(s).update(i, (x.0@, x.1@, x.2.view_model()))[k] by {
        if k != i {
            assert(s.update(i, x)[k] == s[k]);
        } else {
            assert(s.update(i, x)[k] == x);
        }
    }
}

/// Taking record models commutes with removing one record.
pub proof fn lemma_record_views_remove(s: Seq<(String, String, Entity)>, i: int)
    requires
        0 <= i < s.len(),
    ensures
        record_views(s.remove(i)) =~= record_views(s).remove(i),
{
    assert forall|k: int| 0 <= k < s.len() - 1 implies
        record_views(s.remove(i))[k] == record_views(s).remove(i)[k] by {
        if k < i {
            assert(s.remove(i)[k] == s[k]);
        } else {
            assert(s.remove(i)[k] == s[k + 1]);
        }
    }
}

impl MockStore {
    /// The store's model.
    pub open spec fn view_model(self) -> StoreModel {
        record_views(self.entries@)
    }

    /// Record keys are unique and every entity is well formed.
    pub open spec fn wf(self) -> bool {
        &&& forall|i: int, j: int|
            0 <= i < j < self.view_model().len()
                ==> !(self.view_model()[i].0 == self.view_model()[j].0
                    && self.view_model()[i].1 == self.view_model()[j].1)
        &&& forall|i: int|
            0 <= i < self.entries@.len() ==> (#[trigger] self.entries@[i].2).wf()
    }

    /// Some record carries this entity type.
    pub open spec fn has_entity_type(self, t: Seq<char>) -> bool {
        exists|i: int| 0 <= i < self.view_model().len() && self.view_model()[i].0 == t
    }

    /// Some record carries this entity type and id.
    pub open spec fn has_entity(self, t: Seq<char>, id: Seq<char>) -> bool {
        exists|i: int|
            0 <= i < self.view_model().len()
                && self.view_model()[i].0 == t
                && self.view_model()[i].1 == id
    }

    /// The position of the record with this type and id.
    pub open spec fn entity_index(self, t: Seq<char>, id: Seq<char>) -> int {
        choose|i: int|
            0 <= i < self.view_model().len()
                && self.view_model()[i].0 == t
                && self.view_model()[i].1 == id
    }

    /// The field mapping stored under this type and id.
    pub open spec fn entity_model(self, t: Seq<char>, id: Seq<char>) -> EntityModel {
        self.view_model()[self.entity_index(t, id)].2
    }

    /// A store with no records.
    pub fn new() -> (r: MockStore)
        ensures
            r.view_model() =~= Seq::<(Seq<char>, Seq<char>, EntityModel)>::empty(),
            r.wf(),
    {
        MockStore { entries: Vec::new() }
    }

    /// The position of the record keyed `(t, id)`, if any.
    fn find(&self, t: &String, id: &String) -> (r: Option<usize>)
        ensures
            match r {
                Some(i) => i < self.view_model().len()
                    && self.view_model()[i as int].0 == t@
                    && self.view_model()[i as int].1 == id@,
                None => !self.has_entity(t@, id@),
            },
    {
        let mut i: usize = 0;
        while i < self.entries.len()
            invariant
                i <= self.entries@.len(),
                forall|k: int|
                    0 <= k < i
                        ==> !(self.view_model()[k].0 == t@ && self.view_model()[k].1 == id@),
            decreases self.entries@.len() - i,
        {
            if self.entries[i].0.eq(t) && self.entries[i].1.eq(id) {
                return Some(i);
            }
            i = i + 1;
        }
        None
    }

    /// Whether any record carries the entity type `t`.
    pub fn contains_entity_type(&self, t: &String) -> (r: bool)
        ensures
            r == self.has_entity_type(t@),
    {
        let mut i: usize = 0;
        while i < self.entries.len()
            invariant
                i <= self.entries@.len(),
                forall|k: int| 0 <= k < i ==> self.view_model()[k].0 != t@,
            decreases self.entries@.len() - i,
        {
            if self.entries[i].0.eq(t) {
                proof {
                    assert(self.view_model()[i as int].0 == t@);
                }
                return true;
            }
            i = i + 1;
        }
        false
    }

    /// The record stored under `(t, id)`, if any.
    pub fn get(&self, t: &String, id: &String) -> (r: Option<&Entity>)
        requires
            self.wf(),
        ensures
            r.is_some() == self.has_entity(t@, id@),
            match r {
                Some(e) => e.view_model() == self.entity_model(t@, id@) && e.wf(),
                None => true,
            },
    {
        let found = self.find(t, id);
        match found {
            Some(i) => {
                proof {
                    let j = self.entity_index(t@, id@);
                    assert(0 <= j < self.view_model().len()
                        && self.view_model()[j].0 == t@
                        && self.view_model()[j].1 == id@);
                    assert(j == i as int);
                }
                Some(&self.entries[i].2)
            }
            None => None,
        }
    }

    /// Inserts or replaces the record keyed `(t, id)` wholesale, leaving
    /// every other record as it was.
    pub fn set(&mut self, t: String, id: String, e: Entity)
        requires
            old(self).wf(),
            e.wf(),
        ensures
            final(self).wf(),
            final(self).view_model() == if old(self).has_entity(t@, id@) {
                old(self).view_model()
                    .update(old(self).entity_index(t@, id@), (t@, id@, e.view_model()))
            } else {
                old(self).view_model().push((t@, id@, e.view_model()))
            },
            final(self).has_entity(t@, id@),
            final(self).entity_model(t@, id@) == e.view_model(),
    {
        let found = self.find(&t, &id);
        let ghost tv = t@;
        let ghost iv = id@;
        match found {
            Some(i) => {
                proof {
                    let j = self.entity_index(tv, iv);
                    assert(0 <= j < self.view_model().len()
                        && self.view_model()[j].0 == tv
                        && self.view_model()[j].1 == iv);
                    assert(j == i as int);
                    lemma_record_views_update(self.entries@, i as int, (t, id, e));
                }
                self.entries.set(i, (t, id, e));
                proof {
                    assert(self.view_model()
                        =~= old(self).view_model()
                            .update(old(self).entity_index(tv, iv), (tv, iv, e.view_model())));
                    let j2 = self.entity_index(tv, iv);
                    assert(self.view_model()[i as int].0 == tv);
                    assert(j2 == i as int);
                }
            }
            None => {
                proof {
                    lemma_record_views_push(self.entries@, (t, id, e));
                }
                self.entries.push((t, id, e));
                proof {
                    let n = old(self).view_model().len() as int;
                    assert(self.view_model()
                        =~= old(self).view_model().push((tv, iv, e.view_model())));
                    assert(self.view_model()[n].0 == tv);
                    let j2 = self.entity_index(tv, iv);
                    assert(j2 == n);
                }
            }
        }
    }

    /// Removes the record keyed `(t, id)` if it exists, reporting whether
    /// it did; a missing record leaves the store untouched.
    pub fn remove(&mut self, t: &String, id: &String) -> (r: bool)
        requires
            old(self).wf(),
        ensures
            final(self).wf(),
            r == old(self).has_entity(t@, id@),
            final(self).view_model() == if old(self).has_entity(t@, id@) {
                old(self).view_model().remove(old(self).entity_index(t@, id@))
            } else {
                old(self).view_model()
            },
    {
        let found = self.find(t, id);
        match found {
            Some(i) => {
                proof {
                    let j = self.entity_index(t@, id@);
                    assert(0 <= j < self.view_model().len()
                        && self.view_model()[j].0 == t@
                        && self.view_model()[j].1 == id@);
                    assert(j == i as int);
                    lemma_record_views_remove(self.entries@, i as int);
                }
                let _ = self.entries.remove(i);
                true
            }
            None => false,
        }
    }

    /// Drops every record.
    pub fn clear(&mut self)
        ensures
            final(self).view_model() =~= Seq::<(Seq<char>, Seq<char>, EntityModel)>::empty(),
            final(self).wf(),
    {
        self.entries.clear();
    }

    /// A copy of the store with the same model.
    pub fn duplicate(&self) -> (r: MockStore)
        requires
            self.wf(),
        ensures
            r.view_model() == self.view_model(),
            r.wf(),
    {
        let mut entries: Vec<(String, String, Entity)> = Vec::new();
        let mut i: usize = 0;
        while i < self.entries.len()
            invariant
                i <= self.entries@.len(),
                record_views(entries@) == record_views(self.entries@.subrange(0, i as int)),
                forall|k: int|
                    0 <= k < entries@.len() ==> (#[trigger] entries@[k].2).wf(),
                self.wf(),
            decreases self.entries@.len() - i,
        {
            let t = self.entries[i].0.clone();
            let id = self.entries[i].1.clone();
            let e = self.entries[i].2.duplicate();
            let ghost prev = entries@;
            proof {
                assert((#[trigger] self.entries@[i as int].2).wf());
            }
            entries.push((t, id, e));
            proof {
                assert(entries@.last().2.wf());
                lemma_record_views_push(prev, entries@.last());
                lemma_record_views_push(
                    self.entries@.subrange(0, i as int),
                    self.entries@[i as int],
                );
                assert(self.entries@.subrange(0, i + 1 as int)
                    =~= self.entries@.subrange(0, i as int).push(self.entries@[i as int]));
                assert(record_views(entries@)
                    =~= record_views(self.entries@.subrange(0, i + 1 as int)));
            }
            i = i + 1;
        }
        proof {
            assert(self.entries@.subrange(0, self.entries@.len() as int) =~= self.entries@);
            assert forall|a: int, b: int| 0 <= a < b < record_views(entries@).len() implies
                !(record_views(entries@)[a].0 == record_views(entries@)[b].0
                    && record_views(entries@)[a].1 == record_views(entries@)[b].1) by {
                assert(record_views(entries@)[a] == self.view_model()[a]);
                assert(record_views(entries@)[b] == self.view_model()[b]);
            }
        }
        MockStore { entries }
    }
}

/// Setting a record and then reading it back yields exactly the last-set
/// field mapping, wholesale: the record under `(t, id)` carries `em` and
/// no other record, nor any other entity type, is created, dropped or
/// changed by the upsert.
pub proof fn lemma_set_then_get(a: MockStore, b: MockStore, t: Seq<char>, id: Seq<char>, em: EntityModel)
    requires
        a.wf(),
        b.view_model() == if a.has_entity(t, id) {
            a.view_model().update(a.entity_index(t, id), (t, id, em))
        } else {
            a.view_model().push((t, id, em))
        },
    ensures
        b.has_entity(t, id),
        b.entity_model(t, id) == em,
        forall|t2: Seq<char>, id2: Seq<char>|
            !(t2 == t && id2 == id)
                ==> b.has_entity(t2, id2) == a.has_entity(t2, id2),
        forall|t2: Seq<char>, id2: Seq<char>|
            !(t2 == t && id2 == id) && a.has_entity(t2, id2)
                ==> b.entity_model(t2, id2) == a.entity_model(t2, id2),
{
    let av = a.view_model();
    let bv = b.view_model();
    if a.has_entity(t, id) {
        let i = a.entity_index(t, id);
        assert(0 <= i < av.len() && av[i].0 == t && av[i].1 == id);
        assert(bv[i] == (t, id, em));
        assert(b.has_entity(t, id));
        let j = b.entity_index(t, id);
        assert(0 <= j < bv.len() && bv[j].0 == t && bv[j].1 == id);
        if j != i {
            assert(bv[j] == av[j]);
            assert(a.has_entity(t, id));
            if i < j {
                assert(!(av[i].0 == av[j].0 && av[i].1 == av[j].1));
            } else {
                assert(!(av[j].0 == av[i].0 && av[j].1 == av[i].1));
            }
        }
        assert(b.entity_model(t, id) == em);
        assert forall|t2: Seq<char>, id2: Seq<char>| !(t2 == t && id2 == id) implies
            b.has_entity(t2, id2) == a.has_entity(t2, id2) by {
            if a.has_entity(t2, id2) {
                let k = a.entity_index(t2, id2);
                assert(0 <= k < av.len() && av[k].0 == t2 && av[k].1 == id2);
                assert(k != i);
                assert(bv[k] == av[k]);
                assert(b.has_entity(t2, id2));
            }
            if b.has_entity(t2, id2) {
                let k = b.entity_index(t2, id2);
                assert(0 <= k < bv.len() && bv[k].0 == t2 && bv[k].1 == id2);
                assert(k != i);
                assert(bv[k] == av[k]);
                assert(a.has_entity(t2, id2));
            }
        }
        assert forall|t2: Seq<char>, id2: Seq<char>|
            !(t2 == t && id2 == id) && a.has_entity(t2, id2) implies
            b.entity_model(t2, id2) == a.entity_model(t2, id2) by {
            let k = a.entity_index(t2, id2);
            assert(0 <= k < av.len() && av[k].0 == t2 && av[k].1 == id2);
            assert(k != i);
            assert(bv[k] == av[k]);
            let k2 = b.entity_index(t2, id2);
            assert(0 <= k2 < bv.len() && bv[k2].0 == t2 && bv[k2].1 == id2);
            assert(k2 != i);
            assert(bv[k2] == av[k2]);
            if k != k2 {
                if k < k2 {
                    assert(!(av[k].0 == av[k2].0 && av[k].1 == av[k2].1));
                } else {
                    assert(!(av[k2].0 == av[k].0 && av[k2].1 == av[k].1));
                }
            }
        }
    } else {
        let n = av.len() as int;
        assert(bv[n] == (t, id, em));
        assert(b.has_entity(t, id));
        let j = b.entity_index(t, id);
        assert(0 <= j < bv.len() && bv[j].0 == t && bv[j].1 == id);
        if j != n {
            assert(bv[j] == av[j]);
            assert(a.has_entity(t, id));
        }
        assert(b.entity_model(t, id) == em);
        assert forall|t2: Seq<char>, id2: Seq<char>| !(t2 == t && id2 == id) implies
            b.has_entity(t2, id2) == a.has_entity(t2, id2) by {
            if a.has_entity(t2, id2) {
                let k = a.entity_index(t2, id2);
                assert(bv[k] == av[k]);
                assert(b.has_entity(t2, id2));
            }
            if b.has_entity(t2, id2) {
                let k = b.entity_index(t2, id2);
                assert(0 <= k < bv.len() && bv[k].0 == t2 && bv[k].1 == id2);
                assert(k != n);
                assert(bv[k] == av[k]);
                assert(a.has_entity(t2, id2));
            }
        }
        assert forall|t2: Seq<char>, id2: Seq<char>|
            !(t2 == t && id2 == id) && a.has_entity(t2, id2) implies
            b.entity_model(t2, id2) == a.entity_model(t2, id2) by {
            let k = a.entity_index(t2, id2);
            assert(0 <= k < av.len() && av[k].0 == t2 && av[k].1 == id2);
            assert(bv[k] == av[k]);
            let k2 = b.entity_index(t2, id2);
            assert(0 <= k2 < bv.len() && bv[k2].0 == t2 && bv[k2].1 == id2);
            assert(k2 != n);
            assert(bv[k2] == av[k2]);
            if k != k2 {
                if k < k2 {
                    assert(!(av[k].0 == av[k2].0 && av[k].1 == av[k2].1));
                } else {
                    assert(!(av[k2].0 == av[k].0 && av[k2].1 == av[k].1));
                }
            }
        }
    }
}

} // verus!
