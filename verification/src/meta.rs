//! A plain model of the cluster object metadata the reconcilers read and
//! write: name, namespace, UID, labels, and owner references.
//!
//! Owner references are the back-links that make cluster-side cascading
//! deletion work: every object this controller creates points at the
//! managed user that caused it.

use vstd::prelude::*;

verus! {

use vstd::string::StringExecFns;

/// A weak back-reference from a child object to its owner, stored as plain
/// fields and resolved by lookup, never as a pointer.
#[derive(Debug, Clone)]
pub struct OwnerReference {
    pub api_version: String,
    pub kind: String,
    pub name: String,
    pub uid: String,
    pub controller: Option<bool>,
    pub block_owner_deletion: Option<bool>,
}

impl OwnerReference {
    /// True when this reference points at the owner the four fields name.
    pub open spec fn points_at(
        &self,
        api_version: Seq<char>,
        kind: Seq<char>,
        name: Seq<char>,
        uid: Seq<char>,
    ) -> bool {
        &&& self.api_version@ == api_version
        &&& self.kind@ == kind
        &&& self.name@ == name
        &&& self.uid@ == uid
        &&& self.block_owner_deletion == Some(false)
    }
}

/// Object metadata, with labels kept as a list of key/value pairs whose
/// keys are unique.
#[derive(Debug, Clone)]
pub struct ObjectMeta {
    pub name: Option<String>,
    pub namespace: Option<String>,
    pub uid: Option<String>,
    pub labels: Vec<(String, String)>,
    pub owner_references: Vec<OwnerReference>,
}

/// True when `labels` binds `key` to `value`.
pub open spec fn has_label(labels: Seq<(String, String)>, key: Seq<char>, value: Seq<char>) -> bool {
    exists|i: int| 0 <= i < labels.len() && labels[i].0@ == key && labels[i].1@ == value
}

/// True when no two entries of `labels` share a key.
pub open spec fn label_keys_unique(labels: Seq<(String, String)>) -> bool {
    forall|i: int, j: int| 0 <= i < j < labels.len() ==> labels[i].0@ != labels[j].0@
}

impl ObjectMeta {
    /// The metadata's own well-formedness: label keys never repeat.
    pub open spec fn wf(&self) -> bool {
        label_keys_unique(self.labels@)
    }

    /// The name this metadata carries, or the empty string when unnamed.
    pub open spec fn view_name_any(&self) -> Seq<char> {
        match self.name {
            Some(n) => n@,
            None => Seq::empty(),
        }
    }
}

/// Empty metadata: everything unset.
pub fn empty_meta() -> (m: ObjectMeta)
    ensures
        m.name is None,
        m.namespace is None,
        m.uid is None,
        m.labels@ =~= Seq::<(String, String)>::empty(),
        m.owner_references@ =~= Seq::<OwnerReference>::empty(),
        m.wf(),
{
    ObjectMeta {
        name: None,
        namespace: None,
        uid: None,
        labels: Vec::new(),
        owner_references: Vec::new(),
    }
}

/// Convenience operations the controller performs on metadata. The spec
/// members say what each operation leaves behind; the one implementation,
/// on [`ObjectMeta`], opens them.
pub trait ObjectMetaKuoExt: Sized {
    /// The new value after an owner reference for the named owner was
    /// appended: everything else untouched.
    spec fn owner_added(
        self,
        prev: Self,
        api_version: Seq<char>,
        kind: Seq<char>,
        name: Seq<char>,
        uid: Seq<char>,
    ) -> bool;

    /// The new value after `key` was bound to `value`: the binding is
    /// present, every other key keeps its bindings, everything else
    /// untouched.
    spec fn label_inserted(self, prev: Self, key: Seq<char>, value: Seq<char>) -> bool;

    /// Label keys never repeat.
    spec fn meta_wf(self) -> bool;

    /// The carried name, or the empty string when unnamed.
    spec fn spec_name_any(self) -> Seq<char>;

    /// Append an owner reference built from the owner's identity, with
    /// cluster-side deletion blocking switched off.
    fn add_owner(&mut self, api_version: &str, kind: &str, name: &str, uid: &str)
        ensures
            final(self).owner_added(*old(self), api_version@, kind@, name@, uid@),
    ;

    /// Bind `key` to `value` in the labels, replacing any previous binding
    /// of the same key.
    fn insert_label(&mut self, key: &str, value: &str)
        requires
            old(self).meta_wf(),
        ensures
            final(self).label_inserted(*old(self), key@, value@),
    ;

    /// The carried name, or the empty string when unnamed.
    fn name_any(&self) -> (n: String)
        ensures
            n@ == self.spec_name_any(),
    ;
}

impl ObjectMetaKuoExt for ObjectMeta {
    open spec fn owner_added(
        self,
        prev: Self,
        api_version: Seq<char>,
        kind: Seq<char>,
        name: Seq<char>,
        uid: Seq<char>,
    ) -> bool {
        &&& self.name == prev.name
        &&& self.namespace == prev.namespace
        &&& self.uid == prev.uid
        &&& self.labels == prev.labels
        &&& self.owner_references@.len() == prev.owner_references@.len() + 1
        &&& self.owner_references@.drop_last() == prev.owner_references@
        &&& self.owner_references@.last().points_at(api_version, kind, name, uid)
        &&& self.owner_references@.last().controller is None
    }

    open spec fn label_inserted(self, prev: Self, key: Seq<char>, value: Seq<char>) -> bool {
        &&& self.name == prev.name
        &&& self.namespace == prev.namespace
        &&& self.uid == prev.uid
        &&& self.owner_references == prev.owner_references
        &&& self.wf()
        &&& has_label(self.labels@, key, value)
        &&& forall|k: Seq<char>, v: Seq<char>|
            k != key ==> (has_label(self.labels@, k, v) <==> has_label(prev.labels@, k, v))
        &&& forall|v: Seq<char>| has_label(self.labels@, key, v) ==> v == value
    }

    open spec fn meta_wf(self) -> bool {
        self.wf()
    }

    open spec fn spec_name_any(self) -> Seq<char> {
        self.view_name_any()
    }

    fn add_owner(&mut self, api_version: &str, kind: &str, name: &str, uid: &str) {
        let owner = OwnerReference {
            api_version: api_version.to_owned(),
            kind: kind.to_owned(),
            name: name.to_owned(),
            uid: uid.to_owned(),
            controller: None,
            block_owner_deletion: Some(false),
        };
        self.owner_references.push(owner);
        proof {
            assert(self.owner_references@.drop_last() =~= old(self).owner_references@);
        }
    }

    fn insert_label(&mut self, key: &str, value: &str) {
        let key_s = key.to_owned();
        let mut i: usize = 0;
        while i < self.labels.len()
            invariant
                *self == *old(self),
                old(self).wf(),
                key_s@ == key@,
                i <= self.labels@.len(),
                forall|j: int| 0 <= j < i ==> self.labels@[j].0@ != key@,
            decreases self.labels@.len() - i,
        {
            if self.labels[i].0 == key_s {
                self.labels.set(i, (key.to_owned(), value.to_owned()));
                proof {
                    lemma_insert_label_replace(
                        old(self).labels@,
                        self.labels@,
                        i as int,
                        key@,
                        value@,
                    );
                }
                return ;
            }
            i = i + 1;
        }
        self.labels.push((key.to_owned(), value.to_owned()));
        proof {
            lemma_insert_label_append(old(self).labels@, self.labels@, key@, value@);
        }
    }

    fn name_any(&self) -> (n: String) {
        match &self.name {
            Some(n) => n.clone(),
            None => String::new(),
        }
    }
}

/// Replacing the value at the one index whose key matched keeps all other
/// bindings and leaves the keys unique.
proof fn lemma_insert_label_replace(
    before: Seq<(String, String)>,
    after: Seq<(String, String)>,
    at: int,
    key: Seq<char>,
    value: Seq<char>,
)
    requires
        label_keys_unique(before),
        0 <= at < before.len(),
        before[at].0@ == key,
        after.len() == before.len(),
        forall|j: int| 0 <= j < before.len() && j != at ==> after[j] == before[j],
        after[at].0@ == key,
        after[at].1@ == value,
    ensures
        label_keys_unique(after),
        has_label(after, key, value),
        forall|k: Seq<char>, v: Seq<char>|
            k != key ==> (has_label(after, k, v) <==> has_label(before, k, v)),
        forall|v: Seq<char>| has_label(after, key, v) ==> v == value,
{
    assert forall|k: Seq<char>, v: Seq<char>| k != key implies (has_label(after, k, v)
        <==> has_label(before, k, v)) by {
        if has_label(after, k, v) {
            let i = choose|i: int| 0 <= i < after.len() && after[i].0@ == k && after[i].1@ == v;
            assert(before[i].0@ == k && before[i].1@ == v);
        }
        if has_label(before, k, v) {
            let i = choose|i: int| 0 <= i < before.len() && before[i].0@ == k && before[i].1@ == v;
            assert(after[i].0@ == k && after[i].1@ == v);
        }
    }
    assert forall|v: Seq<char>| has_label(after, key, v) implies v == value by {
        let i = choose|i: int| 0 <= i < after.len() && after[i].0@ == key && after[i].1@ == v;
        if i != at {
            assert(before[i].0@ == key && before[at].0@ == key);
        }
    }
}

/// Appending a binding for a key absent from the list keeps all other
/// bindings and leaves the keys unique.
proof fn lemma_insert_label_append(
    before: Seq<(String, String)>,
    after: Seq<(String, String)>,
    key: Seq<char>,
    value: Seq<char>,
)
    requires
        label_keys_unique(before),
        forall|j: int| 0 <= j < before.len() ==> before[j].0@ != key,
        after.len() == before.len() + 1,
        forall|j: int| 0 <= j < before.len() ==> after[j] == before[j],
        after.last().0@ == key,
        after.last().1@ == value,
    ensures
        label_keys_unique(after),
        has_label(after, key, value),
        forall|k: Seq<char>, v: Seq<char>|
            k != key ==> (has_label(after, k, v) <==> has_label(before, k, v)),
        forall|v: Seq<char>| has_label(after, key, v) ==> v == value,
{
    assert(has_label(after, key, value)) by {
        assert(after[after.len() - 1].0@ == key && after[after.len() - 1].1@ == value);
    }
    assert forall|k: Seq<char>, v: Seq<char>| k != key implies (has_label(after, k, v)
        <==> has_label(before, k, v)) by {
        if has_label(after, k, v) {
            let i = choose|i: int| 0 <= i < after.len() && after[i].0@ == k && after[i].1@ == v;
            assert(i < before.len());
            assert(before[i].0@ == k && before[i].1@ == v);
        }
        if has_label(before, k, v) {
            let i = choose|i: int| 0 <= i < before.len() && before[i].0@ == k && before[i].1@ == v;
            assert(after[i].0@ == k && after[i].1@ == v);
        }
    }
    assert forall|v: Seq<char>| has_label(after, key, v) implies v == value by {
        let i = choose|i: int| 0 <= i < after.len() && after[i].0@ == key && after[i].1@ == v;
        assert(i == after.len() - 1);
    }
}

} // verus!
