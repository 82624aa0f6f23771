//! Events described by sets of key/value pairs.
use vstd::prelude::*;

verus! {

/// One entry of a [`KeyValueSet`]: a key, an optional namespace and an
/// optional value (an entry without a value matches any value).
pub struct KeyValue {
    pub key: String,
    pub namespace: Option<String>,
    pub value: Option<String>,
}

/// The mathematical value of a [`KeyValue`].
pub struct KeyValueView {
    pub key: Seq<char>,
    pub namespace: Option<Seq<char>>,
    pub value: Option<Seq<char>>,
}

pub open spec fn opt_view(o: Option<String>) -> Option<Seq<char>> {
    match o {
        Some(s) => Some(s@),
        None => None,
    }
}

impl View for KeyValue {
    type V = KeyValueView;

    open spec fn view(&self) -> KeyValueView {
        KeyValueView { key: self.key@, namespace: opt_view(self.namespace), value: opt_view(self.value) }
    }
}

fn to_owned_opt(o: Option<&str>) -> (r: Option<String>)
    ensures
        opt_view(r) == (match o {
            Some(s) => Some(s@),
            None => None::<Seq<char>>,
        }),
{
    match o {
        Some(s) => Some(String::from_str(s)),
        None => None,
    }
}

/// An ordered set of key/value entries describing an event.
pub struct KeyValueSet {
    entries: Vec<KeyValue>,
}

impl View for KeyValueSet {
    type V = Seq<KeyValueView>;

    closed spec fn view(&self) -> Seq<KeyValueView> {
        self.entries@.map_values(|e: KeyValue| e@)
    }
}

impl KeyValueSet {
    /// An empty set.
    pub fn new() -> (r: KeyValueSet)
        ensures
            r@ == Seq::<KeyValueView>::empty(),
    {
        let r = KeyValueSet { entries: Vec::new() };
        assert(r@ =~= Seq::<KeyValueView>::empty());
        r
    }

    /// Add an entry after the existing ones.
    pub fn add_key_value(&mut self, key: &str, namespace: Option<&str>, value: Option<&str>)
        ensures
            final(self)@ == old(self)@.push(
                KeyValueView {
                    key: key@,
                    namespace: match namespace {
                        Some(s) => Some(s@),
                        None => None,
                    },
                    value: match value {
                        Some(s) => Some(s@),
                        None => None,
                    },
                },
            ),
    {
        let entry = KeyValue {
            key: String::from_str(key),
            namespace: to_owned_opt(namespace),
            value: to_owned_opt(value),
        };
        self.entries.push(entry);
        assert(self@ =~= old(self)@.push(entry@));
    }

    /// Number of entries.
    pub fn len(&self) -> (r: usize)
        ensures
            r == self@.len(),
    {
        self.entries.len()
    }

    /// The entry at position `i`.
    pub fn get(&self, i: usize) -> (r: &KeyValue)
        requires
            i < self@.len(),
        ensures
            r@ == self@[i as int],
    {
        &self.entries[i]
    }
}

/// The entries that select motion-detection events: the VMD topic of the
/// first camera profile, with any value of `active`.
pub open spec fn vmd_entries() -> Seq<KeyValueView> {
    seq![
        KeyValueView {
            key: "topic1"@,
            namespace: Some("tnsaxis"@),
            value: Some("VMD"@),
        },
        KeyValueView {
            key: "topic2"@,
            namespace: Some("tnsaxis"@),
            value: Some("Camera1ProfileANY"@),
        },
        KeyValueView { key: "active"@, namespace: None, value: None },
    ]
}

/// A motion-detection event.
pub struct VMDEvent {
    kv_set: KeyValueSet,
}

impl VMDEvent {
    /// An event described by `kv_set`.
    pub fn new(kv_set: KeyValueSet) -> (r: VMDEvent)
        ensures
            r.key_value_set_spec() == kv_set@,
    {
        VMDEvent { kv_set }
    }

    pub closed spec fn key_value_set_spec(&self) -> Seq<KeyValueView> {
        self.kv_set@
    }

    /// The entries that describe this event.
    pub fn key_value_set(&self) -> (r: &KeyValueSet)
        ensures
            r@ == self.key_value_set_spec(),
    {
        &self.kv_set
    }

    /// The entries that select this kind of event in a subscription.
    pub fn get_base_key_value_set() -> (r: KeyValueSet)
        ensures
            r@ == vmd_entries(),
    {
        let mut kv_set = KeyValueSet::new();
        kv_set.add_key_value("topic1", Some("tnsaxis"), Some("VMD"));
        kv_set.add_key_value("topic2", Some("tnsaxis"), Some("Camera1ProfileANY"));
        kv_set.add_key_value("active", None, None);
        assert(kv_set@ =~= vmd_entries());
        kv_set
    }
}

} // verus!
