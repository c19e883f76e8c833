//! Menus exported over the `com.canonical.dbusmenu` interface: the items a
//! caller builds, the numbered tree the menu keeps, and the layouts and
//! property lists it answers with.

use vstd::prelude::*;
use crate::icon::{copy_pixmaps, same_pixmap, same_pixmaps, Icon, Pixmap};
use crate::text::{opt_text, owned, str_equals, texts};

verus! {

/// The kind of a menu item.
#[derive(Debug, Clone, Copy, PartialEq, Eq, Structural)]
pub enum MenuType {
    /// An ordinary item (`standard`).
    Standard,
    /// A separator (`separator`).
    Separator,
}

/// The kind of toggle a menu item shows.
#[derive(Debug, Clone, Copy, PartialEq, Eq, Structural)]
pub enum MenuToggleType {
    /// A check mark (`checkmark`).
    Checkmark,
    /// A radio button (`radio`).
    Radio,
}

/// The value of a menu item property.
#[derive(Debug, PartialEq)]
pub enum MenuValue {
    /// A text.
    Str(String),
    /// A truth value.
    Bool(bool),
    /// Icon pixmaps.
    Pixmaps(Vec<Pixmap>),
}

/// The content of a property value.
pub enum MenuValueView {
    /// A text.
    Str(Seq<char>),
    /// A truth value.
    Bool(bool),
    /// Icon pixmaps, each as its width, height and bytes.
    Pixmaps(Seq<(i32, i32, Seq<u8>)>),
}

impl View for MenuValue {
    type V = MenuValueView;

    open spec fn view(&self) -> MenuValueView {
        match self {
            MenuValue::Str(s) => MenuValueView::Str(s@),
            MenuValue::Bool(b) => MenuValueView::Bool(*b),
            MenuValue::Pixmaps(p) => MenuValueView::Pixmaps(p@.map_values(|x: Pixmap| x@)),
        }
    }
}

impl MenuValue {
    /// A copy of the value.
    pub fn copy(&self) -> (r: MenuValue)
        ensures
            r@ == self@,
    {
        match self {
            MenuValue::Str(s) => MenuValue::Str(owned(s.as_str())),
            MenuValue::Bool(b) => MenuValue::Bool(*b),
            MenuValue::Pixmaps(p) => {
                let q = copy_pixmaps(p);
                assert(q@.map_values(|x: Pixmap| x@) =~= p@.map_values(|x: Pixmap| x@)) by {
                    assert forall|i: int| 0 <= i < q@.len() implies q@[i]@ == p@[i]@ by {
                        assert(same_pixmaps(p@, q@));
                        assert(same_pixmap(p@[i], q@[i]));
                    }
                }
                MenuValue::Pixmaps(q)
            },
        }
    }
}

/// The properties of a menu item: names with values, each name once.
#[derive(Debug)]
pub struct Properties {
    entries: Vec<(String, MenuValue)>,
}

/// No name occurs twice among the entries.
pub open spec fn distinct_names(s: Seq<(String, MenuValue)>) -> bool {
    forall|i: int, j: int| 0 <= i < s.len() && 0 <= j < s.len() && i != j ==> s[i].0@ != s[j].0@
}

/// The name `k` occurs among the entries.
pub open spec fn has_name(s: Seq<(String, MenuValue)>, k: Seq<char>) -> bool {
    exists|i: int| 0 <= i < s.len() && #[trigger] s[i].0@ == k
}

/// The names and values of the entries, as a map.
pub open spec fn entries_map(s: Seq<(String, MenuValue)>) -> Map<Seq<char>, MenuValueView> {
    Map::new(
        |k: Seq<char>| has_name(s, k),
        |k: Seq<char>| s[choose|i: int| 0 <= i < s.len() && #[trigger] s[i].0@ == k].1@,
    )
}

/// With distinct names, the map gives the value of the entry of a name.
proof fn lemma_entries_map_at(s: Seq<(String, MenuValue)>, i: int)
    requires
        distinct_names(s),
        0 <= i < s.len(),
    ensures
        entries_map(s).contains_key(s[i].0@),
        entries_map(s)[s[i].0@] == s[i].1@,
{
    assert(has_name(s, s[i].0@));
    let j = choose|j: int| 0 <= j < s.len() && #[trigger] s[j].0@ == s[i].0@;
    assert(j == i);
}

/// Adding an entry of a new name adds it to the map.
proof fn lemma_entries_map_push(s: Seq<(String, MenuValue)>, e: (String, MenuValue))
    requires
        distinct_names(s),
        !has_name(s, e.0@),
    ensures
        distinct_names(s.push(e)),
        entries_map(s.push(e)) == entries_map(s).insert(e.0@, e.1@),
{
    let t = s.push(e);
    let n = s.len() as int;
    assert(distinct_names(t)) by {
        assert forall|a: int, b: int| 0 <= a < t.len() && 0 <= b < t.len() && a != b implies t[a].0@ != t[b].0@ by {
            if a == n {
                assert(!(s[b].0@ == e.0@));
            } else if b == n {
                assert(!(s[a].0@ == e.0@));
            }
        }
    }
    assert(entries_map(t) =~= entries_map(s).insert(e.0@, e.1@)) by {
        assert forall|k: Seq<char>| #[trigger] entries_map(t).contains_key(k) == entries_map(s).insert(e.0@, e.1@).contains_key(k) by {
            if has_name(t, k) {
                let j = choose|j: int| 0 <= j < t.len() && #[trigger] t[j].0@ == k;
                if j != n {
                    assert(s[j].0@ == k);
                }
            }
            if has_name(s, k) {
                let j = choose|j: int| 0 <= j < s.len() && #[trigger] s[j].0@ == k;
                assert(t[j].0@ == k);
            }
            if k == e.0@ {
                assert(t[n].0@ == k);
            }
        }
        assert forall|k: Seq<char>| #[trigger] entries_map(t).contains_key(k) implies entries_map(t)[k] == entries_map(s).insert(e.0@, e.1@)[k] by {
            let j = choose|j: int| 0 <= j < t.len() && #[trigger] t[j].0@ == k;
            lemma_entries_map_at(t, j);
            if j != n {
                assert(s[j].0@ == k);
                lemma_entries_map_at(s, j);
            }
        }
    }
}

impl View for Properties {
    type V = Map<Seq<char>, MenuValueView>;

    closed spec fn view(&self) -> Map<Seq<char>, MenuValueView> {
        entries_map(self.entries@)
    }
}

impl Properties {
    #[verifier::type_invariant]
    spec fn inv(self) -> bool {
        distinct_names(self.entries@)
    }

    /// No properties.
    pub fn new() -> (p: Properties)
        ensures
            p@ == Map::<Seq<char>, MenuValueView>::empty(),
    {
        let p = Properties { entries: Vec::new() };
        assert(p@ =~= Map::<Seq<char>, MenuValueView>::empty());
        p
    }

    /// The index of the entry named `key`, if any.
    fn find(&self, key: &str) -> (r: Option<usize>)
        ensures
            match r {
                Some(i) => i < self.entries@.len() && self.entries@[i as int].0@ == key@,
                None => !has_name(self.entries@, key@),
            },
    {
        let mut i: usize = 0;
        while i < self.entries.len()
            invariant
                i <= self.entries@.len(),
                forall|j: int| 0 <= j < i ==> self.entries@[j].0@ != key@,
            decreases self.entries@.len() - i,
        {
            if str_equals(self.entries[i].0.as_str(), key) {
                return Some(i);
            }
            i = i + 1;
        }
        None
    }

    /// Whether a property is named `key`.
    pub fn contains(&self, key: &str) -> (b: bool)
        ensures
            b == self@.contains_key(key@),
    {
        self.find(key).is_some()
    }

    /// The number of properties.
    pub fn len(&self) -> (n: usize)
        ensures
            n == self@.len(),
    {
        proof {
            use_type_invariant(self);
            self.lemma_len();
        }
        self.entries.len()
    }

    proof fn lemma_len(&self)
        requires
            distinct_names(self.entries@),
        ensures
            self@.dom().finite(),
            self@.len() == self.entries@.len(),
    {
        let s = self.entries@;
        let names = s.map_values(|e: (String, MenuValue)| e.0@);
        assert(names.no_duplicates()) by {
            assert forall|i: int, j: int| 0 <= i < names.len() && 0 <= j < names.len() && i != j implies names[i] != names[j] by {}
        }
        assert(self@.dom() =~= names.to_set()) by {
            assert forall|k: Seq<char>| self@.dom().contains(k) implies names.to_set().contains(k) by {
                let i = choose|i: int| 0 <= i < s.len() && #[trigger] s[i].0@ == k;
                assert(names[i] == k);
            }
            assert forall|k: Seq<char>| names.to_set().contains(k) implies self@.dom().contains(k) by {
                let i = choose|i: int| 0 <= i < names.len() && names[i] == k;
                assert(s[i].0@ == k);
            }
        }
        names.unique_seq_to_set();
    }

    /// Whether there are no properties.
    pub fn is_empty(&self) -> (b: bool)
        ensures
            b == (self@.len() == 0),
    {
        self.len() == 0
    }

    /// The value of the property named `key`, if any.
    pub fn get(&self, key: &str) -> (v: Option<&MenuValue>)
        ensures
            match v {
                Some(x) => self@.contains_key(key@) && self@[key@] == x@,
                None => !self@.contains_key(key@),
            },
    {
        proof {
            use_type_invariant(self);
        }
        match self.find(key) {
            Some(i) => {
                proof {
                    lemma_entries_map_at(self.entries@, i as int);
                }
                Some(&self.entries[i].1)
            },
            None => None,
        }
    }

    /// Sets the property named `key` to `value`, in place of any value it
    /// had.
    pub fn insert(&mut self, key: &str, value: MenuValue)
        ensures
            final(self)@ == old(self)@.insert(key@, value@),
    {
        proof {
            use_type_invariant(&*self);
        }
        let ghost old_s = self.entries@;
        let ghost v = value@;
        match self.find(key) {
            Some(i) => {
                let mut entries: Vec<(String, MenuValue)> = Vec::new();
                std::mem::swap(&mut entries, &mut self.entries);
                entries.set(i, (owned(key), value));
                let ghost s = entries@;
                assert(distinct_names(s)) by {
                    assert forall|a: int, b: int| 0 <= a < s.len() && 0 <= b < s.len() && a != b implies s[a].0@ != s[b].0@ by {
                        if a == i {
                            assert(old_s[b].0@ != old_s[i as int].0@);
                        } else if b == i {
                            assert(old_s[a].0@ != old_s[i as int].0@);
                        }
                    }
                }
                self.entries = entries;
                proof {
                    assert(entries_map(s) =~= entries_map(old_s).insert(key@, v)) by {
                        assert forall|k: Seq<char>| #[trigger] entries_map(s).contains_key(k) == entries_map(old_s).insert(key@, v).contains_key(k) by {
                            if has_name(s, k) {
                                let j = choose|j: int| 0 <= j < s.len() && #[trigger] s[j].0@ == k;
                                if j != i {
                                    assert(old_s[j].0@ == k);
                                }
                            }
                            if has_name(old_s, k) {
                                let j = choose|j: int| 0 <= j < old_s.len() && #[trigger] old_s[j].0@ == k;
                                if j != i {
                                    assert(s[j].0@ == k);
                                } else {
                                    assert(s[i as int].0@ == k);
                                }
                            }
                            if k == key@ {
                                assert(s[i as int].0@ == k);
                            }
                        }
                        assert forall|k: Seq<char>| #[trigger] entries_map(s).contains_key(k) implies entries_map(s)[k] == entries_map(old_s).insert(key@, v)[k] by {
                            let j = choose|j: int| 0 <= j < s.len() && #[trigger] s[j].0@ == k;
                            lemma_entries_map_at(s, j);
                            if j != i {
                                assert(old_s[j].0@ == k);
                                lemma_entries_map_at(old_s, j);
                            }
                        }
                    }
                }
            },
            None => {
                let mut entries: Vec<(String, MenuValue)> = Vec::new();
                std::mem::swap(&mut entries, &mut self.entries);
                entries.push((owned(key), value));
                let ghost s = entries@;
                assert(distinct_names(s)) by {
                    assert forall|a: int, b: int| 0 <= a < s.len() && 0 <= b < s.len() && a != b implies s[a].0@ != s[b].0@ by {
                        if a == old_s.len() {
                            assert(old_s[b].0@ != key@);
                        } else if b == old_s.len() {
                            assert(old_s[a].0@ != key@);
                        }
                    }
                }
                self.entries = entries;
                proof {
                    let n = old_s.len() as int;
                    assert(entries_map(s) =~= entries_map(old_s).insert(key@, v)) by {
                        assert forall|k: Seq<char>| #[trigger] entries_map(s).contains_key(k) == entries_map(old_s).insert(key@, v).contains_key(k) by {
                            if has_name(s, k) {
                                let j = choose|j: int| 0 <= j < s.len() && #[trigger] s[j].0@ == k;
                                if j != n {
                                    assert(old_s[j].0@ == k);
                                }
                            }
                            if has_name(old_s, k) {
                                let j = choose|j: int| 0 <= j < old_s.len() && #[trigger] old_s[j].0@ == k;
                                assert(s[j].0@ == k);
                            }
                            if k == key@ {
                                assert(s[n].0@ == k);
                            }
                        }
                        assert forall|k: Seq<char>| #[trigger] entries_map(s).contains_key(k) implies entries_map(s)[k] == entries_map(old_s).insert(key@, v)[k] by {
                            let j = choose|j: int| 0 <= j < s.len() && #[trigger] s[j].0@ == k;
                            lemma_entries_map_at(s, j);
                            if j != n {
                                assert(old_s[j].0@ == k);
                                lemma_entries_map_at(old_s, j);
                            }
                        }
                    }
                }
            },
        }
    }

    /// Removes the property named `key`, if there is one.
    pub fn remove(&mut self, key: &str)
        ensures
            final(self)@ == old(self)@.remove(key@),
    {
        proof {
            use_type_invariant(&*self);
        }
        let ghost old_s = self.entries@;
        match self.find(key) {
            Some(i) => {
                let mut entries: Vec<(String, MenuValue)> = Vec::new();
                std::mem::swap(&mut entries, &mut self.entries);
                let _ = entries.remove(i);
                let ghost s = entries@;
                assert(forall|a: int| 0 <= a < s.len() ==> #[trigger] s[a] == (if a < i { old_s[a] } else { old_s[a + 1] }));
                assert(distinct_names(s)) by {
                    assert forall|a: int, b: int| 0 <= a < s.len() && 0 <= b < s.len() && a != b implies s[a].0@ != s[b].0@ by {
                        let a2 = if a < i { a } else { a + 1 };
                        let b2 = if b < i { b } else { b + 1 };
                        assert(old_s[a2].0@ != old_s[b2].0@);
                    }
                }
                self.entries = entries;
                proof {
                    assert(entries_map(s) =~= entries_map(old_s).remove(key@)) by {
                        assert forall|k: Seq<char>| #[trigger] entries_map(s).contains_key(k) == entries_map(old_s).remove(key@).contains_key(k) by {
                            if has_name(s, k) {
                                let j = choose|j: int| 0 <= j < s.len() && #[trigger] s[j].0@ == k;
                                let j2 = if j < i { j } else { j + 1 };
                                assert(old_s[j2].0@ == k);
                                assert(j2 != i);
                                assert(k != key@);
                            }
                            if has_name(old_s, k) && k != key@ {
                                let j = choose|j: int| 0 <= j < old_s.len() && #[trigger] old_s[j].0@ == k;
                                assert(j != i);
                                let j2 = if j < i { j } else { j - 1 };
                                assert(s[j2].0@ == k);
                            }
                        }
                        assert forall|k: Seq<char>| #[trigger] entries_map(s).contains_key(k) implies entries_map(s)[k] == entries_map(old_s).remove(key@)[k] by {
                            let j = choose|j: int| 0 <= j < s.len() && #[trigger] s[j].0@ == k;
                            lemma_entries_map_at(s, j);
                            let j2 = if j < i { j } else { j + 1 };
                            assert(old_s[j2].0@ == k);
                            lemma_entries_map_at(old_s, j2);
                        }
                    }
                }
            },
            None => {
                assert(entries_map(old_s) =~= entries_map(old_s).remove(key@));
            },
        }
    }

    /// A copy of the properties.
    pub fn copy(&self) -> (r: Properties)
        ensures
            r@ == self@,
    {
        let mut r = Properties::new();
        let mut i: usize = 0;
        proof {
            use_type_invariant(self);
            assert(entries_map(self.entries@.subrange(0, 0)) =~= Map::<Seq<char>, MenuValueView>::empty());
        }
        while i < self.entries.len()
            invariant
                distinct_names(self.entries@),
                i <= self.entries@.len(),
                r@ == entries_map(self.entries@.subrange(0, i as int)),
            decreases self.entries@.len() - i,
        {
            r.insert(self.entries[i].0.as_str(), self.entries[i].1.copy());
            proof {
                let s = self.entries@;
                assert(s.subrange(0, i + 1) =~= s.subrange(0, i as int).push(s[i as int]));
                assert(distinct_names(s.subrange(0, i as int)));
                assert(!has_name(s.subrange(0, i as int), s[i as int].0@)) by {
                    if has_name(s.subrange(0, i as int), s[i as int].0@) {
                        let j = choose|j: int| 0 <= j < i && #[trigger] s.subrange(0, i as int)[j].0@ == s[i as int].0@;
                        assert(s[j].0@ == s[i as int].0@);
                    }
                }
                lemma_entries_map_push(s.subrange(0, i as int), s[i as int]);
            }
            i = i + 1;
        }
        assert(self.entries@.subrange(0, i as int) =~= self.entries@);
        r
    }

    /// The properties whose names are listed; all of them when the list is
    /// empty.
    pub fn filtered(&self, names: &Vec<String>) -> (r: Properties)
        ensures
            r@ == filter_properties(self@, names@.map_values(|n: String| n@)),
    {
        if names.len() == 0 {
            return self.copy();
        }
        let ghost wanted = names@.map_values(|n: String| n@);
        let mut r = Properties::new();
        let mut i: usize = 0;
        while i < names.len()
            invariant
                wanted == names@.map_values(|n: String| n@),
                i <= names@.len(),
                r@ == self@.restrict(wanted.subrange(0, i as int).to_set()),
            decreases names@.len() - i,
        {
            let name = names[i].as_str();
            match self.get(name) {
                Some(v) => {
                    r.insert(name, v.copy());
                },
                None => {},
            }
            proof {
                assert(wanted.subrange(0, i + 1).to_set() =~= wanted.subrange(0, i as int).to_set().insert(wanted[i as int])) by {
                    assert(wanted.subrange(0, i + 1) =~= wanted.subrange(0, i as int).push(wanted[i as int]));
                    wanted.subrange(0, i as int).lemma_push_to_set_commute(wanted[i as int]);
                }
                assert(r@ =~= self@.restrict(wanted.subrange(0, i + 1).to_set()));
            }
            i = i + 1;
        }
        assert(wanted.subrange(0, names@.len() as int) =~= wanted);
        r
    }

    /// The names of the properties, each once.
    pub fn names(&self) -> (r: Vec<String>)
        ensures
            r@.map_values(|n: String| n@).to_set() == self@.dom(),
            r@.map_values(|n: String| n@).no_duplicates(),
    {
        proof {
            use_type_invariant(self);
        }
        let mut r: Vec<String> = Vec::new();
        let mut i: usize = 0;
        while i < self.entries.len()
            invariant
                distinct_names(self.entries@),
                i <= self.entries@.len(),
                r@.len() == i,
                forall|j: int| 0 <= j < i ==> #[trigger] r@[j]@ == self.entries@[j].0@,
            decreases self.entries@.len() - i,
        {
            r.push(owned(self.entries[i].0.as_str()));
            i = i + 1;
        }
        let ghost names = r@.map_values(|n: String| n@);
        assert(names.to_set() =~= self@.dom()) by {
            assert forall|k: Seq<char>| names.to_set().contains(k) implies self@.dom().contains(k) by {
                let j = choose|j: int| 0 <= j < names.len() && names[j] == k;
                assert(self.entries@[j].0@ == k);
            }
            assert forall|k: Seq<char>| self@.dom().contains(k) implies names.to_set().contains(k) by {
                let j = choose|j: int| 0 <= j < self.entries@.len() && #[trigger] self.entries@[j].0@ == k;
                assert(names[j] == k);
            }
        }
        r
    }

    /// Takes every property out, leaving none.
    pub fn clear(&mut self)
        ensures
            final(self)@ == Map::<Seq<char>, MenuValueView>::empty(),
    {
        *self = Properties::new();
    }
}

/// The properties whose names are listed; all of them when the list is empty.
pub open spec fn filter_properties(
    props: Map<Seq<char>, MenuValueView>,
    names: Seq<Seq<char>>,
) -> Map<Seq<char>, MenuValueView> {
    if names.len() == 0 {
        props
    } else {
        props.restrict(names.to_set())
    }
}

/// An item of a menu, built by the caller: an optional id of the caller's
/// choosing, an optional action run when it is clicked, its properties and
/// its sub-items.
pub struct DBusMenuItem<A> {
    user_id: Option<String>,
    action: Option<A>,
    properties: Properties,
    children: Vec<DBusMenuItem<A>>,
}

impl<A> DBusMenuItem<A> {
    /// The id the caller gave the item.
    pub closed spec fn user_id(self) -> Option<Seq<char>> {
        opt_text(self.user_id)
    }

    /// The action run when the item is clicked.
    pub closed spec fn action(self) -> Option<A> {
        self.action
    }

    /// The item's properties.
    pub closed spec fn props(self) -> Map<Seq<char>, MenuValueView> {
        self.properties@
    }

    /// The item's sub-items.
    pub closed spec fn sub_items(self) -> Seq<DBusMenuItem<A>> {
        self.children@
    }

    /// An item with no id, action, properties or sub-items.
    pub fn new() -> (item: DBusMenuItem<A>)
        ensures
            item.user_id() is None,
            item.action() is None,
            item.props() == Map::<Seq<char>, MenuValueView>::empty(),
            item.sub_items() == Seq::<DBusMenuItem<A>>::empty(),
    {
        DBusMenuItem { user_id: None, action: None, properties: Properties::new(), children: Vec::new() }
    }

    /// Gives the item an id by which the caller can find it later.
    pub fn id(self, id: &str) -> (item: DBusMenuItem<A>)
        ensures
            item.user_id() == Some(id@),
            item.action() == self.action(),
            item.props() == self.props(),
            item.sub_items() == self.sub_items(),
    {
        DBusMenuItem { user_id: Some(owned(id)), ..self }
    }

    /// Sets the kind of the item: a separator has `type` set to
    /// `separator`; a standard item has no `type`.
    pub fn menu_type(self, menu_type: MenuType) -> (item: DBusMenuItem<A>)
        ensures
            item.props() == (match menu_type {
                MenuType::Standard => self.props().remove("type"@),
                MenuType::Separator => self.props().insert("type"@, MenuValueView::Str("separator"@)),
            }),
            item.user_id() == self.user_id(),
            item.action() == self.action(),
            item.sub_items() == self.sub_items(),
    {
        let mut item = self;
        match menu_type {
            MenuType::Standard => item.properties.remove("type"),
            MenuType::Separator => item.properties.insert("type", MenuValue::Str(owned("separator"))),
        }
        item
    }

    /// Sets the item's `label`.
    pub fn label(self, text: &str) -> (item: DBusMenuItem<A>)
        ensures
            item.props() == self.props().insert("label"@, MenuValueView::Str(text@)),
            item.user_id() == self.user_id(),
            item.action() == self.action(),
            item.sub_items() == self.sub_items(),
    {
        let mut item = self;
        item.properties.insert("label", MenuValue::Str(owned(text)));
        item
    }

    /// Sets whether the item is enabled: a disabled item has `enabled` set to
    /// false; an enabled one has no `enabled`.
    pub fn enabled(self, enabled: bool) -> (item: DBusMenuItem<A>)
        ensures
            item.props() == (if enabled {
                self.props().remove("enabled"@)
            } else {
                self.props().insert("enabled"@, MenuValueView::Bool(false))
            }),
            item.user_id() == self.user_id(),
            item.action() == self.action(),
            item.sub_items() == self.sub_items(),
    {
        let mut item = self;
        if enabled {
            item.properties.remove("enabled");
        } else {
            item.properties.insert("enabled", MenuValue::Bool(false));
        }
        item
    }

    /// Sets whether the item is visible: a hidden item has `visible` set to
    /// false; a visible one has no `visible`.
    pub fn visible(self, visible: bool) -> (item: DBusMenuItem<A>)
        ensures
            item.props() == (if visible {
                self.props().remove("visible"@)
            } else {
                self.props().insert("visible"@, MenuValueView::Bool(false))
            }),
            item.user_id() == self.user_id(),
            item.action() == self.action(),
            item.sub_items() == self.sub_items(),
    {
        let mut item = self;
        if visible {
            item.properties.remove("visible");
        } else {
            item.properties.insert("visible", MenuValue::Bool(false));
        }
        item
    }

    /// Sets the item's icon: a themed name as `icon-name`, pixmaps as
    /// `icon-data`; other icons leave the item as it is.
    pub fn icon(self, icon: Icon) -> (item: DBusMenuItem<A>)
        ensures
            item.props() == (match icon {
                Icon::Name(n) => self.props().insert("icon-name"@, MenuValueView::Str(n@)),
                Icon::Pixmaps(p) => self.props().insert(
                    "icon-data"@,
                    MenuValueView::Pixmaps(p@.map_values(|x: Pixmap| x@)),
                ),
                _ => self.props(),
            }),
            item.user_id() == self.user_id(),
            item.action() == self.action(),
            item.sub_items() == self.sub_items(),
    {
        let mut item = self;
        match icon {
            Icon::Name(name) => {
                item.properties.insert("icon-name", MenuValue::Str(name));
            },
            Icon::Pixmaps(pixmaps) => {
                item.properties.insert("icon-data", MenuValue::Pixmaps(pixmaps));
            },
            _ => {},
        }
        item
    }

    /// Sets the action run when the item is clicked.
    pub fn on_click(self, on_click: A) -> (item: DBusMenuItem<A>)
        ensures
            item.action() == Some(on_click),
            item.user_id() == self.user_id(),
            item.props() == self.props(),
            item.sub_items() == self.sub_items(),
    {
        DBusMenuItem { action: Some(on_click), ..self }
    }

    /// Adds sub-items after those the item has.
    pub fn children(self, children: Vec<DBusMenuItem<A>>) -> (item: DBusMenuItem<A>)
        ensures
            item.sub_items() == self.sub_items() + children@,
            item.user_id() == self.user_id(),
            item.action() == self.action(),
            item.props() == self.props(),
    {
        let mut item = self;
        let mut more = children;
        item.children.append(&mut more);
        item
    }
}

/// The number of items in the tree of `item`: the item and all its
/// sub-items.
pub closed spec fn tree_size<A>(item: DBusMenuItem<A>) -> nat
    decreases item,
{
    1 + forest_size(item.children@)
}

/// The number of items in the trees of `cs`.
pub closed spec fn forest_size<A>(cs: Seq<DBusMenuItem<A>>) -> nat
    decreases cs,
{
    if cs.len() == 0 {
        0
    } else {
        forest_size(cs.drop_last()) + tree_size(cs.last())
    }
}

/// What the menu keeps of an item: its id, its parent's id, the caller's id
/// for it, its properties, its action and the ids listed as its children.
pub struct NodeView<A> {
    pub id: int,
    pub parent: int,
    pub user_id: Option<Seq<char>>,
    pub props: Map<Seq<char>, MenuValueView>,
    pub action: Option<A>,
    pub children: Seq<i32>,
}

/// The items of the tree of `item` as the menu numbers them: the item gets
/// `first` and `parent` as its parent; its sub-items, in order and each with
/// its own tree, get the following numbers and the item as their parent.
/// Sub-items are not listed among the children of their item.
pub closed spec fn placed<A>(item: DBusMenuItem<A>, first: int, parent: int) -> Map<int, NodeView<A>>
    decreases item,
{
    placed_forest(item.children@, first + 1, first).insert(
        first,
        NodeView {
            id: first,
            parent,
            user_id: opt_text(item.user_id),
            props: item.properties@,
            action: item.action,
            children: Seq::empty(),
        },
    )
}

/// The items of the trees of `cs`, numbered from `first` on in order, each
/// tree with `parent` as the parent of its top item.
pub closed spec fn placed_forest<A>(cs: Seq<DBusMenuItem<A>>, first: int, parent: int) -> Map<
    int,
    NodeView<A>,
>
    decreases cs,
{
    if cs.len() == 0 {
        Map::empty()
    } else {
        placed_forest(cs.drop_last(), first, parent).union_prefer_right(
            placed(cs.last(), first + forest_size(cs.drop_last()), parent),
        )
    }
}

/// `m` with `child` listed last among the children of `parent`, if `m` holds
/// `parent`.
pub open spec fn attach<A>(m: Map<int, NodeView<A>>, parent: int, child: int) -> Map<int, NodeView<A>> {
    if m.contains_key(parent) {
        m.insert(parent, NodeView { children: m[parent].children.push(child as i32), ..m[parent] })
    } else {
        m
    }
}

proof fn lemma_placed_dom<A>(item: DBusMenuItem<A>, first: int, parent: int)
    ensures
        forall|k: int| #[trigger] placed(item, first, parent).contains_key(k) ==> first <= k < first
            + tree_size(item),
        placed(item, first, parent).contains_key(first),
    decreases item,
{
    lemma_placed_forest_dom(item.children@, first + 1, first);
    let f = placed_forest(item.children@, first + 1, first);
    assert forall|k: int| #[trigger] placed(item, first, parent).contains_key(k) implies first <= k < first
        + tree_size(item) by {
        if k != first {
            assert(f.contains_key(k));
        }
    }
}

proof fn lemma_placed_forest_dom<A>(cs: Seq<DBusMenuItem<A>>, first: int, parent: int)
    ensures
        forall|k: int| #[trigger] placed_forest(cs, first, parent).contains_key(k) ==> first <= k < first
            + forest_size(cs),
    decreases cs,
{
    if cs.len() > 0 {
        lemma_placed_forest_dom(cs.drop_last(), first, parent);
        lemma_placed_dom(cs.last(), first + forest_size(cs.drop_last()), parent);
        let a = placed_forest(cs.drop_last(), first, parent);
        let b = placed(cs.last(), first + forest_size(cs.drop_last()), parent);
        assert forall|k: int| #[trigger] placed_forest(cs, first, parent).contains_key(k) implies first <= k
            < first + forest_size(cs) by {
            if b.contains_key(k) {
            } else {
                assert(a.contains_key(k));
            }
        }
    }
}

proof fn lemma_forest_prefix<A>(cs: Seq<DBusMenuItem<A>>, k: int)
    requires
        0 <= k <= cs.len(),
    ensures
        forest_size(cs.subrange(0, k)) <= forest_size(cs),
    decreases cs.len() - k,
{
    if k < cs.len() {
        lemma_forest_prefix(cs, k + 1);
        assert(cs.subrange(0, k + 1).drop_last() =~= cs.subrange(0, k));
    } else {
        assert(cs.subrange(0, k) =~= cs);
    }
}

/// An item as the menu keeps it.
struct Entry<A> {
    id: i32,
    parent_id: i32,
    user_id: Option<String>,
    action: Option<A>,
    properties: Properties,
    children: Vec<i32>,
}

/// What the menu keeps of an entry.
closed spec fn node_of<A>(e: Entry<A>) -> NodeView<A> {
    NodeView {
        id: e.id as int,
        parent: e.parent_id as int,
        user_id: opt_text(e.user_id),
        props: e.properties@,
        action: e.action,
        children: e.children@,
    }
}

/// A menu: its items numbered from 0, the root, on, each with the numbers of
/// its children.
pub struct DBusMenu<A> {
    next_id: i32,
    slots: Vec<Option<Entry<A>>>,
}

impl<A> DBusMenu<A> {
    /// The items of the menu by number.
    pub closed spec fn items(self) -> Map<int, NodeView<A>> {
        Map::new(
            |k: int| 0 <= k < self.slots@.len() && self.slots@[k] is Some,
            |k: int| node_of(self.slots@[k].unwrap()),
        )
    }

    /// The number the next item will get.
    pub closed spec fn next(self) -> int {
        self.next_id as int
    }

    /// The shape of the menu while items are being added: numbers below
    /// `next` only, each item under its own number, only the root with
    /// children, and those numbered above it and below `next`.
    closed spec fn partial_wf(self) -> bool {
        &&& self.slots@.len() == self.next_id
        &&& self.next_id >= 1
        &&& self.slots@[0] is Some
        &&& forall|k: int|
            0 <= k < self.slots@.len() && #[trigger] self.slots@[k] is Some ==> {
                let e = self.slots@[k].unwrap();
                &&& e.id == k
                &&& k != 0 ==> e.children@.len() == 0
                &&& forall|j: int| 0 <= j < e.children@.len() ==> 0 < #[trigger] e.children@[j] < self.next_id
            }
    }

    /// The shape of a menu between calls: that of `partial_wf`, with every
    /// number below `next` in use.
    pub closed spec fn wf(self) -> bool {
        &&& self.partial_wf()
        &&& forall|k: int| 0 <= k < self.slots@.len() ==> #[trigger] self.slots@[k] is Some
    }

    /// A menu that holds only its root, numbered 0, with no properties.
    pub fn new() -> (m: DBusMenu<A>)
        ensures
            m.wf(),
            m.next() == 1,
            m.items() == Map::<int, NodeView<A>>::empty().insert(
                0,
                NodeView {
                    id: 0,
                    parent: 0,
                    user_id: None,
                    props: Map::empty(),
                    action: None,
                    children: Seq::empty(),
                },
            ),
    {
        let root = Entry {
            id: 0,
            parent_id: 0,
            user_id: None,
            action: None,
            properties: Properties::new(),
            children: Vec::new(),
        };
        let mut slots: Vec<Option<Entry<A>>> = Vec::new();
        slots.push(Some(root));
        let m = DBusMenu { next_id: 1, slots };
        assert(m.items() =~= Map::<int, NodeView<A>>::empty().insert(
            0,
            NodeView {
                id: 0,
                parent: 0,
                user_id: None,
                props: Map::empty(),
                action: None,
                children: Seq::empty(),
            },
        ));
        m
    }

    /// Adds `submenu` and its sub-items under the root: the item gets the
    /// next number and is listed last among the root's children; its
    /// sub-items get the numbers that follow, in order.
    pub fn submenu(self, submenu: DBusMenuItem<A>) -> (m: DBusMenu<A>)
        requires
            self.wf(),
            self.next() + tree_size(submenu) <= i32::MAX,
        ensures
            m.wf(),
            m.next() == self.next() + tree_size(submenu),
            m.items() == attach(self.items(), 0, self.next()).union_prefer_right(
                placed(submenu, self.next(), 0),
            ),
    {
        let mut m = self;
        m.add_to_root(submenu, 0);
        m
    }

    #[verifier::loop_isolation(false)]
    fn add_to_root(&mut self, submenu: DBusMenuItem<A>, parent_id: i32)
        requires
            old(self).partial_wf(),
            0 <= parent_id < old(self).next_id,
            parent_id == 0 || old(self).slots@[parent_id as int] is None,
            old(self).next_id + tree_size(submenu) <= i32::MAX,
        ensures
            final(self).partial_wf(),
            final(self).next_id == old(self).next_id + tree_size(submenu),
            final(self).items() == attach(old(self).items(), parent_id as int, old(self).next_id as int).union_prefer_right(
                placed(submenu, old(self).next_id as int, parent_id as int),
            ),
            forall|k: int| 0 <= k < old(self).next_id ==> (#[trigger] final(self).slots@[k] is Some) == (old(self).slots@[k] is Some),
            forall|k: int| old(self).next_id <= k < final(self).next_id ==> #[trigger] final(self).slots@[k] is Some,
        decreases tree_size(submenu),
    {
        let ghost old_items = self.items();
        let ghost old_next = self.next_id as int;
        let ghost sm = submenu;
        let id = self.next_id;
        self.slots.push(None);
        self.next_id = id + 1;
        assert(self.items() =~= old_items);
        let DBusMenuItem { user_id, action, properties, children } = submenu;
        let mut rest = children;
        let ghost all = rest@;
        let ghost mut k: int = 0;
        proof {
            assert(all.subrange(0, 0) =~= Seq::<DBusMenuItem<A>>::empty());
            assert(placed_forest(all.subrange(0, 0), id + 1, id as int) =~= Map::<int, NodeView<A>>::empty());
            assert(old_items.union_prefer_right(Map::<int, NodeView<A>>::empty()) =~= old_items);
            lemma_forest_prefix(all, 0);
        }
        while rest.len() > 0
            invariant
                all == sm.children@,
                id >= 1,
                0 <= k <= all.len(),
                rest@ == all.subrange(k, all.len() as int),
                self.partial_wf(),
                id == old_next,
                self.next_id == id + 1 + forest_size(all.subrange(0, k)),
                id + 1 + forest_size(all) <= i32::MAX,
                self.slots@[id as int] is None,
                self.items() == old_items.union_prefer_right(placed_forest(all.subrange(0, k), id + 1, id as int)),
                forall|j: int| 0 <= j < old_next ==> (#[trigger] self.slots@[j] is Some) == (old(self).slots@[j] is Some),
                forall|j: int| old_next < j < self.next_id ==> #[trigger] self.slots@[j] is Some,
                forall|j: int| #[trigger] old_items.contains_key(j) ==> j < old_next,
            decreases rest@.len(),
        {
            let child = rest.remove(0);
            let ghost before = self.items();
            let ghost before_next = self.next_id as int;
            proof {
                assert(child == all[k]);
                assert(all.subrange(0, k + 1).drop_last() =~= all.subrange(0, k));
                assert(all.subrange(0, k + 1).last() == all[k]);
                lemma_forest_prefix(all, k + 1);
                assert(forest_size(all.subrange(0, k + 1)) == forest_size(all.subrange(0, k)) + tree_size(all[k]));
                assert(tree_size(sm) == 1 + forest_size(all));
                assert(tree_size(child) < tree_size(sm));
                assert(id < self.next_id);
                assert(self.next_id + tree_size(child) <= i32::MAX);
            }
            self.add_to_root(child, id);
            proof {
                assert(!before.contains_key(id as int));
                assert(attach(before, id as int, before_next) == before);
                assert(self.items() =~= old_items.union_prefer_right(placed_forest(all.subrange(0, k + 1), id + 1, id as int)));
                k = k + 1;
                assert(rest@ =~= all.subrange(k, all.len() as int));
            }
        }
        proof {
            assert(all.subrange(0, k) =~= all);
        }
        let ghost mid = self.items();
        let entry = Entry { id, parent_id, user_id, action, properties, children: Vec::new() };
        self.slots.set(id as usize, Some(entry));
        let ghost node = NodeView {
            id: id as int,
            parent: parent_id as int,
            user_id: opt_text(sm.user_id),
            props: sm.properties@,
            action: sm.action,
            children: Seq::<i32>::empty(),
        };
        assert(self.items() =~= mid.insert(id as int, node));
        let ghost with_item = self.items();
        let pi = parent_id as usize;
        let mut slot: Option<Entry<A>> = None;
        std::mem::swap(&mut slot, &mut self.slots[pi]);
        let ghost pl = placed(sm, old_next, parent_id as int);
        proof {
            lemma_placed_dom(sm, old_next, parent_id as int);
            assert(pl =~= placed_forest(all, id + 1, id as int).insert(id as int, node));
            assert(with_item =~= old_items.union_prefer_right(pl));
            assert(!pl.contains_key(parent_id as int));
        }
        match slot {
            Some(mut p) => {
                let ghost pn = node_of(p);
                p.children.push(id);
                self.slots.set(pi, Some(p));
                proof {
                    assert(with_item.contains_key(parent_id as int));
                    assert(old_items.contains_key(parent_id as int));
                    assert(with_item[parent_id as int] == pn);
                    assert(old_items[parent_id as int] == pn);
                    assert((old_next as i32) == id);
                    assert(self.items() =~= with_item.insert(parent_id as int, NodeView { children: pn.children.push(id), ..pn }));
                    let att = attach(old_items, parent_id as int, old_next);
                    assert(att == old_items.insert(parent_id as int, NodeView { children: pn.children.push(id), ..pn }));
                    assert(self.items() =~= attach(old_items, parent_id as int, old_next).union_prefer_right(pl));
                }
            },
            None => {
                proof {
                    assert(!old_items.contains_key(parent_id as int));
                    assert(self.items() =~= with_item);
                    assert(self.items() =~= attach(old_items, parent_id as int, old_next).union_prefer_right(pl));
                }
            },
        }
    }
}

/// The layout of a menu item as the menu reports it: its number, its
/// properties and the layouts of its children.
#[derive(Debug)]
pub struct DBusMenuLayoutItem {
    id: i32,
    properties: Properties,
    children: Vec<DBusMenuLayoutItem>,
}

impl DBusMenuLayoutItem {
    /// The number of the item.
    pub closed spec fn layout_id(self) -> int {
        self.id as int
    }

    /// The properties reported for the item.
    pub closed spec fn layout_props(self) -> Map<Seq<char>, MenuValueView> {
        self.properties@
    }

    /// The layouts of the item's children.
    pub closed spec fn layout_children(self) -> Seq<DBusMenuLayoutItem> {
        self.children@
    }

    /// The number of the item.
    pub fn id(&self) -> (id: i32)
        ensures
            id == self.layout_id(),
    {
        self.id
    }

    /// The properties reported for the item.
    pub fn properties(&self) -> (p: &Properties)
        ensures
            p@ == self.layout_props(),
    {
        &self.properties
    }

    /// The layouts of the item's children.
    pub fn children(&self) -> (c: &Vec<DBusMenuLayoutItem>)
        ensures
            c@ == self.layout_children(),
    {
        &self.children
    }
}

/// Whether the layout of item `p`, asked to the given depth, lists its
/// children: it has some, and the depth is not 0.
pub open spec fn shows_children<A>(m: Map<int, NodeView<A>>, p: int, depth: int) -> bool {
    m[p].children.len() > 0 && depth != 0
}

/// The properties reported for item `p`: those of the listed names (all of
/// them when none is listed), and `children-display` set to `submenu` when
/// its children are shown.
pub open spec fn layout_props_of<A>(
    m: Map<int, NodeView<A>>,
    p: int,
    depth: int,
    names: Seq<Seq<char>>,
) -> Map<Seq<char>, MenuValueView> {
    let f = filter_properties(m[p].props, names);
    if shows_children(m, p, depth) {
        f.insert("children-display"@, MenuValueView::Str("submenu"@))
    } else {
        f
    }
}

impl<A> DBusMenu<A> {
    /// Every item a well-formed menu holds sits under its own number; the
    /// numbers in use are exactly those below `next`; the children of an
    /// item are items of the menu, numbered above it; and only the root
    /// lists children.
    pub proof fn lemma_numbering(self)
        requires
            self.wf(),
        ensures
            forall|k: int| #[trigger] self.items().contains_key(k) <==> 0 <= k < self.next(),
            forall|k: int| #[trigger] self.items().contains_key(k) ==> self.items()[k].id == k,
            forall|k1: int, k2: int|
                #[trigger] self.items().contains_key(k1) && #[trigger] self.items().contains_key(k2)
                    && self.items()[k1].id == self.items()[k2].id ==> k1 == k2,
            forall|k: int, j: int|
                #[trigger] self.items().contains_key(k) && 0 <= j < self.items()[k].children.len() ==> {
                    let c = #[trigger] self.items()[k].children[j] as int;
                    k < c && self.items().contains_key(c)
                },
            forall|k: int| #[trigger] self.items().contains_key(k) && k != 0 ==> self.items()[k].children.len() == 0,
    {
        assert forall|k: int, j: int|
            #[trigger] self.items().contains_key(k) && 0 <= j < self.items()[k].children.len() implies {
                let c = #[trigger] self.items()[k].children[j] as int;
                k < c && self.items().contains_key(c)
            } by {
            let e = self.slots@[k].unwrap();
            assert(0 < e.children@[j] < self.next_id);
            assert(k == 0);
        }
    }

    /// The layout of item `parent_id`, to the given depth (a negative depth
    /// has no limit), with the properties of the listed names (all of them
    /// when none is listed).
    pub fn layout(&self, parent_id: i32, depth: i32, names: &Vec<String>) -> (r: DBusMenuLayoutItem)
        requires
            self.wf(),
            self.items().contains_key(parent_id as int),
            shows_children(self.items(), parent_id as int, depth as int) ==> depth > i32::MIN,
        ensures
            r.layout_id() == parent_id,
            r.layout_props() == layout_props_of(self.items(), parent_id as int, depth as int, texts(names@)),
            r.layout_children().len() == (if shows_children(self.items(), parent_id as int, depth as int) {
                self.items()[parent_id as int].children.len()
            } else {
                0
            }),
            forall|j: int| 0 <= j < r.layout_children().len() ==> {
                let c = self.items()[parent_id as int].children[j] as int;
                &&& (#[trigger] r.layout_children()[j]).layout_id() == c
                &&& r.layout_children()[j].layout_props() == layout_props_of(self.items(), c, depth - 1, texts(names@))
                &&& r.layout_children()[j].layout_children().len() == 0
            },
        decreases self.next() - parent_id,
    {
        proof {
            self.lemma_numbering();
        }
        let pi = parent_id as usize;
        let entry = match &self.slots[pi] {
            Some(e) => e,
            None => {
                assert(false);
                return DBusMenuLayoutItem { id: parent_id, properties: Properties::new(), children: Vec::new() };
            },
        };
        let mut props = entry.properties.filtered(names);
        let mut children: Vec<DBusMenuLayoutItem> = Vec::new();
        if entry.children.len() > 0 && depth != 0 {
            props.insert("children-display", MenuValue::Str(owned("submenu")));
            let mut j: usize = 0;
            while j < entry.children.len()
                invariant
                    self.wf(),
                    self.slots@[pi as int] == Some(*entry),
                    self.items().contains_key(parent_id as int),
                    parent_id == pi,
                    depth > i32::MIN,
                    depth != 0,
                    j <= entry.children@.len(),
                    children@.len() == j,
                    forall|i: int| 0 <= i < j ==> {
                        let c = self.items()[parent_id as int].children[i] as int;
                        &&& (#[trigger] children@[i]).layout_id() == c
                        &&& children@[i].layout_props() == layout_props_of(self.items(), c, depth - 1, texts(names@))
                        &&& children@[i].layout_children().len() == 0
                    },
                decreases entry.children@.len() - j,
            {
                let c = entry.children[j];
                proof {
                    self.lemma_numbering();
                    assert(self.items()[parent_id as int].children[j as int] == c);
                }
                let child = self.layout(c, depth - 1, names);
                children.push(child);
                j = j + 1;
            }
        }
        DBusMenuLayoutItem { id: entry.id, properties: props, children }
    }

    /// The properties of the listed names (all of them when none is listed)
    /// of each item in `ids`, with its number.
    pub fn group_properties(&self, ids: &Vec<i32>, names: &Vec<String>) -> (r: Vec<(i32, Properties)>)
        requires
            self.wf(),
            forall|i: int| 0 <= i < ids@.len() ==> self.items().contains_key(#[trigger] ids@[i] as int),
        ensures
            r@.len() == ids@.len(),
            forall|i: int|
                0 <= i < ids@.len() ==> (#[trigger] r@[i]).0 == ids@[i] && r@[i].1@ == filter_properties(
                    self.items()[ids@[i] as int].props,
                    texts(names@),
                ),
    {
        let mut r: Vec<(i32, Properties)> = Vec::new();
        let mut i: usize = 0;
        while i < ids.len()
            invariant
                self.wf(),
                forall|i: int| 0 <= i < ids@.len() ==> self.items().contains_key(#[trigger] ids@[i] as int),
                i <= ids@.len(),
                r@.len() == i,
                forall|k: int|
                    0 <= k < i ==> (#[trigger] r@[k]).0 == ids@[k] && r@[k].1@ == filter_properties(
                        self.items()[ids@[k] as int].props,
                        texts(names@),
                    ),
            decreases ids@.len() - i,
        {
            let id = ids[i];
            assert(self.items().contains_key(ids@[i as int] as int));
            match &self.slots[id as usize] {
                Some(e) => {
                    r.push((e.id, e.properties.filtered(names)));
                },
                None => {
                    assert(false);
                },
            }
            i = i + 1;
        }
        r
    }

    /// The action to run for an event on item `id`: its action, if it has
    /// one, for a `clicked` event; nothing for any other event.
    pub fn event_action(&self, id: i32, event_id: &str) -> (r: Option<&A>)
        requires
            self.wf(),
            event_id@ == "clicked"@ ==> self.items().contains_key(id as int),
        ensures
            event_id@ == "clicked"@ ==> match self.items()[id as int].action {
                Some(a) => r == Some(&a),
                None => r is None,
            },
            event_id@ != "clicked"@ ==> r is None,
    {
        if str_equals(event_id, "clicked") {
            match &self.slots[id as usize] {
                Some(e) => match &e.action {
                    Some(a) => Some(a),
                    None => None,
                },
                None => {
                    assert(false);
                    None
                },
            }
        } else {
            None
        }
    }

    /// Whether the menu needs to be refreshed before item `id` is shown: it
    /// never does.
    pub fn about_to_show(&self, id: i32) -> (b: bool)
        ensures
            !b,
    {
        false
    }

    /// Takes all properties of item `id` out and reports their names with
    /// the item's number; nothing when it has none.
    pub fn take_properties(&mut self, id: i32) -> (r: Option<(i32, Vec<String>)>)
        requires
            old(self).wf(),
            old(self).items().contains_key(id as int),
        ensures
            final(self).wf(),
            final(self).next() == old(self).next(),
            old(self).items()[id as int].props.len() == 0 ==> r is None && final(self).items() == old(self).items(),
            old(self).items()[id as int].props.len() > 0 ==> (r matches Some(x) && x.0 == id
                && texts(x.1@).to_set() == old(self).items()[id as int].props.dom()
                && texts(x.1@).no_duplicates()) && final(self).items() == old(self).items().insert(
                id as int,
                NodeView { props: Map::empty(), ..old(self).items()[id as int] },
            ),
    {
        let ghost before = self.items();
        let pi = id as usize;
        let mut slot: Option<Entry<A>> = None;
        std::mem::swap(&mut slot, &mut self.slots[pi]);
        match slot {
            Some(mut e) => {
                if e.properties.is_empty() {
                    self.slots.set(pi, Some(e));
                    assert(self.items() =~= before);
                    None
                } else {
                    let names = e.properties.names();
                    e.properties.clear();
                    let ghost n = node_of(e);
                    self.slots.set(pi, Some(e));
                    assert(self.items() =~= before.insert(id as int, n));
                    Some((id, names))
                }
            },
            None => {
                assert(false);
                None
            },
        }
    }
    /// The number of the first item with the given user ID, if any.
    pub fn find_by_user_id(&self, user_id: &str) -> (r: Option<i32>)
        requires
            self.wf(),
        ensures
            match r {
                Some(k) => self.items().contains_key(k as int) && self.items()[k as int].user_id == Some(user_id@)
                    && forall|j: int| 0 <= j < k ==> #[trigger] self.items()[j].user_id != Some(user_id@),
                None => forall|j: int| #[trigger] self.items().contains_key(j) ==> self.items()[j].user_id != Some(user_id@),
            },
    {
        let mut i: usize = 0;
        while i < self.slots.len()
            invariant
                self.wf(),
                i <= self.slots@.len(),
                forall|j: int| 0 <= j < i ==> #[trigger] self.items()[j].user_id != Some(user_id@),
            decreases self.slots@.len() - i,
        {
            assert(self.slots@[i as int] is Some);
            match &self.slots[i] {
                Some(e) => {
                    let found = match &e.user_id {
                        Some(u) => str_equals(u.as_str(), user_id),
                        None => false,
                    };
                    if found {
                        return Some(i as i32);
                    }
                },
                None => {},
            }
            i = i + 1;
        }
        None
    }
}

} // verus!
