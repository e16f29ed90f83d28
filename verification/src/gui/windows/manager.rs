//! Kinds of windows of the application, and the registry of open windows.
//!
//! The registry ties each open window's id to its kind in both directions
//! (at most one open window of each kind), keeps the state of each open
//! window, and can keep the state of a closed window of a kind so that the
//! next window of that kind opens with it again.

use vstd::prelude::*;

verus! {

/// The kinds of windows of the application.
#[derive(Clone, Copy, Debug, Hash, PartialEq, Eq, Structural)]
pub enum WindowType {
    Main,
    AreaSelector,
    Annotation,
}

/// A window named either by its id (`Left`) or by its kind (`Right`).
#[derive(Clone, Copy, Debug, PartialEq, Eq)]
pub enum Either<L, R> {
    Left(L),
    Right(R),
}

/// The map that a list of keyed entries stands for (a later entry wins).
pub open spec fn keyed<K, V>(entries: Seq<(K, V)>) -> Map<K, V>
    decreases entries.len(),
{
    if entries.len() == 0 {
        Map::empty()
    } else {
        keyed(entries.drop_last()).insert(entries.last().0, entries.last().1)
    }
}

/// No key occurs twice among the entries.
pub open spec fn keys_distinct<K, V>(entries: Seq<(K, V)>) -> bool {
    forall|i: int, j: int| 0 <= i < j < entries.len() ==> entries[i].0 != entries[j].0
}

proof fn lemma_keyed_domain<K, V>(entries: Seq<(K, V)>, k: K)
    ensures
        keyed(entries).contains_key(k) <==> exists|i: int|
            0 <= i < entries.len() && #[trigger] entries[i].0 == k,
    decreases entries.len(),
{
    if entries.len() > 0 {
        let d = entries.drop_last();
        let last = entries.len() - 1;
        lemma_keyed_domain(d, k);
        if keyed(entries).contains_key(k) {
            if k == entries[last].0 {
                assert(entries[last].0 == k);
            } else {
                let i = choose|i: int| 0 <= i < d.len() && #[trigger] d[i].0 == k;
                assert(entries[i] == d[i]);
            }
        } else {
            assert forall|i: int| 0 <= i < entries.len() implies #[trigger] entries[i].0 != k by {
                if i < last {
                    assert(entries[i] == d[i]);
                }
            }
        }
    }
}

proof fn lemma_keyed_value<K, V>(entries: Seq<(K, V)>, i: int)
    requires
        keys_distinct(entries),
        0 <= i < entries.len(),
    ensures
        keyed(entries).contains_key(entries[i].0),
        keyed(entries)[entries[i].0] == entries[i].1,
    decreases entries.len(),
{
    let last = entries.len() - 1;
    if i < last {
        let d = entries.drop_last();
        assert(d[i] == entries[i]);
        assert forall|a: int, b: int| 0 <= a < b < d.len() implies d[a].0 != d[b].0 by {
            assert(d[a] == entries[a] && d[b] == entries[b]);
        }
        lemma_keyed_value(d, i);
    }
}

proof fn lemma_keyed_push<K, V>(entries: Seq<(K, V)>, k: K, v: V)
    requires
        keys_distinct(entries),
        !keyed(entries).contains_key(k),
    ensures
        keyed(entries.push((k, v))) == keyed(entries).insert(k, v),
        keys_distinct(entries.push((k, v))),
{
    let p = entries.push((k, v));
    assert(p.drop_last() =~= entries);
    lemma_keyed_domain(entries, k);
    assert forall|a: int, b: int| 0 <= a < b < p.len() implies p[a].0 != p[b].0 by {
        assert(p[a] == entries[a]);
        if b < entries.len() {
            assert(p[b] == entries[b]);
        }
    }
}

proof fn lemma_keyed_remove<K, V>(entries: Seq<(K, V)>, i: int)
    requires
        keys_distinct(entries),
        0 <= i < entries.len(),
    ensures
        keyed(entries.remove(i)) == keyed(entries).remove(entries[i].0),
        keys_distinct(entries.remove(i)),
    decreases entries.len(),
{
    let last = entries.len() - 1;
    let d = entries.drop_last();
    let k = entries[i].0;
    assert forall|a: int, b: int| 0 <= a < b < d.len() implies d[a].0 != d[b].0 by {
        assert(d[a] == entries[a] && d[b] == entries[b]);
    }
    let r = entries.remove(i);
    assert forall|a: int, b: int| 0 <= a < b < r.len() implies r[a].0 != r[b].0 by {
        let ea = if a < i { a } else { a + 1 };
        let eb = if b < i { b } else { b + 1 };
        assert(r[a] == entries[ea] && r[b] == entries[eb]);
    }
    if i == last {
        assert(r =~= d);
        lemma_keyed_domain(d, k);
        assert forall|j: int| 0 <= j < d.len() implies #[trigger] d[j].0 != k by {
            assert(d[j] == entries[j]);
        }
        assert(keyed(entries).remove(k) =~= keyed(d));
    } else {
        lemma_keyed_remove(d, i);
        assert(r.drop_last() =~= d.remove(i));
        assert(r.last() == entries.last());
        assert(entries.last().0 != k);
        assert(keyed(r) =~= keyed(entries).remove(k));
    }
}

proof fn lemma_keyed_update<K, V>(entries: Seq<(K, V)>, i: int, v: V)
    requires
        keys_distinct(entries),
        0 <= i < entries.len(),
    ensures
        keyed(entries.update(i, (entries[i].0, v))) == keyed(entries).insert(entries[i].0, v),
        keys_distinct(entries.update(i, (entries[i].0, v))),
    decreases entries.len(),
{
    let last = entries.len() - 1;
    let d = entries.drop_last();
    let k = entries[i].0;
    let u = entries.update(i, (k, v));
    assert forall|a: int, b: int| 0 <= a < b < u.len() implies u[a].0 != u[b].0 by {
        assert(u[a].0 == entries[a].0 && u[b].0 == entries[b].0);
    }
    if i == last {
        assert(u.drop_last() =~= d);
        assert(keyed(u) =~= keyed(entries).insert(k, v));
    } else {
        assert forall|a: int, b: int| 0 <= a < b < d.len() implies d[a].0 != d[b].0 by {
            assert(d[a] == entries[a] && d[b] == entries[b]);
        }
        lemma_keyed_update(d, i, v);
        assert(u.drop_last() =~= d.update(i, (k, v)));
        assert(entries.last().0 != k);
        assert(keyed(u) =~= keyed(entries).insert(k, v));
    }
}

/// One optional value for each kind of window.
struct Slots<T> {
    main: Option<T>,
    area_selector: Option<T>,
    annotation: Option<T>,
}

impl<T> Slots<T> {
    spec fn at(self, t: WindowType) -> Option<T> {
        match t {
            WindowType::Main => self.main,
            WindowType::AreaSelector => self.area_selector,
            WindowType::Annotation => self.annotation,
        }
    }

    fn empty() -> (s: Self)
        ensures
            forall|t: WindowType| s.at(t) is None,
    {
        Slots { main: None, area_selector: None, annotation: None }
    }

    fn take(&mut self, t: WindowType) -> (r: Option<T>)
        ensures
            r == old(self).at(t),
            final(self).at(t) is None,
            forall|u: WindowType| u != t ==> final(self).at(u) == old(self).at(u),
    {
        match t {
            WindowType::Main => self.main.take(),
            WindowType::AreaSelector => self.area_selector.take(),
            WindowType::Annotation => self.annotation.take(),
        }
    }

    fn put(&mut self, t: WindowType, v: Option<T>)
        ensures
            final(self).at(t) == v,
            forall|u: WindowType| u != t ==> final(self).at(u) == old(self).at(u),
    {
        match t {
            WindowType::Main => {
                self.main = v;
            },
            WindowType::AreaSelector => {
                self.area_selector = v;
            },
            WindowType::Annotation => {
                self.annotation = v;
            },
        }
    }
}

/// The contents of the registry: the state of each open window under its
/// id, the id of the open window of each kind, and the state kept of closed
/// windows by kind.
struct Registry<W> {
    ids: Vec<u64>,
    states: Vec<W>,
    persistent: Slots<W>,
    w_type: Slots<u64>,
}

/// The open windows: the state of each open window under its id, the id of
/// the open window of each kind, and the state kept of closed windows by kind.
/// `W` is the type that holds one window's state.
pub struct Windows<W> {
    reg: Registry<W>,
}

/// What opening window `id` of kind `t` does: the window gets the state kept
/// for its kind if there is one, else `fresh`; nothing stays kept for that
/// kind; `id` becomes the open window of kind `t`, and no other kind keeps
/// `id` as its window.
pub open spec fn inserted<W>(
    before: Windows<W>,
    after: Windows<W>,
    id: u64,
    t: WindowType,
    fresh: W,
) -> bool {
    let window = match before.kept(t) {
        Some(w) => w,
        None => fresh,
    };
    &&& after.managers() == before.managers().insert(id, window)
    &&& after.kept(t) is None
    &&& forall|u: WindowType| u != t ==> #[trigger] after.kept(u) == before.kept(u)
    &&& after.open_id(t) == Some(id)
    &&& forall|u: WindowType|
        u != t ==> #[trigger] after.open_id(u) == (if before.open_id(u) == Some(id) {
            None
        } else {
            before.open_id(u)
        })
}

/// What closing the window named by `key` does: a window that is not open
/// changes nothing; otherwise the kind `t` has no open window any more, the
/// window's state is dropped from the open windows, and, if `persistent`, it
/// is kept for kind `t` (replacing what was kept for it).
pub open spec fn removed<W>(
    before: Windows<W>,
    after: Windows<W>,
    key: Either<u64, WindowType>,
    persistent: bool,
) -> bool {
    let kind = match key {
        Either::Left(id) => before.type_of(id),
        Either::Right(t) => Some(t),
    };
    match kind {
        None => {
            &&& after.managers() == before.managers()
            &&& forall|u: WindowType| #[trigger] after.open_id(u) == before.open_id(u)
            &&& forall|u: WindowType| #[trigger] after.kept(u) == before.kept(u)
        },
        Some(t) => {
            let id = before.open_id(t)->0;
            &&& after.managers() == before.managers().remove(id)
            &&& after.open_id(t) is None
            &&& forall|u: WindowType| u != t ==> #[trigger] after.open_id(u) == before.open_id(u)
            &&& after.kept(t) == (if persistent {
                Some(before.managers()[id])
            } else {
                before.kept(t)
            })
            &&& forall|u: WindowType| u != t ==> #[trigger] after.kept(u) == before.kept(u)
        },
    }
}

/// What opening window `id` of kind `t` does: the window gets the state kept
/// for its kind if there is one, else `fresh`; nothing stays kept for that
/// kind; `id` becomes the open window of kind `t`, and no other kind keeps
/// `id` as its window.
spec fn reg_inserted<W>(
    before: Registry<W>,
    after: Registry<W>,
    id: u64,
    t: WindowType,
    fresh: W,
) -> bool {
    let window = match before.kept(t) {
        Some(w) => w,
        None => fresh,
    };
    &&& after.managers() == before.managers().insert(id, window)
    &&& after.kept(t) is None
    &&& forall|u: WindowType| u != t ==> #[trigger] after.kept(u) == before.kept(u)
    &&& after.open_id(t) == Some(id)
    &&& forall|u: WindowType|
        u != t ==> #[trigger] after.open_id(u) == (if before.open_id(u) == Some(id) {
            None
        } else {
            before.open_id(u)
        })
}

/// What closing the window named by `key` does: a window that is not open
/// changes nothing; otherwise the kind `t` has no open window any more, the
/// window's state is dropped from the open windows, and, if `persistent`, it
/// is kept for kind `t` (replacing what was kept for it).
spec fn reg_removed<W>(
    before: Registry<W>,
    after: Registry<W>,
    key: Either<u64, WindowType>,
    persistent: bool,
) -> bool {
    let kind = match key {
        Either::Left(id) => before.type_of(id),
        Either::Right(t) => Some(t),
    };
    match kind {
        None => {
            &&& after.managers() == before.managers()
            &&& forall|u: WindowType| #[trigger] after.open_id(u) == before.open_id(u)
            &&& forall|u: WindowType| #[trigger] after.kept(u) == before.kept(u)
        },
        Some(t) => {
            let id = before.open_id(t)->0;
            &&& after.managers() == before.managers().remove(id)
            &&& after.open_id(t) is None
            &&& forall|u: WindowType| u != t ==> #[trigger] after.open_id(u) == before.open_id(u)
            &&& after.kept(t) == (if persistent {
                Some(before.managers()[id])
            } else {
                before.kept(t)
            })
            &&& forall|u: WindowType| u != t ==> #[trigger] after.kept(u) == before.kept(u)
        },
    }
}

impl<W> Registry<W> {
    /// The state of each open window, by id.
    spec fn managers(self) -> Map<u64, W> {
        keyed(self.entries())
    }

    /// The open windows' ids paired with their states.
    spec fn entries(self) -> Seq<(u64, W)> {
        Seq::new(self.ids@.len(), |i: int| (self.ids@[i], self.states@[i]))
    }

    /// The id of the open window of kind `t`, if any.
    spec fn open_id(self, t: WindowType) -> Option<u64> {
        self.w_type.at(t)
    }

    /// The state kept of a closed window of kind `t`, if any.
    spec fn kept(self, t: WindowType) -> Option<W> {
        self.persistent.at(t)
    }

    /// The registry is consistent: each id has one state, each open kind's
    /// window has a state, and no two kinds share a window. Every registry
    /// is consistent at all times.
    spec fn wf(self) -> bool {
        &&& self.ids@.len() == self.states@.len()
        &&& forall|i: int, j: int|
            0 <= i < j < self.ids@.len() ==> #[trigger] self.ids@[i] != #[trigger] self.ids@[j]
        &&& forall|t: WindowType| #[trigger]
            self.w_type.at(t) is Some ==> self.ids@.contains(self.w_type.at(t)->0)
        &&& forall|t: WindowType, u: WindowType|
            t != u && #[trigger] self.w_type.at(t) is Some ==> self.w_type.at(t)
                != #[trigger] self.w_type.at(u)
    }

    /// The entries have distinct keys when the ids are distinct, and an id
    /// has a state exactly when it is among the ids.
    proof fn lemma_entries(self)
        requires
            self.ids@.len() == self.states@.len(),
        ensures
            (forall|i: int, j: int|
                0 <= i < j < self.ids@.len() ==> #[trigger] self.ids@[i] != #[trigger] self.ids@[j])
                ==> keys_distinct(self.entries()),
            forall|id: u64| #[trigger]
                keyed(self.entries()).contains_key(id) <==> self.ids@.contains(id),
    {
        assert forall|id: u64| #[trigger]
            keyed(self.entries()).contains_key(id) <==> self.ids@.contains(id) by {
            lemma_keyed_domain(self.entries(), id);
            if self.ids@.contains(id) {
                let k = choose|k: int| 0 <= k < self.ids@.len() && self.ids@[k] == id;
                assert(self.entries()[k].0 == id);
            }
            if keyed(self.entries()).contains_key(id) {
                let k = choose|k: int| 0 <= k < self.entries().len() && #[trigger] self.entries()[k].0 == id;
                assert(self.ids@[k] == id);
            }
        }
    }

    /// The kind of the open window `id`, if it is one.
    spec fn type_of(self, id: u64) -> Option<WindowType> {
        if self.open_id(WindowType::Main) == Some(id) {
            Some(WindowType::Main)
        } else if self.open_id(WindowType::AreaSelector) == Some(id) {
            Some(WindowType::AreaSelector)
        } else if self.open_id(WindowType::Annotation) == Some(id) {
            Some(WindowType::Annotation)
        } else {
            None
        }
    }

    /// The id that `key` names: the id itself, or the open window of a kind.
    spec fn resolve(self, key: Either<u64, WindowType>) -> Option<u64> {
        match key {
            Either::Left(id) => Some(id),
            Either::Right(t) => self.open_id(t),
        }
    }

    /// The state of the window that `key` names, if there is one.
    spec fn manager_for(self, key: Either<u64, WindowType>) -> Option<W> {
        match self.resolve(key) {
            Some(id) => if self.managers().contains_key(id) {
                Some(self.managers()[id])
            } else {
                None
            },
            None => None,
        }
    }

    /// The open windows with their kinds, in the order Main, AreaSelector,
    /// Annotation.
    spec fn open_list(self) -> Seq<(u64, WindowType)> {
        let main = match self.open_id(WindowType::Main) {
            Some(id) => seq![(id, WindowType::Main)],
            None => Seq::empty(),
        };
        let area = match self.open_id(WindowType::AreaSelector) {
            Some(id) => seq![(id, WindowType::AreaSelector)],
            None => Seq::empty(),
        };
        let annotation = match self.open_id(WindowType::Annotation) {
            Some(id) => seq![(id, WindowType::Annotation)],
            None => Seq::empty(),
        };
        main + area + annotation
    }

    /// No window open, nothing kept.
    fn new() -> (w: Self)
        ensures
            w.wf(),
            w.managers() == Map::<u64, W>::empty(),
            forall|t: WindowType| #[trigger] w.open_id(t) is None && w.kept(t) is None,
    {
        Registry {
            ids: Vec::new(),
            states: Vec::new(),
            persistent: Slots::empty(),
            w_type: Slots::empty(),
        }
    }

    /// The index of the state of window `id`, if it has one.
    fn find(&self, id: u64) -> (r: Option<usize>)
        requires
            self.ids@.len() == self.states@.len(),
            keys_distinct(self.entries()),
        ensures
            match r {
                Some(i) => i < self.entries().len() && self.entries()[i as int].0 == id,
                None => !self.managers().contains_key(id),
            },
    {
        let mut i: usize = 0;
        while i < self.ids.len()
            invariant
                i <= self.ids@.len(),
                self.ids@.len() == self.states@.len(),
                forall|j: int| 0 <= j < i ==> #[trigger] self.entries()[j].0 != id,
            decreases self.ids@.len() - i,
        {
            if self.ids[i] == id {
                return Some(i);
            }
            i = i + 1;
        }
        proof {
            lemma_keyed_domain(self.entries(), id);
        }
        None
    }

    /// Opens window `id` of kind `w_type`. The window gets the state kept for
    /// its kind if a window of that kind was closed with its state kept, and
    /// `fresh` otherwise.
    fn insert(&mut self, id: u64, w_type: WindowType, fresh: W)
        requires
            old(self).wf(),
        ensures
            final(self).wf(),
            reg_inserted(*old(self), *final(self), id, w_type, fresh),
    {
        let ghost before = *self;
        proof {
            before.lemma_entries();
        }
        let window = match self.persistent.take(w_type) {
            Some(w) => w,
            None => fresh,
        };
        match self.find(id) {
            Some(i) => {
                let ghost entries = self.entries();
                proof {
                    lemma_keyed_update(entries, i as int, window);
                }
                self.states.set(i, window);
                proof {
                    assert(self.entries() =~= entries.update(i as int, (id, window)));
                }
            },
            None => {
                let ghost entries = self.entries();
                proof {
                    lemma_keyed_push(entries, id, window);
                }
                self.ids.push(id);
                self.states.push(window);
                proof {
                    assert(self.entries() =~= entries.push((id, window)));
                }
            },
        }
        if w_type != WindowType::Main && self.w_type.main == Some(id) {
            self.w_type.main = None;
        }
        if w_type != WindowType::AreaSelector && self.w_type.area_selector == Some(id) {
            self.w_type.area_selector = None;
        }
        if w_type != WindowType::Annotation && self.w_type.annotation == Some(id) {
            self.w_type.annotation = None;
        }
        self.w_type.put(w_type, Some(id));
        proof {
            self.lemma_entries();
            assert(self.managers() == before.managers().insert(id, self.managers()[id]));
            assert(keys_distinct(self.entries()));
            assert forall|a: int, b: int| 0 <= a < b < self.ids@.len() implies #[trigger] self.ids@[a]
                != #[trigger] self.ids@[b] by {
                assert(self.entries()[a].0 == self.ids@[a]);
                assert(self.entries()[b].0 == self.ids@[b]);
            }
            assert forall|t: WindowType, u: WindowType|
                t != u && #[trigger] self.open_id(t) is Some implies self.open_id(t)
                != #[trigger] self.open_id(u) by {
                if t != w_type && u != w_type {
                    assert(before.open_id(t) != before.open_id(u));
                }
            }
            assert forall|t: WindowType| #[trigger]
                self.w_type.at(t) is Some implies self.ids@.contains(self.w_type.at(t)->0) by {
                if t != w_type {
                    assert(before.w_type.at(t) is Some);
                    assert(keyed(before.entries()).contains_key(before.w_type.at(t)->0));
                    assert(keyed(self.entries()).contains_key(self.w_type.at(t)->0));
                } else {
                    assert(keyed(self.entries()).contains_key(id));
                }
            }
        }
    }

    /// The id of the open window of kind `t`, if any.
    fn get_id(&self, t: WindowType) -> (r: Option<u64>)
        ensures
            r == self.open_id(t),
    {
        match t {
            WindowType::Main => self.w_type.main,
            WindowType::AreaSelector => self.w_type.area_selector,
            WindowType::Annotation => self.w_type.annotation,
        }
    }

    /// The kind of the open window `id`, if it is one.
    fn get_type(&self, id: u64) -> (r: Option<WindowType>)
        ensures
            r == self.type_of(id),
    {
        if self.w_type.main == Some(id) {
            Some(WindowType::Main)
        } else if self.w_type.area_selector == Some(id) {
            Some(WindowType::AreaSelector)
        } else if self.w_type.annotation == Some(id) {
            Some(WindowType::Annotation)
        } else {
            None
        }
    }

    /// Whether `id` is the open window of kind `w_type`.
    fn of_type(&self, id: u64, w_type: WindowType) -> (r: bool)
        ensures
            r == (self.type_of(id) == Some(w_type)),
    {
        match self.get_type(id) {
            Some(t) => t == w_type,
            None => false,
        }
    }

    /// Whether the window that `key` names is open.
    fn contains(&self, key: Either<u64, WindowType>) -> (r: bool)
        ensures
            r == match key {
                Either::Left(id) => self.type_of(id) is Some,
                Either::Right(t) => self.open_id(t) is Some,
            },
    {
        match key {
            Either::Left(id) => self.get_type(id).is_some(),
            Either::Right(t) => self.get_id(t).is_some(),
        }
    }

    /// The state of the window that `key` names, if there is one.
    fn get_manager(&self, key: Either<u64, WindowType>) -> (r: Option<&W>)
        requires
            self.wf(),
        ensures
            match r {
                Some(m) => self.manager_for(key) == Some(*m),
                None => self.manager_for(key) is None,
            },
    {
        proof {
            self.lemma_entries();
        }
        let id = match key {
            Either::Left(id) => id,
            Either::Right(t) => match self.get_id(t) {
                Some(id) => id,
                None => {
                    return None;
                },
            },
        };
        match self.find(id) {
            Some(i) => {
                proof {
                    lemma_keyed_value(self.entries(), i as int);
                }
                Some(&self.states[i])
            },
            None => None,
        }
    }

    /// Closes the window that `key` names, if it is open, keeping its state
    /// for its kind when `persistent` is set.
    fn remove(&mut self, key: Either<u64, WindowType>, persistent: bool)
        requires
            old(self).wf(),
            key matches Either::Right(t) ==> old(self).open_id(t) is Some,
        ensures
            final(self).wf(),
            reg_removed(*old(self), *final(self), key, persistent),
    {
        let ghost before = *self;
        proof {
            before.lemma_entries();
        }
        let kind = match key {
            Either::Left(id) => self.get_type(id),
            Either::Right(t) => Some(t),
        };
        if let Some(t) = kind {
            let w_id = self.w_type.take(t);
            let id = match w_id {
                Some(id) => id,
                None => {
                    return;
                },
            };
            match self.find(id) {
                Some(i) => {
                    let ghost entries = self.entries();
                    proof {
                        lemma_keyed_value(entries, i as int);
                        lemma_keyed_remove(entries, i as int);
                    }
                    self.ids.remove(i);
                    let manager = self.states.remove(i);
                    proof {
                        assert(self.entries() =~= entries.remove(i as int));
                    }
                    if persistent {
                        self.persistent.put(t, Some(manager));
                    }
                },
                None => {},
            }
            proof {
                self.lemma_entries();
                assert forall|a: int, b: int| 0 <= a < b < self.ids@.len() implies #[trigger] self.ids@[a]
                    != #[trigger] self.ids@[b] by {
                    assert(self.entries()[a].0 == self.ids@[a]);
                    assert(self.entries()[b].0 == self.ids@[b]);
                }
                assert forall|u: WindowType| #[trigger]
                    self.w_type.at(u) is Some implies self.ids@.contains(self.w_type.at(u)->0) by {
                    assert(before.w_type.at(u) is Some);
                    assert(before.w_type.at(u) != before.w_type.at(t));
                    assert(keyed(before.entries()).contains_key(before.w_type.at(u)->0));
                    assert(keyed(self.entries()).contains_key(self.w_type.at(u)->0));
                }
            }
        }
    }

    /// The open windows with their kinds.
    fn iter(&self) -> (r: Vec<(u64, WindowType)>)
        ensures
            r@ == self.open_list(),
    {
        let mut r: Vec<(u64, WindowType)> = Vec::new();
        if let Some(id) = self.w_type.main {
            r.push((id, WindowType::Main));
        }
        if let Some(id) = self.w_type.area_selector {
            r.push((id, WindowType::AreaSelector));
        }
        if let Some(id) = self.w_type.annotation {
            r.push((id, WindowType::Annotation));
        }
        proof {
            assert(r@ =~= self.open_list());
        }
        r
    }
}

impl<W> Windows<W> {
    /// The state of each open window, by id.
    pub closed spec fn managers(self) -> Map<u64, W> {
        self.reg.managers()
    }

    /// The id of the open window of kind `t`, if any.
    pub closed spec fn open_id(self, t: WindowType) -> Option<u64> {
        self.reg.open_id(t)
    }

    /// The state kept of a closed window of kind `t`, if any.
    pub closed spec fn kept(self, t: WindowType) -> Option<W> {
        self.reg.kept(t)
    }

    /// The registry is consistent: each id has one state, each open kind's
    /// window has a state, and no two kinds share a window. Every registry
    /// is consistent at all times.
    #[verifier::type_invariant]
    pub closed spec fn wf(self) -> bool {
        self.reg.wf()
    }

    /// The kind of the open window `id`, if it is one.
    pub open spec fn type_of(self, id: u64) -> Option<WindowType> {
        if self.open_id(WindowType::Main) == Some(id) {
            Some(WindowType::Main)
        } else if self.open_id(WindowType::AreaSelector) == Some(id) {
            Some(WindowType::AreaSelector)
        } else if self.open_id(WindowType::Annotation) == Some(id) {
            Some(WindowType::Annotation)
        } else {
            None
        }
    }

    /// The id that `key` names: the id itself, or the open window of a kind.
    pub open spec fn resolve(self, key: Either<u64, WindowType>) -> Option<u64> {
        match key {
            Either::Left(id) => Some(id),
            Either::Right(t) => self.open_id(t),
        }
    }

    /// The state of the window that `key` names, if there is one.
    pub open spec fn manager_for(self, key: Either<u64, WindowType>) -> Option<W> {
        match self.resolve(key) {
            Some(id) => if self.managers().contains_key(id) {
                Some(self.managers()[id])
            } else {
                None
            },
            None => None,
        }
    }

    /// The open windows with their kinds, in the order Main, AreaSelector,
    /// Annotation.
    pub open spec fn open_list(self) -> Seq<(u64, WindowType)> {
        let main = match self.open_id(WindowType::Main) {
            Some(id) => seq![(id, WindowType::Main)],
            None => Seq::empty(),
        };
        let area = match self.open_id(WindowType::AreaSelector) {
            Some(id) => seq![(id, WindowType::AreaSelector)],
            None => Seq::empty(),
        };
        let annotation = match self.open_id(WindowType::Annotation) {
            Some(id) => seq![(id, WindowType::Annotation)],
            None => Seq::empty(),
        };
        main + area + annotation
    }

    /// No window open, nothing kept.
    pub fn new() -> (w: Self)
        ensures
            w.managers() == Map::<u64, W>::empty(),
            forall|t: WindowType| #[trigger] w.open_id(t) is None && w.kept(t) is None,
    {
        Windows { reg: Registry::new() }
    }

    /// Opens window `id` of kind `w_type`. The window gets the state kept for
    /// its kind if a window of that kind was closed with its state kept, and
    /// `fresh` otherwise.
    pub fn insert(&mut self, id: u64, w_type: WindowType, fresh: W)
        ensures
            inserted(*old(self), *final(self), id, w_type, fresh),
    {
        proof {
            use_type_invariant(&*self);
        }
        let mut reg = Registry::new();
        std::mem::swap(&mut reg, &mut self.reg);
        reg.insert(id, w_type, fresh);
        self.reg = reg;
    }

    /// The id of the open window of kind `t`, if any.
    pub fn get_id(&self, t: WindowType) -> (r: Option<u64>)
        ensures
            r == self.open_id(t),
    {
        self.reg.get_id(t)
    }

    /// The kind of the open window `id`, if it is one.
    pub fn get_type(&self, id: u64) -> (r: Option<WindowType>)
        ensures
            r == self.type_of(id),
    {
        self.reg.get_type(id)
    }

    /// Whether `id` is the open window of kind `w_type`.
    pub fn of_type(&self, id: u64, w_type: WindowType) -> (r: bool)
        ensures
            r == (self.type_of(id) == Some(w_type)),
    {
        self.reg.of_type(id, w_type)
    }

    /// Whether the window that `key` names is open.
    pub fn contains(&self, key: Either<u64, WindowType>) -> (r: bool)
        ensures
            r == match key {
                Either::Left(id) => self.type_of(id) is Some,
                Either::Right(t) => self.open_id(t) is Some,
            },
    {
        self.reg.contains(key)
    }

    /// The state of the window that `key` names, if there is one.
    pub fn get_manager(&self, key: Either<u64, WindowType>) -> (r: Option<&W>)
        ensures
            match r {
                Some(m) => self.manager_for(key) == Some(*m),
                None => self.manager_for(key) is None,
            },
    {
        proof {
            use_type_invariant(self);
        }
        self.reg.get_manager(key)
    }

    /// The state of the window that `key` names, to be changed in place.
    pub fn get_manager_mut(&mut self, key: Either<u64, WindowType>) -> (r: Option<&mut W>)
        ensures
            forall|t: WindowType| #[trigger] final(self).open_id(t) == old(self).open_id(t),
            forall|t: WindowType| #[trigger] final(self).kept(t) == old(self).kept(t),
            r matches Some(m) ==> old(self).manager_for(key) == Some(*m),
            r matches Some(m) ==> final(self).managers() == old(self).managers().insert(
                old(self).resolve(key)->0,
                *final(m),
            ),
            r is None ==> old(self).manager_for(key) is None,
            r is None ==> final(self).managers() == old(self).managers(),
    {
        proof {
            use_type_invariant(&*self);
            self.reg.lemma_entries();
        }
        let id = match key {
            Either::Left(id) => id,
            Either::Right(t) => match self.reg.get_id(t) {
                Some(id) => id,
                None => {
                    return None;
                },
            },
        };
        match self.reg.find(id) {
            Some(i) => {
                let ghost before = *self;
                let ghost entries = self.reg.entries();
                proof {
                    lemma_keyed_value(entries, i as int);
                }
                let m = &mut self.reg.states[i];
                proof {
                    lemma_keyed_update(entries, i as int, *final(m));
                    assert forall|r: Registry<W>|
                        r.ids@ == before.reg.ids@ && r.states@ == before.reg.states@.update(
                            i as int,
                            *final(m),
                        ) implies #[trigger] r.entries() == entries.update(
                        i as int,
                        (id, *final(m)),
                    ) by {
                        assert(r.entries() =~= entries.update(i as int, (id, *final(m))));
                    }
                }
                Some(m)
            },
            None => None,
        }
    }

    /// Closes the window that `key` names, if it is open, keeping its state
    /// for its kind when `persistent` is set.
    pub fn remove(&mut self, key: Either<u64, WindowType>, persistent: bool)
        requires
            key matches Either::Right(t) ==> old(self).open_id(t) is Some,
        ensures
            removed(*old(self), *final(self), key, persistent),
    {
        proof {
            use_type_invariant(&*self);
        }
        let mut reg = Registry::new();
        std::mem::swap(&mut reg, &mut self.reg);
        reg.remove(key, persistent);
        self.reg = reg;
    }

    /// The open windows with their kinds.
    pub fn iter(&self) -> (r: Vec<(u64, WindowType)>)
        ensures
            r@ == self.open_list(),
    {
        self.reg.iter()
    }
}

/// The lookup is bidirectional: in a consistent registry, `id` is the open
/// window of kind `t` exactly when the kind of window `id` is `t`.
pub proof fn law_lookup_is_bidirectional<W>(w: Windows<W>, id: u64, t: WindowType)
    requires
        w.wf(),
    ensures
        w.open_id(t) == Some(id) <==> w.type_of(id) == Some(t),
{
    assert(w.open_id(WindowType::Main) == w.reg.w_type.at(WindowType::Main));
    assert(w.open_id(WindowType::AreaSelector) == w.reg.w_type.at(WindowType::AreaSelector));
    assert(w.open_id(WindowType::Annotation) == w.reg.w_type.at(WindowType::Annotation));
}

/// An opened window is found again both by its id and by its kind, and both
/// name the same state.
pub proof fn law_opened_window_is_found<W>(
    before: Windows<W>,
    after: Windows<W>,
    id: u64,
    t: WindowType,
    fresh: W,
)
    requires
        inserted(before, after, id, t, fresh),
    ensures
        after.open_id(t) == Some(id),
        after.type_of(id) == Some(t),
        after.manager_for(Either::Left(id)) is Some,
        after.manager_for(Either::Right(t)) == after.manager_for(Either::Left(id)),
{
    assert(after.open_id(WindowType::Main) == Some(id) ==> t == WindowType::Main);
    assert(after.open_id(WindowType::AreaSelector) == Some(id) ==> t == WindowType::AreaSelector);
}

/// A window closed with its state kept opens again with that state, whatever
/// fresh state the next window of its kind is offered.
pub proof fn law_kept_window_reopens<W>(
    a: Windows<W>,
    b: Windows<W>,
    c: Windows<W>,
    t: WindowType,
    new_id: u64,
    fresh: W,
)
    requires
        a.wf(),
        a.open_id(t) is Some,
        removed(a, b, Either::Right(t), true),
        inserted(b, c, new_id, t, fresh),
    ensures
        c.managers()[new_id] == a.managers()[a.open_id(t)->0],
        c.kept(t) is None,
{
}

/// A window closed without keeping its state leaves nothing behind for its
/// kind: the next window of that kind starts from the fresh state, unless a
/// state had been kept for the kind before.
pub proof fn law_dropped_window_starts_fresh<W>(
    a: Windows<W>,
    b: Windows<W>,
    c: Windows<W>,
    t: WindowType,
    new_id: u64,
    fresh: W,
)
    requires
        a.wf(),
        a.open_id(t) is Some,
        a.kept(t) is None,
        removed(a, b, Either::Right(t), false),
        inserted(b, c, new_id, t, fresh),
    ensures
        c.managers()[new_id] == fresh,
{
}

impl<W> Default for Windows<W> {
    fn default() -> (w: Self)
        ensures
            w.managers() == Map::<u64, W>::empty(),
            forall|t: WindowType| #[trigger] w.open_id(t) is None && w.kept(t) is None,
    {
        Self::new()
    }
}

} // verus!
