//! Binding frames and the scopes that chain them.
//!
//! Frames live in a `Store` and are never removed. A frame holds the names
//! bound in it and the index of the frame that encloses it, which is always
//! an earlier one. A `Scope` is the index of its current frame: two scopes
//! that name the same frame see each other's bindings, which is how a
//! closure sees a name bound after it was made.
use std::rc::Rc;

use vstd::prelude::*;

use crate::value::{Val, Value};

verus! {

/// A scope: the index of its current frame in a `Store`.
///
/// Copying a `Scope` (it is `Copy`) gives a second handle on the same
/// frame: bindings made through either are seen by both. A new scope with
/// a frame of its own over this one is made by `snapshot`.
#[derive(Debug, Clone, Copy, PartialEq, Eq, Structural)]
pub struct Scope {
    pub frame: usize,
}

/// One frame: its bindings, each name at most once, and its parent frame.
#[derive(Debug)]
pub struct Frame {
    vars: Vec<(String, Val)>,
    parent: Option<usize>,
}

/// The model of a frame: a map from names to values, and its parent.
pub struct FrameView {
    pub vars: Map<Seq<char>, Value>,
    pub parent: Option<usize>,
}

/// Every frame made while evaluating a program.
///
/// Frames are never removed: each call, each function literal and each
/// read of a closure from a variable adds one, and all of them are freed
/// together when the store is dropped (`run` drops its store when it
/// returns). Memory thus grows with the number of calls a program makes,
/// not with how deep they nest.
#[derive(Debug)]
pub struct Store {
    frames: Vec<Frame>,
}

/// The map that a list of bindings stands for; a later binding of a name
/// hides an earlier one.
pub open spec fn bindings_map(s: Seq<(Seq<char>, Value)>) -> Map<Seq<char>, Value>
    decreases s.len(),
{
    if s.len() == 0 {
        Map::empty()
    } else {
        bindings_map(s.drop_last()).insert(s.last().0, s.last().1)
    }
}

pub open spec fn names_unique(s: Seq<(Seq<char>, Value)>) -> bool {
    forall|i: int, j: int| 0 <= i < j < s.len() ==> #[trigger] s[i].0 != #[trigger] s[j].0
}

/// All closures inside `v` refer to one of the first `n` frames.
pub open spec fn value_wf(v: Value, n: nat) -> bool
    decreases v,
{
    match v {
        Value::Tuple(a, b) => value_wf(*a, n) && value_wf(*b, n),
        Value::Closure { env, .. } => env < n,
        _ => true,
    }
}

/// Frame `i` of a store of `n` frames: its parent comes before it and its
/// values refer to frames of the store.
pub open spec fn frame_wf(f: FrameView, i: int, n: nat) -> bool {
    &&& (f.parent matches Some(p) ==> p < i)
    &&& forall|k: Seq<char>| f.vars.contains_key(k) ==> value_wf(#[trigger] f.vars[k], n)
}

pub open spec fn frames_wf(st: Seq<FrameView>) -> bool {
    forall|i: int| 0 <= i < st.len() ==> frame_wf(#[trigger] st[i], i, st.len())
}

/// The value bound to `k` in scope `f`: the nearest binding found walking
/// from frame `f` outward through its parents.
pub open spec fn lookup(st: Seq<FrameView>, f: int, k: Seq<char>) -> Option<Value>
    decreases f,
{
    if 0 <= f < st.len() {
        if st[f].vars.contains_key(k) {
            Some(st[f].vars[k])
        } else {
            match st[f].parent {
                Some(p) => if p < f {
                    lookup(st, p as int, k)
                } else {
                    None
                },
                None => None,
            }
        }
    } else {
        None
    }
}

/// A new empty frame whose parent is `parent`.
pub open spec fn child(parent: usize) -> FrameView {
    FrameView { vars: Map::empty(), parent: Some(parent) }
}

/// The store after binding `k` to `v` in frame `f`.
pub open spec fn assign(st: Seq<FrameView>, f: int, k: Seq<char>, v: Value) -> Seq<FrameView> {
    st.update(f, FrameView { vars: st[f].vars.insert(k, v), parent: st[f].parent })
}

/// A copy of `v`: each closure in it gets a new empty frame whose parent is
/// the closure's own frame, made left to right.
pub open spec fn copy_value(v: Value, st: Seq<FrameView>) -> (Value, Seq<FrameView>)
    decreases v,
{
    match v {
        Value::Tuple(a, b) => {
            let (a2, st1) = copy_value(*a, st);
            let (b2, st2) = copy_value(*b, st1);
            (Value::Tuple(Box::new(a2), Box::new(b2)), st2)
        },
        Value::Closure { fun, env } => (
            Value::Closure { fun, env: st.len() as usize },
            st.push(child(env)),
        ),
        _ => (v, st),
    }
}

/// What `get` yields and leaves: the copy of the nearest binding, if any.
pub open spec fn get_spec(st: Seq<FrameView>, f: int, k: Seq<char>) -> (Option<Value>, Seq<FrameView>) {
    match lookup(st, f, k) {
        Some(v) => {
            let (c, st2) = copy_value(v, st);
            (Some(c), st2)
        },
        None => (None, st),
    }
}

pub proof fn lemma_value_wf_grows(v: Value, n: nat, m: nat)
    requires
        value_wf(v, n),
        n <= m,
    ensures
        value_wf(v, m),
    decreases v,
{
    match v {
        Value::Tuple(a, b) => {
            lemma_value_wf_grows(*a, n, m);
            lemma_value_wf_grows(*b, n, m);
        },
        _ => {},
    }
}

/// Appending a well-formed frame keeps a store well formed.
pub proof fn lemma_frames_push(st: Seq<FrameView>, f: FrameView)
    requires
        frames_wf(st),
        frame_wf(f, st.len() as int, st.len() + 1),
    ensures
        frames_wf(st.push(f)),
{
    let n = st.len();
    assert forall|i: int| 0 <= i < n + 1 implies frame_wf(#[trigger] st.push(f)[i], i, n + 1) by {
        if i < n {
            assert(st.push(f)[i] == st[i]);
            assert forall|k: Seq<char>| st[i].vars.contains_key(k) implies value_wf(
                #[trigger] st[i].vars[k],
                n + 1,
            ) by {
                lemma_value_wf_grows(st[i].vars[k], n, n + 1);
            }
        }
    }
}

/// Binding a well-formed value keeps a store well formed.
pub proof fn lemma_frames_assign(st: Seq<FrameView>, f: int, k: Seq<char>, v: Value)
    requires
        frames_wf(st),
        0 <= f < st.len(),
        value_wf(v, st.len()),
    ensures
        frames_wf(assign(st, f, k, v)),
        assign(st, f, k, v).len() == st.len(),
{
    let st2 = assign(st, f, k, v);
    assert forall|i: int| 0 <= i < st2.len() implies frame_wf(#[trigger] st2[i], i, st2.len()) by {
        if i == f {
            assert forall|k2: Seq<char>| st2[i].vars.contains_key(k2) implies value_wf(
                #[trigger] st2[i].vars[k2],
                st2.len(),
            ) by {
                if k2 != k {
                    assert(st[i].vars.contains_key(k2));
                }
            }
        } else {
            assert(st2[i] == st[i]);
        }
    }
}

pub proof fn lemma_copy_value(v: Value, st: Seq<FrameView>)
    requires
        frames_wf(st),
        value_wf(v, st.len()),
    ensures
        frames_wf(copy_value(v, st).1),
        value_wf(copy_value(v, st).0, copy_value(v, st).1.len()),
        st.len() <= copy_value(v, st).1.len(),
        copy_value(v, st).1.subrange(0, st.len() as int) == st,
    decreases v,
{
    match v {
        Value::Tuple(a, b) => {
            lemma_copy_value(*a, st);
            let (a2, st1) = copy_value(*a, st);
            lemma_value_wf_grows(*b, st.len(), st1.len());
            lemma_copy_value(*b, st1);
            let (b2, st2) = copy_value(*b, st1);
            lemma_value_wf_grows(a2, st1.len(), st2.len());
            assert(st2.subrange(0, st.len() as int) =~= st1.subrange(0, st.len() as int));
        },
        Value::Closure { fun, env } => {
            lemma_frames_push(st, child(env));
            assert(st.push(child(env)).subrange(0, st.len() as int) =~= st);
        },
        _ => {
            assert(st.subrange(0, st.len() as int) =~= st);
        },
    }
}

proof fn lemma_bindings_has(s: Seq<(Seq<char>, Value)>, i: int)
    requires
        names_unique(s),
        0 <= i < s.len(),
    ensures
        bindings_map(s).contains_key(s[i].0),
        bindings_map(s)[s[i].0] == s[i].1,
    decreases s.len(),
{
    if i < s.len() - 1 {
        let t = s.drop_last();
        assert(t[i] == s[i]);
        assert(s[i].0 != s[s.len() - 1].0);
        lemma_bindings_has(t, i);
    }
}

proof fn lemma_bindings_lacks(s: Seq<(Seq<char>, Value)>, k: Seq<char>)
    requires
        forall|i: int| 0 <= i < s.len() ==> #[trigger] s[i].0 != k,
    ensures
        !bindings_map(s).contains_key(k),
    decreases s.len(),
{
    if s.len() > 0 {
        let t = s.drop_last();
        assert forall|i: int| 0 <= i < t.len() implies #[trigger] t[i].0 != k by {
            assert(t[i] == s[i]);
        }
        lemma_bindings_lacks(t, k);
    }
}

proof fn lemma_bindings_update(s: Seq<(Seq<char>, Value)>, i: int, v: Value)
    requires
        names_unique(s),
        0 <= i < s.len(),
    ensures
        bindings_map(s.update(i, (s[i].0, v))) == bindings_map(s).insert(s[i].0, v),
    decreases s.len(),
{
    let s2 = s.update(i, (s[i].0, v));
    let t = s.drop_last();
    if i == s.len() - 1 {
        assert(s2.drop_last() =~= t);
        assert(bindings_map(s2) =~= bindings_map(s).insert(s[i].0, v));
    } else {
        assert(s2.drop_last() =~= t.update(i, (t[i].0, v)));
        assert(t[i] == s[i]);
        assert(s[i].0 != s[s.len() - 1].0);
        lemma_bindings_update(t, i, v);
        assert(bindings_map(s2) =~= bindings_map(s).insert(s[i].0, v));
    }
}

proof fn lemma_bindings_push(s: Seq<(Seq<char>, Value)>, e: (Seq<char>, Value))
    ensures
        bindings_map(s.push(e)) == bindings_map(s).insert(e.0, e.1),
{
    assert(s.push(e).drop_last() =~= s);
}

impl Frame {
    pub closed spec fn entries(&self) -> Seq<(Seq<char>, Value)> {
        self.vars@.map_values(|e: (String, Val)| (e.0@, e.1@))
    }

    pub closed spec fn inv(&self) -> bool {
        names_unique(self.entries())
    }

    /// The index of `key` among the bindings, if it is bound here.
    fn position(&self, key: &String) -> (r: Option<usize>)
        ensures
            match r {
                Some(j) => j < self.vars@.len() && self.vars@[j as int].0@ == key@,
                None => forall|i: int| 0 <= i < self.vars@.len() ==> #[trigger] self.vars@[i].0@ != key@,
            },
    {
        let mut j: usize = 0;
        while j < self.vars.len()
            invariant
                j <= self.vars@.len(),
                forall|i: int| 0 <= i < j ==> #[trigger] self.vars@[i].0@ != key@,
            decreases self.vars@.len() - j,
        {
            if self.vars[j].0 == *key {
                return Some(j);
            }
            j = j + 1;
        }
        None
    }
}

impl View for Frame {
    type V = FrameView;

    closed spec fn view(&self) -> FrameView {
        FrameView { vars: bindings_map(self.entries()), parent: self.parent }
    }
}

impl View for Store {
    type V = Seq<FrameView>;

    closed spec fn view(&self) -> Seq<FrameView> {
        self.frames@.map_values(|f: Frame| f@)
    }
}

impl Store {
    /// A store with no frames.
    pub fn new() -> (r: Store)
        ensures
            r.wf(),
            r@ == Seq::<FrameView>::empty(),
    {
        let r = Store { frames: Vec::new() };
        assert(r@ =~= Seq::<FrameView>::empty());
        r
    }

    /// The store's invariant: names are not repeated within a frame,
    /// parents come first, and every closure names an existing frame.
    pub open spec fn wf(&self) -> bool {
        &&& self.frames_unique()
        &&& frames_wf(self@)
    }

    pub closed spec fn frames_unique(&self) -> bool {
        forall|i: int| 0 <= i < self.frames@.len() ==> (#[trigger] self.frames@[i]).inv()
    }

    /// The number of frames.
    pub fn len(&self) -> (r: usize)
        ensures
            r == self@.len(),
    {
        self.frames.len()
    }

    fn push_frame(&mut self, parent: Option<usize>) -> (r: usize)
        requires
            old(self).wf(),
            parent matches Some(p) ==> p < old(self)@.len(),
        ensures
            final(self).wf(),
            r == old(self)@.len(),
            final(self)@ == old(self)@.push(FrameView { vars: Map::empty(), parent }),
    {
        let r = self.frames.len();
        let f = Frame { vars: Vec::new(), parent };
        assert(f.entries() =~= Seq::empty());
        assert(f@.vars =~= Map::empty());
        proof {
            lemma_frames_push(self@, f@);
        }
        self.frames.push(f);
        assert(self@ =~= old(self)@.push(f@));
        r
    }
}

impl Scope {
    /// A scope whose current frame is new, empty and has no parent.
    pub fn new(store: &mut Store) -> (r: Scope)
        requires
            old(store).wf(),
        ensures
            final(store).wf(),
            r.frame == old(store)@.len(),
            final(store)@ == old(store)@.push(FrameView { vars: Map::empty(), parent: None }),
    {
        Scope { frame: store.push_frame(None) }
    }

    /// A scope whose current frame is new and empty and whose parent is this
    /// scope's current frame: it sees what this scope sees, also bindings
    /// made here later, and its own bindings stay its own.
    pub fn snapshot(&self, store: &mut Store) -> (r: Scope)
        requires
            old(store).wf(),
            self.frame < old(store)@.len(),
        ensures
            final(store).wf(),
            r.frame == old(store)@.len(),
            final(store)@ == old(store)@.push(child(self.frame)),
    {
        Scope { frame: store.push_frame(Some(self.frame)) }
    }

    /// A copy of the nearest binding of `var`, walking from the current
    /// frame outward; `None` if no frame of the chain binds it. Copying
    /// gives each closure in the value a new frame, as `Val::duplicate`
    /// does, so that a call binds its parameters in a frame of its own.
    pub fn get(&self, store: &mut Store, var: &str) -> (r: Option<Val>)
        requires
            old(store).wf(),
            self.frame < old(store)@.len(),
        ensures
            final(store).wf(),
            (match r {
                Some(v) => Some(v@),
                None => None,
            }, final(store)@) == get_spec(old(store)@, self.frame as int, var@),
            r matches Some(v) ==> value_wf(v@, final(store)@.len()),
            final(store)@.len() >= old(store)@.len(),
            final(store)@.subrange(0, old(store)@.len() as int) == old(store)@,
    {
        let key = String::from_str(var);
        let mut i = self.frame;
        loop
            invariant
                store.wf(),
                store@ == old(store)@,
                self.frame < store@.len(),
                i < store@.len(),
                key@ == var@,
                lookup(store@, self.frame as int, var@) == lookup(store@, i as int, var@),
            decreases i,
        {
            let ghost st = store@;
            proof {
                assert(st[i as int] == store.frames@[i as int]@);
                assert(store.frames@[i as int].inv());
            }
            match store.frames[i].position(&key) {
                Some(j) => {
                    let v = store.frames[i].vars[j].1.replica();
                    proof {
                        let fr = store.frames@[i as int];
                        assert(fr.entries()[j as int] == (fr.vars@[j as int].0@, fr.vars@[j as int].1@));
                        lemma_bindings_has(fr.entries(), j as int);
                        assert(lookup(st, i as int, var@) == Some(v@));
                        assert(frame_wf(st[i as int], i as int, st.len()));
                        lemma_copy_value(v@, st);
                    }
                    let c = v.duplicate(store);
                    return Some(c);
                },
                None => {
                    proof {
                        let fr = store.frames@[i as int];
                        assert forall|m: int| 0 <= m < fr.entries().len() implies #[trigger] fr.entries()[m].0 != var@ by {
                            assert(fr.entries()[m].0 == fr.vars@[m].0@);
                        }
                        lemma_bindings_lacks(fr.entries(), var@);
                        assert(frame_wf(st[i as int], i as int, st.len()));
                    }
                    match store.frames[i].parent {
                        Some(p) => {
                            i = p;
                        },
                        None => {
                            proof {
                                assert(st.subrange(0, st.len() as int) =~= st);
                            }
                            return None;
                        },
                    }
                },
            }
        }
    }

    /// Binds `var` to `val` in the current frame only, replacing a binding
    /// of the same name there.
    pub fn set(&self, store: &mut Store, var: &str, val: Val)
        requires
            old(store).wf(),
            self.frame < old(store)@.len(),
            value_wf(val@, old(store)@.len()),
        ensures
            final(store).wf(),
            final(store)@ == assign(old(store)@, self.frame as int, var@, val@),
    {
        let key = String::from_str(var);
        let i = self.frame;
        let ghost st = store@;
        proof {
            lemma_frames_assign(st, i as int, var@, val@);
            assert(store.frames@[i as int].inv());
            assert(st[i as int] == store.frames@[i as int]@);
        }
        let mut frame = Frame { vars: Vec::new(), parent: None };
        std::mem::swap(&mut frame, &mut store.frames[i]);
        let ghost old_entries = frame.entries();
        match frame.position(&key) {
            Some(j) => {
                frame.vars.set(j, (key, val));
                proof {
                    assert(old_entries[j as int].0 == var@);
                    assert(frame.entries() =~= old_entries.update(j as int, (var@, val@)));
                    lemma_bindings_update(old_entries, j as int, val@);
                    assert(names_unique(frame.entries()));
                }
            },
            None => {
                frame.vars.push((key, val));
                proof {
                    assert(frame.entries() =~= old_entries.push((var@, val@)));
                    lemma_bindings_push(old_entries, (var@, val@));
                    assert forall|a: int, b: int| 0 <= a < b < frame.entries().len() implies
                        #[trigger] frame.entries()[a].0 != #[trigger] frame.entries()[b].0 by {
                        if b == old_entries.len() {
                            assert(old_entries[a].0 == frame.vars@[a].0@);
                        }
                    }
                }
            },
        }
        std::mem::swap(&mut frame, &mut store.frames[i]);
        assert(store@ =~= assign(st, i as int, var@, val@));
    }
}

impl Val {
    /// A copy of this value in which each closure has a new empty frame
    /// whose parent is the closure's own frame.
    pub fn duplicate(&self, store: &mut Store) -> (r: Val)
        requires
            old(store).wf(),
            value_wf(self@, old(store)@.len()),
        ensures
            final(store).wf(),
            (r@, final(store)@) == copy_value(self@, old(store)@),
        decreases self,
    {
        match self {
            Val::Int(i) => Val::Int(*i),
            Val::Bool(b) => Val::Bool(*b),
            Val::Str(s) => Val::Str(s.clone()),
            Val::Tuple(p) => {
                proof {
                    lemma_copy_value(p.0@, store@);
                    lemma_value_wf_grows(p.1@, store@.len(), copy_value(p.0@, store@).1.len());
                }
                let a = p.0.duplicate(store);
                let b = p.1.duplicate(store);
                Val::Tuple((Box::new(a), Box::new(b)))
            },
            Val::Closure { fun, env } => {
                let e = env.snapshot(store);
                Val::Closure { fun: Rc::clone(fun), env: e }
            },
        }
    }
}

} // verus!
