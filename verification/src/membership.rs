use vstd::prelude::*;

verus! {

/// A (scope, group) pair as plain text.
pub type PairView = (Seq<char>, Seq<char>);

/// The text of each (scope, group) pair of a list.
pub open spec fn pairs_view(v: Seq<(String, String)>) -> Seq<PairView> {
    v.map_values(|p: (String, String)| (p.0@, p.1@))
}

/// The text of each name of a list.
pub open spec fn names_view(v: Seq<String>) -> Seq<Seq<char>> {
    v.map_values(|s: String| s@)
}

/// The list with one more entry at its end, unless it holds that entry already.
pub open spec fn insert_once<A>(s: Seq<A>, x: A) -> Seq<A> {
    if s.contains(x) {
        s
    } else {
        s.push(x)
    }
}

/// The list without any entry equal to `x`, the others kept in order.
pub open spec fn remove_all<A>(s: Seq<A>, x: A) -> Seq<A> {
    s.filter(differs(x))
}

/// The test "is not `x`".
pub open spec fn differs<A>(x: A) -> spec_fn(A) -> bool {
    |y: A| y != x
}

/// The process groups and scopes that an actor is a member of, or listens to.
pub struct MemberShip {
    pub scope_groups: Vec<(String, String)>,
    pub listened_groups: Vec<(String, String)>,
    pub listened_scopes: Vec<String>,
}

/// A membership as plain text.
pub struct MemberShipView {
    pub scope_groups: Seq<PairView>,
    pub listened_groups: Seq<PairView>,
    pub listened_scopes: Seq<Seq<char>>,
}

impl MemberShipView {
    /// No list names an entry twice.
    pub open spec fn wf(self) -> bool {
        &&& self.scope_groups.no_duplicates()
        &&& self.listened_groups.no_duplicates()
        &&& self.listened_scopes.no_duplicates()
    }

    /// The membership with the pair added to the groups the actor belongs to.
    pub open spec fn joined(self, p: PairView) -> MemberShipView {
        MemberShipView { scope_groups: insert_once(self.scope_groups, p), ..self }
    }

    /// The membership with the pair dropped from the groups the actor belongs to.
    pub open spec fn left(self, p: PairView) -> MemberShipView {
        MemberShipView { scope_groups: remove_all(self.scope_groups, p), ..self }
    }

    /// The membership with the pair added to the groups the actor listens to.
    pub open spec fn listening_group(self, p: PairView) -> MemberShipView {
        MemberShipView { listened_groups: insert_once(self.listened_groups, p), ..self }
    }

    /// The membership with the pair dropped from the groups the actor listens to.
    pub open spec fn unlistening_group(self, p: PairView) -> MemberShipView {
        MemberShipView { listened_groups: remove_all(self.listened_groups, p), ..self }
    }

    /// The membership with the scope added to the scopes the actor listens to.
    pub open spec fn listening_scope(self, scope: Seq<char>) -> MemberShipView {
        MemberShipView { listened_scopes: insert_once(self.listened_scopes, scope), ..self }
    }

    /// The membership with the scope dropped from the scopes the actor listens to.
    pub open spec fn unlistening_scope(self, scope: Seq<char>) -> MemberShipView {
        MemberShipView { listened_scopes: remove_all(self.listened_scopes, scope), ..self }
    }

    /// The membership of an actor that belongs to nothing and listens to nothing.
    pub open spec fn empty() -> MemberShipView {
        MemberShipView {
            scope_groups: Seq::empty(),
            listened_groups: Seq::empty(),
            listened_scopes: Seq::empty(),
        }
    }
}

impl View for MemberShip {
    type V = MemberShipView;

    open spec fn view(&self) -> MemberShipView {
        MemberShipView {
            scope_groups: pairs_view(self.scope_groups@),
            listened_groups: pairs_view(self.listened_groups@),
            listened_scopes: names_view(self.listened_scopes@),
        }
    }
}

/// Adding an entry once keeps a list free of duplicates, and the entry is then in it.
pub proof fn lemma_insert_once<A>(s: Seq<A>, x: A)
    requires
        s.no_duplicates(),
    ensures
        insert_once(s, x).no_duplicates(),
        insert_once(s, x).contains(x),
        forall|y: A| #[trigger] insert_once(s, x).contains(y) <==> (s.contains(y) || y == x),
        insert_once(insert_once(s, x), x) == insert_once(s, x),
{
    if !s.contains(x) {
        let t = s.push(x);
        assert(t[s.len() as int] == x);
        assert forall|y: A| t.contains(y) <==> (s.contains(y) || y == x) by {
            if t.contains(y) {
                let i = choose|i: int| 0 <= i < t.len() && t[i] == y;
                if i < s.len() {
                    assert(s[i] == y);
                }
            }
            if s.contains(y) {
                let i = choose|i: int| 0 <= i < s.len() && s[i] == y;
                assert(t[i] == y);
            }
        }
    }
}

/// Removing an entry keeps a list free of duplicates, and the entry is then not in it;
/// every other entry stays.
pub proof fn lemma_remove_all<A>(s: Seq<A>, x: A)
    requires
        s.no_duplicates(),
    ensures
        remove_all(s, x).no_duplicates(),
        !remove_all(s, x).contains(x),
        forall|y: A| #[trigger] remove_all(s, x).contains(y) <==> (s.contains(y) && y != x),
        !s.contains(x) ==> remove_all(s, x) == s,
{
    lemma_filter_no_duplicates(s, differs(x));
    if !s.contains(x) {
        lemma_filter_keeps_all(s, differs(x));
    }
}

proof fn lemma_filter_keeps_all<A>(s: Seq<A>, pred: spec_fn(A) -> bool)
    requires
        forall|i: int| 0 <= i < s.len() ==> pred(#[trigger] s[i]),
    ensures
        s.filter(pred) == s,
    decreases s.len(),
{
    reveal(Seq::filter);
    if s.len() > 0 {
        let init = s.drop_last();
        assert forall|i: int| 0 <= i < init.len() implies pred(#[trigger] init[i]) by {
            assert(init[i] == s[i]);
        }
        lemma_filter_keeps_all(init, pred);
        assert(pred(s[s.len() - 1]));
        assert(s == init.push(s.last()));
    }
}

proof fn lemma_filter_push<A>(s: Seq<A>, pred: spec_fn(A) -> bool, e: A)
    ensures
        pred(e) ==> s.push(e).filter(pred) == s.filter(pred).push(e),
        !pred(e) ==> s.push(e).filter(pred) == s.filter(pred),
{
    reveal(Seq::filter);
    assert(s.push(e).drop_last() == s);
}

proof fn lemma_filter_no_duplicates<A>(s: Seq<A>, pred: spec_fn(A) -> bool)
    requires
        s.no_duplicates(),
    ensures
        s.filter(pred).no_duplicates(),
        forall|x: A| s.filter(pred).contains(x) <==> (s.contains(x) && pred(x)),
    decreases s.len(),
{
    reveal(Seq::filter);
    if s.len() > 0 {
        let init = s.drop_last();
        assert(init.no_duplicates());
        lemma_filter_no_duplicates(init, pred);
        assert(s == init.push(s.last()));
        lemma_filter_push(init, pred, s.last());
        assert forall|x: A| s.contains(x) <==> (init.contains(x) || x == s.last()) by {
            if s.contains(x) {
                let i = choose|i: int| 0 <= i < s.len() && s[i] == x;
                if i < s.len() - 1 {
                    assert(init[i] == x);
                }
            }
            if init.contains(x) {
                let i = choose|i: int| 0 <= i < init.len() && init[i] == x;
                assert(s[i] == x);
            }
            if x == s.last() {
                assert(s[s.len() - 1] == x);
            }
        }
        if pred(s.last()) {
            assert(!init.contains(s.last())) by {
                if init.contains(s.last()) {
                    let i = choose|i: int| 0 <= i < init.len() && init[i] == s.last();
                    assert(s[i] == s[s.len() - 1]);
                }
            }
            let f = init.filter(pred);
            assert(!f.contains(s.last()));
            assert forall|x: A| f.push(s.last()).contains(x) <==> (f.contains(x) || x == s.last()) by {
                if f.push(s.last()).contains(x) {
                    let i = choose|i: int| 0 <= i < f.len() + 1 && f.push(s.last())[i] == x;
                    if i < f.len() {
                        assert(f[i] == x);
                    }
                }
                if f.contains(x) {
                    let i = choose|i: int| 0 <= i < f.len() && f[i] == x;
                    assert(f.push(s.last())[i] == x);
                }
                if x == s.last() {
                    assert(f.push(s.last())[f.len() as int] == x);
                }
            }
        }
    }
}

impl MemberShip {
    /// The membership that belongs to nothing and listens to nothing.
    pub fn new() -> (m: MemberShip)
        ensures
            m@ == MemberShipView::empty(),
            m@.wf(),
    {
        let m = MemberShip {
            scope_groups: Vec::new(),
            listened_groups: Vec::new(),
            listened_scopes: Vec::new(),
        };
        assert(m@.scope_groups == Seq::<PairView>::empty());
        assert(m@.listened_groups == Seq::<PairView>::empty());
        assert(m@.listened_scopes == Seq::<Seq<char>>::empty());
        m
    }

    /// Joins the group of the scope, unless already a member.
    pub fn add_scope_group(&mut self, scope: String, group: String)
        ensures
            final(self)@ == old(self)@.joined((scope@, group@)),
            old(self)@.wf() ==> final(self)@.wf(),
    {
        let ghost p = (scope@, group@);
        add_pair(&mut self.scope_groups, scope, group);
        proof {
            if old(self)@.wf() {
                lemma_insert_once(old(self)@.scope_groups, p);
            }
        }
    }

    /// Leaves the group of the scope.
    pub fn remove_scope_group(&mut self, scope: &String, group: &String)
        ensures
            final(self)@ == old(self)@.left((scope@, group@)),
            old(self)@.wf() ==> final(self)@.wf(),
    {
        remove_pair(&mut self.scope_groups, scope, group);
        proof {
            if old(self)@.wf() {
                lemma_remove_all(old(self)@.scope_groups, (scope@, group@));
            }
        }
    }

    /// Starts listening to the group of the scope, unless already listening.
    pub fn add_listened_group(&mut self, scope: String, group: String)
        ensures
            final(self)@ == old(self)@.listening_group((scope@, group@)),
            old(self)@.wf() ==> final(self)@.wf(),
    {
        let ghost p = (scope@, group@);
        add_pair(&mut self.listened_groups, scope, group);
        proof {
            if old(self)@.wf() {
                lemma_insert_once(old(self)@.listened_groups, p);
            }
        }
    }

    /// Stops listening to the group of the scope.
    pub fn remove_listened_group(&mut self, scope: &String, group: &String)
        ensures
            final(self)@ == old(self)@.unlistening_group((scope@, group@)),
            old(self)@.wf() ==> final(self)@.wf(),
    {
        remove_pair(&mut self.listened_groups, scope, group);
        proof {
            if old(self)@.wf() {
                lemma_remove_all(old(self)@.listened_groups, (scope@, group@));
            }
        }
    }

    /// Starts listening to the scope, unless already listening.
    pub fn add_listened_scope(&mut self, scope: String)
        ensures
            final(self)@ == old(self)@.listening_scope(scope@),
            old(self)@.wf() ==> final(self)@.wf(),
    {
        let ghost sv = scope@;
        add_name(&mut self.listened_scopes, scope);
        proof {
            if old(self)@.wf() {
                lemma_insert_once(old(self)@.listened_scopes, sv);
            }
        }
    }

    /// Stops listening to the scope.
    pub fn remove_listened_scope(&mut self, scope: &String)
        ensures
            final(self)@ == old(self)@.unlistening_scope(scope@),
            old(self)@.wf() ==> final(self)@.wf(),
    {
        remove_name(&mut self.listened_scopes, scope);
        proof {
            if old(self)@.wf() {
                lemma_remove_all(old(self)@.listened_scopes, scope@);
            }
        }
    }
}

/// Whether the list holds the pair, compared by text.
fn contains_pair(v: &Vec<(String, String)>, scope: &String, group: &String) -> (found: bool)
    ensures
        found == pairs_view(v@).contains((scope@, group@)),
{
    let mut i: usize = 0;
    while i < v.len()
        invariant
            i <= v.len(),
            forall|j: int| 0 <= j < i ==> pairs_view(v@)[j] != (scope@, group@),
        decreases v.len() - i,
    {
        if v[i].0 == *scope && v[i].1 == *group {
            assert(pairs_view(v@)[i as int] == (scope@, group@));
            return true;
        }
        i = i + 1;
    }
    false
}

/// Whether the list holds the name, compared by text.
fn contains_name(v: &Vec<String>, name: &String) -> (found: bool)
    ensures
        found == names_view(v@).contains(name@),
{
    let mut i: usize = 0;
    while i < v.len()
        invariant
            i <= v.len(),
            forall|j: int| 0 <= j < i ==> names_view(v@)[j] != name@,
        decreases v.len() - i,
    {
        if v[i] == *name {
            assert(names_view(v@)[i as int] == name@);
            return true;
        }
        i = i + 1;
    }
    false
}

/// Adds the pair at the end of the list unless the list holds it already.
fn add_pair(v: &mut Vec<(String, String)>, scope: String, group: String)
    ensures
        pairs_view(final(v)@) == insert_once(pairs_view(old(v)@), (scope@, group@)),
{
    if !contains_pair(v, &scope, &group) {
        let ghost sv = scope@;
        let ghost gv = group@;
        v.push((scope, group));
        assert(pairs_view(v@) == pairs_view(old(v)@).push((sv, gv)));
    }
}

/// Adds the name at the end of the list unless the list holds it already.
fn add_name(v: &mut Vec<String>, name: String)
    ensures
        names_view(final(v)@) == insert_once(names_view(old(v)@), name@),
{
    if !contains_name(v, &name) {
        let ghost nv = name@;
        v.push(name);
        assert(names_view(v@) == names_view(old(v)@).push(nv));
    }
}

/// Drops every entry equal to the pair, keeping the others in order.
fn remove_pair(v: &mut Vec<(String, String)>, scope: &String, group: &String)
    ensures
        pairs_view(final(v)@) == remove_all(pairs_view(old(v)@), (scope@, group@)),
{
    let ghost target: PairView = (scope@, group@);
    let ghost pred = differs(target);
    let mut kept: Vec<(String, String)> = Vec::new();
    let mut i: usize = 0;
    while i < v.len()
        invariant
            i <= v.len(),
            pred == differs(target),
            target == (scope@, group@),
            pairs_view(kept@) == pairs_view(v@).take(i as int).filter(pred),
        decreases v.len() - i,
    {
        let ghost before = pairs_view(kept@);
        proof {
            assert(pairs_view(v@).take(i as int + 1) == pairs_view(v@).take(i as int).push(
                pairs_view(v@)[i as int],
            ));
            lemma_filter_push(pairs_view(v@).take(i as int), pred, pairs_view(v@)[i as int]);
        }
        if !(v[i].0 == *scope && v[i].1 == *group) {
            let s = v[i].0.clone();
            let g = v[i].1.clone();
            kept.push((s, g));
            assert(pairs_view(kept@) == before.push(pairs_view(v@)[i as int]));
        }
        i = i + 1;
    }
    assert(pairs_view(v@).take(v.len() as int) == pairs_view(v@));
    *v = kept;
}

/// Drops every entry equal to the name, keeping the others in order.
fn remove_name(v: &mut Vec<String>, name: &String)
    ensures
        names_view(final(v)@) == remove_all(names_view(old(v)@), name@),
{
    let ghost target: Seq<char> = name@;
    let ghost pred = differs(target);
    let mut kept: Vec<String> = Vec::new();
    let mut i: usize = 0;
    while i < v.len()
        invariant
            i <= v.len(),
            pred == differs(target),
            target == name@,
            names_view(kept@) == names_view(v@).take(i as int).filter(pred),
        decreases v.len() - i,
    {
        let ghost before = names_view(kept@);
        proof {
            assert(names_view(v@).take(i as int + 1) == names_view(v@).take(i as int).push(
                names_view(v@)[i as int],
            ));
            lemma_filter_push(names_view(v@).take(i as int), pred, names_view(v@)[i as int]);
        }
        if !(v[i] == *name) {
            let s = v[i].clone();
            kept.push(s);
            assert(names_view(kept@) == before.push(names_view(v@)[i as int]));
        }
        i = i + 1;
    }
    assert(names_view(v@).take(v.len() as int) == names_view(v@));
    *v = kept;
}

/// Joining a group makes the actor a member of it exactly once; joining it
/// again changes nothing; leaving it afterwards makes the actor no longer a
/// member, and when the actor was not a member before, joining then leaving
/// gives back the membership it started from. The other memberships are kept.
pub proof fn lemma_join_then_leave(m: MemberShipView, p: PairView)
    requires
        m.wf(),
    ensures
        m.joined(p).wf(),
        m.joined(p).scope_groups.contains(p),
        m.joined(p).joined(p) == m.joined(p),
        !m.joined(p).left(p).scope_groups.contains(p),
        !m.scope_groups.contains(p) ==> m.joined(p).left(p) == m,
        forall|q: PairView| q != p ==> (#[trigger] m.joined(p).left(p).scope_groups.contains(q)
            <==> m.scope_groups.contains(q)),
        m.joined(p).listened_groups == m.listened_groups,
        m.joined(p).listened_scopes == m.listened_scopes,
{
    lemma_insert_once(m.scope_groups, p);
    lemma_remove_all(insert_once(m.scope_groups, p), p);
    if !m.scope_groups.contains(p) {
        lemma_filter_push(m.scope_groups, differs(p), p);
        lemma_remove_all(m.scope_groups, p);
    }
}

/// Listening to a group and then no longer listening to it leaves the actor
/// not listening to it; starting to listen twice is the same as once.
pub proof fn lemma_listen_group_then_unlisten(m: MemberShipView, p: PairView)
    requires
        m.wf(),
    ensures
        m.listening_group(p).wf(),
        m.listening_group(p).listened_groups.contains(p),
        m.listening_group(p).listening_group(p) == m.listening_group(p),
        !m.listening_group(p).unlistening_group(p).listened_groups.contains(p),
        !m.listened_groups.contains(p) ==> m.listening_group(p).unlistening_group(p) == m,
        m.listening_group(p).scope_groups == m.scope_groups,
{
    lemma_insert_once(m.listened_groups, p);
    lemma_remove_all(insert_once(m.listened_groups, p), p);
    if !m.listened_groups.contains(p) {
        lemma_filter_push(m.listened_groups, differs(p), p);
        lemma_remove_all(m.listened_groups, p);
    }
}

/// Listening to a scope and then no longer listening to it leaves the actor
/// not listening to it; starting to listen twice is the same as once.
pub proof fn lemma_listen_scope_then_unlisten(m: MemberShipView, scope: Seq<char>)
    requires
        m.wf(),
    ensures
        m.listening_scope(scope).wf(),
        m.listening_scope(scope).listened_scopes.contains(scope),
        m.listening_scope(scope).listening_scope(scope) == m.listening_scope(scope),
        !m.listening_scope(scope).unlistening_scope(scope).listened_scopes.contains(scope),
        !m.listened_scopes.contains(scope) ==> m.listening_scope(scope).unlistening_scope(scope)
            == m,
        m.listening_scope(scope).scope_groups == m.scope_groups,
{
    lemma_insert_once(m.listened_scopes, scope);
    lemma_remove_all(insert_once(m.listened_scopes, scope), scope);
    if !m.listened_scopes.contains(scope) {
        lemma_filter_push(m.listened_scopes, differs(scope), scope);
        lemma_remove_all(m.listened_scopes, scope);
    }
}


/// The text of a list of pairs has one entry per pair, in the same order, each
/// the text of that pair; likewise for a list of names.
pub proof fn lemma_views_are_pointwise(v: Seq<(String, String)>, w: Seq<String>)
    ensures
        pairs_view(v).len() == v.len(),
        forall|i: int| 0 <= i < v.len() ==> #[trigger] pairs_view(v)[i] == (v[i].0@, v[i].1@),
        names_view(w).len() == w.len(),
        forall|i: int| 0 <= i < w.len() ==> #[trigger] names_view(w)[i] == w[i]@,
{
}

/// Adding an entry appends it at the end exactly when it is absent; removing
/// an entry drops exactly its copies and keeps every other entry.
pub proof fn lemma_insert_and_remove_shape<A>(s: Seq<A>, x: A)
    ensures
        s.contains(x) ==> insert_once(s, x) == s,
        !s.contains(x) ==> insert_once(s, x) == s.push(x),
        forall|y: A| #[trigger] remove_all(s, x).contains(y) <==> (s.contains(y) && y != x),
        remove_all(s, x).len() <= s.len(),
        !s.contains(x) ==> remove_all(s, x) == s,
{
    let pred = differs(x);
    lemma_filter_contains(s, pred);
    if !s.contains(x) {
        lemma_filter_keeps_all(s, pred);
    }
}

proof fn lemma_filter_contains<A>(s: Seq<A>, pred: spec_fn(A) -> bool)
    ensures
        forall|y: A| #[trigger] s.filter(pred).contains(y) <==> (s.contains(y) && pred(y)),
        s.filter(pred).len() <= s.len(),
    decreases s.len(),
{
    reveal(Seq::filter);
    if s.len() > 0 {
        let init = s.drop_last();
        lemma_filter_contains(init, pred);
        assert(s == init.push(s.last()));
        lemma_filter_push(init, pred, s.last());
        assert forall|y: A| s.contains(y) <==> (init.contains(y) || y == s.last()) by {
            if s.contains(y) {
                let i = choose|i: int| 0 <= i < s.len() && s[i] == y;
                if i < s.len() - 1 {
                    assert(init[i] == y);
                }
            }
            if init.contains(y) {
                let i = choose|i: int| 0 <= i < init.len() && init[i] == y;
                assert(s[i] == y);
            }
            if y == s.last() {
                assert(s[s.len() - 1] == y);
            }
        }
        let f = init.filter(pred);
        assert forall|y: A| f.push(s.last()).contains(y) <==> (f.contains(y) || y == s.last()) by {
            if f.push(s.last()).contains(y) {
                let i = choose|i: int| 0 <= i < f.len() + 1 && f.push(s.last())[i] == y;
                if i < f.len() {
                    assert(f[i] == y);
                }
            }
            if f.contains(y) {
                let i = choose|i: int| 0 <= i < f.len() && f[i] == y;
                assert(f.push(s.last())[i] == y);
            }
            if y == s.last() {
                assert(f.push(s.last())[f.len() as int] == y);
            }
        }
        if pred(s.last()) {
            assert(s.filter(pred) == f.push(s.last()));
        } else {
            assert(s.filter(pred) == f);
        }
        assert forall|y: A| #[trigger] s.filter(pred).contains(y) <==> (s.contains(y) && pred(y)) by {
            assert(s.contains(y) <==> (init.contains(y) || y == s.last()));
            assert(f.contains(y) <==> (init.contains(y) && pred(y)));
            assert(f.push(s.last()).contains(y) <==> (f.contains(y) || y == s.last()));
        }
    } else {
        assert(s.filter(pred).len() == 0);
        assert forall|y: A| #[trigger] s.filter(pred).contains(y) <==> (s.contains(y) && pred(y)) by {
            if s.filter(pred).contains(y) {
                let i = choose|i: int| 0 <= i < s.filter(pred).len() && s.filter(pred)[i] == y;
            }
            if s.contains(y) {
                let i = choose|i: int| 0 <= i < s.len() && s[i] == y;
            }
        }
    }
}


/// Each membership change touches only its own list, and the empty membership
/// holds no entry at all.
pub proof fn lemma_changes_touch_one_list(m: MemberShipView, p: PairView, scope: Seq<char>)
    ensures
        m.joined(p).listened_groups == m.listened_groups && m.joined(p).listened_scopes
            == m.listened_scopes,
        m.left(p).listened_groups == m.listened_groups && m.left(p).listened_scopes
            == m.listened_scopes,
        m.listening_group(p).scope_groups == m.scope_groups && m.listening_group(p).listened_scopes
            == m.listened_scopes,
        m.unlistening_group(p).scope_groups == m.scope_groups
            && m.unlistening_group(p).listened_scopes == m.listened_scopes,
        m.listening_scope(scope).scope_groups == m.scope_groups
            && m.listening_scope(scope).listened_groups == m.listened_groups,
        m.unlistening_scope(scope).scope_groups == m.scope_groups
            && m.unlistening_scope(scope).listened_groups == m.listened_groups,
        m.joined(p).scope_groups == insert_once(m.scope_groups, p),
        m.left(p).scope_groups == remove_all(m.scope_groups, p),
        m.listening_group(p).listened_groups == insert_once(m.listened_groups, p),
        m.unlistening_group(p).listened_groups == remove_all(m.listened_groups, p),
        m.listening_scope(scope).listened_scopes == insert_once(m.listened_scopes, scope),
        m.unlistening_scope(scope).listened_scopes == remove_all(m.listened_scopes, scope),
        MemberShipView::empty().scope_groups.len() == 0,
        MemberShipView::empty().listened_groups.len() == 0,
        MemberShipView::empty().listened_scopes.len() == 0,
{
}

} // verus!
