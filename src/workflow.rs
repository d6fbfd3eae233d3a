use vstd::prelude::*;

verus! {

/// One downstream consumer that forwarded messages are posted to.
#[derive(Clone, Debug)]
pub struct WorkflowInfo {
    pub workflow_name: String,
    pub workflow_url: String,
    pub workflow_state: String,
}

/// The identity of a workflow target: its three fields as text.
pub ghost struct WorkflowTarget {
    pub name: Seq<char>,
    pub url: Seq<char>,
    pub state: Seq<char>,
}

impl View for WorkflowInfo {
    type V = WorkflowTarget;

    open spec fn view(&self) -> WorkflowTarget {
        WorkflowTarget { name: self.workflow_name@, url: self.workflow_url@, state: self.workflow_state@ }
    }
}

impl WorkflowInfo {
    pub fn new(workflow_name: String, workflow_url: String, workflow_state: String) -> (r: WorkflowInfo)
        ensures
            r.workflow_name@ == workflow_name@,
            r.workflow_url@ == workflow_url@,
            r.workflow_state@ == workflow_state@,
    {
        WorkflowInfo { workflow_name, workflow_url, workflow_state }
    }

    /// Two targets are the same when all three fields agree.
    pub fn same_target(&self, other: &WorkflowInfo) -> (r: bool)
        ensures
            r == (self@ == other@),
    {
        self.workflow_name == other.workflow_name && self.workflow_url == other.workflow_url
            && self.workflow_state == other.workflow_state
    }

    pub fn duplicate(&self) -> (r: WorkflowInfo)
        ensures
            r@ == self@,
    {
        WorkflowInfo {
            workflow_name: self.workflow_name.clone(),
            workflow_url: self.workflow_url.clone(),
            workflow_state: self.workflow_state.clone(),
        }
    }
}

/// The targets that a list of workflows holds, in order.
pub open spec fn targets(v: Seq<WorkflowInfo>) -> Seq<WorkflowTarget> {
    v.map_values(|w: WorkflowInfo| w@)
}

/// `s` without the first occurrence of `t` (unchanged when `t` is absent).
pub open spec fn remove_first(s: Seq<WorkflowTarget>, t: WorkflowTarget) -> Seq<WorkflowTarget>
    decreases s.len(),
{
    if s.len() == 0 {
        s
    } else if s[0] == t {
        s.drop_first()
    } else {
        seq![s[0]] + remove_first(s.drop_first(), t)
    }
}

/// `s` after removing the first occurrence of each of `ts`, one after another in order.
pub open spec fn remove_each(s: Seq<WorkflowTarget>, ts: Seq<WorkflowTarget>) -> Seq<WorkflowTarget>
    decreases ts.len(),
{
    if ts.len() == 0 {
        s
    } else {
        remove_first(remove_each(s, ts.drop_last()), ts.last())
    }
}

/// The registry after adding `ts`: earlier copies of each are dropped, then all are appended.
pub open spec fn add_targets(s: Seq<WorkflowTarget>, ts: Seq<WorkflowTarget>) -> Seq<WorkflowTarget> {
    remove_each(s, ts) + ts
}

/// The registry after removing `ts`.
pub open spec fn remove_targets(s: Seq<WorkflowTarget>, ts: Seq<WorkflowTarget>) -> Seq<WorkflowTarget> {
    remove_each(s, ts)
}

/// No target occurs twice.
pub open spec fn no_duplicates(s: Seq<WorkflowTarget>) -> bool {
    forall|i: int, j: int| 0 <= i < j < s.len() ==> s[i] != s[j]
}

/// Removing the first occurrence at its index `i` is `Seq::remove`.
proof fn lemma_remove_first_at(s: Seq<WorkflowTarget>, t: WorkflowTarget, i: int)
    requires
        0 <= i < s.len(),
        s[i] == t,
        forall|j: int| 0 <= j < i ==> s[j] != t,
    ensures
        remove_first(s, t) == s.remove(i),
    decreases s.len(),
{
    if i == 0 {
        assert(s.drop_first() =~= s.remove(0));
    } else {
        lemma_remove_first_at(s.drop_first(), t, i - 1);
        assert(seq![s[0]] + s.drop_first().remove(i - 1) =~= s.remove(i));
    }
}

proof fn lemma_remove_first_absent(s: Seq<WorkflowTarget>, t: WorkflowTarget)
    requires
        forall|j: int| 0 <= j < s.len() ==> s[j] != t,
    ensures
        remove_first(s, t) == s,
    decreases s.len(),
{
    if s.len() > 0 {
        lemma_remove_first_absent(s.drop_first(), t);
        assert(seq![s[0]] + s.drop_first() =~= s);
    }
}

/// Removing keeps only elements that were there, keeps them distinct, and leaves no copy of
/// `t` behind when there was at most one.
proof fn lemma_remove_first_props(s: Seq<WorkflowTarget>, t: WorkflowTarget)
    requires
        no_duplicates(s),
    ensures
        no_duplicates(remove_first(s, t)),
        !remove_first(s, t).contains(t),
        forall|x: WorkflowTarget| remove_first(s, t).contains(x) ==> s.contains(x),
    decreases s.len(),
{
    if s.len() > 0 {
        let rest = s.drop_first();
        assert(no_duplicates(rest)) by {
            assert forall|i: int, j: int| 0 <= i < j < rest.len() implies rest[i] != rest[j] by {
                assert(rest[i] == s[i + 1] && rest[j] == s[j + 1]);
            }
        }
        lemma_remove_first_props(rest, t);
        if s[0] == t {
            assert forall|k: int| 0 <= k < rest.len() implies rest[k] != t by {
                assert(rest[k] == s[k + 1]);
            }
        } else {
            let r = remove_first(s, t);
            let rr = remove_first(rest, t);
            assert(r =~= seq![s[0]] + rr);
            assert forall|x: WorkflowTarget| r.contains(x) implies s.contains(x) by {
                let k = choose|k: int| 0 <= k < r.len() && r[k] == x;
                if k > 0 {
                    assert(rr[k - 1] == x);
                    assert(rest.contains(x));
                    let m = choose|m: int| 0 <= m < rest.len() && rest[m] == x;
                    assert(s[m + 1] == x);
                } else {
                    assert(s[0] == x);
                }
            }
            assert(!rr.contains(s[0])) by {
                if rr.contains(s[0]) {
                    assert(rest.contains(s[0]));
                    let m = choose|m: int| 0 <= m < rest.len() && rest[m] == s[0];
                    assert(s[m + 1] == s[0]);
                }
            }
            assert forall|i: int, j: int| 0 <= i < j < r.len() implies r[i] != r[j] by {
                if i == 0 {
                    assert(r[j] == rr[j - 1]);
                } else {
                    assert(r[i] == rr[i - 1] && r[j] == rr[j - 1]);
                }
            }
            assert(!r.contains(t)) by {
                if r.contains(t) {
                    let k = choose|k: int| 0 <= k < r.len() && r[k] == t;
                    assert(k > 0);
                    assert(rr[k - 1] == t);
                }
            }
        }
    }
}

proof fn lemma_remove_each_props(s: Seq<WorkflowTarget>, ts: Seq<WorkflowTarget>)
    requires
        no_duplicates(s),
    ensures
        no_duplicates(remove_each(s, ts)),
        forall|k: int| 0 <= k < ts.len() ==> !remove_each(s, ts).contains(#[trigger] ts[k]),
    decreases ts.len(),
{
    if ts.len() > 0 {
        let prev = remove_each(s, ts.drop_last());
        lemma_remove_each_props(s, ts.drop_last());
        lemma_remove_first_props(prev, ts.last());
        assert forall|k: int| 0 <= k < ts.len() implies !remove_each(s, ts).contains(#[trigger] ts[k]) by {
            if k < ts.len() - 1 {
                assert(ts.drop_last()[k] == ts[k]);
                assert(!prev.contains(ts[k]));
            }
        }
    }
}

/// Adding workflows to a registry without duplicates, where the added list itself holds no
/// target twice, leaves a registry without duplicates that ends with exactly the added list.
pub proof fn lemma_add_keeps_targets_unique(s: Seq<WorkflowTarget>, ts: Seq<WorkflowTarget>)
    requires
        no_duplicates(s),
        no_duplicates(ts),
    ensures
        no_duplicates(add_targets(s, ts)),
        add_targets(s, ts).subrange(
            add_targets(s, ts).len() - ts.len(),
            add_targets(s, ts).len() as int,
        ) == ts,
{
    lemma_remove_each_props(s, ts);
    let r = remove_each(s, ts);
    let a = add_targets(s, ts);
    assert forall|i: int, j: int| 0 <= i < j < a.len() implies a[i] != a[j] by {
        if j < r.len() {
            assert(a[i] == r[i] && a[j] == r[j]);
        } else if i < r.len() {
            assert(a[j] == ts[j - r.len()]);
            assert(a[i] == r[i]);
            assert(!r.contains(ts[j - r.len()]));
        } else {
            assert(a[i] == ts[i - r.len()] && a[j] == ts[j - r.len()]);
        }
    }
    assert(a.subrange(a.len() - ts.len(), a.len() as int) =~= ts);
}

/// Removing workflows from a registry without duplicates keeps it without duplicates, and
/// none of the removed targets is left in it.
pub proof fn lemma_remove_leaves_no_removed_target(s: Seq<WorkflowTarget>, ts: Seq<WorkflowTarget>)
    requires
        no_duplicates(s),
    ensures
        no_duplicates(remove_targets(s, ts)),
        forall|k: int| 0 <= k < ts.len() ==> !remove_targets(s, ts).contains(#[trigger] ts[k]),
{
    lemma_remove_each_props(s, ts);
}

/// The index of the first target in `list` equal to `w`, if any.
pub fn find_element_index(w: &WorkflowInfo, list: &Vec<WorkflowInfo>) -> (r: Option<usize>)
    ensures
        r matches Some(i) ==> i < list@.len() && list@[i as int]@ == w@ && forall|j: int|
            0 <= j < i ==> list@[j]@ != w@,
        r is None ==> forall|j: int| 0 <= j < list@.len() ==> list@[j]@ != w@,
{
    let mut i: usize = 0;
    while i < list.len()
        invariant
            i <= list@.len(),
            forall|j: int| 0 <= j < i ==> list@[j]@ != w@,
        decreases list@.len() - i,
    {
        if list[i].same_target(w) {
            return Some(i);
        }
        i = i + 1;
    }
    None
}

/// Removes the first target equal to `w`, if there is one.
pub fn remove_workflow(list: &mut Vec<WorkflowInfo>, w: &WorkflowInfo)
    ensures
        targets(final(list)@) == remove_first(targets(old(list)@), w@),
{
    let ghost before = targets(list@);
    match find_element_index(w, list) {
        Some(i) => {
            proof {
                lemma_remove_first_at(before, w@, i as int);
            }
            list.remove(i);
            assert(targets(list@) =~= before.remove(i as int));
        },
        None => {
            proof {
                lemma_remove_first_absent(before, w@);
            }
        },
    }
}

/// Removes the first occurrence of each of `to_remove`, in order; absent ones are skipped.
pub fn remove_workflows(list: &mut Vec<WorkflowInfo>, to_remove: &Vec<WorkflowInfo>)
    ensures
        targets(final(list)@) == remove_targets(targets(old(list)@), targets(to_remove@)),
{
    let ghost start = targets(list@);
    let ghost ts = targets(to_remove@);
    let mut k: usize = 0;
    assert(ts.take(0) =~= Seq::<WorkflowTarget>::empty());
    while k < to_remove.len()
        invariant
            k <= to_remove@.len(),
            ts == targets(to_remove@),
            targets(list@) == remove_each(start, ts.take(k as int)),
        decreases to_remove@.len() - k,
    {
        remove_workflow(list, &to_remove[k]);
        assert(ts.take(k + 1).drop_last() =~= ts.take(k as int));
        k = k + 1;
    }
    assert(ts.take(k as int) =~= ts);
}

/// Adds `to_add`: an existing copy of each is removed first, then all of them are appended
/// in their own order.
pub fn add_workflows(list: &mut Vec<WorkflowInfo>, to_add: &Vec<WorkflowInfo>)
    ensures
        targets(final(list)@) == add_targets(targets(old(list)@), targets(to_add@)),
{
    let ghost ts = targets(to_add@);
    remove_workflows(list, to_add);
    let ghost mid = targets(list@);
    let mut k: usize = 0;
    while k < to_add.len()
        invariant
            k <= to_add@.len(),
            ts == targets(to_add@),
            targets(list@) == mid + ts.take(k as int),
        decreases to_add@.len() - k,
    {
        let ghost prev = list@;
        let item = to_add[k].duplicate();
        list.push(item);
        assert(list@ == prev.push(item));
        assert(item@ == ts[k as int]);
        assert(targets(list@) =~= targets(prev).push(item@));
        assert(mid + ts.take(k + 1) =~= (mid + ts.take(k as int)).push(ts[k as int]));
        k = k + 1;
    }
    assert(ts.take(k as int) =~= ts);
}

/// A copy of a workflow list, target for target.
pub fn copy_workflows(v: &Vec<WorkflowInfo>) -> (r: Vec<WorkflowInfo>)
    ensures
        targets(r@) == targets(v@),
{
    let mut out: Vec<WorkflowInfo> = Vec::new();
    let mut i: usize = 0;
    while i < v.len()
        invariant
            i <= v@.len(),
            targets(out@) == targets(v@).take(i as int),
        decreases v@.len() - i,
    {
        let ghost prev = out@;
        let w = v[i].duplicate();
        out.push(w);
        assert(targets(out@) =~= targets(prev).push(w@));
        assert(targets(v@).take(i + 1) =~= targets(v@).take(i as int).push(v@[i as int]@));
        i = i + 1;
    }
    assert(targets(v@).take(i as int) =~= targets(v@));
    out
}

} // verus!
