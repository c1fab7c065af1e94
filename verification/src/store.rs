//! The workflow store: workflow records by identifier, and the audit trace
//! of each workflow in the order its events were appended.
use std::collections::HashMap;
use vstd::prelude::*;

use crate::audit::TraceEvent;
use crate::workflow::{RecordView, WorkflowRecord};

verus! {

broadcast use vstd::std_specs::hash::group_hash_axioms;

/// `part` appended to the path `base` as `PathBuf::push` does on Unix for a
/// relative `part`: a `/` goes between them unless `base` is empty or
/// already ends with one.
pub open spec fn path_join(base: Seq<char>, part: Seq<char>) -> Seq<char> {
    if base.len() == 0 {
        part
    } else if base.last() == '/' {
        base + part
    } else {
        base + "/"@ + part
    }
}

fn join_path(base: &str, part: &str) -> (res: String)
    ensures
        res@ == path_join(base@, part@),
{
    let cs = crate::text::chars_of(base);
    if cs.len() == 0 {
        String::from_str(part)
    } else if cs[cs.len() - 1] == '/' {
        crate::text::concat2(base, part)
    } else {
        crate::text::concat3(base, "/", part)
    }
}

/// Where a persisted store lives under `root`: `.oi/workflows.json`.
pub fn default_store_dir(root: &str) -> (res: String)
    ensures
        res@ == path_join(path_join(root@, ".oi"@), "workflows.json"@),
{
    let dir = join_path(root, ".oi");
    join_path(dir.as_str(), "workflows.json")
}

/// Why the store could not answer.
#[derive(Debug, Clone, Copy, PartialEq, Eq, Structural)]
pub enum MemoryError {
    /// No workflow with this identifier (the 128-bit value of its UUID).
    NotFound(u128),
}

/// The store as a mathematical value.
pub struct StoreView {
    pub workflows: Map<u128, RecordView>,
    pub traces: Map<u128, Seq<TraceEvent>>,
}

impl StoreView {
    /// The empty store.
    pub open spec fn empty() -> StoreView {
        StoreView { workflows: Map::empty(), traces: Map::empty() }
    }

    /// The store after saving `r`: it replaces any record with its identifier.
    pub open spec fn saved(self, r: RecordView) -> StoreView {
        StoreView { workflows: self.workflows.insert(r.id, r), ..self }
    }

    /// What looking up `id` gives.
    pub open spec fn lookup(self, id: u128) -> Result<RecordView, MemoryError> {
        if self.workflows.contains_key(id) {
            Ok(self.workflows[id])
        } else {
            Err(MemoryError::NotFound(id))
        }
    }

    /// The trace of workflow `id`, empty when nothing was appended for it.
    pub open spec fn trace_of(self, id: u128) -> Seq<TraceEvent> {
        if self.traces.contains_key(id) {
            self.traces[id]
        } else {
            Seq::empty()
        }
    }

    /// The store after appending `e` to the trace of its workflow.
    pub open spec fn appended(self, e: TraceEvent) -> StoreView {
        StoreView {
            traces: self.traces.insert(e.workflow_id, self.trace_of(e.workflow_id).push(e)),
            ..self
        }
    }

    /// `records` lists every stored workflow exactly once.
    pub open spec fn lists(self, records: Seq<RecordView>) -> bool {
        &&& records.len() == self.workflows.dom().len()
        &&& forall|i: int|
            0 <= i < records.len() ==> #[trigger] self.workflows.contains_key(records[i].id)
                && self.workflows[records[i].id] == records[i]
        &&& forall|id: u128| #[trigger]
            self.workflows.contains_key(id) ==> exists|i: int|
                0 <= i < records.len() && #[trigger] records[i].id == id
        &&& forall|i: int, j: int|
            0 <= i < j < records.len() ==> #[trigger] records[i].id != #[trigger] records[j].id
    }
}

/// Workflow records and their audit traces, in memory.
pub struct WorkflowStore {
    workflows: HashMap<u128, WorkflowRecord>,
    /// The identifiers of the stored workflows, in the order they were first saved.
    order: Vec<u128>,
    traces: HashMap<u128, Vec<TraceEvent>>,
    /// The identifiers of the workflows with a trace, in the order of their first event.
    traced: Vec<u128>,
}

impl View for WorkflowStore {
    type V = StoreView;

    closed spec fn view(&self) -> StoreView {
        StoreView {
            workflows: self.workflows@.map_values(|r: WorkflowRecord| r@),
            traces: self.traces@.map_values(|v: Vec<TraceEvent>| v@),
        }
    }
}

impl WorkflowStore {
    #[verifier::type_invariant]
    closed spec fn wf(self) -> bool {
        &&& forall|id: u128| #[trigger]
            self.workflows@.contains_key(id) ==> self.workflows@[id].id == id
        &&& forall|id: u128| #[trigger] self.workflows@.contains_key(id) <==> self.order@.contains(id)
        &&& self.order@.no_duplicates()
        &&& forall|id: u128| #[trigger] self.traces@.contains_key(id) <==> self.traced@.contains(id)
        &&& self.traced@.no_duplicates()
    }

    /// An empty store.
    pub fn in_memory() -> (s: Self)
        ensures
            s@ == StoreView::empty(),
    {
        let s = WorkflowStore {
            workflows: HashMap::new(),
            order: Vec::new(),
            traces: HashMap::new(),
            traced: Vec::new(),
        };
        assert(s@.workflows =~= Map::empty());
        assert(s@.traces =~= Map::empty());
        s
    }

    /// Saves a workflow, replacing any record with its identifier.
    pub fn save(&mut self, workflow: WorkflowRecord) -> (r: Result<(), MemoryError>)
        ensures
            r is Ok,
            final(self)@ == old(self)@.saved(workflow@),
    {
        proof {
            use_type_invariant(&*self);
        }
        let id = workflow.id;
        let ghost w = workflow@;
        let mut current = WorkflowStore::in_memory();
        std::mem::swap(self, &mut current);
        proof {
            use_type_invariant(&current);
        }
        let ghost old_order = current.order@;
        let WorkflowStore { workflows, order, traces, traced } = current;
        let mut workflows = workflows;
        let mut order = order;
        let known = workflows.contains_key(&id);
        if !known {
            order.push(id);
        }
        workflows.insert(id, workflow);
        proof {
            assert(known ==> order@ == old_order);
            assert(!known ==> order@ == old_order.push(id));
            assert forall|k: u128| #[trigger] workflows@.contains_key(k) <==> order@.contains(k) by {
                if old_order.contains(k) {
                    let i = choose|i: int| 0 <= i < old_order.len() && old_order[i] == k;
                    assert(order@[i] == k);
                }
                if order@.contains(k) {
                    let i = choose|i: int| 0 <= i < order@.len() && order@[i] == k;
                    if i < old_order.len() {
                        assert(old_order[i] == k);
                    }
                }
                if k == id && !known {
                    assert(order@[old_order.len() as int] == id);
                }
            }
            assert(order@.no_duplicates());
            assert(workflows@.map_values(|r: WorkflowRecord| r@) =~= old(self).workflows@.map_values(
                |r: WorkflowRecord| r@,
            ).insert(id, w));
        }
        *self = WorkflowStore { workflows, order, traces, traced };
        Ok(())
    }

    /// The workflow with identifier `id`.
    pub fn get(&self, id: u128) -> (r: Result<WorkflowRecord, MemoryError>)
        ensures
            match r {
                Ok(w) => self@.lookup(id) == Ok::<RecordView, MemoryError>(w@) && w@.id == id,
                Err(e) => self@.lookup(id) == Err::<RecordView, MemoryError>(e),
            },
    {
        proof {
            use_type_invariant(self);
        }
        match self.workflows.get(&id) {
            Some(w) => Ok(w.clone()),
            None => Err(MemoryError::NotFound(id)),
        }
    }

    /// Every stored workflow, each once.
    pub fn list(&self) -> (r: Result<Vec<WorkflowRecord>, MemoryError>)
        ensures
            r matches Ok(v) && self@.lists(v@.map_values(|w: WorkflowRecord| w@)),
    {
        proof {
            use_type_invariant(self);
        }
        let mut out: Vec<WorkflowRecord> = Vec::new();
        let mut i: usize = 0;
        while i < self.order.len()
            invariant
                i <= self.order@.len(),
                out@.len() == i,
                forall|k: int|
                    0 <= k < i ==> #[trigger] out@[k]@ == self@.workflows[self.order@[k]]
                        && out@[k]@.id == self.order@[k],
                forall|id: u128| #[trigger]
                    self.workflows@.contains_key(id) <==> self.order@.contains(id),
                forall|id: u128| #[trigger]
                    self.workflows@.contains_key(id) ==> self.workflows@[id].id == id,
            decreases self.order@.len() - i,
        {
            let id = self.order[i];
            assert(self.order@.contains(id));
            match self.workflows.get(&id) {
                Some(w) => {
                    out.push(w.clone());
                },
                None => {
                    assert(false);
                },
            }
            i += 1;
        }
        let ghost views = out@.map_values(|w: WorkflowRecord| w@);
        proof {
            assert forall|k: int| 0 <= k < views.len() implies #[trigger] views[k].id == self.order@[k] by {}
            assert(self.workflows@.dom() =~= self.order@.to_set());
            self.order@.unique_seq_to_set();
            assert(self@.workflows.dom() =~= self.workflows@.dom());
            assert forall|id: u128| #[trigger] self@.workflows.contains_key(id) implies exists|k: int|
                0 <= k < views.len() && #[trigger] views[k].id == id by {
                let k = self.order@.index_of(id);
                assert(views[k].id == id);
            }
        }
        Ok(out)
    }

    /// Appends an event to the trace of its workflow.
    pub fn append_trace(&mut self, event: TraceEvent) -> (r: Result<(), MemoryError>)
        ensures
            r is Ok,
            final(self)@ == old(self)@.appended(event),
    {
        let wid = event.workflow_id;
        let mut current = WorkflowStore::in_memory();
        std::mem::swap(self, &mut current);
        proof {
            use_type_invariant(&current);
        }
        let ghost old_traced = current.traced@;
        let WorkflowStore { workflows, order, traces, traced } = current;
        let mut traces = traces;
        let mut traced = traced;
        let ghost before = traces@;
        let known = traces.contains_key(&wid);
        if !known {
            traced.push(wid);
        }
        let mut trace = match traces.remove(&wid) {
            Some(t) => t,
            None => Vec::new(),
        };
        let ghost prev = trace@;
        trace.push(event);
        traces.insert(wid, trace);
        proof {
            assert(old(self)@.trace_of(wid) == prev);
            assert(traces@.map_values(|v: Vec<TraceEvent>| v@) =~= before.map_values(
                |v: Vec<TraceEvent>| v@,
            ).insert(wid, prev.push(event)));
            assert(known ==> traced@ == old_traced);
            assert(!known ==> traced@ == old_traced.push(wid));
            assert forall|k: u128| #[trigger] traces@.contains_key(k) <==> traced@.contains(k) by {
                if old_traced.contains(k) {
                    let i = choose|i: int| 0 <= i < old_traced.len() && old_traced[i] == k;
                    assert(traced@[i] == k);
                }
                if traced@.contains(k) {
                    let i = choose|i: int| 0 <= i < traced@.len() && traced@[i] == k;
                    if i < old_traced.len() {
                        assert(old_traced[i] == k);
                    }
                }
                if k == wid && !known {
                    assert(traced@[old_traced.len() as int] == wid);
                }
            }
            assert(traced@.no_duplicates());
        }
        *self = WorkflowStore { workflows, order, traces, traced };
        Ok(())
    }

    /// The identifiers of the workflows that have a trace, each once.
    pub fn traced_workflows(&self) -> (res: Vec<u128>)
        ensures
            res@.to_set() == self@.traces.dom(),
            res@.no_duplicates(),
    {
        proof {
            use_type_invariant(self);
            assert(self.traced@.to_set() =~= self@.traces.dom());
        }
        self.traced.clone()
    }

    /// The trace of workflow `id`, empty when nothing was appended for it.
    pub fn traces(&self, id: u128) -> (r: Result<Vec<TraceEvent>, MemoryError>)
        ensures
            r matches Ok(v) && v@ == self@.trace_of(id),
    {
        match self.traces.get(&id) {
            Some(t) => {
                let c = t.clone();
                assert(c@ =~= t@);
                Ok(c)
            },
            None => Ok(Vec::new()),
        }
    }
}

} // verus!
