//! The agent's books: the descriptors that were onboarded, the instances
//! that were defined, and the rules by which they change.
//!
//! An agent keeps these books for its node and applies the lifecycle to
//! them. Work on an instance is done by the node's hypervisor plugin, which
//! the agent reaches through the plugin's bridge; the books say whether a
//! request may go to the plugin at all ([`Agent::permit`]) and what becomes
//! of the record once the plugin has answered ([`Agent::conclude`]).

use crate::api::{ApiReply, ApiRequest};
use crate::error::{ErrorKind, FError};
use crate::identifier::Identifier;
use crate::im::{FduDescriptor, FduRecord, FduState};
use crate::lifecycle::{refusal, LifecycleOp};
use vstd::prelude::*;

verus! {

/// What the books hold.
pub struct AgentView {
    /// The agent's node. The books are well formed, as they are at all
    /// times; every operation says so.
    pub node: Identifier,
    /// The descriptors that were onboarded.
    pub descriptors: Set<Identifier>,
    /// The instances that are defined, each with its record.
    pub records: Map<Identifier, FduRecord>,
}

/// What is to be done about a request.
#[derive(Clone, Copy, Debug, PartialEq, Eq, Hash)]
pub enum Verdict {
    /// The books settled it: this is the answer.
    Reply(ApiReply),
    /// The plugin has to do `op` on the instance first; its answer goes to
    /// [`Agent::conclude`].
    Dispatch { op: LifecycleOp, instance_uuid: Identifier },
}

/// The message of the error for a descriptor or an instance that the books
/// do not hold.
pub open spec fn not_found() -> Seq<char> {
    "not found"@
}

/// The message of the error for an identifier that the books hold already.
pub open spec fn already_present() -> Seq<char> {
    "already present"@
}

/// The message of the error for offloading a descriptor that has instances.
pub open spec fn in_use() -> Seq<char> {
    "the descriptor has instances"@
}

/// No two records of `rs` are of the same instance.
pub open spec fn distinct_instances(rs: Seq<FduRecord>) -> bool {
    forall|i: int, j: int| 0 <= i < j < rs.len() ==> rs[i].uuid != rs[j].uuid
}

/// The records of `rs`, each under its instance.
pub open spec fn by_instance(rs: Seq<FduRecord>) -> Map<Identifier, FduRecord> {
    Map::new(
        |id: Identifier| exists|i: int| 0 <= i < rs.len() && rs[i].uuid == id,
        |id: Identifier| rs[choose|i: int| 0 <= i < rs.len() && rs[i].uuid == id],
    )
}

impl AgentView {
    /// Whether some instance of `fdu_uuid` is defined.
    pub open spec fn has_instances(self, fdu_uuid: Identifier) -> bool {
        exists|id: Identifier| #[trigger]
            self.records.contains_key(id) && self.records[id].fdu_uuid == fdu_uuid
    }

    /// Every record is kept under its own instance, is of a descriptor that
    /// was onboarded, and has a node once it is configured or running.
    pub open spec fn wf(self) -> bool {
        forall|id: Identifier| #[trigger]
            self.records.contains_key(id) ==> {
                &&& self.records[id].uuid == id
                &&& self.descriptors.contains(self.records[id].fdu_uuid)
                &&& self.records[id].wf()
            }
    }

    /// Whether the instance is there and its status admits `op`.
    pub open spec fn admits(self, op: LifecycleOp, instance_uuid: Identifier) -> bool {
        self.records.contains_key(instance_uuid) && self.records[instance_uuid].admits(op)
    }

    /// The books after `op` was done on an instance that admits it: the
    /// record moves on, or leaves when it is undefined.
    pub open spec fn concluded(self, op: LifecycleOp, instance_uuid: Identifier) -> AgentView {
        let next = self.records[instance_uuid].after(op, self.node);
        AgentView {
            records: if op == LifecycleOp::Undefine {
                self.records.remove(instance_uuid)
            } else {
                self.records.insert(instance_uuid, next)
            },
            ..self
        }
    }

    /// What the books answer to `op` on an instance before the plugin is
    /// asked: that it may go to the plugin, or why not.
    pub open spec fn screened(self, op: LifecycleOp, instance_uuid: Identifier) -> Result<
        Verdict,
        Seq<char>,
    > {
        if !self.records.contains_key(instance_uuid) {
            Err(not_found())
        } else if !self.records[instance_uuid].admits(op) {
            Err(refusal())
        } else {
            Ok(Verdict::Dispatch { op, instance_uuid })
        }
    }

    /// What the books answer to a request: the verdict, or the message of
    /// the lifecycle error. `fresh` is the identifier for what the request
    /// creates.
    pub open spec fn answer(self, request: ApiRequest, fresh: Identifier) -> Result<
        Verdict,
        Seq<char>,
    > {
        match request {
            ApiRequest::OnboardFdu(descriptor) => {
                let id = match descriptor.uuid {
                    Some(own) => own,
                    None => fresh,
                };
                if self.descriptors.contains(id) {
                    Err(already_present())
                } else {
                    Ok(Verdict::Reply(ApiReply::Identifier(id)))
                }
            },
            ApiRequest::DefineFdu { fdu_uuid, node_uuid } => {
                if !self.descriptors.contains(fdu_uuid) {
                    Err(not_found())
                } else if self.records.contains_key(fresh) {
                    Err(already_present())
                } else {
                    Ok(
                        Verdict::Reply(
                            ApiReply::Record(
                                FduRecord {
                                    uuid: fresh,
                                    fdu_uuid,
                                    node: node_uuid,
                                    status: FduState::Defined,
                                },
                            ),
                        ),
                    )
                }
            },
            ApiRequest::ConfigureFdu(id) => self.screened(LifecycleOp::Configure, id),
            ApiRequest::StartFdu(id) => self.screened(LifecycleOp::Start, id),
            ApiRequest::StopFdu(id) => self.screened(LifecycleOp::Stop, id),
            ApiRequest::CleanFdu(id) => self.screened(LifecycleOp::Clean, id),
            ApiRequest::UndefineFdu(id) => self.screened(LifecycleOp::Undefine, id),
            ApiRequest::OffloadFdu(fdu_uuid) => {
                if !self.descriptors.contains(fdu_uuid) {
                    Err(not_found())
                } else if self.has_instances(fdu_uuid) {
                    Err(in_use())
                } else {
                    Ok(Verdict::Reply(ApiReply::Identifier(fdu_uuid)))
                }
            },
        }
    }

    /// The books after a request. Only a request that is answered with a
    /// reply changes them: onboarding adds the descriptor, defining adds the
    /// record, offloading takes the descriptor out.
    pub open spec fn received(self, request: ApiRequest, fresh: Identifier) -> AgentView {
        match self.answer(request, fresh) {
            Ok(Verdict::Reply(ApiReply::Identifier(id))) => AgentView {
                descriptors: if request is OffloadFdu {
                    self.descriptors.remove(id)
                } else {
                    self.descriptors.insert(id)
                },
                ..self
            },
            Ok(Verdict::Reply(ApiReply::Record(record))) => AgentView {
                records: self.records.insert(record.uuid, record),
                ..self
            },
            _ => self,
        }
    }
}

/// The two lists of the books.
struct Books {
    descriptors: Vec<Identifier>,
    records: Vec<FduRecord>,
}

/// The books of one node's agent.
pub struct Agent {
    node: Identifier,
    books: Books,
}

proof fn lemma_by_instance_index(rs: Seq<FduRecord>, i: int)
    requires
        distinct_instances(rs),
        0 <= i < rs.len(),
    ensures
        by_instance(rs).contains_key(rs[i].uuid),
        by_instance(rs)[rs[i].uuid] == rs[i],
{
    let id = rs[i].uuid;
    let j = choose|j: int| 0 <= j < rs.len() && rs[j].uuid == id;
    assert(0 <= j < rs.len() && rs[j].uuid == id);
    assert(j == i) by {
        if j < i {
            assert(rs[j].uuid != rs[i].uuid);
        } else if i < j {
            assert(rs[i].uuid != rs[j].uuid);
        }
    }
}

proof fn lemma_by_instance_push(rs: Seq<FduRecord>, r: FduRecord)
    requires
        distinct_instances(rs),
        !by_instance(rs).contains_key(r.uuid),
    ensures
        distinct_instances(rs.push(r)),
        by_instance(rs.push(r)) == by_instance(rs).insert(r.uuid, r),
{
    let next = rs.push(r);
    assert forall|i: int, j: int| 0 <= i < j < next.len() implies next[i].uuid != next[j].uuid by {
        if j == rs.len() {
            assert(rs[i].uuid == next[i].uuid);
        }
    }
    assert forall|id: Identifier| #[trigger]
        by_instance(next).contains_key(id) <==> by_instance(rs).insert(r.uuid, r).contains_key(
            id,
        ) by {
        if by_instance(next).contains_key(id) {
            let i = choose|i: int| 0 <= i < next.len() && next[i].uuid == id;
            if i < rs.len() {
                assert(rs[i].uuid == id);
            }
        }
        if by_instance(rs).contains_key(id) {
            let i = choose|i: int| 0 <= i < rs.len() && rs[i].uuid == id;
            assert(next[i].uuid == id);
        }
        if id == r.uuid {
            assert(next[rs.len() as int].uuid == id);
        }
    }
    assert forall|id: Identifier| #[trigger]
        by_instance(next).contains_key(id) implies by_instance(next)[id] == by_instance(rs).insert(
        r.uuid,
        r,
    )[id] by {
        let i = choose|i: int| 0 <= i < next.len() && next[i].uuid == id;
        lemma_by_instance_index(next, i);
        if i < rs.len() {
            lemma_by_instance_index(rs, i);
        }
    }
    assert(by_instance(next) =~= by_instance(rs).insert(r.uuid, r));
}

proof fn lemma_by_instance_update(rs: Seq<FduRecord>, i: int, r: FduRecord)
    requires
        distinct_instances(rs),
        0 <= i < rs.len(),
        r.uuid == rs[i].uuid,
    ensures
        distinct_instances(rs.update(i, r)),
        by_instance(rs.update(i, r)) == by_instance(rs).insert(r.uuid, r),
{
    let next = rs.update(i, r);
    assert forall|a: int, b: int| 0 <= a < b < next.len() implies next[a].uuid != next[b].uuid by {
        assert(next[a].uuid == rs[a].uuid);
        assert(next[b].uuid == rs[b].uuid);
    }
    assert forall|id: Identifier| #[trigger]
        by_instance(next).contains_key(id) <==> by_instance(rs).insert(r.uuid, r).contains_key(
            id,
        ) by {
        if by_instance(next).contains_key(id) {
            let k = choose|k: int| 0 <= k < next.len() && next[k].uuid == id;
            assert(rs[k].uuid == id);
        }
        if by_instance(rs).contains_key(id) {
            let k = choose|k: int| 0 <= k < rs.len() && rs[k].uuid == id;
            assert(next[k].uuid == id);
        }
        if id == r.uuid {
            assert(next[i].uuid == id);
        }
    }
    assert forall|id: Identifier| #[trigger]
        by_instance(next).contains_key(id) implies by_instance(next)[id] == by_instance(rs).insert(
        r.uuid,
        r,
    )[id] by {
        let k = choose|k: int| 0 <= k < next.len() && next[k].uuid == id;
        lemma_by_instance_index(next, k);
        if k != i {
            lemma_by_instance_index(rs, k);
        }
    }
    assert(by_instance(next) =~= by_instance(rs).insert(r.uuid, r));
}

proof fn lemma_by_instance_remove(rs: Seq<FduRecord>, i: int)
    requires
        distinct_instances(rs),
        0 <= i < rs.len(),
    ensures
        distinct_instances(rs.remove(i)),
        by_instance(rs.remove(i)) == by_instance(rs).remove(rs[i].uuid),
{
    let next = rs.remove(i);
    let gone = rs[i].uuid;
    assert forall|a: int, b: int| 0 <= a < b < next.len() implies next[a].uuid != next[b].uuid by {
        let a0 = if a < i {
            a
        } else {
            a + 1
        };
        let b0 = if b < i {
            b
        } else {
            b + 1
        };
        assert(next[a] == rs[a0]);
        assert(next[b] == rs[b0]);
        assert(a0 < b0);
    }
    assert forall|id: Identifier| #[trigger]
        by_instance(next).contains_key(id) <==> by_instance(rs).remove(gone).contains_key(id) by {
        if by_instance(next).contains_key(id) {
            let k = choose|k: int| 0 <= k < next.len() && next[k].uuid == id;
            let k0 = if k < i {
                k
            } else {
                k + 1
            };
            assert(next[k] == rs[k0]);
            assert(rs[k0].uuid == id);
            if k0 < i {
                assert(rs[k0].uuid != rs[i].uuid);
            } else {
                assert(rs[i].uuid != rs[k0].uuid);
            }
        }
        if by_instance(rs).contains_key(id) && id != gone {
            let k = choose|k: int| 0 <= k < rs.len() && rs[k].uuid == id;
            let k1 = if k < i {
                k
            } else {
                k - 1
            };
            assert(next[k1] == rs[k]);
            assert(next[k1].uuid == id);
        }
    }
    assert forall|id: Identifier| #[trigger]
        by_instance(next).contains_key(id) implies by_instance(next)[id] == by_instance(rs).remove(
        gone,
    )[id] by {
        let k = choose|k: int| 0 <= k < next.len() && next[k].uuid == id;
        let k0 = if k < i {
            k
        } else {
            k + 1
        };
        assert(next[k] == rs[k0]);
        lemma_by_instance_index(next, k);
        lemma_by_instance_index(rs, k0);
    }
    assert(by_instance(next) =~= by_instance(rs).remove(gone));
}

/// Every record of `rs` is of a descriptor in `ds` and is well formed.
spec fn of_onboarded(ds: Seq<Identifier>, rs: Seq<FduRecord>) -> bool {
    forall|i: int|
        0 <= i < rs.len() ==> {
            &&& ds.contains(#[trigger] rs[i].fdu_uuid)
            &&& rs[i].wf()
        }
}

/// Books whose records are distinct, of onboarded descriptors and each well
/// formed show a well-formed view.
proof fn lemma_books_wf(node: Identifier, ds: Seq<Identifier>, rs: Seq<FduRecord>)
    requires
        of_onboarded(ds, rs),
        distinct_instances(rs),
    ensures
        (AgentView { node, descriptors: ds.to_set(), records: by_instance(rs) }).wf(),
{
    let v = AgentView { node, descriptors: ds.to_set(), records: by_instance(rs) };
    assert forall|id: Identifier| #[trigger] v.records.contains_key(id) implies {
        &&& v.records[id].uuid == id
        &&& v.descriptors.contains(v.records[id].fdu_uuid)
        &&& v.records[id].wf()
    } by {
        let i = choose|i: int| 0 <= i < rs.len() && rs[i].uuid == id;
        lemma_by_instance_index(rs, i);
        assert(ds.contains(rs[i].fdu_uuid));
    }
}

impl Agent {
    #[verifier::type_invariant]
    spec fn inv(self) -> bool {
        &&& self.books.descriptors@.no_duplicates()
        &&& distinct_instances(self.books.records@)
        &&& of_onboarded(self.books.descriptors@, self.books.records@)
    }

    pub closed spec fn view(&self) -> AgentView {
        AgentView {
            node: self.node,
            descriptors: self.books.descriptors@.to_set(),
            records: by_instance(self.books.records@),
        }
    }

    /// Empty books for the agent of `node`.
    pub fn new(node: Identifier) -> (agent: Agent)
        ensures
            agent@.node == node,
            agent@.descriptors == Set::<Identifier>::empty(),
            agent@.records == Map::<Identifier, FduRecord>::empty(),
            agent@.wf(),
    {
        let agent = Agent { node, books: Books { descriptors: Vec::new(), records: Vec::new() } };
        assert(agent@.descriptors =~= Set::<Identifier>::empty());
        assert(agent@.records =~= Map::<Identifier, FduRecord>::empty());
        agent
    }

    /// The agent's node.
    pub fn node(&self) -> (node: Identifier)
        ensures
            self@.wf(),
            node == self@.node,
    {
        proof {
            use_type_invariant(self);
            lemma_books_wf(self.node, self.books.descriptors@, self.books.records@);
        }
        self.node
    }

    /// Where the descriptor stands in the books.
    fn find_descriptor(&self, fdu_uuid: Identifier) -> (r: Option<usize>)
        ensures
            match r {
                Some(i) => i < self.books.descriptors@.len() && self.books.descriptors@[i as int] == fdu_uuid,
                None => !self.books.descriptors@.contains(fdu_uuid),
            },
            r is Some <==> self@.descriptors.contains(fdu_uuid),
    {
        let mut i: usize = 0;
        while i < self.books.descriptors.len()
            invariant
                i <= self.books.descriptors@.len(),
                forall|k: int| 0 <= k < i ==> self.books.descriptors@[k] != fdu_uuid,
            decreases self.books.descriptors@.len() - i,
        {
            if self.books.descriptors[i].value == fdu_uuid.value {
                return Some(i);
            }
            i += 1;
        }
        None
    }

    /// Where the instance's record stands in the books.
    fn find_record(&self, instance_uuid: Identifier) -> (r: Option<usize>)
        ensures
            match r {
                Some(i) => {
                    &&& i < self.books.records@.len()
                    &&& self.books.records@[i as int].uuid == instance_uuid
                    &&& self@.records.contains_key(instance_uuid)
                    &&& self@.records[instance_uuid] == self.books.records@[i as int]
                },
                None => !self@.records.contains_key(instance_uuid),
            },
    {
        proof {
            use_type_invariant(self);
        }
        let mut i: usize = 0;
        while i < self.books.records.len()
            invariant
                i <= self.books.records@.len(),
                distinct_instances(self.books.records@),
                forall|k: int| 0 <= k < i ==> self.books.records@[k].uuid != instance_uuid,
            decreases self.books.records@.len() - i,
        {
            if self.books.records[i].uuid.value == instance_uuid.value {
                proof {
                    lemma_by_instance_index(self.books.records@, i as int);
                }
                return Some(i);
            }
            i += 1;
        }
        None
    }

    /// Whether some instance of the descriptor is defined.
    fn has_instances(&self, fdu_uuid: Identifier) -> (b: bool)
        ensures
            b == self@.has_instances(fdu_uuid),
            !b ==> forall|k: int|
                0 <= k < self.books.records@.len() ==> (#[trigger] self.books.records@[k]).fdu_uuid != fdu_uuid,
    {
        proof {
            use_type_invariant(self);
        }
        let mut i: usize = 0;
        while i < self.books.records.len()
            invariant
                i <= self.books.records@.len(),
                distinct_instances(self.books.records@),
                forall|k: int| 0 <= k < i ==> (#[trigger] self.books.records@[k]).fdu_uuid != fdu_uuid,
            decreases self.books.records@.len() - i,
        {
            if self.books.records[i].fdu_uuid.value == fdu_uuid.value {
                proof {
                    lemma_by_instance_index(self.books.records@, i as int);
                    assert(self@.records.contains_key(self.books.records@[i as int].uuid));
                }
                return true;
            }
            i += 1;
        }
        proof {
            let rs = self.books.records@;
            assert forall|id: Identifier| #[trigger]
                self@.records.contains_key(id) implies self@.records[id].fdu_uuid != fdu_uuid by {
                let k = choose|k: int| 0 <= k < rs.len() && rs[k].uuid == id;
                lemma_by_instance_index(rs, k);
            }
        }
        false
    }

    /// Takes a descriptor into the books, under its own identifier or, if
    /// it has none, under `fresh`. An identifier that the books hold already
    /// is turned down.
    pub fn onboard(&mut self, descriptor: FduDescriptor, fresh: Identifier) -> (r: Result<
        Identifier,
        FError,
    >)
        ensures
            final(self)@.wf(),
            ({
                let id = match descriptor.uuid {
                    Some(own) => own,
                    None => fresh,
                };
                match r {
                    Ok(given) => {
                        &&& given == id
                        &&& !old(self)@.descriptors.contains(id)
                        &&& final(self)@ == (AgentView {
                            descriptors: old(self)@.descriptors.insert(id),
                            ..old(self)@
                        })
                    },
                    Err(e) => {
                        &&& old(self)@.descriptors.contains(id)
                        &&& final(self)@ == old(self)@
                        &&& e.kind == ErrorKind::Lifecycle
                        &&& e.message@ == already_present()
                    },
                }
            }),
    {
        proof {
            use_type_invariant(&*self);
            lemma_books_wf(self.node, self.books.descriptors@, self.books.records@);
        }
        let id = match descriptor.uuid {
            Some(own) => own,
            None => fresh,
        };
        match self.find_descriptor(id) {
            Some(_) => Err(FError::new(ErrorKind::Lifecycle, "already present".to_string())),
            None => {
                let ghost before = self.books.descriptors@;
                let ghost records = self.books.records@;
                let mut books = Books { descriptors: Vec::new(), records: Vec::new() };
                std::mem::swap(&mut self.books, &mut books);
                books.descriptors.push(id);
                proof {
                    assert(books.descriptors@ == before.push(id));
                    assert(books.descriptors@.to_set() =~= before.to_set().insert(id)) by {
                        assert forall|x: Identifier|
                            books.descriptors@.to_set().contains(x) <==> before.to_set().insert(
                                id,
                            ).contains(x) by {
                            if before.push(id).contains(x) {
                                let k = choose|k: int|
                                    0 <= k < before.push(id).len() && before.push(id)[k] == x;
                                if k < before.len() {
                                    assert(before[k] == x);
                                }
                            }
                            if before.contains(x) {
                                let k = choose|k: int| 0 <= k < before.len() && before[k] == x;
                                assert(before.push(id)[k] == x);
                            }
                            if x == id {
                                assert(before.push(id)[before.len() as int] == x);
                            }
                        }
                    }
                    assert forall|i: int| 0 <= i < records.len() implies books.descriptors@.contains(
                        #[trigger] records[i].fdu_uuid,
                    ) by {
                        let f = records[i].fdu_uuid;
                        assert(before.contains(f));
                        let k = choose|k: int| 0 <= k < before.len() && before[k] == f;
                        assert(before.push(id)[k] == f);
                    }
                    assert(before.push(id).no_duplicates());
                }
                std::mem::swap(&mut self.books, &mut books);
                proof {
                    use_type_invariant(&*self);
                    lemma_books_wf(self.node, self.books.descriptors@, self.books.records@);
                }
                Ok(id)
            },
        }
    }

    /// Defines an instance of a descriptor under the identifier `fresh`,
    /// bound to `node_uuid` if one is given. The record starts as `Defined`.
    /// A descriptor that was not onboarded is not found; an instance
    /// identifier that the books hold already is turned down.
    pub fn define(&mut self, fdu_uuid: Identifier, node_uuid: Option<Identifier>, fresh: Identifier) -> (r:
        Result<FduRecord, FError>)
        ensures
            final(self)@.wf(),
            match r {
                Ok(record) => {
                    &&& old(self)@.descriptors.contains(fdu_uuid)
                    &&& !old(self)@.records.contains_key(fresh)
                    &&& record == (FduRecord {
                        uuid: fresh,
                        fdu_uuid,
                        node: node_uuid,
                        status: FduState::Defined,
                    })
                    &&& final(self)@ == (AgentView {
                        records: old(self)@.records.insert(fresh, record),
                        ..old(self)@
                    })
                },
                Err(e) => {
                    &&& final(self)@ == old(self)@
                    &&& e.kind == ErrorKind::Lifecycle
                    &&& if !old(self)@.descriptors.contains(fdu_uuid) {
                        e.message@ == not_found()
                    } else {
                        old(self)@.records.contains_key(fresh) && e.message@ == already_present()
                    }
                },
            },
    {
        proof {
            use_type_invariant(&*self);
            lemma_books_wf(self.node, self.books.descriptors@, self.books.records@);
        }
        if self.find_descriptor(fdu_uuid).is_none() {
            return Err(FError::new(ErrorKind::Lifecycle, "not found".to_string()));
        }
        if self.find_record(fresh).is_some() {
            return Err(FError::new(ErrorKind::Lifecycle, "already present".to_string()));
        }
        let record = FduRecord::define(fresh, fdu_uuid, node_uuid);
        proof {
            lemma_by_instance_push(self.books.records@, record);
        }
        let mut books = Books { descriptors: Vec::new(), records: Vec::new() };
        std::mem::swap(&mut self.books, &mut books);
        books.records.push(record);
        std::mem::swap(&mut self.books, &mut books);
        proof {
            use_type_invariant(&*self);
            lemma_books_wf(self.node, self.books.descriptors@, self.books.records@);
        }
        Ok(record)
    }

    /// Whether `op` may go to the plugin: the instance is there and its
    /// status admits `op`. An instance that the books do not hold is not
    /// found; an operation that the status does not permit is turned down.
    pub fn permit(&self, op: LifecycleOp, instance_uuid: Identifier) -> (r: Result<(), FError>)
        ensures
            self@.wf(),
            match r {
                Ok(_) => self@.admits(op, instance_uuid),
                Err(e) => {
                    &&& !self@.admits(op, instance_uuid)
                    &&& e.kind == ErrorKind::Lifecycle
                    &&& if self@.records.contains_key(instance_uuid) {
                        e.message@ == refusal()
                    } else {
                        e.message@ == not_found()
                    }
                },
            },
    {
        proof {
            use_type_invariant(self);
            lemma_books_wf(self.node, self.books.descriptors@, self.books.records@);
        }
        match self.find_record(instance_uuid) {
            None => Err(FError::new(ErrorKind::Lifecycle, "not found".to_string())),
            Some(i) => {
                if self.books.records[i].can(op) {
                    Ok(())
                } else {
                    Err(FError::new(ErrorKind::Lifecycle, "transition not allowed".to_string()))
                }
            },
        }
    }

    /// Takes in the plugin's answer to `op`. The plugin's error is handed on
    /// as it came and the books stay as they were. On its success the record
    /// moves on as the lifecycle says, bound to the agent's node if it had
    /// none, and leaves the books if it was undefined; the record after the
    /// step is the answer. An instance that is not there, or whose status
    /// does not permit `op`, fails as in [`Agent::permit`], and the books stay
    /// as they were.
    pub fn conclude(
        &mut self,
        op: LifecycleOp,
        instance_uuid: Identifier,
        outcome: Result<Identifier, FError>,
    ) -> (r: Result<FduRecord, FError>)
        ensures
            final(self)@.wf(),
            match outcome {
                Err(e) => r == Err::<FduRecord, FError>(e) && final(self)@ == old(self)@,
                Ok(_) => match r {
                    Ok(record) => {
                        &&& old(self)@.admits(op, instance_uuid)
                        &&& record == old(self)@.records[instance_uuid].after(op, old(self)@.node)
                        &&& final(self)@ == old(self)@.concluded(op, instance_uuid)
                    },
                    Err(e) => {
                        &&& !old(self)@.admits(op, instance_uuid)
                        &&& final(self)@ == old(self)@
                        &&& e.kind == ErrorKind::Lifecycle
                        &&& if old(self)@.records.contains_key(instance_uuid) {
                            e.message@ == refusal()
                        } else {
                            e.message@ == not_found()
                        }
                    },
                },
            },
    {
        proof {
            use_type_invariant(&*self);
            lemma_books_wf(self.node, self.books.descriptors@, self.books.records@);
        }
        if let Err(e) = outcome {
            return Err(e);
        }
        let i = match self.find_record(instance_uuid) {
            None => {
                return Err(FError::new(ErrorKind::Lifecycle, "not found".to_string()));
            },
            Some(i) => i,
        };
        let current = self.books.records[i];
        let next = match current.apply(op, self.node) {
            Err(e) => {
                return Err(e);
            },
            Ok(next) => next,
        };
        let ghost before = self.books.records@;
        let mut books = Books { descriptors: Vec::new(), records: Vec::new() };
        std::mem::swap(&mut self.books, &mut books);
        match op {
            LifecycleOp::Undefine => {
                proof {
                    lemma_by_instance_remove(before, i as int);
                    assert forall|k: int| 0 <= k < before.remove(i as int).len() implies {
                        &&& books.descriptors@.contains(
                            #[trigger] before.remove(i as int)[k].fdu_uuid,
                        )
                        &&& before.remove(i as int)[k].wf()
                    } by {
                        let k0 = if k < i {
                            k
                        } else {
                            k + 1
                        };
                        assert(before.remove(i as int)[k] == before[k0]);
                        assert(books.descriptors@.contains(before[k0].fdu_uuid));
                    }
                }
                books.records.remove(i);
            },
            _ => {
                proof {
                    lemma_by_instance_update(before, i as int, next);
                    assert forall|k: int| 0 <= k < before.update(i as int, next).len() implies {
                        &&& books.descriptors@.contains(
                            #[trigger] before.update(i as int, next)[k].fdu_uuid,
                        )
                        &&& before.update(i as int, next)[k].wf()
                    } by {
                        if k != i {
                            assert(before.update(i as int, next)[k] == before[k]);
                        }
                        assert(books.descriptors@.contains(before[k].fdu_uuid));
                    }
                }
                books.records.set(i, next);
            },
        }
        std::mem::swap(&mut self.books, &mut books);
        proof {
            use_type_invariant(&*self);
            lemma_books_wf(self.node, self.books.descriptors@, self.books.records@);
        }
        Ok(next)
    }

    /// Takes a descriptor out of the books. A descriptor that was not
    /// onboarded is not found; one that still has instances stays.
    pub fn offload(&mut self, fdu_uuid: Identifier) -> (r: Result<Identifier, FError>)
        ensures
            final(self)@.wf(),
            match r {
                Ok(gone) => {
                    &&& gone == fdu_uuid
                    &&& old(self)@.descriptors.contains(fdu_uuid)
                    &&& !old(self)@.has_instances(fdu_uuid)
                    &&& final(self)@ == (AgentView {
                        descriptors: old(self)@.descriptors.remove(fdu_uuid),
                        ..old(self)@
                    })
                },
                Err(e) => {
                    &&& final(self)@ == old(self)@
                    &&& e.kind == ErrorKind::Lifecycle
                    &&& if !old(self)@.descriptors.contains(fdu_uuid) {
                        e.message@ == not_found()
                    } else {
                        old(self)@.has_instances(fdu_uuid) && e.message@ == in_use()
                    }
                },
            },
    {
        proof {
            use_type_invariant(&*self);
            lemma_books_wf(self.node, self.books.descriptors@, self.books.records@);
        }
        let i = match self.find_descriptor(fdu_uuid) {
            None => {
                return Err(FError::new(ErrorKind::Lifecycle, "not found".to_string()));
            },
            Some(i) => i,
        };
        if self.has_instances(fdu_uuid) {
            return Err(
                FError::new(ErrorKind::Lifecycle, "the descriptor has instances".to_string()),
            );
        }
        let ghost before = self.books.descriptors@;
        let ghost records = self.books.records@;
        proof {
            let after = before.remove(i as int);
            assert forall|a: int, b: int| 0 <= a < after.len() && 0 <= b < after.len() && a
                != b implies after[a] != after[b] by {
                let a0 = if a < i {
                    a
                } else {
                    a + 1
                };
                let b0 = if b < i {
                    b
                } else {
                    b + 1
                };
                assert(after[a] == before[a0]);
                assert(after[b] == before[b0]);
            }
            assert forall|x: Identifier|
                after.to_set().contains(x) <==> before.to_set().remove(fdu_uuid).contains(x) by {
                if after.contains(x) {
                    let k = choose|k: int| 0 <= k < after.len() && after[k] == x;
                    let k0 = if k < i {
                        k
                    } else {
                        k + 1
                    };
                    assert(after[k] == before[k0]);
                    assert(before[k0] == x);
                    assert(k0 != i);
                }
                if before.contains(x) && x != fdu_uuid {
                    let k = choose|k: int| 0 <= k < before.len() && before[k] == x;
                    let k1 = if k < i {
                        k
                    } else {
                        k - 1
                    };
                    assert(after[k1] == before[k]);
                }
            }
            assert(after.to_set() =~= before.to_set().remove(fdu_uuid));
            assert forall|k: int| 0 <= k < records.len() implies after.contains(
                #[trigger] records[k].fdu_uuid,
            ) by {
                let f = records[k].fdu_uuid;
                assert(before.contains(f));
                assert(f != fdu_uuid);
                let j = choose|j: int| 0 <= j < before.len() && before[j] == f;
                let j1 = if j < i {
                    j
                } else {
                    j - 1
                };
                assert(after[j1] == before[j]);
            }
        }
        let mut books = Books { descriptors: Vec::new(), records: Vec::new() };
        std::mem::swap(&mut self.books, &mut books);
        books.descriptors.remove(i);
        std::mem::swap(&mut self.books, &mut books);
        proof {
            use_type_invariant(&*self);
            lemma_books_wf(self.node, self.books.descriptors@, self.books.records@);
        }
        Ok(fdu_uuid)
    }

    /// The record of an instance; an instance that the books do not hold is
    /// not found.
    pub fn get_fdu_status(&self, instance_uuid: Identifier) -> (r: Result<FduRecord, FError>)
        ensures
            self@.wf(),
            match r {
                Ok(record) => self@.records.contains_key(instance_uuid) && record
                    == self@.records[instance_uuid],
                Err(e) => {
                    &&& !self@.records.contains_key(instance_uuid)
                    &&& e.kind == ErrorKind::Lifecycle
                    &&& e.message@ == not_found()
                },
            },
    {
        proof {
            use_type_invariant(self);
            lemma_books_wf(self.node, self.books.descriptors@, self.books.records@);
        }
        match self.find_record(instance_uuid) {
            None => Err(FError::new(ErrorKind::Lifecycle, "not found".to_string())),
            Some(i) => Ok(self.books.records[i]),
        }
    }

    /// Takes in a request. What the books can settle is settled and
    /// answered at once; an operation on an instance is screened, and if it
    /// may go on, the verdict says what the plugin is to do. Every failure
    /// is a lifecycle error with the message that
    /// [`AgentView::answer`] gives.
    pub fn receive(&mut self, request: ApiRequest, fresh: Identifier) -> (r: Result<Verdict, FError>)
        ensures
            final(self)@.wf(),
            final(self)@ == old(self)@.received(request, fresh),
            match r {
                Ok(verdict) => old(self)@.answer(request, fresh) == Ok::<Verdict, Seq<char>>(
                    verdict,
                ),
                Err(e) => e.kind == ErrorKind::Lifecycle && old(self)@.answer(request, fresh)
                    == Err::<Verdict, Seq<char>>(e.message@),
            },
    {
        match request {
            ApiRequest::OnboardFdu(descriptor) => {
                let id = self.onboard(descriptor, fresh)?;
                Ok(Verdict::Reply(ApiReply::Identifier(id)))
            },
            ApiRequest::DefineFdu { fdu_uuid, node_uuid } => {
                let record = self.define(fdu_uuid, node_uuid, fresh)?;
                Ok(Verdict::Reply(ApiReply::Record(record)))
            },
            ApiRequest::ConfigureFdu(id) => self.screen(LifecycleOp::Configure, id),
            ApiRequest::StartFdu(id) => self.screen(LifecycleOp::Start, id),
            ApiRequest::StopFdu(id) => self.screen(LifecycleOp::Stop, id),
            ApiRequest::CleanFdu(id) => self.screen(LifecycleOp::Clean, id),
            ApiRequest::UndefineFdu(id) => self.screen(LifecycleOp::Undefine, id),
            ApiRequest::OffloadFdu(fdu_uuid) => {
                let id = self.offload(fdu_uuid)?;
                Ok(Verdict::Reply(ApiReply::Identifier(id)))
            },
        }
    }

    /// The verdict on `op` for an instance, as [`Agent::permit`] decides.
    fn screen(&self, op: LifecycleOp, instance_uuid: Identifier) -> (r: Result<Verdict, FError>)
        ensures
            self@.wf(),
            match r {
                Ok(verdict) => self@.screened(op, instance_uuid) == Ok::<Verdict, Seq<char>>(
                    verdict,
                ),
                Err(e) => e.kind == ErrorKind::Lifecycle && self@.screened(op, instance_uuid)
                    == Err::<Verdict, Seq<char>>(e.message@),
            },
    {
        match self.permit(op, instance_uuid) {
            Ok(_) => Ok(Verdict::Dispatch { op, instance_uuid }),
            Err(e) => Err(e),
        }
    }
}

/// An instance that is defined and was not configured does not start: the
/// request is turned down by the books and never reaches the plugin.
pub proof fn law_start_needs_configure(v: AgentView, instance_uuid: Identifier, fresh: Identifier)
    requires
        v.records.contains_key(instance_uuid),
        v.records[instance_uuid].status == FduState::Defined,
    ensures
        v.answer(ApiRequest::StartFdu(instance_uuid), fresh) == Err::<Verdict, Seq<char>>(
            refusal(),
        ),
        v.received(ApiRequest::StartFdu(instance_uuid), fresh) == v,
{
}

/// The canonical sequence on a defined instance runs through in the books:
/// configure, start, stop, clean and undefine are each let through to the
/// plugin, after each of the first four the books hold the record of the
/// same instance in the status the step leads to, and after the last the
/// instance is gone.
pub proof fn law_sequence_in_the_books(v: AgentView, id: Identifier, fresh: Identifier)
    requires
        v.wf(),
        v.records.contains_key(id),
        v.records[id].status == FduState::Defined,
    ensures
        ({
            let configured = v.concluded(LifecycleOp::Configure, id);
            let running = configured.concluded(LifecycleOp::Start, id);
            let stopped = running.concluded(LifecycleOp::Stop, id);
            let cleaned = stopped.concluded(LifecycleOp::Clean, id);
            let gone = cleaned.concluded(LifecycleOp::Undefine, id);
            &&& v.answer(ApiRequest::ConfigureFdu(id), fresh) is Ok
            &&& configured.answer(ApiRequest::StartFdu(id), fresh) is Ok
            &&& running.answer(ApiRequest::StopFdu(id), fresh) is Ok
            &&& stopped.answer(ApiRequest::CleanFdu(id), fresh) is Ok
            &&& cleaned.answer(ApiRequest::UndefineFdu(id), fresh) is Ok
            &&& configured.records[id].uuid == id && configured.records[id].status
                == FduState::Configured
            &&& running.records[id].uuid == id && running.records[id].status == FduState::Running
            &&& stopped.records[id].uuid == id && stopped.records[id].status
                == FduState::Configured
            &&& cleaned.records[id].uuid == id && cleaned.records[id].status == FduState::Defined
            &&& !gone.records.contains_key(id)
            &&& gone.answer(ApiRequest::UndefineFdu(id), fresh) == Err::<Verdict, Seq<char>>(
                not_found(),
            )
            &&& configured.wf() && running.wf() && stopped.wf() && cleaned.wf() && gone.wf()
        }),
{
}

/// Whatever request the books take in and whatever step they conclude,
/// they stay well formed.
pub proof fn law_books_stay_well_formed(
    v: AgentView,
    request: ApiRequest,
    fresh: Identifier,
    op: LifecycleOp,
    id: Identifier,
)
    requires
        v.wf(),
    ensures
        v.received(request, fresh).wf(),
        v.admits(op, id) ==> v.concluded(op, id).wf(),
{
    let w = v.received(request, fresh);
    assert forall|x: Identifier| #[trigger] w.records.contains_key(x) implies {
        &&& w.records[x].uuid == x
        &&& w.descriptors.contains(w.records[x].fdu_uuid)
        &&& w.records[x].wf()
    } by {
        if v.records.contains_key(x) {
            assert(v.descriptors.contains(v.records[x].fdu_uuid));
        }
    }
}

} // verus!
