//! The resource provisioner: ensure a named resource (a stream or a topic)
//! exists, creating it only when it is absent, idempotently, and treating a
//! creation conflict with a concurrent creator as success to be resolved by
//! a re-fetch. The decision logic is a state machine driven by transport
//! outcomes; a directory models the broker's name registry so the whole
//! algorithm, and its idempotency, can be verified end to end.

use vstd::prelude::*;
use crate::errors::ClientError;

verus! {

/// What a fetch-by-name reported.
#[derive(Copy, Clone, PartialEq, Eq, Structural, Debug)]
pub enum FetchOutcome {
    /// The resource exists and carries this identity.
    Found(u32),
    /// The broker answered that no resource of that name exists.
    Absent,
    /// The request itself failed.
    Failed,
}

/// What a creation attempt reported.
#[derive(Copy, Clone, PartialEq, Eq, Structural, Debug)]
pub enum CreateOutcome {
    /// The resource was created and assigned this identity.
    Created(u32),
    /// Another actor created the same resource concurrently.
    Conflict,
    /// Creation failed for any other reason; this is fatal.
    Rejected,
}

/// Where one ensure run stands.
#[derive(Copy, Clone, PartialEq, Eq, Structural, Debug)]
pub enum EnsureState {
    /// Waiting for the first fetch-by-name.
    Fetching,
    /// The name was absent; waiting for the creation attempt.
    Creating,
    /// Creation conflicted with a concurrent creator; waiting for the
    /// re-fetch that resolves the assigned identity.
    Refetching,
    /// The resource exists with this identity; nothing more to do.
    Ready(u32),
    /// The run failed fatally.
    Failed,
}

/// A transport outcome handed to the machine.
#[derive(Copy, Clone, PartialEq, Eq, Structural, Debug)]
pub enum EnsureEvent {
    Fetched(FetchOutcome),
    CreateDone(CreateOutcome),
}

/// What the driver of the machine must do next.
#[derive(Copy, Clone, PartialEq, Eq, Structural, Debug)]
pub enum EnsureAction {
    DoFetch,
    DoCreate,
    Stop,
}

/// The transition relation of the ensure machine. A finished machine, and a
/// machine handed an event of the wrong kind, stays where it is.
pub open spec fn ensure_next(st: EnsureState, ev: EnsureEvent) -> EnsureState {
    match (st, ev) {
        (EnsureState::Fetching, EnsureEvent::Fetched(FetchOutcome::Found(id))) => EnsureState::Ready(
            id,
        ),
        (EnsureState::Fetching, EnsureEvent::Fetched(FetchOutcome::Absent)) => EnsureState::Creating,
        (EnsureState::Fetching, EnsureEvent::Fetched(FetchOutcome::Failed)) => EnsureState::Failed,
        (
            EnsureState::Creating,
            EnsureEvent::CreateDone(CreateOutcome::Created(id)),
        ) => EnsureState::Ready(id),
        (
            EnsureState::Creating,
            EnsureEvent::CreateDone(CreateOutcome::Conflict),
        ) => EnsureState::Refetching,
        (EnsureState::Creating, EnsureEvent::CreateDone(CreateOutcome::Rejected)) => EnsureState::Failed,
        (
            EnsureState::Refetching,
            EnsureEvent::Fetched(FetchOutcome::Found(id)),
        ) => EnsureState::Ready(id),
        (EnsureState::Refetching, EnsureEvent::Fetched(_)) => EnsureState::Failed,
        _ => st,
    }
}

/// Advances the ensure machine by one transport outcome.
pub fn ensure_step(st: EnsureState, ev: EnsureEvent) -> (next: EnsureState)
    ensures
        next == ensure_next(st, ev),
{
    match (st, ev) {
        (EnsureState::Fetching, EnsureEvent::Fetched(FetchOutcome::Found(id))) => EnsureState::Ready(
            id,
        ),
        (EnsureState::Fetching, EnsureEvent::Fetched(FetchOutcome::Absent)) => EnsureState::Creating,
        (EnsureState::Fetching, EnsureEvent::Fetched(FetchOutcome::Failed)) => EnsureState::Failed,
        (
            EnsureState::Creating,
            EnsureEvent::CreateDone(CreateOutcome::Created(id)),
        ) => EnsureState::Ready(id),
        (
            EnsureState::Creating,
            EnsureEvent::CreateDone(CreateOutcome::Conflict),
        ) => EnsureState::Refetching,
        (EnsureState::Creating, EnsureEvent::CreateDone(CreateOutcome::Rejected)) => EnsureState::Failed,
        (
            EnsureState::Refetching,
            EnsureEvent::Fetched(FetchOutcome::Found(id)),
        ) => EnsureState::Ready(id),
        (EnsureState::Refetching, EnsureEvent::Fetched(_)) => EnsureState::Failed,
        (s, _) => s,
    }
}

pub open spec fn spec_pending_action(st: EnsureState) -> EnsureAction {
    match st {
        EnsureState::Fetching => EnsureAction::DoFetch,
        EnsureState::Refetching => EnsureAction::DoFetch,
        EnsureState::Creating => EnsureAction::DoCreate,
        EnsureState::Ready(_) => EnsureAction::Stop,
        EnsureState::Failed => EnsureAction::Stop,
    }
}

/// Which transport call the driver owes the machine in this state.
pub fn pending_action(st: EnsureState) -> (a: EnsureAction)
    ensures
        a == spec_pending_action(st),
{
    match st {
        EnsureState::Fetching => EnsureAction::DoFetch,
        EnsureState::Refetching => EnsureAction::DoFetch,
        EnsureState::Creating => EnsureAction::DoCreate,
        EnsureState::Ready(_) => EnsureAction::Stop,
        EnsureState::Failed => EnsureAction::Stop,
    }
}

/// The machine run over a whole sequence of outcomes.
pub open spec fn run_from(st: EnsureState, evs: Seq<EnsureEvent>) -> EnsureState
    decreases evs.len(),
{
    if evs.len() == 0 {
        st
    } else {
        run_from(ensure_next(st, evs[0]), evs.drop_first())
    }
}

/// Law: a provisioned identity is final for the process lifetime — once the
/// machine is `Ready(id)`, no sequence of further events moves it or changes
/// the identity.
pub proof fn lemma_ready_is_stable(id: u32, evs: Seq<EnsureEvent>)
    ensures
        run_from(EnsureState::Ready(id), evs) == EnsureState::Ready(id),
    decreases evs.len(),
{
    if evs.len() > 0 {
        lemma_ready_is_stable(id, evs.drop_first());
    }
}

/// Law: losing a creation race is success, not failure — on a conflict the
/// machine re-fetches, and the re-fetch that finds the concurrently created
/// resource ends the run ready with that resource's identity.
pub proof fn lemma_conflict_resolves_to_existing(id: u32)
    ensures
        ensure_next(EnsureState::Creating, EnsureEvent::CreateDone(CreateOutcome::Conflict))
            == EnsureState::Refetching,
        ensure_next(EnsureState::Refetching, EnsureEvent::Fetched(FetchOutcome::Found(id)))
            == EnsureState::Ready(id),
{
}

/// Looks a name up in a directory sequence: the identity of the first entry
/// with that name.
pub open spec fn seq_lookup(s: Seq<(Seq<char>, u32)>, name: Seq<char>) -> Option<u32>
    decreases s.len(),
{
    if s.len() == 0 {
        None
    } else if s[0].0 == name {
        Some(s[0].1)
    } else {
        seq_lookup(s.drop_first(), name)
    }
}

pub proof fn lemma_lookup_push_absent(s: Seq<(Seq<char>, u32)>, name: Seq<char>, id: u32)
    requires
        seq_lookup(s, name) is None,
    ensures
        seq_lookup(s.push((name, id)), name) == Some(id),
    decreases s.len(),
{
    if s.len() == 0 {
        assert(s.push((name, id))[0] == (name, id));
    } else {
        assert(s.push((name, id)).drop_first() =~= s.drop_first().push((name, id)));
        lemma_lookup_push_absent(s.drop_first(), name, id);
    }
}

/// The broker's name registry, as the provisioner sees it: each created
/// resource under its name with the identity the broker assigned, identities
/// handed out in creation order.
pub struct ResourceDirectory {
    entries: Vec<(String, u32)>,
    next_id: u32,
}

impl View for ResourceDirectory {
    type V = Seq<(Seq<char>, u32)>;

    closed spec fn view(&self) -> Seq<(Seq<char>, u32)> {
        self.entries@.map_values(|e: (String, u32)| (e.0@, e.1))
    }
}

impl ResourceDirectory {
    /// The identity the next creation will be assigned.
    pub closed spec fn spec_fresh(&self) -> u32 {
        self.next_id
    }

    /// Whether the directory can assign no further identity.
    pub open spec fn spec_exhausted(&self) -> bool {
        self.spec_fresh() == u32::MAX
    }

    /// An empty directory whose first assigned identity is 1.
    pub fn new() -> (r: ResourceDirectory)
        ensures
            r@ =~= Seq::<(Seq<char>, u32)>::empty(),
            r.spec_fresh() == 1,
    {
        ResourceDirectory { entries: Vec::new(), next_id: 1 }
    }

    /// Fetch by name: found with its identity exactly when the name is in
    /// the directory.
    pub fn fetch(&self, name: &String) -> (r: FetchOutcome)
        ensures
            match seq_lookup(self@, name@) {
                Some(id) => r == FetchOutcome::Found(id),
                None => r == FetchOutcome::Absent,
            },
    {
        let n = self.entries.len();
        let mut i: usize = 0;
        proof {
            assert(self@.skip(0) =~= self@);
        }
        while i < n
            invariant
                n == self.entries.len(),
                i <= n,
                self@.len() == n,
                seq_lookup(self@, name@) == seq_lookup(self@.skip(i as int), name@),
            decreases n - i,
        {
            let e = &self.entries[i];
            proof {
                assert(self@[i as int] == (self.entries@[i as int].0@, self.entries@[i as int].1));
                assert(self@.skip(i as int)[0] == self@[i as int]);
            }
            if e.0 == *name {
                return FetchOutcome::Found(e.1);
            }
            proof {
                assert(self@.skip(i as int).drop_first() =~= self@.skip(i as int + 1));
            }
            i = i + 1;
        }
        proof {
            assert(self@.skip(n as int) =~= Seq::<(Seq<char>, u32)>::empty());
        }
        FetchOutcome::Absent
    }

    /// Create by name: a conflict when the name already exists (as when a
    /// concurrent creator won the race), a rejection when no identity is
    /// left, and otherwise the fresh identity, recorded under the name.
    pub fn create(&mut self, name: &String) -> (r: CreateOutcome)
        ensures
            match seq_lookup(old(self)@, name@) {
                Some(_) => {
                    &&& r == CreateOutcome::Conflict
                    &&& final(self)@ == old(self)@
                    &&& final(self).spec_fresh() == old(self).spec_fresh()
                },
                None => if old(self).spec_exhausted() {
                    &&& r == CreateOutcome::Rejected
                    &&& final(self)@ == old(self)@
                    &&& final(self).spec_fresh() == old(self).spec_fresh()
                } else {
                    &&& r == CreateOutcome::Created(old(self).spec_fresh())
                    &&& final(self)@ == old(self)@.push((name@, old(self).spec_fresh()))
                    &&& final(self).spec_fresh() == old(self).spec_fresh() + 1
                },
            },
    {
        match self.fetch(name) {
            FetchOutcome::Found(_) => CreateOutcome::Conflict,
            FetchOutcome::Failed => CreateOutcome::Conflict,
            FetchOutcome::Absent => {
                if self.next_id == u32::MAX {
                    CreateOutcome::Rejected
                } else {
                    let id = self.next_id;
                    self.next_id = self.next_id + 1;
                    self.entries.push((name.clone(), id));
                    proof {
                        assert(self@ =~= old(self)@.push((name@, id)));
                    }
                    CreateOutcome::Created(id)
                }
            },
        }
    }
}

/// What one ensure call does to a directory: the directory after the call,
/// the identity returned, and whether this call created the resource.
pub open spec fn spec_ensure(d: Seq<(Seq<char>, u32)>, fresh: u32, name: Seq<char>) -> (
    Seq<(Seq<char>, u32)>,
    u32,
    bool,
) {
    match seq_lookup(d, name) {
        Some(id) => (d, id, false),
        None => (d.push((name, fresh)), fresh, true),
    }
}

/// Ensures a named resource exists in the directory: fetch first, create
/// only when absent, and report the identity together with whether this
/// call was the one that created it. A name that already exists is an
/// idempotent no-op; only exhaustion of identities is a provisioning error.
pub fn ensure_resource(dir: &mut ResourceDirectory, name: &String) -> (r: (
    Result<u32, ClientError>,
    bool,
))
    ensures
        match seq_lookup(old(dir)@, name@) {
            Some(id) => {
                &&& r == (Ok::<u32, ClientError>(id), false)
                &&& final(dir)@ == old(dir)@
                &&& final(dir).spec_fresh() == old(dir).spec_fresh()
            },
            None => if old(dir).spec_exhausted() {
                &&& r == (Err::<u32, ClientError>(ClientError::ProvisionError), false)
                &&& final(dir)@ == old(dir)@
                &&& final(dir).spec_fresh() == old(dir).spec_fresh()
            } else {
                &&& r == (Ok::<u32, ClientError>(old(dir).spec_fresh()), true)
                &&& final(dir)@ == spec_ensure(old(dir)@, old(dir).spec_fresh(), name@).0
                &&& final(dir).spec_fresh() == old(dir).spec_fresh() + 1
            },
        },
{
    match dir.fetch(name) {
        FetchOutcome::Found(id) => (Ok(id), false),
        FetchOutcome::Failed => (Err(ClientError::ProvisionError), false),
        FetchOutcome::Absent => {
            match dir.create(name) {
                CreateOutcome::Created(id) => (Ok(id), true),
                CreateOutcome::Rejected => (Err(ClientError::ProvisionError), false),
                CreateOutcome::Conflict => {
                    // A concurrent creator won the race: treat it as success
                    // and resolve the identity by re-fetching.
                    match dir.fetch(name) {
                        FetchOutcome::Found(id) => (Ok(id), false),
                        _ => (Err(ClientError::ProvisionError), false),
                    }
                },
            }
        },
    }
}

/// A named resource reference — a stream or a topic: the name it is
/// addressed by, and the identity the broker assigned once the first
/// successful ensure discovered or created it, immutable thereafter for the
/// process lifetime.
pub struct ResourceRef {
    name: String,
    id: Option<u32>,
}

impl ResourceRef {
    pub closed spec fn spec_name(&self) -> Seq<char> {
        self.name@
    }

    pub closed spec fn spec_id(&self) -> Option<u32> {
        self.id
    }

    /// A reference that has not been provisioned yet.
    pub fn new(name: String) -> (r: ResourceRef)
        ensures
            r.spec_name() == name@,
            r.spec_id() is None,
    {
        ResourceRef { name, id: None }
    }

    pub fn name(&self) -> (r: &String)
        ensures
            r@ == self.spec_name(),
    {
        &self.name
    }

    pub fn id(&self) -> (r: Option<u32>)
        ensures
            r == self.spec_id(),
    {
        self.id
    }
}

/// Ensures the referenced resource at most once per process start: a
/// reference that already carries an identity short-circuits without
/// touching the directory, and the first successful ensure records the
/// assigned identity in the reference, where it never changes again.
pub fn ensure_ref(dir: &mut ResourceDirectory, resource: &mut ResourceRef) -> (r: (
    Result<u32, ClientError>,
    bool,
))
    ensures
        final(resource).spec_name() == old(resource).spec_name(),
        old(resource).spec_id() matches Some(id) ==> {
            &&& r == (Ok::<u32, ClientError>(id), false)
            &&& final(dir)@ == old(dir)@
            &&& final(dir).spec_fresh() == old(dir).spec_fresh()
            &&& final(resource).spec_id() == Some(id)
        },
        old(resource).spec_id() is None ==> match seq_lookup(
            old(dir)@,
            old(resource).spec_name(),
        ) {
            Some(id) => {
                &&& r == (Ok::<u32, ClientError>(id), false)
                &&& final(dir)@ == old(dir)@
                &&& final(resource).spec_id() == Some(id)
            },
            None => if old(dir).spec_exhausted() {
                &&& r == (Err::<u32, ClientError>(ClientError::ProvisionError), false)
                &&& final(dir)@ == old(dir)@
                &&& final(resource).spec_id() is None
            } else {
                &&& r == (Ok::<u32, ClientError>(old(dir).spec_fresh()), true)
                &&& final(dir)@ == old(dir)@.push(
                    (old(resource).spec_name(), old(dir).spec_fresh()),
                )
                &&& final(resource).spec_id() == Some(old(dir).spec_fresh())
            },
        },
{
    match resource.id() {
        Some(id) => (Ok(id), false),
        None => {
            let name = resource.name().clone();
            let (outcome, created) = ensure_resource(dir, &name);
            match outcome {
                Ok(id) => {
                    resource.id = Some(id);
                    (Ok(id), created)
                },
                Err(e) => (Err(e), false),
            }
        },
    }
}

/// Law: repeat provisioning is a no-op — a second ensure of the same name
/// changes nothing, reports no creation, and returns the identity the first
/// ensure returned.
pub proof fn lemma_ensure_idempotent(
    d: Seq<(Seq<char>, u32)>,
    fresh1: u32,
    fresh2: u32,
    name: Seq<char>,
)
    ensures
        ({
            let (d1, id1, created1) = spec_ensure(d, fresh1, name);
            let (d2, id2, created2) = spec_ensure(d1, fresh2, name);
            d2 == d1 && id2 == id1 && !created2
        }),
{
    if seq_lookup(d, name) is None {
        lemma_lookup_push_absent(d, name, fresh1);
    }
}

/// The directory after a run of ensure calls for one name, with the count of
/// calls that created the resource.
pub open spec fn ensure_times(
    d: Seq<(Seq<char>, u32)>,
    freshes: Seq<u32>,
    name: Seq<char>,
) -> (Seq<(Seq<char>, u32)>, nat)
    decreases freshes.len(),
{
    if freshes.len() == 0 {
        (d, 0nat)
    } else {
        let (d1, id1, created1) = spec_ensure(d, freshes[0], name);
        let (dn, k) = ensure_times(d1, freshes.drop_first(), name);
        (dn, k + if created1 {
            1nat
        } else {
            0nat
        })
    }
}

/// Law: N ensure calls for one name create exactly once when the name starts
/// absent and never when it already exists; every remaining call is an
/// "already exists" no-op, whatever order the calls race in.
pub proof fn lemma_ensure_once(d: Seq<(Seq<char>, u32)>, freshes: Seq<u32>, name: Seq<char>)
    ensures
        ({
            let (dn, k) = ensure_times(d, freshes, name);
            (seq_lookup(d, name) is Some ==> k == 0 && dn == d) && (seq_lookup(d, name) is None
                && freshes.len() > 0 ==> k == 1)
        }),
    decreases freshes.len(),
{
    if freshes.len() > 0 {
        let (d1, id1, created1) = spec_ensure(d, freshes[0], name);
        if seq_lookup(d, name) is None {
            lemma_lookup_push_absent(d, name, freshes[0]);
        }
        lemma_ensure_once(d1, freshes.drop_first(), name);
    }
}

} // verus!
