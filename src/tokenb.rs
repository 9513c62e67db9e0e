use vstd::prelude::*;
use vstd::string::StringExecFns;

use crate::ebpf::{AttachmentKind, CgroupName, ProgramId, ProgramKind};
use crate::errors::{Error, PinError, TokenBucketError};
use crate::pins::{is_program_record, PinLocation, PinType, PinnedObject, PinnedObjectBuilder};
use crate::rate_table::{RateTable, EGRESS_KEY, INGRESS_KEY};
use crate::token_bucket::TokenLimit;

verus! {

/// Which traffic directions are armed, and whether their programs are pinned.
#[derive(Clone, Copy, Debug, PartialEq, Eq, Structural)]
pub struct ProgramFlags {
    pub ingress: bool,
    pub egress: bool,
    pub pinned: bool,
}

/// The flags of a handle that has no direction armed and nothing pinned.
pub open spec fn blocked_flags() -> ProgramFlags {
    ProgramFlags { ingress: false, egress: false, pinned: false }
}

/// Whether no direction is armed.
pub open spec fn is_blocked(f: ProgramFlags) -> bool {
    !f.ingress && !f.egress
}

/// A set of traffic directions.
#[derive(Clone, Copy, Debug, PartialEq, Eq, Structural)]
pub struct DirectionSet {
    pub ingress: bool,
    pub egress: bool,
}

/// The empty set of directions.
pub open spec fn no_directions() -> DirectionSet {
    DirectionSet { ingress: false, egress: false }
}

/// The directions that `f` arms.
pub open spec fn armed_set(f: ProgramFlags) -> DirectionSet {
    DirectionSet { ingress: f.ingress, egress: f.egress }
}

/// The programs of a set of directions, egress first.
pub open spec fn direction_kinds(d: DirectionSet) -> Seq<ProgramKind> {
    (if d.egress {
        seq![ProgramKind::CgroupEgressTknb]
    } else {
        Seq::empty()
    }) + (if d.ingress {
        seq![ProgramKind::CgroupIngressTknb]
    } else {
        Seq::empty()
    })
}

/// Whether `records` pins, in order, exactly the programs of the directions
/// `d` of program `id`, each at its own path.
pub open spec fn pins_directions(records: Seq<PinType>, id: ProgramId, d: DirectionSet) -> bool {
    &&& records.len() == direction_kinds(d).len()
    &&& forall|i: int|
        0 <= i < records.len() ==> is_program_record(records[i], id, direction_kinds(d)[i])
}

/// A write into the shared rate table.
#[derive(Clone, Copy, Debug)]
pub struct RateUpdate {
    pub key: u64,
    pub limit: TokenLimit,
}

/// Table key of a direction.
pub open spec fn direction_key<T>(a: AttachmentKind<T>) -> u64 {
    match a {
        AttachmentKind::Ingress(_) => INGRESS_KEY,
        AttachmentKind::Egress(_) => EGRESS_KEY,
    }
}

/// The value carried for a direction.
pub open spec fn direction_value<T>(a: AttachmentKind<T>) -> T {
    match a {
        AttachmentKind::Ingress(v) => v,
        AttachmentKind::Egress(v) => v,
    }
}

/// `f` with the direction of `a` armed.
pub open spec fn arm<T>(f: ProgramFlags, a: AttachmentKind<T>) -> ProgramFlags {
    match a {
        AttachmentKind::Ingress(_) => ProgramFlags { ingress: true, ..f },
        AttachmentKind::Egress(_) => ProgramFlags { egress: true, ..f },
    }
}

/// Whether some record of `s` is a program record of kind `kind`.
pub open spec fn has_program_kind(s: Seq<PinType>, kind: ProgramKind) -> bool
    decreases s.len(),
{
    if s.len() == 0 {
        false
    } else {
        has_program_kind(s.drop_last(), kind) || (s.last() matches PinType::Program(_, k, _)
            && k == kind)
    }
}

/// The program id of the last program record of `s`, if any.
pub open spec fn last_program_id(s: Seq<PinType>) -> Option<ProgramId>
    decreases s.len(),
{
    if s.len() == 0 {
        None
    } else {
        match s.last() {
            PinType::Program(id, _, _) => Some(id),
            _ => last_program_id(s.drop_last()),
        }
    }
}

/// Why a lifecycle transition is refused.
#[derive(Clone, Copy, Debug, PartialEq, Eq, Structural)]
pub enum Refusal {
    Closed,
    NoTrafficDirection,
    NotAttached,
    AlreadyPinned,
    NotPinned,
}

/// The lifecycle state of a handle: armed directions and pin mark, the
/// directions attached by the last `load`, the directions pinned by the last
/// `pin`, and whether the handle is closed.
#[derive(Clone, Copy, Debug, PartialEq, Eq, Structural)]
pub struct Lifecycle {
    pub flags: ProgramFlags,
    pub attached: DirectionSet,
    pub pinned_dirs: DirectionSet,
    pub closed: bool,
}

/// Only armed directions are attached, and an unpinned handle has nothing
/// pinned.
pub open spec fn lifecycle_wf(s: Lifecycle) -> bool {
    &&& (s.attached.ingress ==> s.flags.ingress)
    &&& (s.attached.egress ==> s.flags.egress)
    &&& (!s.flags.pinned ==> s.pinned_dirs == no_directions())
}

/// The state of a new handle.
pub open spec fn initial_lifecycle() -> Lifecycle {
    Lifecycle {
        flags: blocked_flags(),
        attached: no_directions(),
        pinned_dirs: no_directions(),
        closed: false,
    }
}

/// `apply_rate`: arms the direction; refused once closed.
pub open spec fn apply_step<T>(s: Lifecycle, a: AttachmentKind<T>) -> Result<Lifecycle, Refusal> {
    if s.closed {
        Err(Refusal::Closed)
    } else {
        Ok(Lifecycle { flags: arm(s.flags, a), ..s })
    }
}

/// `load`: attaches the armed directions; refused with no direction armed.
pub open spec fn load_step(s: Lifecycle) -> Result<Lifecycle, Refusal> {
    if s.closed {
        Err(Refusal::Closed)
    } else if is_blocked(s.flags) {
        Err(Refusal::NoTrafficDirection)
    } else {
        Ok(Lifecycle { attached: armed_set(s.flags), ..s })
    }
}

/// `pin`: pins the attached directions and sets the pin mark; refused with no
/// direction armed, when pinned, once closed, and when no direction was
/// loaded and attached.
pub open spec fn pin_step(s: Lifecycle) -> Result<Lifecycle, Refusal> {
    if is_blocked(s.flags) {
        Err(Refusal::NoTrafficDirection)
    } else if s.flags.pinned {
        Err(Refusal::AlreadyPinned)
    } else if s.closed {
        Err(Refusal::Closed)
    } else if s.attached == no_directions() {
        Err(Refusal::NotAttached)
    } else {
        Ok(
            Lifecycle {
                flags: ProgramFlags { pinned: true, ..s.flags },
                pinned_dirs: s.attached,
                ..s
            },
        )
    }
}

/// `unpin`: removes the pins and clears the pin mark; refused when not
/// pinned, and once closed.
pub open spec fn unpin_step(s: Lifecycle) -> Result<Lifecycle, Refusal> {
    if !s.flags.pinned {
        Err(Refusal::NotPinned)
    } else if s.closed {
        Err(Refusal::Closed)
    } else {
        Ok(
            Lifecycle {
                flags: ProgramFlags { pinned: false, ..s.flags },
                pinned_dirs: no_directions(),
                ..s
            },
        )
    }
}

/// `unload`: detaches the attached directions.
pub open spec fn unload_step(s: Lifecycle) -> Result<Lifecycle, Refusal> {
    if s.closed {
        Err(Refusal::Closed)
    } else {
        Ok(Lifecycle { attached: no_directions(), ..s })
    }
}

/// `close`: detaches and ends the lifecycle.
pub open spec fn close_step(s: Lifecycle) -> Result<Lifecycle, Refusal> {
    if s.closed {
        Err(Refusal::Closed)
    } else {
        Ok(Lifecycle { attached: no_directions(), closed: true, ..s })
    }
}

/// The refusal an error reports, if it reports one.
pub open spec fn refusal_of(e: Error) -> Option<Refusal> {
    match e {
        Error::TokenBucket(TokenBucketError::Closed(_)) => Some(Refusal::Closed),
        Error::TokenBucket(TokenBucketError::NoTrafficDirection(_)) => Some(
            Refusal::NoTrafficDirection,
        ),
        Error::TokenBucket(TokenBucketError::NotAttached(_)) => Some(Refusal::NotAttached),
        Error::Pin(PinError::AlreadyPinned(_)) => Some(Refusal::AlreadyPinned),
        Error::Pin(PinError::NotPinned(_)) => Some(Refusal::NotPinned),
        _ => None,
    }
}

/// Whether `r` failed exactly as `step` refused: same refusal, or success.
pub open spec fn follows<T>(r: Result<T, Error>, step: Result<Lifecycle, Refusal>) -> bool {
    match step {
        Ok(_) => r is Ok,
        Err(f) => r matches Err(e) && refusal_of(e) == Some(f),
    }
}

/// The lifecycle of the token-bucket filter for one cgroup.
///
/// The handle decides every transition and keeps the rates it wrote; the
/// kernel work that a transition calls for is handed back to the caller:
/// the rate write of `apply_rate`, the programs to load and attach of `load`,
/// the records to pin or unpin of `pin` and `unpin`, the programs to unload of
/// `unload` and `close`.
#[derive(Debug)]
pub struct TokenBucketProgram {
    pub id: ProgramId,
    flags: ProgramFlags,
    attached: DirectionSet,
    pinned_dirs: DirectionSet,
    closed: bool,
    cgroup: CgroupName,
    rates: RateTable,
}

fn no_traffic_error() -> (e: Error)
    ensures
        e.is_no_traffic(),
{
    Error::TokenBucket(
        TokenBucketError::NoTrafficDirection(
            String::from_str("program has no traffic direction; apply a rate first"),
        ),
    )
}

fn closed_error() -> (e: Error)
    ensures
        e.is_closed(),
{
    Error::TokenBucket(TokenBucketError::Closed(String::from_str("program is closed")))
}

fn direction_programs(d: DirectionSet) -> (r: Vec<ProgramKind>)
    ensures
        r@ == direction_kinds(d),
{
    let mut kinds: Vec<ProgramKind> = Vec::new();
    if d.egress {
        kinds.push(ProgramKind::CgroupEgressTknb);
    }
    if d.ingress {
        kinds.push(ProgramKind::CgroupIngressTknb);
    }
    assert(kinds@ =~= direction_kinds(d));
    kinds
}

fn direction_records(id: ProgramId, d: DirectionSet) -> (r: PinnedObject)
    ensures
        pins_directions(r@, id, d),
{
    let mut builder = PinnedObjectBuilder::new();
    if d.egress {
        let kind = ProgramKind::CgroupEgressTknb;
        builder = builder.program(id, kind, PinLocation::for_program(kind, id));
    }
    if d.ingress {
        let kind = ProgramKind::CgroupIngressTknb;
        builder = builder.program(id, kind, PinLocation::for_program(kind, id));
    }
    let r = builder.build();
    assert(r@.len() == direction_kinds(d).len());
    r
}

impl TokenBucketProgram {
    pub closed spec fn spec_id(&self) -> ProgramId {
        self.id
    }

    pub closed spec fn lifecycle(&self) -> Lifecycle {
        Lifecycle {
            flags: self.flags,
            attached: self.attached,
            pinned_dirs: self.pinned_dirs,
            closed: self.closed,
        }
    }

    pub closed spec fn spec_cgroup(&self) -> CgroupName {
        self.cgroup
    }

    pub closed spec fn spec_rates(&self) -> Map<u64, TokenLimit> {
        self.rates@
    }

    /// Whether the two handles agree on all but the lifecycle state.
    pub open spec fn same_resources(&self, other: &TokenBucketProgram) -> bool {
        &&& self.spec_id() == other.spec_id()
        &&& self.spec_cgroup() == other.spec_cgroup()
        &&& self.spec_rates() == other.spec_rates()
    }

    /// Whether the handle ends where `step` leads from `before`: in the new
    /// state on success, unchanged on a refusal.
    pub open spec fn steps_from(
        &self,
        before: &TokenBucketProgram,
        step: Result<Lifecycle, Refusal>,
    ) -> bool {
        match step {
            Ok(s) => self.lifecycle() == s,
            Err(_) => self.lifecycle() == before.lifecycle(),
        }
    }

    /// A handle with no direction armed, nothing attached or pinned, and no
    /// rates written.
    pub fn new(id: ProgramId, cgroup: CgroupName) -> (r: TokenBucketProgram)
        ensures
            r.spec_id() == id,
            r.lifecycle() == initial_lifecycle(),
            r.spec_cgroup() == cgroup,
            r.spec_rates() == Map::<u64, TokenLimit>::empty(),
    {
        TokenBucketProgram {
            id,
            flags: ProgramFlags { ingress: false, egress: false, pinned: false },
            attached: DirectionSet { ingress: false, egress: false },
            pinned_dirs: DirectionSet { ingress: false, egress: false },
            closed: false,
            cgroup,
            rates: RateTable::new(),
        }
    }

    pub fn flags(&self) -> (r: ProgramFlags)
        ensures
            r == self.lifecycle().flags,
    {
        self.flags
    }

    /// The directions attached by the last `load`.
    pub fn attached(&self) -> (r: DirectionSet)
        ensures
            r == self.lifecycle().attached,
    {
        self.attached
    }

    /// The directions pinned by the last `pin`.
    pub fn pinned_directions(&self) -> (r: DirectionSet)
        ensures
            r == self.lifecycle().pinned_dirs,
    {
        self.pinned_dirs
    }

    /// Whether some direction is attached.
    pub fn is_attached(&self) -> (r: bool)
        ensures
            r == (self.lifecycle().attached != no_directions()),
    {
        self.attached.ingress || self.attached.egress
    }

    pub fn is_closed(&self) -> (r: bool)
        ensures
            r == self.lifecycle().closed,
    {
        self.closed
    }

    /// The rates written so far, by direction key.
    pub fn rates(&self) -> (r: &RateTable)
        ensures
            r@ == self.spec_rates(),
    {
        &self.rates
    }

    pub fn cgroup(&self) -> (r: &CgroupName)
        ensures
            *r == self.spec_cgroup(),
    {
        &self.cgroup
    }

    /// The cgroup handle, for changes that leave the rest of the handle as it
    /// was.
    pub fn cgroup_mut(&mut self) -> (r: &mut CgroupName)
        ensures
            *r == old(self).spec_cgroup(),
            final(self).spec_cgroup() == *final(r),
            final(self).spec_id() == old(self).spec_id(),
            final(self).lifecycle() == old(self).lifecycle(),
            final(self).spec_rates() == old(self).spec_rates(),
    {
        &mut self.cgroup
    }

    /// Arms the direction of `token` and records its rate under the
    /// direction's key, replacing an earlier rate; returns the table write to
    /// carry out. The rate's bucket may not exceed its capacity. Refused once
    /// the handle is closed.
    pub fn apply_rate(&mut self, token: AttachmentKind<TokenLimit>) -> (r: Result<
        RateUpdate,
        Error,
    >)
        requires
            direction_value(token).wf(),
        ensures
            follows(r, apply_step(old(self).lifecycle(), token)),
            final(self).steps_from(old(self), apply_step(old(self).lifecycle(), token)),
            final(self).spec_id() == old(self).spec_id(),
            final(self).spec_cgroup() == old(self).spec_cgroup(),
            r is Err ==> final(self).spec_rates() == old(self).spec_rates(),
            r matches Ok(u) ==> u.key == direction_key(token) && u.limit == direction_value(token)
                && final(self).spec_rates() == old(self).spec_rates().insert(
                direction_key(token),
                direction_value(token),
            ),
    {
        if self.closed {
            return Err(closed_error());
        }
        let update = match token {
            AttachmentKind::Ingress(tk) => {
                self.flags.ingress = true;
                RateUpdate { key: INGRESS_KEY, limit: tk }
            },
            AttachmentKind::Egress(tk) => {
                self.flags.egress = true;
                RateUpdate { key: EGRESS_KEY, limit: tk }
            },
        };
        self.rates.insert(update.key, update.limit);
        Ok(update)
    }

    /// Attaches the armed directions and returns their programs, egress
    /// first, to be loaded and attached to the cgroup. Fails with
    /// `NoTrafficDirection` when no direction is armed.
    pub fn load(&mut self) -> (r: Result<Vec<ProgramKind>, Error>)
        ensures
            follows(r, load_step(old(self).lifecycle())),
            final(self).steps_from(old(self), load_step(old(self).lifecycle())),
            final(self).same_resources(old(self)),
            r matches Ok(kinds) ==> kinds@ == direction_kinds(
                armed_set(old(self).lifecycle().flags),
            ),
    {
        if self.closed {
            return Err(closed_error());
        }
        if !self.flags.ingress && !self.flags.egress {
            return Err(no_traffic_error());
        }
        self.attached = DirectionSet { ingress: self.flags.ingress, egress: self.flags.egress };
        Ok(direction_programs(self.attached))
    }

    /// Pins the attached directions: sets the pin mark and returns one record
    /// per attached direction, egress first, each at the path of its direction
    /// and this program's id. Fails with `NoTrafficDirection` when no
    /// direction is armed, with `AlreadyPinned` when the handle is pinned,
    /// with `Closed` once closed, and with `NotAttached` when no direction was
    /// loaded and attached.
    pub fn pin(&mut self) -> (r: Result<PinnedObject, Error>)
        ensures
            follows(r, pin_step(old(self).lifecycle())),
            final(self).steps_from(old(self), pin_step(old(self).lifecycle())),
            final(self).same_resources(old(self)),
            r matches Ok(p) ==> pins_directions(
                p@,
                old(self).spec_id(),
                old(self).lifecycle().attached,
            ),
    {
        if !self.flags.ingress && !self.flags.egress {
            return Err(no_traffic_error());
        }
        if self.flags.pinned {
            return Err(
                Error::Pin(
                    PinError::AlreadyPinned(String::from_str("program is already pinned")),
                ),
            );
        }
        if self.closed {
            return Err(closed_error());
        }
        if !self.attached.ingress && !self.attached.egress {
            return Err(
                Error::TokenBucket(
                    TokenBucketError::NotAttached(
                        String::from_str("program is not loaded; call load before pin"),
                    ),
                ),
            );
        }
        let records = direction_records(self.id, self.attached);
        self.flags.pinned = true;
        self.pinned_dirs = self.attached;
        Ok(records)
    }

    /// Removes the pins: clears the pin mark and returns the records that the
    /// last `pin` returned. Fails with `NotPinned` when the handle is not
    /// pinned, and with `Closed` once closed.
    pub fn unpin(&mut self) -> (r: Result<PinnedObject, Error>)
        ensures
            follows(r, unpin_step(old(self).lifecycle())),
            final(self).steps_from(old(self), unpin_step(old(self).lifecycle())),
            final(self).same_resources(old(self)),
            r matches Ok(p) ==> pins_directions(
                p@,
                old(self).spec_id(),
                old(self).lifecycle().pinned_dirs,
            ),
    {
        if !self.flags.pinned {
            return Err(
                Error::Pin(PinError::NotPinned(String::from_str("program is not pinned"))),
            );
        }
        if self.closed {
            return Err(closed_error());
        }
        let records = direction_records(self.id, self.pinned_dirs);
        self.flags.pinned = false;
        self.pinned_dirs = DirectionSet { ingress: false, egress: false };
        Ok(records)
    }

    /// Detaches the attached directions and returns their programs, egress
    /// first, to be detached and unloaded.
    pub fn unload(&mut self) -> (r: Result<Vec<ProgramKind>, Error>)
        ensures
            follows(r, unload_step(old(self).lifecycle())),
            final(self).steps_from(old(self), unload_step(old(self).lifecycle())),
            final(self).same_resources(old(self)),
            r matches Ok(kinds) ==> kinds@ == direction_kinds(old(self).lifecycle().attached),
    {
        if self.closed {
            return Err(closed_error());
        }
        let kinds = direction_programs(self.attached);
        self.attached = DirectionSet { ingress: false, egress: false };
        Ok(kinds)
    }

    /// Ends the lifecycle: returns the programs to unload, as `unload` does;
    /// the cgroup is to be deleted after them.
    pub fn close(&mut self) -> (r: Result<Vec<ProgramKind>, Error>)
        ensures
            follows(r, close_step(old(self).lifecycle())),
            final(self).steps_from(old(self), close_step(old(self).lifecycle())),
            final(self).same_resources(old(self)),
            r matches Ok(kinds) ==> kinds@ == direction_kinds(old(self).lifecycle().attached),
    {
        let kinds = self.unload()?;
        self.closed = true;
        Ok(kinds)
    }
}

impl TokenBucketProgram {
    /// Rebuilds the handle of a program pinned by an earlier process from its
    /// pin records: the directions armed are those of its program records,
    /// the handle is pinned and attached, and its id is that of the last
    /// program record. Fails with `EmptyPinObject` on no records and with
    /// `InvalidPinObject` when no program record names a direction.
    pub fn try_from_pinned(pinned: &PinnedObject, cgroup: CgroupName) -> (r: Result<
        TokenBucketProgram,
        Error,
    >)
        ensures
            pinned@.len() == 0 ==> (r matches Err(e) && e.is_empty_pin_object()),
            pinned@.len() > 0 && !has_program_kind(pinned@, ProgramKind::CgroupIngressTknb)
                && !has_program_kind(pinned@, ProgramKind::CgroupEgressTknb) ==> (r matches Err(
                e,
            ) && e.is_invalid_pin_object()),
            r is Ok <==> has_program_kind(pinned@, ProgramKind::CgroupIngressTknb)
                || has_program_kind(pinned@, ProgramKind::CgroupEgressTknb),
            r matches Ok(p) ==> {
                &&& p.lifecycle() == (Lifecycle {
                    flags: ProgramFlags {
                        ingress: has_program_kind(pinned@, ProgramKind::CgroupIngressTknb),
                        egress: has_program_kind(pinned@, ProgramKind::CgroupEgressTknb),
                        pinned: true,
                    },
                    attached: armed_set(p.lifecycle().flags),
                    pinned_dirs: armed_set(p.lifecycle().flags),
                    closed: false,
                })
                &&& Some(p.spec_id()) == last_program_id(pinned@)
                &&& p.spec_cgroup() == cgroup
                &&& p.spec_rates() == Map::<u64, TokenLimit>::empty()
            },
    {
        let n = pinned.len();
        if n == 0 {
            return Err(
                Error::Pin(PinError::EmptyPinObject(String::from_str("no pinned objects"))),
            );
        }
        let mut ingress = false;
        let mut egress = false;
        let mut id: Option<ProgramId> = None;
        let mut i: usize = 0;
        while i < n
            invariant
                n == pinned@.len(),
                i <= n,
                ingress == has_program_kind(pinned@.take(i as int), ProgramKind::CgroupIngressTknb),
                egress == has_program_kind(pinned@.take(i as int), ProgramKind::CgroupEgressTknb),
                id == last_program_id(pinned@.take(i as int)),
            decreases n - i,
        {
            assert(pinned@.take(i + 1).drop_last() =~= pinned@.take(i as int));
            if let Some(PinType::Program(pid, kind, _)) = pinned.get(i) {
                id = Some(*pid);
                match kind {
                    ProgramKind::CgroupIngressTknb => {
                        ingress = true;
                    },
                    ProgramKind::CgroupEgressTknb => {
                        egress = true;
                    },
                    ProgramKind::Unknown => {},
                }
            }
            i = i + 1;
        }
        assert(pinned@.take(n as int) =~= pinned@);
        if !ingress && !egress {
            return Err(
                Error::Pin(
                    PinError::InvalidPinObject(
                        String::from_str("pinned objects name no traffic direction"),
                    ),
                ),
            );
        }
        proof {
            lemma_direction_implies_program_id(pinned@);
        }
        let id = match id {
            Some(id) => id,
            None => ProgramId(0),
        };
        Ok(
            TokenBucketProgram {
                id,
                flags: ProgramFlags { ingress, egress, pinned: true },
                attached: DirectionSet { ingress, egress },
                pinned_dirs: DirectionSet { ingress, egress },
                closed: false,
                cgroup,
                rates: RateTable::new(),
            },
        )
    }
}

proof fn lemma_direction_implies_program_id(s: Seq<PinType>)
    ensures
        has_program_kind(s, ProgramKind::CgroupIngressTknb) || has_program_kind(
            s,
            ProgramKind::CgroupEgressTknb,
        ) ==> last_program_id(s) is Some,
    decreases s.len(),
{
    if s.len() > 0 {
        lemma_direction_implies_program_id(s.drop_last());
    }
}

/// Every state a handle can reach is well formed: the initial state is, and
/// every successful transition keeps it so.
pub proof fn lemma_lifecycle_wf(s: Lifecycle, a: AttachmentKind<TokenLimit>)
    requires
        lifecycle_wf(s),
    ensures
        lifecycle_wf(initial_lifecycle()),
        apply_step(s, a) matches Ok(t) ==> lifecycle_wf(t),
        load_step(s) matches Ok(t) ==> lifecycle_wf(t),
        pin_step(s) matches Ok(t) ==> lifecycle_wf(t),
        unpin_step(s) matches Ok(t) ==> lifecycle_wf(t),
        unload_step(s) matches Ok(t) ==> lifecycle_wf(t),
        close_step(s) matches Ok(t) ==> lifecycle_wf(t),
{
}

/// Pinning a handle with no direction armed fails with `NoTrafficDirection`,
/// closed or not; so does pinning a new handle before any rate was applied.
pub proof fn lemma_pin_needs_direction(s: Lifecycle)
    requires
        is_blocked(s.flags),
    ensures
        pin_step(s) == Err::<Lifecycle, Refusal>(Refusal::NoTrafficDirection),
        pin_step(initial_lifecycle()) == Err::<Lifecycle, Refusal>(Refusal::NoTrafficDirection),
{
}

/// Only a successful `pin` sets the pin mark: on an unpinned handle, closed or
/// not, `unpin` fails with `NotPinned`, and every other transition leaves the
/// handle unpinned. A new handle is unpinned.
pub proof fn lemma_unpin_needs_pin(s: Lifecycle, a: AttachmentKind<TokenLimit>)
    requires
        !s.flags.pinned,
    ensures
        unpin_step(s) == Err::<Lifecycle, Refusal>(Refusal::NotPinned),
        apply_step(s, a) matches Ok(t) ==> !t.flags.pinned,
        load_step(s) matches Ok(t) ==> !t.flags.pinned,
        unload_step(s) matches Ok(t) ==> !t.flags.pinned,
        close_step(s) matches Ok(t) ==> !t.flags.pinned,
        !initial_lifecycle().flags.pinned,
{
}

/// Pinning twice in a row fails with `AlreadyPinned` the second time.
pub proof fn lemma_pin_twice(s: Lifecycle)
    requires
        pin_step(s) is Ok,
    ensures
        pin_step(pin_step(s)->Ok_0) == Err::<Lifecycle, Refusal>(Refusal::AlreadyPinned),
{
}

/// Unpinning after a successful pin restores the state before the pin, and
/// a further unpin fails with `NotPinned`.
pub proof fn lemma_pin_unpin_round_trip(s: Lifecycle)
    requires
        lifecycle_wf(s),
        pin_step(s) is Ok,
    ensures
        unpin_step(pin_step(s)->Ok_0) == Ok::<Lifecycle, Refusal>(s),
        unpin_step(unpin_step(pin_step(s)->Ok_0)->Ok_0) == Err::<Lifecycle, Refusal>(
            Refusal::NotPinned,
        ),
{
}

/// With only egress attached, pinning yields exactly one record: the egress
/// program at its own path.
pub proof fn lemma_egress_only_pins_one(records: Seq<PinType>, id: ProgramId, d: DirectionSet)
    requires
        d.egress,
        !d.ingress,
        pins_directions(records, id, d),
    ensures
        records.len() == 1,
        is_program_record(records[0], id, ProgramKind::CgroupEgressTknb),
{
    assert(direction_kinds(d) =~= seq![ProgramKind::CgroupEgressTknb]);
}

/// Outcome of a teardown that unloads and then deletes the cgroup whatever
/// the unload gave: the unload's error if it failed, else the deletion's.
pub fn teardown_result<E>(unload: Result<(), E>, delete: Result<(), E>) -> (r: Result<(), E>)
    ensures
        unload is Err ==> r == unload,
        unload is Ok ==> r == delete,
{
    match unload {
        Err(e) => Err(e),
        Ok(()) => delete,
    }
}

} // verus!
