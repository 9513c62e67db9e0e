use vstd::prelude::*;
use vstd::string::{StrSliceExecFns, StringExecFns};

use crate::ebpf::{MapKind, ProgramId, ProgramKind};
use crate::errors::PinError;

verus! {

/// Directory under which kernel objects are pinned.
pub const PIN_ROOT: &'static str = "/sys/fs/bpf/";

/// Whether `name` has, at `i`, a `/` that begins or ends it or follows
/// another `/`: an empty part.
pub open spec fn empty_part_at(name: Seq<char>, i: int) -> bool {
    name[i] == '/' && (i == 0 || i == name.len() - 1 || name[i + 1] == '/')
}

/// Whether a part of `name` that is `.` or `..` begins at `i`.
pub open spec fn dot_part_at(name: Seq<char>, i: int) -> bool {
    &&& (i == 0 || name[i - 1] == '/')
    &&& name[i] == '.'
    &&& (i + 1 == name.len() || name[i + 1] == '/' || (i + 1 < name.len() && name[i + 1] == '.'
        && (i + 2 == name.len() || name[i + 2] == '/')))
}

/// A relative path that stays under the pin root: one or more non-empty parts
/// separated by `/`, none of them `.` or `..`.
pub open spec fn valid_pin_name(name: Seq<char>) -> bool {
    &&& name.len() > 0
    &&& forall|i: int| 0 <= i < name.len() ==> !empty_part_at(name, i) && !dot_part_at(name, i)
}

/// A path accepted as a pin location: the pin root followed by a valid
/// relative path.
pub open spec fn valid_pin_path(path: Seq<char>) -> bool {
    &&& path.len() >= PIN_ROOT@.len()
    &&& path.subrange(0, PIN_ROOT@.len() as int) == PIN_ROOT@
    &&& valid_pin_name(path.subrange(PIN_ROOT@.len() as int, path.len() as int))
}

/// The base-10 digits of `n`, most significant first, without sign or padding.
pub open spec fn decimal_digits(n: nat) -> Seq<char>
    decreases n,
{
    if n < 10 {
        seq!["0123456789"@[n as int]]
    } else {
        decimal_digits(n / 10).push("0123456789"@[(n % 10) as int])
    }
}

/// The text of one base-10 digit.
fn digit_text(d: u64) -> (r: &'static str)
    requires
        d < 10,
    ensures
        r@ == seq!["0123456789"@[d as int]],
{
    proof {
        reveal_strlit("0123456789");
        reveal_strlit("0");
        reveal_strlit("1");
        reveal_strlit("2");
        reveal_strlit("3");
        reveal_strlit("4");
        reveal_strlit("5");
        reveal_strlit("6");
        reveal_strlit("7");
        reveal_strlit("8");
        reveal_strlit("9");
    }
    let r = match d {
        0 => "0",
        1 => "1",
        2 => "2",
        3 => "3",
        4 => "4",
        5 => "5",
        6 => "6",
        7 => "7",
        8 => "8",
        _ => "9",
    };
    assert(r@ =~= seq!["0123456789"@[d as int]]);
    r
}

/// Appends the base-10 digits of `n` to `s`.
fn append_decimal(s: &mut String, n: u64)
    ensures
        final(s)@ == old(s)@ + decimal_digits(n as nat),
    decreases n,
{
    if n >= 10 {
        append_decimal(s, n / 10);
    }
    s.append(digit_text(n % 10));
    proof {
        if n >= 10 {
            assert(old(s)@ + decimal_digits((n / 10) as nat) + seq!["0123456789"@[(n % 10) as int]]
                =~= old(s)@ + decimal_digits(n as nat));
        } else {
            assert(decimal_digits(n as nat) == seq!["0123456789"@[(n % 10) as int]]);
        }
    }
}

/// Pin-name prefix of a program kind: `tokenbingress` for ingress,
/// `tokenbegress` for egress.
pub open spec fn pin_prefix(kind: ProgramKind) -> Seq<char> {
    match kind {
        ProgramKind::CgroupIngressTknb => "tokenbingress"@,
        ProgramKind::CgroupEgressTknb => "tokenbegress"@,
        ProgramKind::Unknown => "tokenbunknown"@,
    }
}

/// Pin path of the program of kind `kind` that belongs to program `id`.
pub open spec fn program_pin_path(kind: ProgramKind, id: ProgramId) -> Seq<char> {
    PIN_ROOT@ + pin_prefix(kind) + decimal_digits(id.0 as nat)
}

/// A filesystem path under the pin root.
#[derive(Debug)]
pub struct PinLocation(String);

impl View for PinLocation {
    type V = Seq<char>;

    closed spec fn view(&self) -> Seq<char> {
        self.0@
    }
}

proof fn lemma_pin_root_len()
    ensures
        PIN_ROOT@.len() == 12,
{
    reveal_strlit("/sys/fs/bpf/");
}

/// The pin root followed by a valid relative path is a valid pin path.
proof fn lemma_valid_under_root(name: Seq<char>)
    requires
        valid_pin_name(name),
    ensures
        valid_pin_path(PIN_ROOT@ + name),
{
    lemma_pin_root_len();
    let p = PIN_ROOT@ + name;
    assert(p.subrange(0, 12) =~= PIN_ROOT@);
    assert(p.subrange(12, p.len() as int) =~= name);
}

/// Base-10 digits are never empty and hold neither `/` nor `.`.
proof fn lemma_digits_no_slash(n: nat)
    ensures
        decimal_digits(n).len() > 0,
        forall|i: int|
            0 <= i < decimal_digits(n).len() ==> decimal_digits(n)[i] != '/' && decimal_digits(
                n,
            )[i] != '.',
    decreases n,
{
    reveal_strlit("0123456789");
    if n >= 10 {
        lemma_digits_no_slash(n / 10);
    }
}

fn name_is_valid(name: &str) -> (r: bool)
    ensures
        r == valid_pin_name(name@),
{
    let n = name.unicode_len();
    if n == 0 {
        return false;
    }
    let mut i: usize = 0;
    while i < n
        invariant
            n == name@.len(),
            0 < n,
            i <= n,
            forall|j: int| 0 <= j < i ==> !empty_part_at(name@, j) && !dot_part_at(name@, j),
        decreases n - i,
    {
        let c = name.get_char(i);
        if c == '/' {
            if i == 0 || i == n - 1 || name.get_char(i + 1) == '/' {
                assert(empty_part_at(name@, i as int));
                return false;
            }
        }
        if c == '.' && (i == 0 || name.get_char(i - 1) == '/') {
            if i + 1 == n || name.get_char(i + 1) == '/' {
                assert(dot_part_at(name@, i as int));
                return false;
            }
            if name.get_char(i + 1) == '.' && (i + 2 == n || name.get_char(i + 2) == '/') {
                assert(dot_part_at(name@, i as int));
                return false;
            }
        }
        i = i + 1;
    }
    true
}

impl PinLocation {
    #[verifier::type_invariant]
    closed spec fn inv(&self) -> bool {
        valid_pin_path(self.0@)
    }

    /// The location `name` under the pin root. A name that is empty, has an
    /// empty part, or has a `.` or `..` part is refused with
    /// `PinError::PathLocation`.
    pub fn new(name: &str) -> (r: Result<PinLocation, PinError>)
        ensures
            r is Ok <==> valid_pin_name(name@),
            r matches Ok(loc) ==> loc@ == PIN_ROOT@ + name@,
            r matches Err(e) ==> e matches PinError::PathLocation(_),
    {
        if !name_is_valid(name) {
            return Err(PinError::PathLocation(String::from_str("pin name must stay under /sys/fs/bpf/")));
        }
        let mut path = String::from_str(PIN_ROOT);
        path.append(name);
        proof {
            lemma_valid_under_root(name@);
        }
        Ok(PinLocation(path))
    }

    /// The location at `path`, which must be the pin root followed by a valid
    /// relative path; any other path is refused with `PinError::PathLocation`.
    pub fn from_path(path: &str) -> (r: Result<PinLocation, PinError>)
        ensures
            r is Ok <==> valid_pin_path(path@),
            r matches Ok(loc) ==> loc@ == path@,
            r matches Err(e) ==> e matches PinError::PathLocation(_),
    {
        let root_len = PIN_ROOT.unicode_len();
        let n = path.unicode_len();
        if n < root_len {
            return Err(PinError::PathLocation(String::from_str("path must start with /sys/fs/bpf/")));
        }
        let mut i: usize = 0;
        while i < root_len
            invariant
                root_len == PIN_ROOT@.len(),
                n == path@.len(),
                root_len <= n,
                i <= root_len,
                forall|j: int| 0 <= j < i ==> path@[j] == PIN_ROOT@[j],
            decreases root_len - i,
        {
            if path.get_char(i) != PIN_ROOT.get_char(i) {
                assert(path@.subrange(0, root_len as int)[i as int] != PIN_ROOT@[i as int]);
                return Err(PinError::PathLocation(String::from_str("path must start with /sys/fs/bpf/")));
            }
            i = i + 1;
        }
        assert(path@.subrange(0, root_len as int) =~= PIN_ROOT@);
        let rest = path.substring_char(root_len, n);
        if !name_is_valid(rest) {
            return Err(PinError::PathLocation(String::from_str("path must stay under /sys/fs/bpf/")));
        }
        Ok(PinLocation(String::from_str(path)))
    }

    /// The pin location of the program of kind `kind` that belongs to program
    /// `id`: the kind's prefix followed by the id in base 10.
    pub fn for_program(kind: ProgramKind, id: ProgramId) -> (r: PinLocation)
        ensures
            r@ == program_pin_path(kind, id),
    {
        let prefix = match kind {
            ProgramKind::CgroupIngressTknb => "tokenbingress",
            ProgramKind::CgroupEgressTknb => "tokenbegress",
            ProgramKind::Unknown => "tokenbunknown",
        };
        let mut path = String::from_str(PIN_ROOT);
        path.append(prefix);
        append_decimal(&mut path, id.0);
        proof {
            let name = pin_prefix(kind) + decimal_digits(id.0 as nat);
            reveal_strlit("tokenbingress");
            reveal_strlit("tokenbegress");
            reveal_strlit("tokenbunknown");
            lemma_digits_no_slash(id.0 as nat);
            assert forall|i: int| 0 <= i < name.len() implies name[i] != '/' && name[i]
                != '.' by {
                if i >= pin_prefix(kind).len() {
                    assert(name[i] == decimal_digits(id.0 as nat)[i - pin_prefix(kind).len()]);
                }
            }
            assert(PIN_ROOT@ + pin_prefix(kind) + decimal_digits(id.0 as nat) =~= PIN_ROOT@ + name);
            lemma_valid_under_root(name);
        }
        PinLocation(path)
    }

    /// The path; it always lies under the pin root.
    pub fn location(&self) -> (r: &str)
        ensures
            r@ == self@,
            valid_pin_path(r@),
    {
        proof {
            use_type_invariant(self);
        }
        self.0.as_str()
    }
}

impl Clone for PinLocation {
    fn clone(&self) -> (r: PinLocation)
        ensures
            r@ == self@,
    {
        proof {
            use_type_invariant(self);
        }
        PinLocation(self.0.clone())
    }
}

/// One pinned kernel object and where it is pinned.
#[derive(Debug)]
pub enum PinType {
    Program(ProgramId, ProgramKind, PinLocation),
    Fd(PinLocation),
    KernelMap(MapKind, PinLocation),
}

/// Whether `t` records program `id` of kind `kind` at its own pin path.
pub open spec fn is_program_record(t: PinType, id: ProgramId, kind: ProgramKind) -> bool {
    t matches PinType::Program(pid, k, loc) && pid == id && k == kind && loc@
        == program_pin_path(kind, id)
}

/// An ordered, read-only sequence of pin records.
#[derive(Debug)]
pub struct PinnedObject {
    pin_types: Vec<PinType>,
}

impl View for PinnedObject {
    type V = Seq<PinType>;

    closed spec fn view(&self) -> Seq<PinType> {
        self.pin_types@
    }
}

/// Walks the records of a `PinnedObject` in order.
pub struct PinnedObjectIter<'a> {
    items: &'a Vec<PinType>,
    pos: usize,
}

impl<'a> PinnedObjectIter<'a> {
    /// The records not yet handed out.
    pub closed spec fn remaining(&self) -> Seq<PinType> {
        self.items@.subrange(self.pos as int, self.items@.len() as int)
    }

    pub closed spec fn wf(&self) -> bool {
        self.pos <= self.items@.len()
    }

    /// The next record, or `None` once all were handed out.
    pub fn next(&mut self) -> (r: Option<&'a PinType>)
        requires
            old(self).wf(),
        ensures
            final(self).wf(),
            old(self).remaining().len() == 0 ==> r is None && final(self).remaining()
                == old(self).remaining(),
            old(self).remaining().len() > 0 ==> r == Some(&old(self).remaining()[0])
                && final(self).remaining() == old(self).remaining().drop_first(),
    {
        if self.pos < self.items.len() {
            let item = &self.items[self.pos];
            self.pos = self.pos + 1;
            assert(self.remaining() =~= old(self).remaining().drop_first());
            Some(item)
        } else {
            None
        }
    }
}

impl PinnedObject {
    /// An iterator over the records in the order they were added.
    pub fn iter(&self) -> (r: PinnedObjectIter<'_>)
        ensures
            r.wf(),
            r.remaining() == self@,
    {
        let r = PinnedObjectIter { items: &self.pin_types, pos: 0 };
        assert(r.remaining() =~= self@);
        r
    }

    pub fn len(&self) -> (r: usize)
        ensures
            r == self@.len(),
    {
        self.pin_types.len()
    }

    pub fn get(&self, i: usize) -> (r: Option<&PinType>)
        ensures
            i < self@.len() ==> r == Some(&self@[i as int]),
            i >= self@.len() ==> r is None,
    {
        if i < self.pin_types.len() {
            Some(&self.pin_types[i])
        } else {
            None
        }
    }
}

/// Accumulates pin records in order.
#[derive(Debug, Default)]
pub struct PinnedObjectBuilder {
    pub pin_types: Vec<PinType>,
}

impl PinnedObjectBuilder {
    pub fn new() -> (r: PinnedObjectBuilder)
        ensures
            r.pin_types@ == Seq::<PinType>::empty(),
    {
        PinnedObjectBuilder { pin_types: Vec::new() }
    }

    pub fn pin_type(self, typ: PinType) -> (r: PinnedObjectBuilder)
        ensures
            r.pin_types@ == self.pin_types@.push(typ),
    {
        let mut pin_types = self.pin_types;
        pin_types.push(typ);
        PinnedObjectBuilder { pin_types }
    }

    pub fn program(self, id: ProgramId, kind: ProgramKind, location: PinLocation) -> (r:
        PinnedObjectBuilder)
        ensures
            r.pin_types@ == self.pin_types@.push(PinType::Program(id, kind, location)),
    {
        self.pin_type(PinType::Program(id, kind, location))
    }

    pub fn map(self, kind: MapKind, location: PinLocation) -> (r: PinnedObjectBuilder)
        ensures
            r.pin_types@ == self.pin_types@.push(PinType::KernelMap(kind, location)),
    {
        self.pin_type(PinType::KernelMap(kind, location))
    }

    pub fn fd(self, location: PinLocation) -> (r: PinnedObjectBuilder)
        ensures
            r.pin_types@ == self.pin_types@.push(PinType::Fd(location)),
    {
        self.pin_type(PinType::Fd(location))
    }

    /// The records, in the order they were added.
    pub fn build(self) -> (r: PinnedObject)
        ensures
            r@ == self.pin_types@,
    {
        PinnedObject { pin_types: self.pin_types }
    }
}

} // verus!
