//! Interrupt vectors, IRQ numbers and the table of registered IRQ handlers.
use vstd::prelude::*;
use vstd::string::StringSliceAdditionalSpecFns;

verus! {

/// The first interrupt vector used by the IRQs: the IRQs are remapped right
/// after the 32 CPU exceptions.
pub const IRQ_BASE: u8 = 32;

/// The number of IRQs.
pub const IRQ_COUNT: usize = 16;

/// An interrupt vector: the number that indexes the interrupt descriptor table.
#[derive(Debug, Clone, Copy, PartialEq, Eq, Structural, PartialOrd, Ord, Hash)]
pub struct InterruptVector(pub u8);

impl InterruptVector {
    /// Creates a new interrupt vector from a number.
    pub fn new(number: u8) -> (r: Self)
        ensures
            r.0 == number,
    {
        Self(number)
    }

    /// The interrupt vector of an IRQ. The vector must fit in 8 bits.
    pub fn from_irq(irq: IrqNumber) -> (r: Self)
        requires
            irq.0 + IRQ_BASE <= u8::MAX,
        ensures
            r.0 == irq.0 + IRQ_BASE,
    {
        Self(irq.0 + IRQ_BASE)
    }
}

/// An IRQ number.
#[derive(Debug, Clone, Copy, PartialEq, Eq, Structural, PartialOrd, Ord, Hash)]
pub struct IrqNumber(pub u8);

impl IrqNumber {
    /// The IRQ number of an interrupt vector, which must not be below the first
    /// IRQ vector.
    pub fn from_vector(vector: InterruptVector) -> (r: Self)
        requires
            vector.0 >= IRQ_BASE,
        ensures
            r.0 == vector.0 - IRQ_BASE,
    {
        Self(vector.0 - IRQ_BASE)
    }
}

/// Converting an IRQ number to its vector and back gives the IRQ number back.
pub proof fn lemma_irq_vector_round_trip(irq: IrqNumber, vector: InterruptVector)
    requires
        irq.0 + IRQ_BASE <= u8::MAX,
        vector.0 == irq.0 + IRQ_BASE,
    ensures
        vector.0 >= IRQ_BASE,
        vector.0 - IRQ_BASE == irq.0,
{
}

/// An interrupt handler. Implementations are called with interrupts disabled,
/// must not enable them, must be fast and non-blocking, and must cope with
/// spurious interrupts.
pub trait IrqHandler {
    /// Handles the interrupt.
    fn handle(&mut self);
}

/// A registered interrupt handler with its name, unique for its IRQ, and the
/// record of its calls: how many times the table called it, and the value of
/// the table's call counter at its last call (0 before any).
pub struct RegisteredHandler<H> {
    handler: H,
    name: &'static str,
    calls: Ghost<nat>,
    last_call: Ghost<nat>,
}

/// The names of a list of registered handlers, as bytes.
pub open spec fn handler_names<H>(list: Seq<RegisteredHandler<H>>) -> Seq<Seq<u8>> {
    list.map_values(|h: RegisteredHandler<H>| h.name_bytes())
}

impl<H> RegisteredHandler<H> {
    /// The name of the handler, as bytes.
    pub closed spec fn name_bytes(self) -> Seq<u8> {
        self.name.spec_bytes()
    }

    /// The handler, the number of times the table called it, and the value of
    /// the table's call counter at its last call.
    pub closed spec fn record(self) -> (H, nat, nat) {
        (self.handler, self.calls@, self.last_call@)
    }
}

/// The records of a list of registered handlers.
pub open spec fn handler_records<H>(list: Seq<RegisteredHandler<H>>) -> Seq<(H, nat, nat)> {
    list.map_values(|h: RegisteredHandler<H>| h.record())
}

/// `s` with element `p` replaced by the last element, and the last element
/// removed.
pub open spec fn swap_removed<A>(s: Seq<A>, p: int) -> Seq<A> {
    s.update(p, s.last()).drop_last()
}

/// Compares two names byte by byte.
fn same_name(a: &str, b: &str) -> (r: bool)
    ensures
        r == (a.spec_bytes() == b.spec_bytes()),
{
    let x = a.as_bytes();
    let y = b.as_bytes();
    if x.len() != y.len() {
        return false;
    }
    let mut k: usize = 0;
    while k < x.len()
        invariant
            x@ == a.spec_bytes(),
            y@ == b.spec_bytes(),
            x@.len() == y@.len(),
            k <= x@.len(),
            forall|i: int| 0 <= i < k ==> x@[i] == y@[i],
        decreases x@.len() - k,
    {
        if x[k] != y[k] {
            return false;
        }
        k = k + 1;
    }
    assert(x@ =~= y@);
    true
}

/// The handlers registered for each IRQ, and a counter of the handler calls
/// made through the table.
pub struct IrqHandlers<H> {
    table: Vec<Vec<RegisteredHandler<H>>>,
    clock: Ghost<nat>,
}

impl<H: IrqHandler> IrqHandlers<H> {
    /// There is one list of handlers per IRQ.
    pub closed spec fn wf(&self) -> bool {
        self.table.len() == IRQ_COUNT
    }

    /// The names of the handlers registered for each IRQ, in the order in which
    /// they are called.
    pub closed spec fn view(&self) -> Seq<Seq<Seq<u8>>> {
        self.table@.map_values(|l: Vec<RegisteredHandler<H>>| handler_names(l@))
    }

    /// The records of the handlers registered for each IRQ, in the order of
    /// their names in the view: each handler, how many times the table called
    /// it, and the value of `clock` at its last call.
    pub closed spec fn records(&self) -> Seq<Seq<(H, nat, nat)>> {
        self.table@.map_values(|l: Vec<RegisteredHandler<H>>| handler_records(l@))
    }

    /// The number of handler calls made through the table.
    pub closed spec fn clock(&self) -> nat {
        self.clock@
    }

    /// The view has one list per IRQ, and each list of names has a record per
    /// name.
    pub proof fn lemma_view_len(&self)
        requires
            self.wf(),
        ensures
            self@.len() == IRQ_COUNT,
            self.records().len() == IRQ_COUNT,
            forall|k: int| 0 <= k < IRQ_COUNT ==> #[trigger] self.records()[k].len() == self@[k].len(),
    {
    }

    /// Creates a table with no handler registered.
    pub fn new() -> (r: Self)
        ensures
            r.wf(),
            r@ == Seq::new(IRQ_COUNT as nat, |i: int| Seq::<Seq<u8>>::empty()),
            r.records() == Seq::new(IRQ_COUNT as nat, |i: int| Seq::<(H, nat, nat)>::empty()),
            r.clock() == 0,
    {
        let mut table: Vec<Vec<RegisteredHandler<H>>> = Vec::new();
        let mut i: usize = 0;
        while i < IRQ_COUNT
            invariant
                i <= IRQ_COUNT,
                table@.len() == i,
                forall|k: int| 0 <= k < i ==> table@[k]@.len() == 0,
            decreases IRQ_COUNT - i,
        {
            table.push(Vec::new());
            i = i + 1;
        }
        let r = IrqHandlers { table, clock: Ghost(0) };
        assert(r@ =~= Seq::new(IRQ_COUNT as nat, |i: int| Seq::<Seq<u8>>::empty())) by {
            assert forall|k: int| 0 <= k < IRQ_COUNT implies r@[k] =~= Seq::<Seq<u8>>::empty() by {
            }
        }
        assert(r.records() =~= Seq::new(IRQ_COUNT as nat, |i: int| Seq::<(H, nat, nat)>::empty())) by {
            assert forall|k: int| 0 <= k < IRQ_COUNT implies r.records()[k] =~= Seq::<
                (H, nat, nat),
            >::empty() by {
            }
        }
        r
    }

    /// Registers a handler for an IRQ. The name identifies the handler and must
    /// be unique for the IRQ: if a handler with the same name is already
    /// registered for the IRQ, nothing is registered and `false` is returned
    /// (the caller logs a warning). The new handler has not been called yet.
    /// The IRQ must be below `IRQ_COUNT`.
    pub fn register(&mut self, irq: IrqNumber, handler: H, name: &'static str) -> (r: bool)
        requires
            old(self).wf(),
            irq.0 < IRQ_COUNT,
        ensures
            final(self).wf(),
            r == !old(self)@[irq.0 as int].contains(name.spec_bytes()),
            r ==> final(self)@ == old(self)@.update(
                irq.0 as int,
                old(self)@[irq.0 as int].push(name.spec_bytes()),
            ),
            !r ==> final(self)@ == old(self)@,
            r ==> final(self).records() == old(self).records().update(
                irq.0 as int,
                old(self).records()[irq.0 as int].push((handler, 0nat, 0nat)),
            ),
            !r ==> final(self).records() == old(self).records(),
            final(self).clock() == old(self).clock(),
    {
        let i = irq.0 as usize;
        let ghost old_table = self.table@;
        let mut list = self.table.remove(i);
        let ghost names = handler_names(list@);
        let mut j: usize = 0;
        while j < list.len()
            invariant
                j <= list@.len(),
                names == handler_names(list@),
                i == irq.0,
                i < IRQ_COUNT,
                old_table == old(self).table@,
                old_table.len() == IRQ_COUNT,
                list == old_table[i as int],
                self.table@ == old_table.remove(i as int),
                self.clock == old(self).clock,
                forall|k: int| 0 <= k < j ==> names[k] != name.spec_bytes(),
            decreases list@.len() - j,
        {
            if same_name(list[j].name, name) {
                proof {
                    assert(names[j as int] == name.spec_bytes());
                    assert(names.contains(name.spec_bytes()));
                }
                self.table.insert(i, list);
                proof {
                    assert(self.table@ =~= old_table);
                }
                return false;
            }
            j = j + 1;
        }
        let ghost old_list = list@;
        let ghost records = handler_records(list@);
        let entry = RegisteredHandler { handler, name, calls: Ghost(0), last_call: Ghost(0) };
        let ghost new_entry = entry;
        list.push(entry);
        self.table.insert(i, list);
        proof {
            assert(!names.contains(name.spec_bytes()));
            assert(self.table@ =~= old_table.update(i as int, list));
            assert(handler_names(list@) =~= names.push(name.spec_bytes()));
            assert(self@ =~= old(self)@.update(i as int, names.push(name.spec_bytes())));
            assert(list@ =~= old_list.push(new_entry));
            assert(new_entry.record() == (handler, 0nat, 0nat));
            assert(handler_records(list@) =~= records.push((handler, 0nat, 0nat)));
            assert(old(self).records()[i as int] == records);
            assert(self.records() =~= old(self).records().update(
                i as int,
                records.push((handler, 0nat, 0nat)),
            ));
        }
        true
    }

    /// Unregisters the handler with the given name from an IRQ. The last handler
    /// of the IRQ takes its place. Returns `false` if no handler has this name
    /// (the caller logs a warning). The IRQ must be below `IRQ_COUNT`.
    pub fn unregister(&mut self, irq: IrqNumber, name: &str) -> (r: bool)
        requires
            old(self).wf(),
            irq.0 < IRQ_COUNT,
        ensures
            final(self).wf(),
            r == old(self)@[irq.0 as int].contains(name.spec_bytes()),
            r ==> exists|p: int|
                0 <= p < old(self)@[irq.0 as int].len() && old(self)@[irq.0 as int][p]
                    == name.spec_bytes() && (forall|k: int|
                    0 <= k < p ==> old(self)@[irq.0 as int][k] != name.spec_bytes())
                    && final(self)@ == old(self)@.update(
                    irq.0 as int,
                    swap_removed(old(self)@[irq.0 as int], p),
                ) && final(self).records() == old(self).records().update(
                    irq.0 as int,
                    swap_removed(old(self).records()[irq.0 as int], p),
                ),
            !r ==> final(self)@ == old(self)@,
            !r ==> final(self).records() == old(self).records(),
            final(self).clock() == old(self).clock(),
    {
        let i = irq.0 as usize;
        let ghost old_table = self.table@;
        let mut list = self.table.remove(i);
        let ghost names = handler_names(list@);
        let mut j: usize = 0;
        while j < list.len()
            invariant
                j <= list@.len(),
                names == handler_names(list@),
                i == irq.0,
                i < IRQ_COUNT,
                old_table == old(self).table@,
                old_table.len() == IRQ_COUNT,
                list == old_table[i as int],
                self.table@ == old_table.remove(i as int),
                self.clock == old(self).clock,
                forall|k: int| 0 <= k < j ==> names[k] != name.spec_bytes(),
            decreases list@.len() - j,
        {
            if same_name(list[j].name, name) {
                let ghost before = list@;
                let _removed = list.swap_remove(j);
                self.table.insert(i, list);
                proof {
                    assert(names[j as int] == name.spec_bytes());
                    assert(self.table@ =~= old_table.update(i as int, list));
                    assert(handler_names(list@) =~= swap_removed(names, j as int));
                    assert(handler_records(list@) =~= swap_removed(handler_records(before), j as int));
                    assert(self.records() =~= old(self).records().update(
                        i as int,
                        swap_removed(handler_records(before), j as int),
                    ));
                    assert(self@ =~= old(self)@.update(i as int, swap_removed(names, j as int)));
                    assert(old(self)@[i as int] == names);
                    let p = j as int;
                    assert(0 <= p < names.len() && names[p] == name.spec_bytes() && (forall|k: int|
                        0 <= k < p ==> names[k] != name.spec_bytes()) && self@ == old(self)@.update(
                        i as int,
                        swap_removed(names, p),
                    ) && self.records() == old(self).records().update(
                        i as int,
                        swap_removed(old(self).records()[i as int], p),
                    ));
                }
                return true;
            }
            j = j + 1;
        }
        self.table.insert(i, list);
        proof {
            assert(self.table@ =~= old_table);
            if names.contains(name.spec_bytes()) {
                let k = choose|k: int| 0 <= k < names.len() && names[k] == name.spec_bytes();
                assert(names[k] != name.spec_bytes());
            }
        }
        false
    }

    /// Calls every handler registered for an IRQ, once each, in list order.
    /// Returns `false` if no handler is registered (the caller logs a warning:
    /// this may reveal a bug or a hardware failure). The handlers of the other
    /// IRQs are left untouched. The IRQ must be below `IRQ_COUNT`.
    pub fn handle(&mut self, irq: IrqNumber) -> (r: bool)
        requires
            old(self).wf(),
            irq.0 < IRQ_COUNT,
        ensures
            final(self).wf(),
            final(self)@ == old(self)@,
            r == (old(self)@[irq.0 as int].len() > 0),
            final(self).records().len() == old(self).records().len(),
            forall|k: int|
                0 <= k < IRQ_COUNT && k != irq.0 ==> #[trigger] final(self).records()[k]
                    == old(self).records()[k],
            final(self).records()[irq.0 as int].len() == old(self).records()[irq.0 as int].len(),
            final(self).clock() == old(self).clock() + old(self).records()[irq.0 as int].len(),
            forall|p: int|
                0 <= p < old(self).records()[irq.0 as int].len() ==> {
                    &&& (#[trigger] final(self).records()[irq.0 as int][p]).1 == old(
                        self,
                    ).records()[irq.0 as int][p].1 + 1
                    &&& final(self).records()[irq.0 as int][p].2 == old(self).clock() + p + 1
                },
    {
        let i = irq.0 as usize;
        let ghost old_table = self.table@;
        let ghost old_clock = self.clock@;
        let mut rest = self.table.remove(i);
        let ghost names = handler_names(rest@);
        let ghost old_r = handler_records(rest@);
        let empty = rest.len() == 0;
        let mut done: Vec<RegisteredHandler<H>> = Vec::new();
        while rest.len() > 0
            invariant
                names == handler_names(done@) + handler_names(rest@),
                i == irq.0,
                i < IRQ_COUNT,
                old_table == old(self).table@,
                old_table.len() == IRQ_COUNT,
                names == handler_names(old_table[i as int]@),
                old_r == handler_records(old_table[i as int]@),
                self.table@ == old_table.remove(i as int),
                done@.len() + rest@.len() == old_r.len(),
                self.clock@ == old_clock + done@.len(),
                old_clock == old(self).clock@,
                forall|p: int|
                    0 <= p < done@.len() ==> {
                        &&& (#[trigger] done@[p].record()).1 == old_r[p].1 + 1
                        &&& done@[p].record().2 == old_clock + p + 1
                    },
                forall|p: int|
                    0 <= p < rest@.len() ==> #[trigger] rest@[p].record() == old_r[done@.len() + p],
            decreases rest@.len(),
        {
            let ghost before = rest@;
            let ghost done_before = done@;
            let mut entry = rest.remove(0);
            assert(entry.record() == old_r[done_before.len() as int]);
            entry.handler.handle();
            self.clock = Ghost(self.clock@ + 1);
            entry.calls = Ghost(entry.calls@ + 1);
            entry.last_call = Ghost(self.clock@);
            let ghost entry_name = entry.name_bytes();
            proof {
                assert(handler_names(rest@) =~= handler_names(before).drop_first());
                assert(handler_names(before)[0] == entry_name);
            }
            done.push(entry);
            proof {
                assert(handler_names(done@) + handler_names(rest@) =~= names);
                assert(done@ == done_before.push(entry));
                assert forall|p: int| 0 <= p < done@.len() implies {
                    &&& (#[trigger] done@[p].record()).1 == old_r[p].1 + 1
                    &&& done@[p].record().2 == old_clock + p + 1
                } by {
                    if p < done_before.len() {
                        assert(done@[p] == done_before[p]);
                    }
                }
                assert forall|p: int| 0 <= p < rest@.len() implies #[trigger] rest@[p].record()
                    == old_r[done@.len() + p] by {
                    assert(rest@[p] == before[p + 1]);
                }
            }
        }
        self.table.insert(i, done);
        proof {
            assert(handler_names(rest@) =~= Seq::<Seq<u8>>::empty());
            assert(handler_names(done@) =~= names);
            assert(self@ =~= old(self)@);
            assert(self.table@ == old_table.update(i as int, done));
            assert(self.records()[i as int] == handler_records(done@));
            assert forall|k: int| 0 <= k < IRQ_COUNT && k != irq.0 implies #[trigger] self.records()[k]
                == old(self).records()[k] by {
                assert(self.table@[k] == old_table[k]);
            }
        }
        !empty
    }
}

/// Registering a handler under a fresh name and then unregistering that name
/// gives back the table as it was.
pub proof fn lemma_register_then_unregister(
    table: Seq<Seq<Seq<u8>>>,
    irq: int,
    name: Seq<u8>,
    p: int,
)
    requires
        0 <= irq < table.len(),
        !table[irq].contains(name),
        ({
            let list = table[irq].push(name);
            &&& 0 <= p < list.len()
            &&& list[p] == name
            &&& forall|k: int| 0 <= k < p ==> list[k] != name
        }),
    ensures
        ({
            let registered = table.update(irq, table[irq].push(name));
            registered.update(irq, swap_removed(registered[irq], p))
        }) == table,
{
    let list = table[irq].push(name);
    if p < table[irq].len() {
        assert(table[irq][p] == list[p]);
        assert(table[irq].contains(name));
    }
    assert(p == table[irq].len());
    assert(swap_removed(list, p) =~= table[irq]);
    let registered = table.update(irq, list);
    assert(registered.update(irq, swap_removed(registered[irq], p)) =~= table);
}

/// Handler names stay unique within an IRQ: registering only adds a name that
/// is not there yet, and unregistering only removes one.
pub proof fn lemma_names_stay_unique(names: Seq<Seq<u8>>, name: Seq<u8>, p: int)
    requires
        names.no_duplicates(),
    ensures
        !names.contains(name) ==> names.push(name).no_duplicates(),
        0 <= p < names.len() ==> swap_removed(names, p).no_duplicates(),
{
    if !names.contains(name) {
        let pushed = names.push(name);
        assert forall|i: int, j: int| 0 <= i < pushed.len() && 0 <= j < pushed.len() && i != j
            implies pushed[i] != pushed[j] by {
            if i == names.len() as int {
                assert(names[j] == pushed[j]);
            } else if j == names.len() as int {
                assert(names[i] == pushed[i]);
            }
        }
    }
    if 0 <= p < names.len() {
        let r = swap_removed(names, p);
        let last = names.len() - 1;
        assert forall|i: int, j: int| 0 <= i < r.len() && 0 <= j < r.len() && i != j
            implies r[i] != r[j] by {
            let oi = if i == p { last } else { i };
            let oj = if j == p { last } else { j };
            assert(r[i] == names[oi]);
            assert(r[j] == names[oj]);
        }
    }
}

/// The state of the interrupts on a core: whether they are enabled.
#[derive(Default, Debug, PartialEq, Eq, Structural)]
pub struct State(pub bool);

/// What an interrupt raised in kernel mode is, from the number its handler
/// pushed in the interrupt frame.
#[derive(Debug, Clone, Copy, PartialEq, Eq, Structural)]
pub enum InterruptKind {
    /// An IRQ of the I/O APIC, to acknowledge; `timer` tells whether it is the
    /// local APIC timer, which counts the jiffies.
    IoApic { timer: bool },
    /// A TLB shootdown: the TLB of the core is to be flushed.
    TlbShootdown,
    /// Any other vector, which is not handled (a warning is logged).
    Unhandled(u8),
}

/// What the vector `irq` is, the I/O APIC having `entry_count` entries.
pub open spec fn kind_of(irq: u8, entry_count: u8) -> InterruptKind {
    if entry_count != 0 && 32 <= irq < 32 + entry_count {
        InterruptKind::IoApic { timer: irq == crate::arch::apic::TIMER_IRQ_VECTOR }
    } else if irq == crate::arch::tlb::SHOOTDOWN_VECTOR {
        InterruptKind::TlbShootdown
    } else {
        InterruptKind::Unhandled(irq)
    }
}

/// Classifies an interrupt from the data of its interrupt frame, whose low
/// byte is the vector, the I/O APIC having `entry_count` entries (0 when it is
/// not initialized). The sum of the first I/O APIC vector and the entry count
/// is computed on 8 bits and must not overflow when it is reached.
pub fn classify_interrupt(data: u64, entry_count: u8) -> (r: InterruptKind)
    requires
        entry_count != 0 && (data % 256) >= 32 ==> 32 + entry_count <= 255,
    ensures
        r == kind_of((data % 256) as u8, entry_count),
{
    let irq = data as u8;
    assert(irq == data % 256) by (bit_vector)
        requires
            irq == data as u8,
    ;
    if crate::arch::apic::is_irq(entry_count, irq) {
        InterruptKind::IoApic { timer: crate::arch::apic::own_irq(irq) }
    } else if crate::arch::tlb::own_irq(irq) {
        InterruptKind::TlbShootdown
    } else {
        InterruptKind::Unhandled(irq)
    }
}

} // verus!
