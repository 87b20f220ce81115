//! Runs of same-direction operations, which move as one burst each.

use super::low_level::Access;
use super::MAX_TRANSFER_LEN;
use crate::bus::Bus;
use vstd::prelude::*;

verus! {

/// One operation of a transaction.
#[derive(PartialEq, Eq, Debug)]
pub enum Operation {
    /// Read into the buffer.
    Read(Vec<u8>),
    /// Write the buffer.
    Write(Vec<u8>),
}

impl Operation {
    /// The buffer.
    pub open spec fn bytes(self) -> Seq<u8> {
        match self {
            Operation::Read(buf) => buf@,
            Operation::Write(buf) => buf@,
        }
    }

    /// Whether it writes.
    pub open spec fn writes(self) -> bool {
        self is Write
    }

    /// Bytes the operation carries.
    pub fn len(&self) -> (len: usize)
        ensures
            len == self.bytes().len(),
    {
        match self {
            Operation::Read(buf) => buf.len(),
            Operation::Write(buf) => buf.len(),
        }
    }

    /// Whether it writes.
    pub fn is_write(&self) -> (write: bool)
        ensures
            write == self.writes(),
    {
        match self {
            Operation::Read(_) => false,
            Operation::Write(_) => true,
        }
    }
}

/// The buffers of the operations from `from` up to `end`, one after the other.
pub open spec fn flat(ops: Seq<Operation>, from: int, end: int) -> Seq<u8>
    decreases end - from,
{
    if from >= end {
        Seq::empty()
    } else {
        ops[from].bytes() + flat(ops, from + 1, end)
    }
}

/// The buffers up to a point, and from there on, are all the buffers.
pub proof fn flat_splits(ops: Seq<Operation>, from: int, mid: int, end: int)
    requires
        from <= mid <= end,
    ensures
        flat(ops, from, end) == flat(ops, from, mid) + flat(ops, mid, end),
    decreases mid - from,
{
    if from < mid {
        flat_splits(ops, from + 1, mid, end);
        assert(flat(ops, from, end) =~= flat(ops, from, mid) + flat(ops, mid, end));
    } else {
        assert(flat(ops, from, end) =~= flat(ops, from, mid) + flat(ops, mid, end));
    }
}

/// Operations that carry nothing contribute nothing.
proof fn lemma_empties(ops: Seq<Operation>, from: int, end: int)
    requires
        forall|i: int| from <= i < end ==> (#[trigger] ops[i]).bytes().len() == 0,
    ensures
        flat(ops, from, end) == Seq::<u8>::empty(),
    decreases end - from,
{
    if from < end {
        lemma_empties(ops, from + 1, end);
        assert(ops[from].bytes() =~= Seq::<u8>::empty());
        assert(flat(ops, from, end) =~= Seq::<u8>::empty());
    }
}

/// A run of consecutive operations that move in one direction.
#[derive(Clone, Copy, PartialEq, Eq, Debug, Structural)]
pub struct Group {
    /// First operation of the run.
    pub start: usize,
    /// One past the last operation that carries any bytes.
    pub end: usize,
    /// Whether the run writes; it reads otherwise.
    pub write: bool,
    /// Bytes the whole run moves, which is the burst length.
    pub total: usize,
}

/// Whether everything from `from` up to `end` that carries bytes moves the same way.
pub open spec fn one_way(ops: Seq<Operation>, from: int, end: int, write: bool) -> bool {
    forall|i: int| from <= i < end && (#[trigger] ops[i]).bytes().len() > 0 ==> ops[i].writes() == write
}

impl Group {
    /// Whether this is the run that comes next at or after `from`: it starts at the first operation that
    /// carries bytes, and ends before the first one after it that moves the other way.
    pub open spec fn follows(self, ops: Seq<Operation>, from: int) -> bool {
        &&& from <= self.start < self.end <= ops.len()
        &&& forall|i: int| from <= i < self.start ==> (#[trigger] ops[i]).bytes().len() == 0
        &&& ops[self.start as int].bytes().len() > 0
        &&& ops[self.end - 1].bytes().len() > 0
        &&& one_way(ops, self.start as int, self.end as int, self.write)
        &&& forall|i: int|
            #![trigger ops[i]]
            self.end <= i < ops.len() && ops[i].bytes().len() > 0 && (forall|j: int|
                self.end <= j < i ==> (#[trigger] ops[j]).bytes().len() == 0) ==> ops[i].writes() != self.write
        &&& self.total == flat(ops, self.start as int, self.end as int).len()
    }
}

/// The next run of same-direction operations at or after `from`, or [`None`] once there are none left.
///
/// Operations carrying no bytes are skipped rather than addressed. Nothing is gained by putting an
/// address on the bus to move nothing, and an empty operation between two writes must not break the run
/// they form.
pub fn next_group(ops: &[Operation], from: usize) -> (group: Option<Group>)
    requires
        flat(ops@, from as int, ops@.len() as int).len() <= usize::MAX,
    ensures
        match group {
            Some(group) => group.follows(ops@, from as int),
            None => forall|i: int| from <= i < ops@.len() ==> (#[trigger] ops@[i]).bytes().len() == 0,
        },
{
    let len: usize = ops.len();
    let mut start: usize = from;

    while start < len && ops[start].len() == 0
        invariant
            len == ops@.len(),
            from <= start,
            start <= len || start == from,
            forall|i: int| from <= i < start ==> (#[trigger] ops@[i]).bytes().len() == 0,
        decreases len - start,
    {
        start += 1;
    }
    if start >= len {
        return None;
    }
    let write = ops[start].is_write();
    let mut total: usize = ops[start].len();
    let mut end: usize = start + 1;
    let mut at: usize = start + 1;

    proof {
        flat_splits(ops@, from as int, start as int, len as int);
        assert(flat(ops@, start + 1, start + 1) =~= Seq::<u8>::empty());
        assert(flat(ops@, start as int, start + 1) =~= ops@[start as int].bytes());
    }
    while at < len
        invariant
            len == ops@.len(),
            from <= start < end <= at <= len,
            ops@[start as int].bytes().len() > 0,
            ops@[end - 1].bytes().len() > 0,
            one_way(ops@, start as int, end as int, write),
            forall|i: int| end <= i < at ==> (#[trigger] ops@[i]).bytes().len() == 0,
            total == flat(ops@, start as int, end as int).len(),
            flat(ops@, start as int, len as int).len() <= usize::MAX,
        ensures
            forall|i: int|
                #![trigger ops@[i]]
                end <= i < ops@.len() && ops@[i].bytes().len() > 0 && (forall|j: int|
                    end <= j < i ==> (#[trigger] ops@[j]).bytes().len() == 0) ==> ops@[i].writes() != write,
        decreases len - at,
    {
        if ops[at].len() == 0 {
            at += 1;
            continue;
        }
        if ops[at].is_write() != write {
            assert forall|i: int|
                #![trigger ops@[i]]
                end <= i < ops@.len() && ops@[i].bytes().len() > 0 && (forall|j: int|
                    end <= j < i ==> (#[trigger] ops@[j]).bytes().len() == 0) implies ops@[i].writes() != write by {
                if i > at {
                    assert(ops@[at as int].bytes().len() == 0);
                }
            }
            break;
        }
        proof {
            flat_splits(ops@, start as int, end as int, at + 1);
            flat_splits(ops@, end as int, at as int, at + 1);
            lemma_empties(ops@, end as int, at as int);
            flat_splits(ops@, start as int, at + 1, len as int);
            assert(flat(ops@, at + 1, at + 1) =~= Seq::<u8>::empty());
            assert(flat(ops@, at as int, at + 1) =~= ops@[at as int].bytes());
        }
        total += ops[at].len();
        at += 1;
        end = at;
    }
    Some(Group { start, end, write, total })
}

/// The run that comes next at or after `from`, if there is one.
pub open spec fn run_at(ops: Seq<Operation>, from: int) -> Option<Group> {
    if exists|group: Group| group.follows(ops, from) {
        Some(choose|group: Group| group.follows(ops, from))
    } else {
        None
    }
}

/// There is one next run, or none.
pub proof fn next_run_is_unique(ops: Seq<Operation>, from: int)
    ensures
        forall|group: Group| #[trigger] group.follows(ops, from) ==> run_at(ops, from) == Some(group),
        run_at(ops, from) matches Some(group) ==> group.follows(ops, from),
        (forall|i: int| from <= i < ops.len() ==> (#[trigger] ops[i]).bytes().len() == 0) ==> run_at(ops, from) is None,
{
    assert forall|group: Group| #[trigger] group.follows(ops, from) implies run_at(ops, from) == Some(group) by {
        let other = run_at(ops, from)->Some_0;
        assert(other.follows(ops, from));
        lemma_same_run(ops, from, group, other);
    }
    if (forall|i: int| from <= i < ops.len() ==> (#[trigger] ops[i]).bytes().len() == 0) && run_at(ops, from) is Some {
        let group = run_at(ops, from)->Some_0;
        assert(group.follows(ops, from));
        assert(ops[group.start as int].bytes().len() > 0);
    }
}

proof fn lemma_same_run(ops: Seq<Operation>, from: int, a: Group, b: Group)
    requires
        a.follows(ops, from),
        b.follows(ops, from),
    ensures
        a == b,
{
    if a.start < b.start {
        assert(ops[a.start as int].bytes().len() == 0);
    }
    if b.start < a.start {
        assert(ops[b.start as int].bytes().len() == 0);
    }
    assert(ops[a.start as int].writes() == a.write && ops[b.start as int].writes() == b.write);
    lemma_runs_do_not_stop_short(ops, a, b);
    lemma_runs_do_not_stop_short(ops, b, a);
}

/// Of two runs that start together, neither ends within the other.
proof fn lemma_runs_do_not_stop_short(ops: Seq<Operation>, short: Group, long: Group)
    requires
        short.start == long.start,
        short.write == long.write,
        short.start < short.end <= ops.len(),
        long.start < long.end <= ops.len(),
        ops[long.end - 1].bytes().len() > 0,
        one_way(ops, long.start as int, long.end as int, long.write),
        forall|i: int|
            #![trigger ops[i]]
            short.end <= i < ops.len() && ops[i].bytes().len() > 0 && (forall|j: int|
                short.end <= j < i ==> (#[trigger] ops[j]).bytes().len() == 0) ==> ops[i].writes() != short.write,
    ensures
        long.end <= short.end,
{
    if short.end < long.end {
        let i = lemma_first_nonempty(ops, short.end as int, long.end - 1);
        assert(ops[i].writes() == long.write);
    }
}

/// The first operation of a range that carries bytes, given one that does.
proof fn lemma_first_nonempty(ops: Seq<Operation>, from: int, at: int) -> (first: int)
    requires
        from <= at,
        ops[at].bytes().len() > 0,
    ensures
        from <= first <= at,
        ops[first].bytes().len() > 0,
        forall|j: int| from <= j < first ==> (#[trigger] ops[j]).bytes().len() == 0,
    decreases at - from,
{
    if ops[from].bytes().len() > 0 {
        from
    } else {
        lemma_first_nonempty(ops, from + 1, at)
    }
}

/// Where a run that has got this far ends.
proof fn lemma_run_end(ops: Seq<Operation>, start: int, end: int, at: int, write: bool) -> (last: int)
    requires
        0 <= start < end <= at <= ops.len(),
        ops[end - 1].bytes().len() > 0,
        one_way(ops, start, end, write),
        forall|i: int| end <= i < at ==> (#[trigger] ops[i]).bytes().len() == 0,
    ensures
        start < last <= ops.len(),
        ops[last - 1].bytes().len() > 0,
        one_way(ops, start, last, write),
        forall|i: int|
            #![trigger ops[i]]
            last <= i < ops.len() && ops[i].bytes().len() > 0 && (forall|j: int|
                last <= j < i ==> (#[trigger] ops[j]).bytes().len() == 0) ==> ops[i].writes() != write,
    decreases ops.len() - at,
{
    if at == ops.len() {
        end
    } else if ops[at].bytes().len() == 0 {
        lemma_run_end(ops, start, end, at + 1, write)
    } else if ops[at].writes() != write {
        assert forall|i: int|
            #![trigger ops[i]]
            end <= i < ops.len() && ops[i].bytes().len() > 0 && (forall|j: int|
                end <= j < i ==> (#[trigger] ops[j]).bytes().len() == 0) implies ops[i].writes() != write by {
            if i > at {
                assert(ops[at].bytes().len() == 0);
            }
        }
        end
    } else {
        lemma_run_end(ops, start, at + 1, at + 1, write)
    }
}

/// Where something is left to move, there is a run that starts with it.
pub proof fn something_left_is_a_run(ops: Seq<Operation>, from: int, at: int)
    requires
        0 <= from <= at < ops.len(),
        ops.len() <= usize::MAX,
        flat(ops, from, ops.len() as int).len() <= usize::MAX,
        ops[at].bytes().len() > 0,
    ensures
        run_at(ops, from) is Some,
{
    let start = lemma_first_nonempty(ops, from, at);
    let write = ops[start].writes();
    let end = lemma_run_end(ops, start, start + 1, start + 1, write);
    flat_splits(ops, from, start, ops.len() as int);
    flat_splits(ops, start, end, ops.len() as int);
    let group = Group {
        start: start as usize,
        end: end as usize,
        write,
        total: flat(ops, start, end).len() as usize,
    };
    assert(group.follows(ops, from));
}

/// Two runs in a row move in opposite directions: the change of direction is what parts them.
pub proof fn runs_alternate(ops: Seq<Operation>, from: int, first: Group, second: Group)
    requires
        first.follows(ops, from),
        second.follows(ops, first.end as int),
    ensures
        second.write != first.write,
{
    assert(ops[second.start as int].writes() == second.write);
    assert(forall|j: int| first.end <= j < second.start ==> (#[trigger] ops[j]).bytes().len() == 0);
}

/// Nothing is dropped and nothing reordered: a run, and then whatever is left, are all the bytes there were.
pub proof fn run_and_rest_are_everything(ops: Seq<Operation>, from: int, group: Group)
    requires
        0 <= from,
        group.follows(ops, from),
    ensures
        flat(ops, from, ops.len() as int) == flat(ops, group.start as int, group.end as int) + flat(
            ops,
            group.end as int,
            ops.len() as int,
        ),
{
    flat_splits(ops, from, group.start as int, ops.len() as int);
    lemma_empties(ops, from, group.start as int);
    flat_splits(ops, group.start as int, group.end as int, ops.len() as int);
    assert(flat(ops, from, ops.len() as int) =~= flat(ops, group.start as int, ops.len() as int));
}

/// Once no run is left, no byte is.
pub proof fn no_run_is_no_bytes(ops: Seq<Operation>, from: int)
    requires
        forall|i: int| from <= i < ops.len() ==> (#[trigger] ops[i]).bytes().len() == 0,
    ensures
        flat(ops, from, ops.len() as int) == Seq::<u8>::empty(),
{
    lemma_empties(ops, from, ops.len() as int);
}

/// Where a run of same-direction operations has got to.
///
/// A run is one burst fed from several buffers rather than one burst per buffer.
#[derive(Clone, Copy, PartialEq, Eq, Debug, Structural)]
pub struct GroupCursor {
    /// Operation being moved, indexing the transaction's own slice.
    pub op: usize,
    /// Bytes of that operation already moved.
    pub pos: usize,
}

impl GroupCursor {
    /// Whether it points into the operations up to `end`.
    pub open spec fn within(self, ops: Seq<Operation>, end: int) -> bool {
        &&& self.op <= end <= ops.len()
        &&& self.op < end ==> self.pos <= ops[self.op as int].bytes().len()
        &&& self.op == end ==> self.pos == 0
    }

    /// What is left to move, up to `end`.
    pub open spec fn rest(self, ops: Seq<Operation>, end: int) -> Seq<u8> {
        if self.op < end {
            ops[self.op as int].bytes().skip(self.pos as int) + flat(ops, self.op + 1, end)
        } else {
            Seq::empty()
        }
    }

    /// How many bytes of the operations from the first on are behind it.
    pub open spec fn offset(self, ops: Seq<Operation>) -> int {
        flat(ops, 0, self.op as int).len() + self.pos
    }

    /// The start of a run.
    pub fn at(group: &Group) -> (cursor: Self)
        ensures
            cursor == (GroupCursor { op: group.start, pos: 0 }),
    {
        GroupCursor { op: group.start, pos: 0 }
    }
}

/// A cursor at the start of a run has the whole run before it.
pub proof fn cursor_starts_at_the_run(ops: Seq<Operation>, from: int, group: Group)
    requires
        0 <= from,
        group.follows(ops, from),
    ensures
        ({
            let cursor = GroupCursor { op: group.start, pos: 0 };

            &&& cursor.within(ops, group.end as int)
            &&& cursor.rest(ops, group.end as int) == flat(ops, group.start as int, group.end as int)
        }),
{
    let cursor = GroupCursor { op: group.start, pos: 0 };
    assert(ops[group.start as int].bytes().skip(0) =~= ops[group.start as int].bytes());
    assert(cursor.rest(ops, group.end as int) =~= flat(ops, group.start as int, group.end as int));
}

/// The lesser of two lengths.
pub open spec fn fewer(a: int, b: int) -> int {
    if a < b {
        a
    } else {
        b
    }
}

/// The writes that queue bytes.
pub open spec fn queued(bytes: Seq<u8>) -> Seq<Access> {
    Seq::new(bytes.len(), |i: int| Access::Txdata(bytes[i]))
}

/// Push what fits into the transmit FIFO from a run of write operations, returning how many went in.
///
/// The run moves as one burst, so the FIFO is fed from each operation's buffer in turn. `room` is a reading
/// of `TXFIFOCNT`, which counts the space left.
pub fn fill_tx_group(ops: &[Operation], end: usize, cur: &mut GroupCursor, room: u8, bus: &mut Bus<Access>) -> (sent:
    usize)
    requires
        old(cur).within(ops@, end as int),
        one_way(ops@, old(cur).op as int, end as int, true),
    ensures
        final(cur).within(ops@, end as int),
        final(cur).op >= old(cur).op,
        one_way(ops@, final(cur).op as int, end as int, true),
        sent == fewer(room as int, old(cur).rest(ops@, end as int).len() as int),
        final(cur).rest(ops@, end as int) == old(cur).rest(ops@, end as int).skip(sent as int),
        final(bus)@ == old(bus)@ + queued(old(cur).rest(ops@, end as int).take(sent as int)),
{
    let mut sent: usize = 0;
    let ghost rest = cur.rest(ops@, end as int);

    assert(rest.skip(0) =~= rest);
    assert(queued(rest.take(0)) =~= Seq::<Access>::empty());
    while cur.op < end
        invariant
            cur.within(ops@, end as int),
            cur.op >= old(cur).op,
            one_way(ops@, cur.op as int, end as int, true),
            sent <= room,
            sent <= rest.len(),
            rest == old(cur).rest(ops@, end as int),
            cur.rest(ops@, end as int) == rest.skip(sent as int),
            bus@ == old(bus)@ + queued(rest.take(sent as int)),
            cur.op >= end ==> sent == rest.len(),
        ensures
            sent == fewer(room as int, rest.len() as int),
        decreases end - cur.op, room - sent,
    {
        if cur.pos == ops[cur.op].len() {
            proof {
                let gone = ops@[cur.op as int].bytes();
                assert(gone.skip(cur.pos as int) =~= Seq::<u8>::empty());
                let next = GroupCursor { op: (cur.op + 1) as usize, pos: 0 };
                if next.op < end {
                    assert(ops@[next.op as int].bytes().skip(0) =~= ops@[next.op as int].bytes());
                }
                assert(next.rest(ops@, end as int) =~= cur.rest(ops@, end as int));
            }
            cur.op += 1;
            cur.pos = 0;
            if cur.op == end {
                assert(cur.rest(ops@, end as int).len() == 0);
                assert(rest.skip(sent as int).len() == rest.len() - sent);
            }
            continue;
        }
        proof {
            assert(cur.rest(ops@, end as int).len() > 0);
            assert(rest.skip(sent as int).len() == rest.len() - sent);
        }
        if sent == room as usize {
            break;
        }
        let byte: u8 = match &ops[cur.op] {
            Operation::Write(buf) => buf[cur.pos],
            Operation::Read(_) => {
                assert(false);
                0
            },
        };

        proof {
            let buf = ops@[cur.op as int].bytes();
            assert(byte == cur.rest(ops@, end as int)[0]);
            assert(byte == rest[sent as int]);
            assert(buf.skip(cur.pos as int).skip(1) =~= buf.skip(cur.pos + 1));
            let next = GroupCursor { op: cur.op, pos: (cur.pos + 1) as usize };
            assert(next.rest(ops@, end as int) =~= cur.rest(ops@, end as int).skip(1));
            assert(rest.skip(sent as int).skip(1) =~= rest.skip(sent + 1));
            assert(queued(rest.take(sent + 1)) =~= queued(rest.take(sent as int)).push(Access::Txdata(byte)));
        }
        bus.push(Access::Txdata(byte));
        cur.pos += 1;
        sent += 1;
    }
    sent
}

/// Whether two lists of operations differ in nothing but what their buffers hold.
pub open spec fn same_shape(a: Seq<Operation>, b: Seq<Operation>) -> bool {
    &&& a.len() == b.len()
    &&& forall|i: int|
        0 <= i < a.len() ==> (#[trigger] a[i]).writes() == b[i].writes() && a[i].bytes().len() == b[i].bytes().len()
}

/// Operations that agree on a range have the same buffers over it.
proof fn lemma_flat_agrees(a: Seq<Operation>, b: Seq<Operation>, from: int, end: int)
    requires
        forall|i: int| from <= i < end ==> #[trigger] a[i] == b[i],
    ensures
        flat(a, from, end) == flat(b, from, end),
    decreases end - from,
{
    if from < end {
        lemma_flat_agrees(a, b, from + 1, end);
    }
}

/// Operations of one shape have equally many bytes over any range.
pub proof fn shapes_have_lengths(a: Seq<Operation>, b: Seq<Operation>, from: int, end: int)
    requires
        same_shape(a, b),
        0 <= from,
        end <= a.len(),
    ensures
        flat(a, from, end).len() == flat(b, from, end).len(),
    decreases end - from,
{
    if from < end {
        shapes_have_lengths(a, b, from + 1, end);
        assert(a[from].bytes().len() == b[from].bytes().len());
    }
}

/// Changing one byte of one buffer changes that byte of all of them and no other.
proof fn lemma_flat_update(ops: Seq<Operation>, op: int, pos: int, byte: u8, changed: Operation)
    requires
        0 <= op < ops.len(),
        0 <= pos < ops[op].bytes().len(),
        changed.bytes() == ops[op].bytes().update(pos, byte),
    ensures
        flat(ops.update(op, changed), 0, ops.len() as int) == flat(ops, 0, ops.len() as int).update(
            flat(ops, 0, op).len() + pos,
            byte,
        ),
        flat(ops, 0, op).len() + pos < flat(ops, 0, ops.len() as int).len(),
{
    let after = ops.update(op, changed);
    let n = ops.len() as int;
    flat_splits(ops, 0, op, n);
    flat_splits(after, 0, op, n);
    lemma_flat_agrees(ops, after, 0, op);
    lemma_flat_agrees(ops, after, op + 1, n);
    assert(flat(after, 0, n) =~= flat(ops, 0, n).update(flat(ops, 0, op).len() + pos, byte));
}

/// What is behind a cursor, and what is left of a run, are everything up to its end.
pub proof fn offset_and_rest_add_up(ops: Seq<Operation>, cur: GroupCursor, end: int)
    requires
        cur.within(ops, end),
    ensures
        cur.offset(ops) + cur.rest(ops, end).len() == flat(ops, 0, end).len(),
{
    flat_splits(ops, 0, cur.op as int, end);
}

/// Take bytes out of the receive FIFO into a run of read operations, returning how many went in.
///
/// `bytes` are readings of `CRXDATA`, as many as the FIFO held or the run has room for.
pub fn drain_rx_group(ops: &mut Vec<Operation>, end: usize, cur: &mut GroupCursor, bytes: &[u8]) -> (got: usize)
    requires
        old(cur).within(old(ops)@, end as int),
        one_way(old(ops)@, old(cur).op as int, end as int, false),
        bytes@.len() <= old(cur).rest(old(ops)@, end as int).len(),
    ensures
        got == bytes@.len(),
        same_shape(final(ops)@, old(ops)@),
        final(cur).within(final(ops)@, end as int),
        final(cur).op >= old(cur).op,
        one_way(final(ops)@, final(cur).op as int, end as int, false),
        final(cur).offset(final(ops)@) == old(cur).offset(old(ops)@) + got,
        final(cur).rest(final(ops)@, end as int).len() == old(cur).rest(old(ops)@, end as int).len() - got,
        flat(final(ops)@, 0, final(ops)@.len() as int) == stored(
            flat(old(ops)@, 0, old(ops)@.len() as int),
            old(cur).offset(old(ops)@),
            bytes@,
        ),
{
    let mut got: usize = 0;
    let ghost start = cur.offset(ops@);
    let ghost before = flat(ops@, 0, ops@.len() as int);

    proof {
        offset_and_rest_add_up(ops@, *cur, end as int);
        flat_splits(ops@, 0, end as int, ops@.len() as int);
        assert(stored(before, start, bytes@.take(0)) =~= before);
    }
    while got < bytes.len()
        invariant
            got <= bytes@.len(),
            same_shape(ops@, old(ops)@),
            cur.within(ops@, end as int),
            cur.op >= old(cur).op,
            one_way(ops@, cur.op as int, end as int, false),
            start == old(cur).offset(old(ops)@),
            before == flat(old(ops)@, 0, old(ops)@.len() as int),
            cur.offset(ops@) == start + got,
            bytes@.len() - got <= cur.rest(ops@, end as int).len(),
            start + bytes@.len() <= before.len(),
            flat(ops@, 0, ops@.len() as int) == stored(before, start, bytes@.take(got as int)),
            start >= 0,
        decreases bytes.len() - got, end - cur.op,
    {
        if cur.pos == ops[cur.op].len() {
            proof {
                let gone = ops@[cur.op as int].bytes();
                assert(gone.skip(cur.pos as int) =~= Seq::<u8>::empty());
                let next = GroupCursor { op: (cur.op + 1) as usize, pos: 0 };
                if next.op < end {
                    assert(ops@[next.op as int].bytes().skip(0) =~= ops@[next.op as int].bytes());
                }
                assert(next.rest(ops@, end as int) =~= cur.rest(ops@, end as int));
                flat_splits(ops@, 0, cur.op as int, cur.op + 1);
                assert(flat(ops@, cur.op + 1, cur.op + 1) =~= Seq::<u8>::empty());
                assert(flat(ops@, cur.op as int, cur.op + 1) =~= gone);
            }
            cur.op += 1;
            cur.pos = 0;
            continue;
        }
        let byte: u8 = bytes[got];
        let at: usize = cur.op;
        let pos: usize = cur.pos;
        let ghost ops0 = ops@;
        let ghost cur0 = *cur;

        match &mut ops[at] {
            Operation::Read(buf) => {
                buf[pos] = byte;
            },
            Operation::Write(_) => {
                assert(false);
            },
        }
        cur.pos += 1;
        got += 1;
        proof {
            assert(ops@ =~= ops0.update(at as int, ops@[at as int]));
            lemma_flat_update(ops0, at as int, pos as int, byte, ops@[at as int]);
            lemma_flat_agrees(ops0, ops@, 0, at as int);
            lemma_flat_agrees(ops0, ops@, at + 1, end as int);
            assert(flat(ops@, 0, ops@.len() as int) =~= stored(before, start, bytes@.take(got as int)));
            assert(cur.rest(ops@, end as int).len() == cur0.rest(ops0, end as int).len() - 1);
        }
    }
    proof {
        assert(bytes@.take(got as int) =~= bytes@);
        offset_and_rest_add_up(ops@, *cur, end as int);
        shapes_have_lengths(ops@, old(ops)@, 0, end as int);
        offset_and_rest_add_up(old(ops)@, *old(cur), end as int);
    }
    got
}

/// A sequence with some of it overwritten.
pub open spec fn stored(before: Seq<u8>, at: int, bytes: Seq<u8>) -> Seq<u8> {
    Seq::new(
        before.len(),
        |i: int|
            if at <= i < at + bytes.len() {
                bytes[i - at]
            } else {
                before[i]
            },
    )
}

/// The lesser of two lengths is no longer than either, and is one of them.
pub proof fn fewer_is_the_lesser(a: int, b: int)
    ensures
        fewer(a, b) <= a && fewer(a, b) <= b,
        fewer(a, b) == a || fewer(a, b) == b,
{
}

/// Bytes are queued one write each, in order.
pub proof fn bytes_are_queued_in_order(bytes: Seq<u8>)
    ensures
        queued(bytes).len() == bytes.len(),
        forall|i: int| 0 <= i < bytes.len() ==> #[trigger] queued(bytes)[i] == Access::Txdata(bytes[i]),
{
}

/// Overwriting a stretch leaves the rest as it was.
pub proof fn storing_leaves_the_rest(before: Seq<u8>, at: int, bytes: Seq<u8>)
    requires
        0 <= at,
        at + bytes.len() <= before.len(),
    ensures
        stored(before, at, bytes) == before.take(at) + bytes + before.skip((at + bytes.len()) as int),
{
    assert(stored(before, at, bytes) =~= before.take(at) + bytes + before.skip((at + bytes.len()) as int));
}

/// The buffers of one operation are that operation's, and an operation writes exactly where it is a write.
pub proof fn one_operation_is_its_own_bytes(ops: Seq<Operation>, i: int)
    requires
        0 <= i < ops.len(),
    ensures
        flat(ops, i, i + 1) == ops[i].bytes(),
        ops[i] matches Operation::Write(buf) ==> ops[i].writes() && ops[i].bytes() == buf@,
        ops[i] matches Operation::Read(buf) ==> !ops[i].writes() && ops[i].bytes() == buf@,
{
    assert(flat(ops, i + 1, i + 1) =~= Seq::<u8>::empty());
    assert(flat(ops, i, i + 1) =~= ops[i].bytes());
}

/// A run is as long as it can be and no longer: everything of it that carries bytes moves its way, everything skipped
/// before it carries none, and what carries bytes next after it moves the other way.
pub proof fn run_goes_one_way(ops: Seq<Operation>, from: int, group: Group, i: int)
    requires
        group.follows(ops, from),
        from <= i < ops.len(),
        ops[i].bytes().len() > 0,
    ensures
        group.start <= i,
        i < group.end ==> (ops[i] is Write <==> group.write),
        i >= group.end && (forall|j: int| group.end <= j < i ==> (#[trigger] ops[j]).bytes().len() == 0) ==> (ops[i]
            is Write <==> !group.write),
        group.total == flat(ops, group.start as int, group.end as int).len(),
        group.start < group.end <= ops.len(),
{
}

} // verus!
