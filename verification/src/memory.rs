use crate::errors::{fault_is, Fault, VMError};
use crate::hexdump::{hexdump_to_string, spec_hexdump};
use vstd::prelude::*;
use vstd::string::StringExecFns;

verus! {

/// The mathematical content of a [`Memory`].
///
/// `cells` is the whole word array. Its last `ssize` cells form the stack
/// region, of which the topmost `sp` are occupied; the cells below the
/// stack region form the data region.
pub struct MemoryView {
    pub cells: Seq<u32>,
    pub ssize: nat,
    pub sp: nat,
}

impl MemoryView {
    /// The validity of a memory: the stack region is a proper part of the
    /// array, the array can be addressed by a word, and the stack pointer
    /// stays inside the stack region.
    pub open spec fn wf(self) -> bool {
        &&& self.ssize < self.cells.len()
        &&& self.cells.len() <= u32::MAX
        &&& self.sp <= self.ssize
    }

    /// A memory of `cells` zero words with an empty stack of room `ssize`.
    pub open spec fn zeroed(cells: nat, ssize: nat) -> MemoryView {
        MemoryView { cells: Seq::new(cells, |i: int| 0u32), ssize, sp: 0 }
    }

    /// The number of cells in the data region.
    pub open spec fn data_len(self) -> nat {
        (self.cells.len() - self.ssize) as nat
    }

    /// The occupied stack cells, oldest first.
    pub open spec fn stack(self) -> Seq<u32> {
        Seq::new(self.sp, |i: int| self.cells[self.cells.len() - 1 - i])
    }

    /// Whether the stack has room for one more word.
    pub open spec fn can_push(self) -> bool {
        self.sp < self.ssize
    }

    /// The memory after pushing `value`: the cell just below the occupied
    /// stack cells takes the value and the stack pointer grows by one.
    pub open spec fn push(self, value: u32) -> MemoryView
        recommends
            self.wf(),
            self.can_push(),
    {
        MemoryView {
            cells: self.cells.update(self.cells.len() - self.sp - 1, value),
            sp: self.sp + 1,
            ..self
        }
    }

    /// The word on top of the stack.
    pub open spec fn top(self) -> u32
        recommends
            self.wf(),
            self.sp > 0,
    {
        self.cells[self.cells.len() - self.sp]
    }

    /// The memory after popping: only the stack pointer shrinks.
    pub open spec fn pop(self) -> MemoryView
        recommends
            self.sp > 0,
    {
        MemoryView { sp: (self.sp - 1) as nat, ..self }
    }

    /// Whether a read at `address` is inside the array.
    pub open spec fn can_read(self, address: int) -> bool {
        0 <= address < self.cells.len()
    }

    /// Whether `len` words starting at `address` lie inside the data region.
    pub open spec fn can_write(self, address: int, len: nat) -> bool {
        0 <= address && address + len <= self.data_len()
    }

    /// The memory after copying `data` to the cells from `address` upward.
    pub open spec fn write(self, address: int, data: Seq<u32>) -> MemoryView
        recommends
            self.can_write(address, data.len()),
    {
        MemoryView {
            cells: Seq::new(
                self.cells.len(),
                |i: int|
                    if address <= i < address + data.len() {
                        data[i - address]
                    } else {
                        self.cells[i]
                    },
            ),
            ..self
        }
    }
}

/// The memory after pushing the words of `values` one after another.
pub open spec fn push_all(m: MemoryView, values: Seq<u32>) -> MemoryView
    decreases values.len(),
{
    if values.len() == 0 {
        m
    } else {
        push_all(m, values.drop_last()).push(values.last())
    }
}

/// The words that `count` pops take off the stack, in the order in which
/// they come.
pub open spec fn popped_words(m: MemoryView, count: nat) -> Seq<u32>
    decreases count,
{
    if count == 0 {
        Seq::empty()
    } else {
        seq![m.top()] + popped_words(m.pop(), (count - 1) as nat)
    }
}

/// The memory after `count` pops.
pub open spec fn pop_all(m: MemoryView, count: nat) -> MemoryView
    decreases count,
{
    if count == 0 {
        m
    } else {
        pop_all(m.pop(), (count - 1) as nat)
    }
}

/// A push on a stack with room keeps the memory valid, puts the word on
/// top of the occupied cells and leaves the data region alone; the pop
/// that follows gives the word back and restores the stack.
pub proof fn lemma_push_then_pop(m: MemoryView, value: u32)
    requires
        m.wf(),
        m.can_push(),
    ensures
        m.push(value).wf(),
        m.push(value).sp == m.sp + 1,
        m.push(value).stack() == m.stack().push(value),
        m.push(value).top() == value,
        m.push(value).pop().sp == m.sp,
        m.push(value).pop().stack() == m.stack(),
        forall|i: int| 0 <= i < m.data_len() ==> m.push(value).cells[i] == m.cells[i],
{
    assert(m.push(value).stack() =~= m.stack().push(value));
    assert(m.push(value).pop().stack() =~= m.stack());
}

/// Pushing a run of words that fits the stack keeps the memory valid and
/// stacks the words above those that were there.
pub proof fn lemma_push_all(m: MemoryView, values: Seq<u32>)
    requires
        m.wf(),
        m.sp + values.len() <= m.ssize,
    ensures
        push_all(m, values).wf(),
        push_all(m, values).sp == m.sp + values.len(),
        push_all(m, values).ssize == m.ssize,
        push_all(m, values).cells.len() == m.cells.len(),
        push_all(m, values).stack() == m.stack() + values,
        forall|i: int| 0 <= i < m.data_len() ==> push_all(m, values).cells[i] == m.cells[i],
    decreases values.len(),
{
    if values.len() == 0 {
        assert(m.stack() + values =~= m.stack());
    } else {
        lemma_push_all(m, values.drop_last());
        let before = push_all(m, values.drop_last());
        lemma_push_then_pop(before, values.last());
        assert(before.stack().push(values.last()) =~= m.stack() + values);
    }
}

/// Pops take the occupied cells off from the top down: `count` pops give
/// the last `count` words of the stack in reverse and leave the others.
pub proof fn lemma_pop_all(m: MemoryView, count: nat)
    requires
        m.wf(),
        count <= m.sp,
    ensures
        pop_all(m, count).wf(),
        pop_all(m, count).sp == m.sp - count,
        pop_all(m, count).cells == m.cells,
        pop_all(m, count).stack() == m.stack().take(m.sp - count),
        popped_words(m, count) == m.stack().skip(m.sp - count).reverse(),
    decreases count,
{
    if count == 0 {
        assert(m.stack().take(m.sp as int) =~= m.stack());
        assert(m.stack().skip(m.sp as int).reverse() =~= Seq::<u32>::empty());
    } else {
        lemma_pop_all(m.pop(), (count - 1) as nat);
        assert(m.pop().stack() =~= m.stack().take(m.sp - 1));
        assert(pop_all(m, count).stack() =~= m.stack().take(m.sp - count));
        let rest = m.pop().stack().skip(m.sp - count).reverse();
        let all = m.stack().skip(m.sp - count).reverse();
        assert(all.len() == rest.len() + 1);
        assert(all[0] == m.top());
        assert(seq![m.top()] + rest =~= all) by {
            assert forall|i: int| 0 <= i < all.len() implies (seq![m.top()] + rest)[i] == all[i] by {
                if i > 0 {
                    assert(rest[i - 1] == m.pop().stack().skip(m.sp - count)[rest.len() - 1 - (i
                        - 1)]);
                }
            }
        }
    }
}

/// Last in, first out: after pushing a run of words that fits the stack,
/// as many pops give the words back in reverse order and leave the stack
/// as it was before the pushes.
pub proof fn lemma_push_pop_lifo(m: MemoryView, values: Seq<u32>)
    requires
        m.wf(),
        m.sp + values.len() <= m.ssize,
    ensures
        popped_words(push_all(m, values), values.len()) == values.reverse(),
        pop_all(push_all(m, values), values.len()).sp == m.sp,
        pop_all(push_all(m, values), values.len()).stack() == m.stack(),
{
    lemma_push_all(m, values);
    let full = push_all(m, values);
    lemma_pop_all(full, values.len());
    assert(full.stack().skip(m.sp as int) =~= values);
    assert(full.stack().take(m.sp as int) =~= m.stack());
}

/// The main storage of the machine: a fixed array of words whose upper end
/// is a stack that grows toward lower addresses.
#[derive(Debug)]
pub struct Memory {
    memory: Vec<u32>,
    ssize: u32,
    sp: u32,
}

impl View for Memory {
    type V = MemoryView;

    closed spec fn view(&self) -> MemoryView {
        MemoryView { cells: self.memory@, ssize: self.ssize as nat, sp: self.sp as nat }
    }
}

impl Memory {
    /// Every memory is valid.
    #[verifier::type_invariant]
    pub open(crate) spec fn inv(&self) -> bool {
        self@.wf()
    }

    /// Builds a zeroed memory of `cells` words whose last `stack_size` cells
    /// are the stack region.
    ///
    /// Fails with `InvalidSize` when the stack region would not leave at
    /// least one data cell.
    pub fn new(cells: u32, stack_size: u32) -> (r: Result<Self, VMError>)
        ensures
            stack_size < cells ==> r is Ok && r->Ok_0@ == MemoryView::zeroed(
                cells as nat,
                stack_size as nat,
            ) && r->Ok_0@.wf(),
            stack_size >= cells ==> fault_is(r, Fault::InvalidSize),
            r matches Err(VMError::InvalidSize(m)) ==> m@
                == "Stack size cannot be more than total memory cells"@,
    {
        if stack_size >= cells {
            return Err(
                VMError::InvalidSize(
                    String::from_str("Stack size cannot be more than total memory cells"),
                ),
            );
        }
        let memory = vec![0u32; cells as usize];
        assert(memory@ =~= Seq::new(cells as nat, |i: int| 0u32));
        Ok(Self { memory, ssize: stack_size, sp: 0 })
    }

    /// The number of cells, stack region included.
    pub fn cells(&self) -> (n: u32)
        ensures
            n == self@.cells.len(),
            self@.wf(),
    {
        proof {
            use_type_invariant(self);
        }
        self.memory.len() as u32
    }

    /// The number of cells in the stack region.
    pub fn stack_size(&self) -> (n: u32)
        ensures
            n == self@.ssize,
            self@.wf(),
    {
        proof {
            use_type_invariant(self);
        }
        self.ssize
    }

    /// The number of occupied stack cells.
    pub fn stack_pointer(&self) -> (n: u32)
        ensures
            n == self@.sp,
            self@.wf(),
    {
        proof {
            use_type_invariant(self);
        }
        self.sp
    }

    /// Pushes `data` on the stack.
    ///
    /// Fails with `StackOverflow`, leaving the memory as it was, when the
    /// stack region is full.
    pub fn push(&mut self, data: u32) -> (r: Result<(), VMError>)
        ensures
            old(self)@.wf(),
            final(self)@.wf(),
            old(self)@.can_push() ==> r is Ok && final(self)@ == old(self)@.push(data),
            !old(self)@.can_push() ==> fault_is(r, Fault::StackOverflow) && final(self)@ == old(
                self,
            )@,
    {
        proof {
            use_type_invariant(&*self);
        }
        if self.sp >= self.ssize {
            return Err(VMError::StackOverflow);
        }
        let len = self.memory.len();
        self.memory[len - self.sp as usize - 1] = data;
        self.sp += 1;
        Ok(())
    }

    /// Pops the top of the stack.
    ///
    /// Fails with `EmptyContainer`, leaving the memory as it was, when the
    /// stack is empty.
    pub fn pop(&mut self) -> (r: Result<u32, VMError>)
        ensures
            old(self)@.wf(),
            final(self)@.wf(),
            old(self)@.sp > 0 ==> r == Ok::<u32, VMError>(old(self)@.top()) && final(self)@ == old(
                self,
            )@.pop(),
            old(self)@.sp == 0 ==> fault_is(r, Fault::EmptyContainer) && final(self)@ == old(
                self,
            )@,
            r matches Err(VMError::EmptyContainer(m)) ==> m@ == "Cannot pop from empty stack"@,
    {
        proof {
            use_type_invariant(&*self);
        }
        if self.sp == 0 {
            return Err(VMError::EmptyContainer(String::from_str("Cannot pop from empty stack")));
        }
        let len = self.memory.len();
        self.sp -= 1;
        let result = self.memory[len - self.sp as usize - 1];
        Ok(result)
    }

    /// Copies `data` into the data region, starting at `address`.
    ///
    /// Fails with `InvalidAddress`, leaving the memory as it was, when the
    /// copy would reach into the stack region or past the array.
    pub fn write(&mut self, address: u32, data: &[u32]) -> (r: Result<(), VMError>)
        ensures
            old(self)@.wf(),
            final(self)@.wf(),
            old(self)@.can_write(address as int, data@.len()) ==> r is Ok && final(self)@ == old(
                self,
            )@.write(address as int, data@),
            !old(self)@.can_write(address as int, data@.len()) ==> fault_is(
                r,
                Fault::InvalidAddress,
            ) && final(self)@ == old(self)@,
    {
        proof {
            use_type_invariant(&*self);
        }
        let room = self.memory.len() - self.ssize as usize;
        if address as usize > room || data.len() > room - address as usize {
            return Err(VMError::InvalidAddress);
        }
        let mut i: usize = 0;
        while i < data.len()
            invariant
                i <= data.len(),
                address + data@.len() <= room,
                room == old(self)@.data_len(),
                self.ssize == old(self).ssize,
                self.sp == old(self).sp,
                self.memory@.len() == old(self).memory@.len(),
                old(self)@.wf(),
                forall|j: int|
                    0 <= j < self.memory@.len() ==> self.memory@[j] == if address <= j < address
                        + i {
                        data@[j - address]
                    } else {
                        old(self).memory@[j]
                    },
            decreases data.len() - i,
        {
            self.memory[address as usize + i] = data[i];
            i += 1;
        }
        assert(self@.cells =~= old(self)@.write(address as int, data@).cells);
        Ok(())
    }

    /// Renders the whole memory, stack region included, as a hexadecimal
    /// dump.
    pub fn dump(&self) -> (text: String)
        ensures
            text@ == spec_hexdump(self@.cells),
    {
        hexdump_to_string(self.memory.as_slice())
    }

    /// Reads the word at `address`, in the data region or in the stack region.
    ///
    /// Fails with `InvalidAddress` when `address` is past the array.
    pub fn read(&self, address: u32) -> (r: Result<u32, VMError>)
        ensures
            self@.wf(),
            self@.can_read(address as int) ==> r == Ok::<u32, VMError>(self@.cells[address as int]),
            !self@.can_read(address as int) ==> fault_is(r, Fault::InvalidAddress),
    {
        proof {
            use_type_invariant(self);
        }
        if address as usize >= self.memory.len() {
            return Err(VMError::InvalidAddress);
        }
        Ok(self.memory[address as usize])
    }
}

} // verus!
