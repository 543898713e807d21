//! The file format of an assembled program: a little-endian byte stream of
//! the origin, the entry and the words.
use crate::compiler::{CompiledFrame, FrameView};
use crate::errors::{fault_is, Fault, VMError};
use crate::machine::{Machine, MachineOptions};
use crate::memory::MemoryView;
use crate::semantics::MachineView;
use vstd::prelude::*;

verus! {

/// The four bytes of a word, lowest first.
pub open spec fn le_bytes(w: u32) -> Seq<u8> {
    seq![
        (w % 0x100) as u8,
        (w / 0x100 % 0x100) as u8,
        (w / 0x1_0000 % 0x100) as u8,
        (w / 0x100_0000) as u8,
    ]
}

/// The word of four bytes, lowest first.
pub open spec fn le_word(b0: u8, b1: u8, b2: u8, b3: u8) -> u32 {
    (b0 + 0x100 * b1 + 0x1_0000 * b2 + 0x100_0000 * b3) as u32
}

/// The word whose bytes stand at `at` in `bytes`.
pub open spec fn word_at(bytes: Seq<u8>, at: int) -> u32 {
    le_word(bytes[at], bytes[at + 1], bytes[at + 2], bytes[at + 3])
}

/// The bytes of a run of words, four for each word.
pub open spec fn words_bytes(words: Seq<u32>) -> Seq<u8>
    decreases words.len(),
{
    if words.len() == 0 {
        Seq::empty()
    } else {
        words_bytes(words.drop_last()) + le_bytes(words.last())
    }
}

/// The words that a run of bytes holds, four bytes to a word; up to three
/// bytes at the end that make no word are left out.
pub open spec fn bytes_words(bytes: Seq<u8>) -> Seq<u32> {
    Seq::new(bytes.len() / 4, |i: int| word_at(bytes, 4 * i))
}

/// The file of a frame: the origin, the entry, then the words.
pub open spec fn spec_image(frame: FrameView) -> Seq<u8> {
    le_bytes(frame.origin) + le_bytes(frame.entry) + words_bytes(frame.binary)
}

/// The frame that a file holds, or nothing when the file is too short for
/// the two words of the header.
pub open spec fn spec_frame(bytes: Seq<u8>) -> Option<FrameView> {
    if bytes.len() < 8 {
        None
    } else {
        Some(
            FrameView {
                origin: word_at(bytes, 0),
                entry: word_at(bytes, 4),
                binary: bytes_words(bytes.skip(8)),
            },
        )
    }
}

/// The frame that a file of the older format holds: the header is the
/// origin alone and the entry is the origin.
pub open spec fn spec_legacy_frame(bytes: Seq<u8>) -> Option<FrameView> {
    if bytes.len() < 4 {
        None
    } else {
        Some(
            FrameView {
                origin: word_at(bytes, 0),
                entry: word_at(bytes, 0),
                binary: bytes_words(bytes.skip(4)),
            },
        )
    }
}

/// The bytes of a word give the word back.
pub proof fn lemma_word_round_trip(w: u32)
    ensures
        le_bytes(w).len() == 4,
        le_word(le_bytes(w)[0], le_bytes(w)[1], le_bytes(w)[2], le_bytes(w)[3]) == w,
{
}

/// The bytes of a run of words hold those words.
pub proof fn lemma_words_round_trip(words: Seq<u32>)
    ensures
        words_bytes(words).len() == 4 * words.len(),
        bytes_words(words_bytes(words)) == words,
    decreases words.len(),
{
    if words.len() > 0 {
        let before = words.drop_last();
        lemma_words_round_trip(before);
        lemma_word_round_trip(words.last());
        let bytes = words_bytes(words);
        assert forall|i: int| 0 <= i < words.len() implies bytes_words(bytes)[i] == words[i] by {
            if i < before.len() {
                assert(bytes_words(words_bytes(before))[i] == before[i]);
                assert(word_at(bytes, 4 * i) == word_at(words_bytes(before), 4 * i));
            }
        }
        assert(bytes_words(bytes) =~= words);
    } else {
        assert(bytes_words(words_bytes(words)) =~= words);
    }
}

/// Writing a frame and reading it back gives the frame.
pub proof fn lemma_image_round_trip(frame: FrameView)
    ensures
        spec_frame(spec_image(frame)) == Some(frame),
{
    lemma_words_round_trip(frame.binary);
    lemma_word_round_trip(frame.origin);
    lemma_word_round_trip(frame.entry);
    let bytes = spec_image(frame);
    assert(bytes.skip(8) =~= words_bytes(frame.binary));
}

/// Appends the four bytes of a word, lowest first.
fn push_word(out: &mut Vec<u8>, w: u32)
    ensures
        final(out)@ == old(out)@ + le_bytes(w),
{
    out.push((w % 0x100) as u8);
    out.push((w / 0x100 % 0x100) as u8);
    out.push((w / 0x1_0000 % 0x100) as u8);
    out.push((w / 0x100_0000) as u8);
    assert(final(out)@ =~= old(out)@ + le_bytes(w));
}

/// Reads the word whose bytes stand at `at`.
fn read_word(bytes: &[u8], at: usize) -> (w: u32)
    requires
        at + 4 <= bytes@.len(),
    ensures
        w == word_at(bytes@, at as int),
{
    bytes[at] as u32 + 0x100 * (bytes[at + 1] as u32) + 0x1_0000 * (bytes[at + 2] as u32)
        + 0x100_0000 * (bytes[at + 3] as u32)
}

/// Reads the words that stand in `bytes` from `from` on.
fn read_words(bytes: &[u8], from: usize) -> (words: Vec<u32>)
    requires
        from <= bytes@.len(),
    ensures
        words@ == bytes_words(bytes@.skip(from as int)),
{
    let ghost tail = bytes@.skip(from as int);
    let len = bytes.len();
    let count = (len - from) / 4;
    let mut words: Vec<u32> = Vec::new();
    let mut i: usize = 0;
    while i < count
        invariant
            i <= count,
            len == bytes@.len(),
            count == (len - from) / 4,
            from <= len,
            tail == bytes@.skip(from as int),
            words.len() == i,
            forall|k: int| 0 <= k < i ==> words@[k] == word_at(tail, 4 * k),
        decreases count - i,
    {
        assert(4 * i + 4 <= len - from) by (nonlinear_arith)
            requires
                i < count,
                count == (len - from) / 4,
        ;
        words.push(read_word(bytes, from + 4 * i));
        i += 1;
    }
    assert(words@ =~= bytes_words(tail));
    words
}

/// The file of a frame: the origin, the entry and the words, each as four
/// bytes, lowest first.
pub fn encode_frame(frame: &CompiledFrame) -> (bytes: Vec<u8>)
    ensures
        bytes@ == spec_image(frame@),
{
    let mut bytes: Vec<u8> = Vec::new();
    push_word(&mut bytes, frame.origin);
    push_word(&mut bytes, frame.entry);
    let ghost head = bytes@;
    let mut i: usize = 0;
    while i < frame.binary.len()
        invariant
            i <= frame.binary.len(),
            bytes@ == head + words_bytes(frame.binary@.take(i as int)),
        decreases frame.binary.len() - i,
    {
        assert(frame.binary@.take(i + 1).drop_last() =~= frame.binary@.take(i as int));
        push_word(&mut bytes, frame.binary[i]);
        i += 1;
    }
    assert(frame.binary@.take(i as int) =~= frame.binary@);
    bytes
}

/// Reads a frame from a file; `None` when the file is too short for the
/// two words of the header. Bytes at the end that make no word are left
/// out.
pub fn decode_frame(bytes: &[u8]) -> (r: Option<CompiledFrame>)
    ensures
        match spec_frame(bytes@) {
            Some(frame) => r is Some && r->Some_0@ == frame,
            None => r is None,
        },
{
    if bytes.len() < 8 {
        return None;
    }
    Some(
        CompiledFrame {
            origin: read_word(bytes, 0),
            entry: read_word(bytes, 4),
            binary: read_words(bytes, 8),
        },
    )
}

/// Reads a frame from a file of the older format, whose header is the
/// origin alone; the entry is the origin. `None` when the file is too
/// short for the header.
pub fn decode_legacy_frame(bytes: &[u8]) -> (r: Option<CompiledFrame>)
    ensures
        match spec_legacy_frame(bytes@) {
            Some(frame) => r is Some && r->Some_0@ == frame,
            None => r is None,
        },
{
    if bytes.len() < 4 {
        return None;
    }
    let origin = read_word(bytes, 0);
    Some(CompiledFrame { origin, entry: origin, binary: read_words(bytes, 4) })
}

/// The state of a machine of `cells` cells with a stack of `stack` cells
/// that a frame was loaded into: the words of the frame stand at the
/// origin and the program counter is the entry.
pub open spec fn loaded(frame: FrameView, cells: nat, stack: nat) -> MachineView {
    MachineView::initial(
        MemoryView::zeroed(cells, stack).write(frame.origin as int, frame.binary),
    ).with_pc(frame.entry)
}

/// Builds a machine and loads a frame into it: the words go to the
/// origin and execution will start at the entry.
///
/// Fails with `InvalidSize` when the stack leaves no data cell, else with
/// `InvalidAddress` when the frame does not fit the data region.
pub fn load_frame(frame: &CompiledFrame, options: MachineOptions) -> (r: Result<Machine, VMError>)
    ensures
        options.memory_stack_size >= options.memory_cells ==> fault_is(r, Fault::InvalidSize),
        options.memory_stack_size < options.memory_cells && frame@.origin + frame@.binary.len()
            > options.memory_cells - options.memory_stack_size ==> fault_is(
            r,
            Fault::InvalidAddress,
        ),
        options.memory_stack_size < options.memory_cells && frame@.origin + frame@.binary.len()
            <= options.memory_cells - options.memory_stack_size ==> r is Ok && r->Ok_0@ == loaded(
            frame@,
            options.memory_cells as nat,
            options.memory_stack_size as nat,
        ) && r->Ok_0@.wf(),
{
    let mut machine = match Machine::new(options) {
        Ok(machine) => machine,
        Err(e) => {
            return Err(e);
        },
    };
    match machine.load_data(frame.origin, frame.binary.as_slice()) {
        Ok(()) => {},
        Err(e) => {
            return Err(e);
        },
    }
    machine.set_start(frame.entry);
    Ok(machine)
}

} // verus!
