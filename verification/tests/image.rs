use stackvm::args::{Commands, DEFAULT_CELLS, DEFAULT_STACK};
use stackvm::compiler::CompiledFrame;
use stackvm::errors::Fault;
use stackvm::image::{decode_frame, decode_legacy_frame, encode_frame, load_frame};
use stackvm::machine::MachineOptions;

#[test]
fn frame_file_layout() {
    let frame = CompiledFrame { origin: 32, entry: 0x0102_0304, binary: vec![0xf001_a001, 5] };
    assert_eq!(
        encode_frame(&frame),
        vec![32, 0, 0, 0, 4, 3, 2, 1, 0x01, 0xa0, 0x01, 0xf0, 5, 0, 0, 0]
    );
    let empty = CompiledFrame { origin: 0, entry: 0, binary: vec![] };
    assert_eq!(encode_frame(&empty), vec![0; 8]);
}

#[test]
fn frame_file_round_trip() {
    let frame = CompiledFrame {
        origin: 0xdead_beef,
        entry: 7,
        binary: vec![0, 1, 0xffff_ffff, 0x8000_0000, 0x1234_5678],
    };
    let back = decode_frame(&encode_frame(&frame)).unwrap();
    assert_eq!(back.origin, frame.origin);
    assert_eq!(back.entry, frame.entry);
    assert_eq!(back.binary, frame.binary);
}

#[test]
fn short_and_ragged_files() {
    assert!(decode_frame(&[]).is_none());
    assert!(decode_frame(&[1, 0, 0, 0, 2, 0, 0]).is_none());
    let frame = decode_frame(&[1, 0, 0, 0, 2, 0, 0, 0]).unwrap();
    assert_eq!((frame.origin, frame.entry, frame.binary.len()), (1, 2, 0));
    // bytes that make no whole word are left out
    let frame = decode_frame(&[1, 0, 0, 0, 2, 0, 0, 0, 9, 0, 0, 0, 7, 7]).unwrap();
    assert_eq!(frame.binary, vec![9]);
}

#[test]
fn legacy_files_start_at_their_origin() {
    assert!(decode_legacy_frame(&[1, 0, 0]).is_none());
    let frame = decode_legacy_frame(&[10, 0, 0, 0, 0, 0, 0xff, 0xff]).unwrap();
    assert_eq!(frame.origin, 10);
    assert_eq!(frame.entry, 10);
    assert_eq!(frame.binary, vec![0xffff_0000]);
}

#[test]
fn loading_a_frame() {
    let frame = CompiledFrame { origin: 4, entry: 5, binary: vec![0, 0xf001_a001, 9, 0xffff_0000] };
    let mut machine =
        load_frame(&frame, MachineOptions { memory_cells: 16, memory_stack_size: 8 }).unwrap();
    assert_eq!(machine.register.pc, 5);
    assert_eq!(machine.memory.read(5).unwrap(), 0xf001_a001);
    machine.execute().unwrap();
    assert_eq!(machine.memory.read(15).unwrap(), 9);
    let small = load_frame(&frame, MachineOptions { memory_cells: 15, memory_stack_size: 8 });
    assert_eq!(small.unwrap_err().kind(), Fault::InvalidAddress);
    let none = load_frame(&frame, MachineOptions { memory_cells: 8, memory_stack_size: 8 });
    assert_eq!(none.unwrap_err().kind(), Fault::InvalidSize);
}

#[test]
fn exec_command_sizes() {
    let exec = Commands::Exec {
        path: "a.bin".to_string(),
        cells: DEFAULT_CELLS,
        stack: DEFAULT_STACK,
        dump: false,
    };
    let options = exec.machine_options().unwrap();
    assert_eq!((options.memory_cells, options.memory_stack_size), (2048, 256));
    let compile = Commands::Compile { path: "a.asm".to_string(), output: "a.bin".to_string() };
    assert!(compile.machine_options().is_none());
}
