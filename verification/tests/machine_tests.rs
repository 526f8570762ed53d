use mos6510::disasm::Block;
use mos6510::machine::C64;

#[test]
fn should_be_able_to_init_the_machine() {
    let mut c64 = C64::new();
    c64.bus.write(0xfffc, 0xfc);
    c64.bus.write(0xfffd, 0xff);
    c64.reset();
    assert_eq!(c64.cpu.pc, 0xfffc);
}

#[test]
fn run_loads_a_block_and_drives_the_clock() {
    let mut c64 = C64::new();
    c64.cpu.pc = 0x0810;
    // LDX #$05; DEX; BNE back to the DEX; NOP.
    let block = Block {
        start: 0x0810,
        instructions: vec![0xa2, 0x05, 0xca, 0xd0, 0xfd, 0xea],
    };
    // LDX 2 + 5 * (DEX 2) + 4 taken branches at 3 + 1 fallthrough at 2.
    c64.run(&block, 2 + 10 + 12 + 2);
    assert_eq!(c64.bus.read(0x0810), 0xa2);
    assert_eq!(c64.bus.read(0x0815), 0xea);
    assert_eq!(c64.cpu.x, 0x00);
    assert_eq!(c64.cpu.pc, 0x0815);
    assert_eq!(c64.cpu.cycles, 0);
}
