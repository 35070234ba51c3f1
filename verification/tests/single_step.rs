use rustyness::cpu::Component6502;
use rustyness::cpu_bus::FlatMemory;
use rustyness::single_step::TestState;

/// Runs one instruction from `initial` as the single-step tests do: the CPU
/// is clocked until the bus has seen as many accesses as the instruction
/// takes cycles, then the registers and memory cells are compared.
fn run_case(initial: TestState, expected: TestState, cycles: usize) {
    const CYCLE_LIMIT: usize = 10000;
    let mut cpu = Component6502::new();
    let mut mem = FlatMemory::new();
    initial.apply(&mut cpu, &mut mem);
    let mut local_cycle = 0;
    while mem.trace_len() < cycles {
        cpu.tick(&mut mem);
        local_cycle += 1;
        assert!(local_cycle <= CYCLE_LIMIT, "cycle limit reached");
    }
    assert_eq!(mem.trace_len(), cycles, "bus accesses");
    assert!(expected.matches(&cpu, &mem), "end state: {:?}", cpu);
}

#[test]
#[allow(non_snake_case)]
fn ADC_immediate() {
    run_case(
        TestState {
            pc: 0x4ABF,
            s: 0xD8,
            a: 0x7F,
            x: 0xCA,
            y: 0xE0,
            p: 0xEF,
            ram: vec![(0x4ABF, 0x69), (0x4AC0, 0x5C)],
        },
        TestState {
            pc: 0x4AC1,
            s: 0xD8,
            a: 0xDC,
            x: 0xCA,
            y: 0xE0,
            p: 0xEC,
            ram: vec![(0x4ABF, 0x69), (0x4AC0, 0x5C)],
        },
        2,
    );
}

#[test]
#[allow(non_snake_case)]
fn ADC_zero_page() {
    run_case(
        TestState {
            pc: 0xB277,
            s: 0xA0,
            a: 0x21,
            x: 0x69,
            y: 0xDA,
            p: 0x60,
            ram: vec![(0x0046, 0xE5), (0xB277, 0x65), (0xB278, 0x46)],
        },
        TestState {
            pc: 0xB279,
            s: 0xA0,
            a: 0x06,
            x: 0x69,
            y: 0xDA,
            p: 0x21,
            ram: vec![(0x0046, 0xE5), (0xB277, 0x65), (0xB278, 0x46)],
        },
        3,
    );
}

#[test]
#[allow(non_snake_case)]
fn ADC_zero_page_x() {
    run_case(
        TestState {
            pc: 0xB0F6,
            s: 0xDF,
            a: 0xAC,
            x: 0x5D,
            y: 0x45,
            p: 0xEB,
            ram: vec![(0x00ED, 0x8E), (0xB0F6, 0x75), (0xB0F7, 0x90)],
        },
        TestState {
            pc: 0xB0F8,
            s: 0xDF,
            a: 0x3B,
            x: 0x5D,
            y: 0x45,
            p: 0x69,
            ram: vec![(0x00ED, 0x8E), (0xB0F6, 0x75), (0xB0F7, 0x90)],
        },
        4,
    );
}

#[test]
#[allow(non_snake_case)]
fn ADC_absolute() {
    run_case(
        TestState {
            pc: 0x5C8E,
            s: 0xBF,
            a: 0xE2,
            x: 0x32,
            y: 0x94,
            p: 0x64,
            ram: vec![(0x5C8E, 0x6D), (0x5C8F, 0x21), (0x5C90, 0x87), (0x8721, 0x20)],
        },
        TestState {
            pc: 0x5C91,
            s: 0xBF,
            a: 0x02,
            x: 0x32,
            y: 0x94,
            p: 0x25,
            ram: vec![(0x5C8E, 0x6D), (0x5C8F, 0x21), (0x5C90, 0x87), (0x8721, 0x20)],
        },
        4,
    );
}

#[test]
#[allow(non_snake_case)]
fn ADC_absolute_x() {
    run_case(
        TestState {
            pc: 0xE11D,
            s: 0x5C,
            a: 0x46,
            x: 0x62,
            y: 0xF8,
            p: 0xAA,
            ram: vec![(0xDE77, 0x34), (0xE11D, 0x7D), (0xE11E, 0x15), (0xE11F, 0xDE)],
        },
        TestState {
            pc: 0xE120,
            s: 0x5C,
            a: 0x7A,
            x: 0x62,
            y: 0xF8,
            p: 0x28,
            ram: vec![(0xDE77, 0x34), (0xE11D, 0x7D), (0xE11E, 0x15), (0xE11F, 0xDE)],
        },
        4,
    );
}

#[test]
#[allow(non_snake_case)]
fn ADC_absolute_y() {
    run_case(
        TestState {
            pc: 0x38ED,
            s: 0xB7,
            a: 0x4A,
            x: 0x4E,
            y: 0x9C,
            p: 0x61,
            ram: vec![(0x38ED, 0x79), (0x38EE, 0xE8), (0x38EF, 0x3F), (0x4084, 0x14)],
        },
        TestState {
            pc: 0x38F0,
            s: 0xB7,
            a: 0x5F,
            x: 0x4E,
            y: 0x9C,
            p: 0x20,
            ram: vec![(0x38ED, 0x79), (0x38EE, 0xE8), (0x38EF, 0x3F), (0x4084, 0x14)],
        },
        5,
    );
}

#[test]
#[allow(non_snake_case)]
fn ADC_indirect_x() {
    run_case(
        TestState {
            pc: 0x0B5E,
            s: 0x41,
            a: 0x32,
            x: 0xD3,
            y: 0xDE,
            p: 0x6D,
            ram: vec![(0x00F4, 0x3E), (0x00F5, 0x81), (0x0B5E, 0x61), (0x0B5F, 0x21), (0x813E, 0x4E)],
        },
        TestState {
            pc: 0x0B60,
            s: 0x41,
            a: 0x81,
            x: 0xD3,
            y: 0xDE,
            p: 0xEC,
            ram: vec![(0x00F4, 0x3E), (0x00F5, 0x81), (0x0B5E, 0x61), (0x0B5F, 0x21), (0x813E, 0x4E)],
        },
        6,
    );
}

#[test]
#[allow(non_snake_case)]
fn ADC_indirect_y() {
    run_case(
        TestState {
            pc: 0x1265,
            s: 0x64,
            a: 0x08,
            x: 0xDD,
            y: 0x9E,
            p: 0x21,
            ram: vec![(0x00A8, 0xAA), (0x00A9, 0x2C), (0x1265, 0x71), (0x1266, 0xA8), (0x2D48, 0x82)],
        },
        TestState {
            pc: 0x1267,
            s: 0x64,
            a: 0x8B,
            x: 0xDD,
            y: 0x9E,
            p: 0xA0,
            ram: vec![(0x00A8, 0xAA), (0x00A9, 0x2C), (0x1265, 0x71), (0x1266, 0xA8), (0x2D48, 0x82)],
        },
        6,
    );
}

#[test]
#[allow(non_snake_case)]
fn AND_immediate() {
    run_case(
        TestState {
            pc: 0xB241,
            s: 0xB9,
            a: 0x5E,
            x: 0xCD,
            y: 0xBA,
            p: 0xE6,
            ram: vec![(0xB241, 0x29), (0xB242, 0xF7)],
        },
        TestState {
            pc: 0xB243,
            s: 0xB9,
            a: 0x56,
            x: 0xCD,
            y: 0xBA,
            p: 0x64,
            ram: vec![(0xB241, 0x29), (0xB242, 0xF7)],
        },
        2,
    );
}

#[test]
#[allow(non_snake_case)]
fn AND_zero_page() {
    run_case(
        TestState {
            pc: 0x9D2A,
            s: 0xE4,
            a: 0x90,
            x: 0x93,
            y: 0xD9,
            p: 0x28,
            ram: vec![(0x00F8, 0x67), (0x9D2A, 0x25), (0x9D2B, 0xF8)],
        },
        TestState {
            pc: 0x9D2C,
            s: 0xE4,
            a: 0x00,
            x: 0x93,
            y: 0xD9,
            p: 0x2A,
            ram: vec![(0x00F8, 0x67), (0x9D2A, 0x25), (0x9D2B, 0xF8)],
        },
        3,
    );
}

#[test]
#[allow(non_snake_case)]
fn AND_zero_page_x() {
    run_case(
        TestState {
            pc: 0x4CC6,
            s: 0x61,
            a: 0x94,
            x: 0xCA,
            y: 0xCC,
            p: 0xE6,
            ram: vec![(0x00A5, 0xCC), (0x4CC6, 0x35), (0x4CC7, 0xDB)],
        },
        TestState {
            pc: 0x4CC8,
            s: 0x61,
            a: 0x84,
            x: 0xCA,
            y: 0xCC,
            p: 0xE4,
            ram: vec![(0x00A5, 0xCC), (0x4CC6, 0x35), (0x4CC7, 0xDB)],
        },
        4,
    );
}

#[test]
#[allow(non_snake_case)]
fn AND_absolute() {
    run_case(
        TestState {
            pc: 0x5609,
            s: 0x91,
            a: 0x5B,
            x: 0xC7,
            y: 0x9A,
            p: 0x27,
            ram: vec![(0x37DB, 0xCE), (0x5609, 0x2D), (0x560A, 0xDB), (0x560B, 0x37)],
        },
        TestState {
            pc: 0x560C,
            s: 0x91,
            a: 0x4A,
            x: 0xC7,
            y: 0x9A,
            p: 0x25,
            ram: vec![(0x37DB, 0xCE), (0x5609, 0x2D), (0x560A, 0xDB), (0x560B, 0x37)],
        },
        4,
    );
}

#[test]
#[allow(non_snake_case)]
fn AND_absolute_x() {
    run_case(
        TestState {
            pc: 0x2EE7,
            s: 0xA0,
            a: 0x17,
            x: 0x01,
            y: 0x05,
            p: 0x6D,
            ram: vec![(0x2EE7, 0x3D), (0x2EE8, 0xFC), (0x2EE9, 0x53), (0x53FD, 0x4E)],
        },
        TestState {
            pc: 0x2EEA,
            s: 0xA0,
            a: 0x06,
            x: 0x01,
            y: 0x05,
            p: 0x6D,
            ram: vec![(0x2EE7, 0x3D), (0x2EE8, 0xFC), (0x2EE9, 0x53), (0x53FD, 0x4E)],
        },
        4,
    );
}

#[test]
#[allow(non_snake_case)]
fn AND_absolute_y() {
    run_case(
        TestState {
            pc: 0xCD00,
            s: 0x78,
            a: 0x81,
            x: 0xE8,
            y: 0x12,
            p: 0xAB,
            ram: vec![(0xBD2E, 0x2D), (0xCD00, 0x39), (0xCD01, 0x1C), (0xCD02, 0xBD)],
        },
        TestState {
            pc: 0xCD03,
            s: 0x78,
            a: 0x01,
            x: 0xE8,
            y: 0x12,
            p: 0x29,
            ram: vec![(0xBD2E, 0x2D), (0xCD00, 0x39), (0xCD01, 0x1C), (0xCD02, 0xBD)],
        },
        4,
    );
}

#[test]
#[allow(non_snake_case)]
fn AND_indirect_x() {
    run_case(
        TestState {
            pc: 0x4C89,
            s: 0x20,
            a: 0x2D,
            x: 0x8B,
            y: 0x8B,
            p: 0xA7,
            ram: vec![(0x00D6, 0xF9), (0x00D7, 0x61), (0x4C89, 0x21), (0x4C8A, 0x4B), (0x61F9, 0x90)],
        },
        TestState {
            pc: 0x4C8B,
            s: 0x20,
            a: 0x00,
            x: 0x8B,
            y: 0x8B,
            p: 0x27,
            ram: vec![(0x00D6, 0xF9), (0x00D7, 0x61), (0x4C89, 0x21), (0x4C8A, 0x4B), (0x61F9, 0x90)],
        },
        6,
    );
}

#[test]
#[allow(non_snake_case)]
fn AND_indirect_y() {
    run_case(
        TestState {
            pc: 0x3D93,
            s: 0x8C,
            a: 0x66,
            x: 0x2D,
            y: 0xB1,
            p: 0xEB,
            ram: vec![(0x0025, 0xE9), (0x0026, 0x28), (0x299A, 0x69), (0x3D93, 0x31), (0x3D94, 0x25)],
        },
        TestState {
            pc: 0x3D95,
            s: 0x8C,
            a: 0x60,
            x: 0x2D,
            y: 0xB1,
            p: 0x69,
            ram: vec![(0x0025, 0xE9), (0x0026, 0x28), (0x299A, 0x69), (0x3D93, 0x31), (0x3D94, 0x25)],
        },
        6,
    );
}

#[test]
#[allow(non_snake_case)]
fn ASL_accumulator() {
    run_case(
        TestState {
            pc: 0xB5E4,
            s: 0x8E,
            a: 0x93,
            x: 0xE2,
            y: 0x46,
            p: 0x61,
            ram: vec![(0xB5E4, 0x0A)],
        },
        TestState {
            pc: 0xB5E5,
            s: 0x8E,
            a: 0x26,
            x: 0xE2,
            y: 0x46,
            p: 0x61,
            ram: vec![(0xB5E4, 0x0A)],
        },
        2,
    );
}

#[test]
#[allow(non_snake_case)]
fn ASL_zero_page() {
    run_case(
        TestState {
            pc: 0xD5BB,
            s: 0xBA,
            a: 0x71,
            x: 0x7B,
            y: 0x0A,
            p: 0x24,
            ram: vec![(0x0094, 0x9A), (0xD5BB, 0x06), (0xD5BC, 0x94)],
        },
        TestState {
            pc: 0xD5BD,
            s: 0xBA,
            a: 0x71,
            x: 0x7B,
            y: 0x0A,
            p: 0x25,
            ram: vec![(0x0094, 0x34), (0xD5BB, 0x06), (0xD5BC, 0x94)],
        },
        5,
    );
}

#[test]
#[allow(non_snake_case)]
fn ASL_zero_page_x() {
    run_case(
        TestState {
            pc: 0x3EF1,
            s: 0x9A,
            a: 0x43,
            x: 0xD7,
            y: 0xC3,
            p: 0xEE,
            ram: vec![(0x009C, 0x55), (0x3EF1, 0x16), (0x3EF2, 0xC5)],
        },
        TestState {
            pc: 0x3EF3,
            s: 0x9A,
            a: 0x43,
            x: 0xD7,
            y: 0xC3,
            p: 0xEC,
            ram: vec![(0x009C, 0xAA), (0x3EF1, 0x16), (0x3EF2, 0xC5)],
        },
        6,
    );
}

#[test]
#[allow(non_snake_case)]
fn ASL_absolute() {
    run_case(
        TestState {
            pc: 0xB249,
            s: 0xCC,
            a: 0xF1,
            x: 0x1D,
            y: 0xF9,
            p: 0xA2,
            ram: vec![(0xB249, 0x0E), (0xB24A, 0xBC), (0xB24B, 0xB2), (0xB2BC, 0x12)],
        },
        TestState {
            pc: 0xB24C,
            s: 0xCC,
            a: 0xF1,
            x: 0x1D,
            y: 0xF9,
            p: 0x20,
            ram: vec![(0xB249, 0x0E), (0xB24A, 0xBC), (0xB24B, 0xB2), (0xB2BC, 0x24)],
        },
        6,
    );
}

#[test]
#[allow(non_snake_case)]
fn ASL_absolute_x() {
    run_case(
        TestState {
            pc: 0x61A9,
            s: 0xD4,
            a: 0xB1,
            x: 0x4D,
            y: 0x72,
            p: 0x6B,
            ram: vec![(0x28AC, 0x2B), (0x61A9, 0x1E), (0x61AA, 0x5F), (0x61AB, 0x28)],
        },
        TestState {
            pc: 0x61AC,
            s: 0xD4,
            a: 0xB1,
            x: 0x4D,
            y: 0x72,
            p: 0x68,
            ram: vec![(0x28AC, 0x56), (0x61A9, 0x1E), (0x61AA, 0x5F), (0x61AB, 0x28)],
        },
        7,
    );
}

#[test]
#[allow(non_snake_case)]
fn BCC_relative() {
    run_case(
        TestState {
            pc: 0x17FD,
            s: 0x70,
            a: 0xEF,
            x: 0x46,
            y: 0x8F,
            p: 0x2F,
            ram: vec![(0x17FD, 0x90), (0x17FE, 0xE1)],
        },
        TestState {
            pc: 0x17FF,
            s: 0x70,
            a: 0xEF,
            x: 0x46,
            y: 0x8F,
            p: 0x2F,
            ram: vec![(0x17FD, 0x90), (0x17FE, 0xE1)],
        },
        2,
    );
}

#[test]
#[allow(non_snake_case)]
fn BEQ_relative() {
    run_case(
        TestState {
            pc: 0x0DDB,
            s: 0xEA,
            a: 0xB8,
            x: 0x70,
            y: 0xE9,
            p: 0xE4,
            ram: vec![(0x0DDB, 0xF0), (0x0DDC, 0x3B)],
        },
        TestState {
            pc: 0x0DDD,
            s: 0xEA,
            a: 0xB8,
            x: 0x70,
            y: 0xE9,
            p: 0xE4,
            ram: vec![(0x0DDB, 0xF0), (0x0DDC, 0x3B)],
        },
        2,
    );
}

#[test]
#[allow(non_snake_case)]
fn BIT_zero_page() {
    run_case(
        TestState {
            pc: 0x3EC8,
            s: 0xA9,
            a: 0x12,
            x: 0x4E,
            y: 0x44,
            p: 0xAA,
            ram: vec![(0x0006, 0x68), (0x3EC8, 0x24), (0x3EC9, 0x06)],
        },
        TestState {
            pc: 0x3ECA,
            s: 0xA9,
            a: 0x12,
            x: 0x4E,
            y: 0x44,
            p: 0x6A,
            ram: vec![(0x0006, 0x68), (0x3EC8, 0x24), (0x3EC9, 0x06)],
        },
        3,
    );
}

#[test]
#[allow(non_snake_case)]
fn BIT_absolute() {
    run_case(
        TestState {
            pc: 0x6B72,
            s: 0xE3,
            a: 0x4F,
            x: 0x59,
            y: 0xCD,
            p: 0xE0,
            ram: vec![(0x0635, 0xD3), (0x6B72, 0x2C), (0x6B73, 0x35), (0x6B74, 0x06)],
        },
        TestState {
            pc: 0x6B75,
            s: 0xE3,
            a: 0x4F,
            x: 0x59,
            y: 0xCD,
            p: 0xE0,
            ram: vec![(0x0635, 0xD3), (0x6B72, 0x2C), (0x6B73, 0x35), (0x6B74, 0x06)],
        },
        4,
    );
}

#[test]
#[allow(non_snake_case)]
fn BMI_relative() {
    run_case(
        TestState {
            pc: 0x499A,
            s: 0x8A,
            a: 0xB3,
            x: 0xE2,
            y: 0x25,
            p: 0xE8,
            ram: vec![(0x499A, 0x30), (0x499B, 0x03)],
        },
        TestState {
            pc: 0x499F,
            s: 0x8A,
            a: 0xB3,
            x: 0xE2,
            y: 0x25,
            p: 0xE8,
            ram: vec![(0x499A, 0x30), (0x499B, 0x03)],
        },
        3,
    );
}

#[test]
#[allow(non_snake_case)]
fn BNE_relative() {
    run_case(
        TestState {
            pc: 0x1802,
            s: 0xCA,
            a: 0x4C,
            x: 0x2C,
            y: 0x5C,
            p: 0x60,
            ram: vec![(0x1802, 0xD0), (0x1803, 0x12)],
        },
        TestState {
            pc: 0x1816,
            s: 0xCA,
            a: 0x4C,
            x: 0x2C,
            y: 0x5C,
            p: 0x60,
            ram: vec![(0x1802, 0xD0), (0x1803, 0x12)],
        },
        3,
    );
}

#[test]
#[allow(non_snake_case)]
fn BPL_relative() {
    run_case(
        TestState {
            pc: 0x7EC5,
            s: 0xA6,
            a: 0xDC,
            x: 0xD4,
            y: 0xC7,
            p: 0xAE,
            ram: vec![(0x7EC5, 0x10), (0x7EC6, 0x67)],
        },
        TestState {
            pc: 0x7EC7,
            s: 0xA6,
            a: 0xDC,
            x: 0xD4,
            y: 0xC7,
            p: 0xAE,
            ram: vec![(0x7EC5, 0x10), (0x7EC6, 0x67)],
        },
        2,
    );
}

#[test]
#[allow(non_snake_case)]
fn BRK_implied() {
    run_case(
        TestState {
            pc: 0x464E,
            s: 0x6A,
            a: 0x5F,
            x: 0x76,
            y: 0x4B,
            p: 0x63,
            ram: vec![(0x464E, 0x00), (0xFFFE, 0x5F), (0xFFFF, 0x42)],
        },
        TestState {
            pc: 0x425F,
            s: 0x67,
            a: 0x5F,
            x: 0x76,
            y: 0x4B,
            p: 0x67,
            ram: vec![(0x0168, 0x73), (0x0169, 0x50), (0x016A, 0x46), (0x464E, 0x00), (0xFFFE, 0x5F), (0xFFFF, 0x42)],
        },
        7,
    );
}

#[test]
#[allow(non_snake_case)]
fn BVC_relative() {
    run_case(
        TestState {
            pc: 0x1D2B,
            s: 0xB2,
            a: 0xF8,
            x: 0xEA,
            y: 0x97,
            p: 0xE1,
            ram: vec![(0x1D2B, 0x50), (0x1D2C, 0x3A)],
        },
        TestState {
            pc: 0x1D2D,
            s: 0xB2,
            a: 0xF8,
            x: 0xEA,
            y: 0x97,
            p: 0xE1,
            ram: vec![(0x1D2B, 0x50), (0x1D2C, 0x3A)],
        },
        2,
    );
}

#[test]
#[allow(non_snake_case)]
fn BVS_relative() {
    run_case(
        TestState {
            pc: 0x37D0,
            s: 0x70,
            a: 0x6F,
            x: 0xD3,
            y: 0xBC,
            p: 0xAC,
            ram: vec![(0x37D0, 0x70), (0x37D1, 0x5A)],
        },
        TestState {
            pc: 0x37D2,
            s: 0x70,
            a: 0x6F,
            x: 0xD3,
            y: 0xBC,
            p: 0xAC,
            ram: vec![(0x37D0, 0x70), (0x37D1, 0x5A)],
        },
        2,
    );
}

#[test]
#[allow(non_snake_case)]
fn CLC_implied() {
    run_case(
        TestState {
            pc: 0x5D34,
            s: 0x81,
            a: 0x02,
            x: 0xF7,
            y: 0xE4,
            p: 0xA7,
            ram: vec![(0x5D34, 0x18)],
        },
        TestState {
            pc: 0x5D35,
            s: 0x81,
            a: 0x02,
            x: 0xF7,
            y: 0xE4,
            p: 0xA6,
            ram: vec![(0x5D34, 0x18)],
        },
        2,
    );
}

#[test]
#[allow(non_snake_case)]
fn CLD_implied() {
    run_case(
        TestState {
            pc: 0xEAC4,
            s: 0x33,
            a: 0xC3,
            x: 0xA5,
            y: 0x6D,
            p: 0xE8,
            ram: vec![(0xEAC4, 0xD8)],
        },
        TestState {
            pc: 0xEAC5,
            s: 0x33,
            a: 0xC3,
            x: 0xA5,
            y: 0x6D,
            p: 0xE0,
            ram: vec![(0xEAC4, 0xD8)],
        },
        2,
    );
}

#[test]
#[allow(non_snake_case)]
fn CLI_implied() {
    run_case(
        TestState {
            pc: 0x3B3F,
            s: 0x61,
            a: 0x16,
            x: 0x8A,
            y: 0x5D,
            p: 0x2A,
            ram: vec![(0x3B3F, 0x58)],
        },
        TestState {
            pc: 0x3B40,
            s: 0x61,
            a: 0x16,
            x: 0x8A,
            y: 0x5D,
            p: 0x2A,
            ram: vec![(0x3B3F, 0x58)],
        },
        2,
    );
}

#[test]
#[allow(non_snake_case)]
fn CLV_implied() {
    run_case(
        TestState {
            pc: 0x1595,
            s: 0xE4,
            a: 0x10,
            x: 0x29,
            y: 0xB3,
            p: 0xE3,
            ram: vec![(0x1595, 0xB8)],
        },
        TestState {
            pc: 0x1596,
            s: 0xE4,
            a: 0x10,
            x: 0x29,
            y: 0xB3,
            p: 0xA3,
            ram: vec![(0x1595, 0xB8)],
        },
        2,
    );
}

#[test]
#[allow(non_snake_case)]
fn CMP_immediate() {
    run_case(
        TestState {
            pc: 0x8515,
            s: 0xE5,
            a: 0x24,
            x: 0x9D,
            y: 0xAA,
            p: 0xA0,
            ram: vec![(0x8515, 0xC9), (0x8516, 0xD7)],
        },
        TestState {
            pc: 0x8517,
            s: 0xE5,
            a: 0x24,
            x: 0x9D,
            y: 0xAA,
            p: 0x20,
            ram: vec![(0x8515, 0xC9), (0x8516, 0xD7)],
        },
        2,
    );
}

#[test]
#[allow(non_snake_case)]
fn CMP_zero_page() {
    run_case(
        TestState {
            pc: 0x156D,
            s: 0x2E,
            a: 0x0B,
            x: 0xF1,
            y: 0x1B,
            p: 0x63,
            ram: vec![(0x0077, 0x08), (0x156D, 0xC5), (0x156E, 0x77)],
        },
        TestState {
            pc: 0x156F,
            s: 0x2E,
            a: 0x0B,
            x: 0xF1,
            y: 0x1B,
            p: 0x61,
            ram: vec![(0x0077, 0x08), (0x156D, 0xC5), (0x156E, 0x77)],
        },
        3,
    );
}

#[test]
#[allow(non_snake_case)]
fn CMP_zero_page_x() {
    run_case(
        TestState {
            pc: 0x5405,
            s: 0xA6,
            a: 0x99,
            x: 0xFC,
            y: 0x78,
            p: 0x66,
            ram: vec![(0x0087, 0x05), (0x5405, 0xD5), (0x5406, 0x8B)],
        },
        TestState {
            pc: 0x5407,
            s: 0xA6,
            a: 0x99,
            x: 0xFC,
            y: 0x78,
            p: 0xE5,
            ram: vec![(0x0087, 0x05), (0x5405, 0xD5), (0x5406, 0x8B)],
        },
        4,
    );
}

#[test]
#[allow(non_snake_case)]
fn CMP_absolute() {
    run_case(
        TestState {
            pc: 0x3D7D,
            s: 0x8F,
            a: 0xD6,
            x: 0x24,
            y: 0x24,
            p: 0x64,
            ram: vec![(0x2068, 0x12), (0x3D7D, 0xCD), (0x3D7E, 0x68), (0x3D7F, 0x20)],
        },
        TestState {
            pc: 0x3D80,
            s: 0x8F,
            a: 0xD6,
            x: 0x24,
            y: 0x24,
            p: 0xE5,
            ram: vec![(0x2068, 0x12), (0x3D7D, 0xCD), (0x3D7E, 0x68), (0x3D7F, 0x20)],
        },
        4,
    );
}

#[test]
#[allow(non_snake_case)]
fn CMP_absolute_x() {
    run_case(
        TestState {
            pc: 0xE012,
            s: 0x62,
            a: 0x4F,
            x: 0x75,
            y: 0x88,
            p: 0x29,
            ram: vec![(0xCFBD, 0xC0), (0xE012, 0xDD), (0xE013, 0x48), (0xE014, 0xCF)],
        },
        TestState {
            pc: 0xE015,
            s: 0x62,
            a: 0x4F,
            x: 0x75,
            y: 0x88,
            p: 0xA8,
            ram: vec![(0xCFBD, 0xC0), (0xE012, 0xDD), (0xE013, 0x48), (0xE014, 0xCF)],
        },
        4,
    );
}

#[test]
#[allow(non_snake_case)]
fn CMP_absolute_y() {
    run_case(
        TestState {
            pc: 0xCB27,
            s: 0x6B,
            a: 0xB1,
            x: 0x56,
            y: 0x6F,
            p: 0xE2,
            ram: vec![(0xCB27, 0xD9), (0xCB28, 0xBB), (0xCB29, 0xEC), (0xED2A, 0xBC)],
        },
        TestState {
            pc: 0xCB2A,
            s: 0x6B,
            a: 0xB1,
            x: 0x56,
            y: 0x6F,
            p: 0xE0,
            ram: vec![(0xCB27, 0xD9), (0xCB28, 0xBB), (0xCB29, 0xEC), (0xED2A, 0xBC)],
        },
        5,
    );
}

#[test]
#[allow(non_snake_case)]
fn CMP_indirect_x() {
    run_case(
        TestState {
            pc: 0x7BDA,
            s: 0x53,
            a: 0xE8,
            x: 0xC4,
            y: 0x15,
            p: 0x65,
            ram: vec![(0x005A, 0x6B), (0x005B, 0x38), (0x386B, 0x4C), (0x7BDA, 0xC1), (0x7BDB, 0x96)],
        },
        TestState {
            pc: 0x7BDC,
            s: 0x53,
            a: 0xE8,
            x: 0xC4,
            y: 0x15,
            p: 0xE5,
            ram: vec![(0x005A, 0x6B), (0x005B, 0x38), (0x386B, 0x4C), (0x7BDA, 0xC1), (0x7BDB, 0x96)],
        },
        6,
    );
}

#[test]
#[allow(non_snake_case)]
fn CMP_indirect_y() {
    run_case(
        TestState {
            pc: 0x94B0,
            s: 0xB3,
            a: 0x0A,
            x: 0xCC,
            y: 0xC8,
            p: 0x67,
            ram: vec![(0x00A4, 0xF4), (0x00A5, 0x94), (0x94B0, 0xD1), (0x94B1, 0xA4), (0x95BC, 0x8F)],
        },
        TestState {
            pc: 0x94B2,
            s: 0xB3,
            a: 0x0A,
            x: 0xCC,
            y: 0xC8,
            p: 0x64,
            ram: vec![(0x00A4, 0xF4), (0x00A5, 0x94), (0x94B0, 0xD1), (0x94B1, 0xA4), (0x95BC, 0x8F)],
        },
        6,
    );
}

#[test]
#[allow(non_snake_case)]
fn CPX_immediate() {
    run_case(
        TestState {
            pc: 0x3D31,
            s: 0xE2,
            a: 0x96,
            x: 0x18,
            y: 0x7A,
            p: 0xED,
            ram: vec![(0x3D31, 0xE0), (0x3D32, 0x72)],
        },
        TestState {
            pc: 0x3D33,
            s: 0xE2,
            a: 0x96,
            x: 0x18,
            y: 0x7A,
            p: 0xEC,
            ram: vec![(0x3D31, 0xE0), (0x3D32, 0x72)],
        },
        2,
    );
}

#[test]
#[allow(non_snake_case)]
fn CPX_zero_page() {
    run_case(
        TestState {
            pc: 0x1FAA,
            s: 0x89,
            a: 0xA9,
            x: 0x38,
            y: 0xB0,
            p: 0x2A,
            ram: vec![(0x00EB, 0x66), (0x1FAA, 0xE4), (0x1FAB, 0xEB)],
        },
        TestState {
            pc: 0x1FAC,
            s: 0x89,
            a: 0xA9,
            x: 0x38,
            y: 0xB0,
            p: 0xA8,
            ram: vec![(0x00EB, 0x66), (0x1FAA, 0xE4), (0x1FAB, 0xEB)],
        },
        3,
    );
}

#[test]
#[allow(non_snake_case)]
fn CPX_absolute() {
    run_case(
        TestState {
            pc: 0xE364,
            s: 0xD8,
            a: 0x13,
            x: 0x83,
            y: 0xFF,
            p: 0x63,
            ram: vec![(0x1F01, 0xA4), (0xE364, 0xEC), (0xE365, 0x01), (0xE366, 0x1F)],
        },
        TestState {
            pc: 0xE367,
            s: 0xD8,
            a: 0x13,
            x: 0x83,
            y: 0xFF,
            p: 0xE0,
            ram: vec![(0x1F01, 0xA4), (0xE364, 0xEC), (0xE365, 0x01), (0xE366, 0x1F)],
        },
        4,
    );
}

#[test]
#[allow(non_snake_case)]
fn CPY_immediate() {
    run_case(
        TestState {
            pc: 0xA72D,
            s: 0xC3,
            a: 0x4A,
            x: 0xB2,
            y: 0xB2,
            p: 0xE1,
            ram: vec![(0xA72D, 0xC0), (0xA72E, 0x4D)],
        },
        TestState {
            pc: 0xA72F,
            s: 0xC3,
            a: 0x4A,
            x: 0xB2,
            y: 0xB2,
            p: 0x61,
            ram: vec![(0xA72D, 0xC0), (0xA72E, 0x4D)],
        },
        2,
    );
}

#[test]
#[allow(non_snake_case)]
fn CPY_zero_page() {
    run_case(
        TestState {
            pc: 0x604A,
            s: 0xEC,
            a: 0xFE,
            x: 0x59,
            y: 0xFB,
            p: 0xE2,
            ram: vec![(0x003F, 0x80), (0x604A, 0xC4), (0x604B, 0x3F)],
        },
        TestState {
            pc: 0x604C,
            s: 0xEC,
            a: 0xFE,
            x: 0x59,
            y: 0xFB,
            p: 0x61,
            ram: vec![(0x003F, 0x80), (0x604A, 0xC4), (0x604B, 0x3F)],
        },
        3,
    );
}

#[test]
#[allow(non_snake_case)]
fn CPY_absolute() {
    run_case(
        TestState {
            pc: 0x709C,
            s: 0x6A,
            a: 0xB8,
            x: 0x78,
            y: 0xD6,
            p: 0xEB,
            ram: vec![(0x709C, 0xCC), (0x709D, 0x5E), (0x709E, 0x94), (0x945E, 0x41)],
        },
        TestState {
            pc: 0x709F,
            s: 0x6A,
            a: 0xB8,
            x: 0x78,
            y: 0xD6,
            p: 0xE9,
            ram: vec![(0x709C, 0xCC), (0x709D, 0x5E), (0x709E, 0x94), (0x945E, 0x41)],
        },
        4,
    );
}

#[test]
#[allow(non_snake_case)]
fn DEC_zero_page() {
    run_case(
        TestState {
            pc: 0x2F6E,
            s: 0x70,
            a: 0x64,
            x: 0xA1,
            y: 0x31,
            p: 0xE6,
            ram: vec![(0x00EC, 0x59), (0x2F6E, 0xC6), (0x2F6F, 0xEC)],
        },
        TestState {
            pc: 0x2F70,
            s: 0x70,
            a: 0x64,
            x: 0xA1,
            y: 0x31,
            p: 0x64,
            ram: vec![(0x00EC, 0x58), (0x2F6E, 0xC6), (0x2F6F, 0xEC)],
        },
        5,
    );
}

#[test]
#[allow(non_snake_case)]
fn DEC_zero_page_x() {
    run_case(
        TestState {
            pc: 0xC5FF,
            s: 0x89,
            a: 0x02,
            x: 0x55,
            y: 0x9C,
            p: 0x62,
            ram: vec![(0x0006, 0x0A), (0xC5FF, 0xD6), (0xC600, 0xB1)],
        },
        TestState {
            pc: 0xC601,
            s: 0x89,
            a: 0x02,
            x: 0x55,
            y: 0x9C,
            p: 0x60,
            ram: vec![(0x0006, 0x09), (0xC5FF, 0xD6), (0xC600, 0xB1)],
        },
        6,
    );
}

#[test]
#[allow(non_snake_case)]
fn DEC_absolute() {
    run_case(
        TestState {
            pc: 0x0893,
            s: 0x53,
            a: 0xF7,
            x: 0xA6,
            y: 0x66,
            p: 0x21,
            ram: vec![(0x0893, 0xCE), (0x0894, 0x81), (0x0895, 0xE8), (0xE881, 0x14)],
        },
        TestState {
            pc: 0x0896,
            s: 0x53,
            a: 0xF7,
            x: 0xA6,
            y: 0x66,
            p: 0x21,
            ram: vec![(0x0893, 0xCE), (0x0894, 0x81), (0x0895, 0xE8), (0xE881, 0x13)],
        },
        6,
    );
}

#[test]
#[allow(non_snake_case)]
fn DEC_absolute_x() {
    run_case(
        TestState {
            pc: 0x7500,
            s: 0x38,
            a: 0x06,
            x: 0x1E,
            y: 0x15,
            p: 0x67,
            ram: vec![(0x07AA, 0x5D), (0x7500, 0xDE), (0x7501, 0x8C), (0x7502, 0x07)],
        },
        TestState {
            pc: 0x7503,
            s: 0x38,
            a: 0x06,
            x: 0x1E,
            y: 0x15,
            p: 0x65,
            ram: vec![(0x07AA, 0x5C), (0x7500, 0xDE), (0x7501, 0x8C), (0x7502, 0x07)],
        },
        7,
    );
}

#[test]
#[allow(non_snake_case)]
fn DEX_implied() {
    run_case(
        TestState {
            pc: 0x3761,
            s: 0xE9,
            a: 0x35,
            x: 0x79,
            y: 0xE5,
            p: 0xE4,
            ram: vec![(0x3761, 0xCA)],
        },
        TestState {
            pc: 0x3762,
            s: 0xE9,
            a: 0x35,
            x: 0x78,
            y: 0xE5,
            p: 0x64,
            ram: vec![(0x3761, 0xCA)],
        },
        2,
    );
}

#[test]
#[allow(non_snake_case)]
fn DEY_implied() {
    run_case(
        TestState {
            pc: 0x307C,
            s: 0xE6,
            a: 0x53,
            x: 0x9B,
            y: 0x09,
            p: 0xEA,
            ram: vec![(0x307C, 0x88)],
        },
        TestState {
            pc: 0x307D,
            s: 0xE6,
            a: 0x53,
            x: 0x9B,
            y: 0x08,
            p: 0x68,
            ram: vec![(0x307C, 0x88)],
        },
        2,
    );
}

#[test]
#[allow(non_snake_case)]
fn EOR_immediate() {
    run_case(
        TestState {
            pc: 0xC4D3,
            s: 0x3C,
            a: 0x62,
            x: 0x7B,
            y: 0x9D,
            p: 0xA8,
            ram: vec![(0xC4D3, 0x49), (0xC4D4, 0xE6)],
        },
        TestState {
            pc: 0xC4D5,
            s: 0x3C,
            a: 0x84,
            x: 0x7B,
            y: 0x9D,
            p: 0xA8,
            ram: vec![(0xC4D3, 0x49), (0xC4D4, 0xE6)],
        },
        2,
    );
}

#[test]
#[allow(non_snake_case)]
fn EOR_zero_page() {
    run_case(
        TestState {
            pc: 0x6905,
            s: 0x93,
            a: 0x83,
            x: 0x12,
            y: 0xCA,
            p: 0xE9,
            ram: vec![(0x0004, 0x54), (0x6905, 0x45), (0x6906, 0x04)],
        },
        TestState {
            pc: 0x6907,
            s: 0x93,
            a: 0xD7,
            x: 0x12,
            y: 0xCA,
            p: 0xE9,
            ram: vec![(0x0004, 0x54), (0x6905, 0x45), (0x6906, 0x04)],
        },
        3,
    );
}

#[test]
#[allow(non_snake_case)]
fn EOR_zero_page_x() {
    run_case(
        TestState {
            pc: 0xD3FF,
            s: 0xCE,
            a: 0xA9,
            x: 0x17,
            y: 0x77,
            p: 0x61,
            ram: vec![(0x0086, 0xBD), (0xD3FF, 0x55), (0xD400, 0x6F)],
        },
        TestState {
            pc: 0xD401,
            s: 0xCE,
            a: 0x14,
            x: 0x17,
            y: 0x77,
            p: 0x61,
            ram: vec![(0x0086, 0xBD), (0xD3FF, 0x55), (0xD400, 0x6F)],
        },
        4,
    );
}

#[test]
#[allow(non_snake_case)]
fn EOR_absolute() {
    run_case(
        TestState {
            pc: 0x6788,
            s: 0x45,
            a: 0xF2,
            x: 0x26,
            y: 0x24,
            p: 0xE4,
            ram: vec![(0x6788, 0x4D), (0x6789, 0x88), (0x678A, 0xDC), (0xDC88, 0xBA)],
        },
        TestState {
            pc: 0x678B,
            s: 0x45,
            a: 0x48,
            x: 0x26,
            y: 0x24,
            p: 0x64,
            ram: vec![(0x6788, 0x4D), (0x6789, 0x88), (0x678A, 0xDC), (0xDC88, 0xBA)],
        },
        4,
    );
}

#[test]
#[allow(non_snake_case)]
fn EOR_absolute_x() {
    run_case(
        TestState {
            pc: 0x371F,
            s: 0xB6,
            a: 0x6F,
            x: 0x54,
            y: 0x44,
            p: 0xE2,
            ram: vec![(0x371F, 0x5D), (0x3720, 0xAF), (0x3721, 0xE4), (0xE503, 0xF3)],
        },
        TestState {
            pc: 0x3722,
            s: 0xB6,
            a: 0x9C,
            x: 0x54,
            y: 0x44,
            p: 0xE0,
            ram: vec![(0x371F, 0x5D), (0x3720, 0xAF), (0x3721, 0xE4), (0xE503, 0xF3)],
        },
        5,
    );
}

#[test]
#[allow(non_snake_case)]
fn EOR_absolute_y() {
    run_case(
        TestState {
            pc: 0x2BBF,
            s: 0x40,
            a: 0xC4,
            x: 0x4E,
            y: 0xF8,
            p: 0x2F,
            ram: vec![(0x2BBF, 0x59), (0x2BC0, 0xC6), (0x2BC1, 0x95), (0x96BE, 0x5C)],
        },
        TestState {
            pc: 0x2BC2,
            s: 0x40,
            a: 0x98,
            x: 0x4E,
            y: 0xF8,
            p: 0xAD,
            ram: vec![(0x2BBF, 0x59), (0x2BC0, 0xC6), (0x2BC1, 0x95), (0x96BE, 0x5C)],
        },
        5,
    );
}

#[test]
#[allow(non_snake_case)]
fn EOR_indirect_x() {
    run_case(
        TestState {
            pc: 0x2E47,
            s: 0x33,
            a: 0x90,
            x: 0x02,
            y: 0xB8,
            p: 0xA2,
            ram: vec![(0x009E, 0x01), (0x009F, 0x5B), (0x2E47, 0x41), (0x2E48, 0x9C), (0x5B01, 0x62)],
        },
        TestState {
            pc: 0x2E49,
            s: 0x33,
            a: 0xF2,
            x: 0x02,
            y: 0xB8,
            p: 0xA0,
            ram: vec![(0x009E, 0x01), (0x009F, 0x5B), (0x2E47, 0x41), (0x2E48, 0x9C), (0x5B01, 0x62)],
        },
        6,
    );
}

#[test]
#[allow(non_snake_case)]
fn EOR_indirect_y() {
    run_case(
        TestState {
            pc: 0x97E3,
            s: 0x6A,
            a: 0xB4,
            x: 0xB6,
            y: 0x9D,
            p: 0x6C,
            ram: vec![(0x0082, 0xF9), (0x0083, 0xAC), (0x97E3, 0x51), (0x97E4, 0x82), (0xAD96, 0x9A)],
        },
        TestState {
            pc: 0x97E5,
            s: 0x6A,
            a: 0x2E,
            x: 0xB6,
            y: 0x9D,
            p: 0x6C,
            ram: vec![(0x0082, 0xF9), (0x0083, 0xAC), (0x97E3, 0x51), (0x97E4, 0x82), (0xAD96, 0x9A)],
        },
        6,
    );
}

#[test]
#[allow(non_snake_case)]
fn INC_zero_page() {
    run_case(
        TestState {
            pc: 0xE1E7,
            s: 0x64,
            a: 0x95,
            x: 0xB9,
            y: 0x80,
            p: 0x60,
            ram: vec![(0x0028, 0xCA), (0xE1E7, 0xE6), (0xE1E8, 0x28)],
        },
        TestState {
            pc: 0xE1E9,
            s: 0x64,
            a: 0x95,
            x: 0xB9,
            y: 0x80,
            p: 0xE0,
            ram: vec![(0x0028, 0xCB), (0xE1E7, 0xE6), (0xE1E8, 0x28)],
        },
        5,
    );
}

#[test]
#[allow(non_snake_case)]
fn INC_zero_page_x() {
    run_case(
        TestState {
            pc: 0x3E19,
            s: 0xED,
            a: 0xE2,
            x: 0x12,
            y: 0x68,
            p: 0x2B,
            ram: vec![(0x00F5, 0x73), (0x3E19, 0xF6), (0x3E1A, 0xE3)],
        },
        TestState {
            pc: 0x3E1B,
            s: 0xED,
            a: 0xE2,
            x: 0x12,
            y: 0x68,
            p: 0x29,
            ram: vec![(0x00F5, 0x74), (0x3E19, 0xF6), (0x3E1A, 0xE3)],
        },
        6,
    );
}

#[test]
#[allow(non_snake_case)]
fn INC_absolute() {
    run_case(
        TestState {
            pc: 0xBC6B,
            s: 0xE7,
            a: 0x94,
            x: 0x09,
            y: 0x43,
            p: 0x6F,
            ram: vec![(0xBC6B, 0xEE), (0xBC6C, 0xCD), (0xBC6D, 0xC3), (0xC3CD, 0x37)],
        },
        TestState {
            pc: 0xBC6E,
            s: 0xE7,
            a: 0x94,
            x: 0x09,
            y: 0x43,
            p: 0x6D,
            ram: vec![(0xBC6B, 0xEE), (0xBC6C, 0xCD), (0xBC6D, 0xC3), (0xC3CD, 0x38)],
        },
        6,
    );
}

#[test]
#[allow(non_snake_case)]
fn INC_absolute_x() {
    run_case(
        TestState {
            pc: 0x1A72,
            s: 0xD3,
            a: 0x82,
            x: 0xBC,
            y: 0x9E,
            p: 0x6F,
            ram: vec![(0x1A72, 0xFE), (0x1A73, 0xDD), (0x1A74, 0x6D), (0x6E99, 0x5D)],
        },
        TestState {
            pc: 0x1A75,
            s: 0xD3,
            a: 0x82,
            x: 0xBC,
            y: 0x9E,
            p: 0x6D,
            ram: vec![(0x1A72, 0xFE), (0x1A73, 0xDD), (0x1A74, 0x6D), (0x6E99, 0x5E)],
        },
        7,
    );
}

#[test]
#[allow(non_snake_case)]
fn INX_implied() {
    run_case(
        TestState {
            pc: 0x7999,
            s: 0xCE,
            a: 0xA4,
            x: 0xFE,
            y: 0x8C,
            p: 0xE2,
            ram: vec![(0x7999, 0xE8)],
        },
        TestState {
            pc: 0x799A,
            s: 0xCE,
            a: 0xA4,
            x: 0xFF,
            y: 0x8C,
            p: 0xE0,
            ram: vec![(0x7999, 0xE8)],
        },
        2,
    );
}

#[test]
#[allow(non_snake_case)]
fn INY_implied() {
    run_case(
        TestState {
            pc: 0xB26F,
            s: 0xCE,
            a: 0xB2,
            x: 0x0C,
            y: 0xA8,
            p: 0xE7,
            ram: vec![(0xB26F, 0xC8)],
        },
        TestState {
            pc: 0xB270,
            s: 0xCE,
            a: 0xB2,
            x: 0x0C,
            y: 0xA9,
            p: 0xE5,
            ram: vec![(0xB26F, 0xC8)],
        },
        2,
    );
}

#[test]
#[allow(non_snake_case)]
fn JMP_absolute() {
    run_case(
        TestState {
            pc: 0x5DF3,
            s: 0x96,
            a: 0xF7,
            x: 0x2D,
            y: 0x05,
            p: 0xE2,
            ram: vec![(0x5DF3, 0x4C), (0x5DF4, 0xFC), (0x5DF5, 0x60)],
        },
        TestState {
            pc: 0x60FC,
            s: 0x96,
            a: 0xF7,
            x: 0x2D,
            y: 0x05,
            p: 0xE2,
            ram: vec![(0x5DF3, 0x4C), (0x5DF4, 0xFC), (0x5DF5, 0x60)],
        },
        3,
    );
}

#[test]
#[allow(non_snake_case)]
fn JMP_indirect() {
    run_case(
        TestState {
            pc: 0x9FEA,
            s: 0xC5,
            a: 0xC3,
            x: 0xBF,
            y: 0x4D,
            p: 0xEE,
            ram: vec![(0x9B54, 0xEC), (0x9B55, 0xCC), (0x9FEA, 0x6C), (0x9FEB, 0x54), (0x9FEC, 0x9B)],
        },
        TestState {
            pc: 0xCCEC,
            s: 0xC5,
            a: 0xC3,
            x: 0xBF,
            y: 0x4D,
            p: 0xEE,
            ram: vec![(0x9B54, 0xEC), (0x9B55, 0xCC), (0x9FEA, 0x6C), (0x9FEB, 0x54), (0x9FEC, 0x9B)],
        },
        5,
    );
}

#[test]
#[allow(non_snake_case)]
fn JSR_absolute() {
    run_case(
        TestState {
            pc: 0x16BE,
            s: 0x4B,
            a: 0x39,
            x: 0xC2,
            y: 0x95,
            p: 0x66,
            ram: vec![(0x16BE, 0x20), (0x16BF, 0x33), (0x16C0, 0x43)],
        },
        TestState {
            pc: 0x4333,
            s: 0x49,
            a: 0x39,
            x: 0xC2,
            y: 0x95,
            p: 0x66,
            ram: vec![(0x014A, 0xC0), (0x014B, 0x16), (0x16BE, 0x20), (0x16BF, 0x33), (0x16C0, 0x43)],
        },
        6,
    );
}

#[test]
#[allow(non_snake_case)]
fn LDA_immediate() {
    run_case(
        TestState {
            pc: 0x7A71,
            s: 0x9E,
            a: 0x53,
            x: 0xD7,
            y: 0x64,
            p: 0x24,
            ram: vec![(0x7A71, 0xA9), (0x7A72, 0xFB)],
        },
        TestState {
            pc: 0x7A73,
            s: 0x9E,
            a: 0xFB,
            x: 0xD7,
            y: 0x64,
            p: 0xA4,
            ram: vec![(0x7A71, 0xA9), (0x7A72, 0xFB)],
        },
        2,
    );
}

#[test]
#[allow(non_snake_case)]
fn LDA_zero_page() {
    run_case(
        TestState {
            pc: 0xB862,
            s: 0x9F,
            a: 0xC8,
            x: 0xC6,
            y: 0xA9,
            p: 0xAD,
            ram: vec![(0x00A9, 0x25), (0xB862, 0xA5), (0xB863, 0xA9)],
        },
        TestState {
            pc: 0xB864,
            s: 0x9F,
            a: 0x25,
            x: 0xC6,
            y: 0xA9,
            p: 0x2D,
            ram: vec![(0x00A9, 0x25), (0xB862, 0xA5), (0xB863, 0xA9)],
        },
        3,
    );
}

#[test]
#[allow(non_snake_case)]
fn LDA_zero_page_x() {
    run_case(
        TestState {
            pc: 0x1888,
            s: 0x74,
            a: 0xB7,
            x: 0xB7,
            y: 0x15,
            p: 0xE7,
            ram: vec![(0x003A, 0x91), (0x1888, 0xB5), (0x1889, 0x83)],
        },
        TestState {
            pc: 0x188A,
            s: 0x74,
            a: 0x91,
            x: 0xB7,
            y: 0x15,
            p: 0xE5,
            ram: vec![(0x003A, 0x91), (0x1888, 0xB5), (0x1889, 0x83)],
        },
        4,
    );
}

#[test]
#[allow(non_snake_case)]
fn LDA_absolute() {
    run_case(
        TestState {
            pc: 0x652D,
            s: 0x35,
            a: 0xB9,
            x: 0x3D,
            y: 0x9E,
            p: 0x65,
            ram: vec![(0x652D, 0xAD), (0x652E, 0xD7), (0x652F, 0xFD), (0xFDD7, 0xDE)],
        },
        TestState {
            pc: 0x6530,
            s: 0x35,
            a: 0xDE,
            x: 0x3D,
            y: 0x9E,
            p: 0xE5,
            ram: vec![(0x652D, 0xAD), (0x652E, 0xD7), (0x652F, 0xFD), (0xFDD7, 0xDE)],
        },
        4,
    );
}

#[test]
#[allow(non_snake_case)]
fn LDA_absolute_x() {
    run_case(
        TestState {
            pc: 0xB8A6,
            s: 0x35,
            a: 0x23,
            x: 0xD5,
            y: 0x8B,
            p: 0xEF,
            ram: vec![(0xA9FC, 0x51), (0xB8A6, 0xBD), (0xB8A7, 0x27), (0xB8A8, 0xA9)],
        },
        TestState {
            pc: 0xB8A9,
            s: 0x35,
            a: 0x51,
            x: 0xD5,
            y: 0x8B,
            p: 0x6D,
            ram: vec![(0xA9FC, 0x51), (0xB8A6, 0xBD), (0xB8A7, 0x27), (0xB8A8, 0xA9)],
        },
        4,
    );
}

#[test]
#[allow(non_snake_case)]
fn LDA_absolute_y() {
    run_case(
        TestState {
            pc: 0x9619,
            s: 0x7A,
            a: 0x5D,
            x: 0xC3,
            y: 0xD1,
            p: 0xA9,
            ram: vec![(0x9619, 0xB9), (0x961A, 0xEE), (0x961B, 0xF9), (0xFABF, 0xB5)],
        },
        TestState {
            pc: 0x961C,
            s: 0x7A,
            a: 0xB5,
            x: 0xC3,
            y: 0xD1,
            p: 0xA9,
            ram: vec![(0x9619, 0xB9), (0x961A, 0xEE), (0x961B, 0xF9), (0xFABF, 0xB5)],
        },
        5,
    );
}

#[test]
#[allow(non_snake_case)]
fn LDA_indirect_x() {
    run_case(
        TestState {
            pc: 0x6C20,
            s: 0xE6,
            a: 0x49,
            x: 0xAF,
            y: 0x3D,
            p: 0x6E,
            ram: vec![(0x004D, 0x9F), (0x004E, 0x24), (0x249F, 0xCE), (0x6C20, 0xA1), (0x6C21, 0x9E)],
        },
        TestState {
            pc: 0x6C22,
            s: 0xE6,
            a: 0xCE,
            x: 0xAF,
            y: 0x3D,
            p: 0xEC,
            ram: vec![(0x004D, 0x9F), (0x004E, 0x24), (0x249F, 0xCE), (0x6C20, 0xA1), (0x6C21, 0x9E)],
        },
        6,
    );
}

#[test]
#[allow(non_snake_case)]
fn LDA_indirect_y() {
    run_case(
        TestState {
            pc: 0xA9F0,
            s: 0x69,
            a: 0xEA,
            x: 0x3E,
            y: 0x42,
            p: 0xEF,
            ram: vec![(0x0040, 0x55), (0x0041, 0x6E), (0x6E97, 0xF5), (0xA9F0, 0xB1), (0xA9F1, 0x40)],
        },
        TestState {
            pc: 0xA9F2,
            s: 0x69,
            a: 0xF5,
            x: 0x3E,
            y: 0x42,
            p: 0xED,
            ram: vec![(0x0040, 0x55), (0x0041, 0x6E), (0x6E97, 0xF5), (0xA9F0, 0xB1), (0xA9F1, 0x40)],
        },
        5,
    );
}

#[test]
#[allow(non_snake_case)]
fn LDX_immediate() {
    run_case(
        TestState {
            pc: 0xD76A,
            s: 0x7E,
            a: 0xC1,
            x: 0xC7,
            y: 0x16,
            p: 0xE5,
            ram: vec![(0xD76A, 0xA2), (0xD76B, 0xD8)],
        },
        TestState {
            pc: 0xD76C,
            s: 0x7E,
            a: 0xC1,
            x: 0xD8,
            y: 0x16,
            p: 0xE5,
            ram: vec![(0xD76A, 0xA2), (0xD76B, 0xD8)],
        },
        2,
    );
}

#[test]
#[allow(non_snake_case)]
fn LDX_zero_page() {
    run_case(
        TestState {
            pc: 0xA601,
            s: 0xA1,
            a: 0x5C,
            x: 0xF2,
            y: 0x55,
            p: 0x64,
            ram: vec![(0x0091, 0xA6), (0xA601, 0xA6), (0xA602, 0x91)],
        },
        TestState {
            pc: 0xA603,
            s: 0xA1,
            a: 0x5C,
            x: 0xA6,
            y: 0x55,
            p: 0xE4,
            ram: vec![(0x0091, 0xA6), (0xA601, 0xA6), (0xA602, 0x91)],
        },
        3,
    );
}

#[test]
#[allow(non_snake_case)]
fn LDX_zero_page_y() {
    run_case(
        TestState {
            pc: 0xC708,
            s: 0x8C,
            a: 0xCA,
            x: 0x76,
            y: 0x34,
            p: 0xA3,
            ram: vec![(0x00DB, 0x2F), (0xC708, 0xB6), (0xC709, 0xA7)],
        },
        TestState {
            pc: 0xC70A,
            s: 0x8C,
            a: 0xCA,
            x: 0x2F,
            y: 0x34,
            p: 0x21,
            ram: vec![(0x00DB, 0x2F), (0xC708, 0xB6), (0xC709, 0xA7)],
        },
        4,
    );
}

#[test]
#[allow(non_snake_case)]
fn LDX_absolute() {
    run_case(
        TestState {
            pc: 0x53C2,
            s: 0xE4,
            a: 0x23,
            x: 0x58,
            y: 0x61,
            p: 0x25,
            ram: vec![(0x07D4, 0x7B), (0x53C2, 0xAE), (0x53C3, 0xD4), (0x53C4, 0x07)],
        },
        TestState {
            pc: 0x53C5,
            s: 0xE4,
            a: 0x23,
            x: 0x7B,
            y: 0x61,
            p: 0x25,
            ram: vec![(0x07D4, 0x7B), (0x53C2, 0xAE), (0x53C3, 0xD4), (0x53C4, 0x07)],
        },
        4,
    );
}

#[test]
#[allow(non_snake_case)]
fn LDX_absolute_y() {
    run_case(
        TestState {
            pc: 0xBF7A,
            s: 0x41,
            a: 0x29,
            x: 0xB2,
            y: 0x74,
            p: 0x6D,
            ram: vec![(0xBF7A, 0xBE), (0xBF7B, 0x92), (0xBF7C, 0xD6), (0xD706, 0x4E)],
        },
        TestState {
            pc: 0xBF7D,
            s: 0x41,
            a: 0x29,
            x: 0x4E,
            y: 0x74,
            p: 0x6D,
            ram: vec![(0xBF7A, 0xBE), (0xBF7B, 0x92), (0xBF7C, 0xD6), (0xD706, 0x4E)],
        },
        5,
    );
}

#[test]
#[allow(non_snake_case)]
fn LDY_immediate() {
    run_case(
        TestState {
            pc: 0xB801,
            s: 0xD1,
            a: 0x08,
            x: 0x7A,
            y: 0xE7,
            p: 0x6B,
            ram: vec![(0xB801, 0xA0), (0xB802, 0xD0)],
        },
        TestState {
            pc: 0xB803,
            s: 0xD1,
            a: 0x08,
            x: 0x7A,
            y: 0xD0,
            p: 0xE9,
            ram: vec![(0xB801, 0xA0), (0xB802, 0xD0)],
        },
        2,
    );
}

#[test]
#[allow(non_snake_case)]
fn LDY_zero_page() {
    run_case(
        TestState {
            pc: 0x0FEE,
            s: 0xAE,
            a: 0xC5,
            x: 0x14,
            y: 0xCA,
            p: 0xE2,
            ram: vec![(0x00A2, 0x56), (0x0FEE, 0xA4), (0x0FEF, 0xA2)],
        },
        TestState {
            pc: 0x0FF0,
            s: 0xAE,
            a: 0xC5,
            x: 0x14,
            y: 0x56,
            p: 0x60,
            ram: vec![(0x00A2, 0x56), (0x0FEE, 0xA4), (0x0FEF, 0xA2)],
        },
        3,
    );
}

#[test]
#[allow(non_snake_case)]
fn LDY_zero_page_x() {
    run_case(
        TestState {
            pc: 0x9471,
            s: 0xA5,
            a: 0xCB,
            x: 0x94,
            y: 0xC5,
            p: 0xA1,
            ram: vec![(0x0071, 0x5B), (0x9471, 0xB4), (0x9472, 0xDD)],
        },
        TestState {
            pc: 0x9473,
            s: 0xA5,
            a: 0xCB,
            x: 0x94,
            y: 0x5B,
            p: 0x21,
            ram: vec![(0x0071, 0x5B), (0x9471, 0xB4), (0x9472, 0xDD)],
        },
        4,
    );
}

#[test]
#[allow(non_snake_case)]
fn LDY_absolute() {
    run_case(
        TestState {
            pc: 0x19DC,
            s: 0x7F,
            a: 0x45,
            x: 0xEF,
            y: 0x7B,
            p: 0x69,
            ram: vec![(0x19DC, 0xAC), (0x19DD, 0xEB), (0x19DE, 0x63), (0x63EB, 0x3E)],
        },
        TestState {
            pc: 0x19DF,
            s: 0x7F,
            a: 0x45,
            x: 0xEF,
            y: 0x3E,
            p: 0x69,
            ram: vec![(0x19DC, 0xAC), (0x19DD, 0xEB), (0x19DE, 0x63), (0x63EB, 0x3E)],
        },
        4,
    );
}

#[test]
#[allow(non_snake_case)]
fn LDY_absolute_x() {
    run_case(
        TestState {
            pc: 0x174C,
            s: 0x2F,
            a: 0x27,
            x: 0x7A,
            y: 0xF2,
            p: 0xA4,
            ram: vec![(0x174C, 0xBC), (0x174D, 0x51), (0x174E, 0xF7), (0xF7CB, 0x4D)],
        },
        TestState {
            pc: 0x174F,
            s: 0x2F,
            a: 0x27,
            x: 0x7A,
            y: 0x4D,
            p: 0x24,
            ram: vec![(0x174C, 0xBC), (0x174D, 0x51), (0x174E, 0xF7), (0xF7CB, 0x4D)],
        },
        4,
    );
}

#[test]
#[allow(non_snake_case)]
fn LSR_accumulator() {
    run_case(
        TestState {
            pc: 0x1A06,
            s: 0x81,
            a: 0x6D,
            x: 0x3C,
            y: 0x27,
            p: 0xE8,
            ram: vec![(0x1A06, 0x4A)],
        },
        TestState {
            pc: 0x1A07,
            s: 0x81,
            a: 0x36,
            x: 0x3C,
            y: 0x27,
            p: 0x69,
            ram: vec![(0x1A06, 0x4A)],
        },
        2,
    );
}

#[test]
#[allow(non_snake_case)]
fn LSR_zero_page() {
    run_case(
        TestState {
            pc: 0xBDDC,
            s: 0xBE,
            a: 0x65,
            x: 0x23,
            y: 0x2B,
            p: 0x2D,
            ram: vec![(0x0022, 0xEA), (0xBDDC, 0x46), (0xBDDD, 0x22)],
        },
        TestState {
            pc: 0xBDDE,
            s: 0xBE,
            a: 0x65,
            x: 0x23,
            y: 0x2B,
            p: 0x2C,
            ram: vec![(0x0022, 0x75), (0xBDDC, 0x46), (0xBDDD, 0x22)],
        },
        5,
    );
}

#[test]
#[allow(non_snake_case)]
fn LSR_zero_page_x() {
    run_case(
        TestState {
            pc: 0x11D1,
            s: 0xB3,
            a: 0x5D,
            x: 0x57,
            y: 0xD5,
            p: 0x6B,
            ram: vec![(0x00DE, 0x5A), (0x11D1, 0x56), (0x11D2, 0x87)],
        },
        TestState {
            pc: 0x11D3,
            s: 0xB3,
            a: 0x5D,
            x: 0x57,
            y: 0xD5,
            p: 0x68,
            ram: vec![(0x00DE, 0x2D), (0x11D1, 0x56), (0x11D2, 0x87)],
        },
        6,
    );
}

#[test]
#[allow(non_snake_case)]
fn LSR_absolutetmp() {
    run_case(
        TestState {
            pc: 0x498C,
            s: 0x2E,
            a: 0xA0,
            x: 0x13,
            y: 0xE2,
            p: 0xAB,
            ram: vec![(0x498C, 0x4E), (0x498D, 0x7A), (0x498E, 0xFB), (0xFB7A, 0x3A)],
        },
        TestState {
            pc: 0x498F,
            s: 0x2E,
            a: 0xA0,
            x: 0x13,
            y: 0xE2,
            p: 0x28,
            ram: vec![(0x498C, 0x4E), (0x498D, 0x7A), (0x498E, 0xFB), (0xFB7A, 0x1D)],
        },
        6,
    );
}

#[test]
#[allow(non_snake_case)]
fn LSR_absolute_x() {
    run_case(
        TestState {
            pc: 0xEA22,
            s: 0xCE,
            a: 0x3E,
            x: 0x64,
            y: 0x56,
            p: 0xA0,
            ram: vec![(0x90FF, 0xF4), (0xEA22, 0x5E), (0xEA23, 0x9B), (0xEA24, 0x90)],
        },
        TestState {
            pc: 0xEA25,
            s: 0xCE,
            a: 0x3E,
            x: 0x64,
            y: 0x56,
            p: 0x20,
            ram: vec![(0x90FF, 0x7A), (0xEA22, 0x5E), (0xEA23, 0x9B), (0xEA24, 0x90)],
        },
        7,
    );
}

#[test]
#[allow(non_snake_case)]
fn NOP_implied() {
    run_case(
        TestState {
            pc: 0x3105,
            s: 0x50,
            a: 0x5B,
            x: 0x6B,
            y: 0x09,
            p: 0xA6,
            ram: vec![(0x3105, 0xEA)],
        },
        TestState {
            pc: 0x3106,
            s: 0x50,
            a: 0x5B,
            x: 0x6B,
            y: 0x09,
            p: 0xA6,
            ram: vec![(0x3105, 0xEA)],
        },
        2,
    );
}

#[test]
#[allow(non_snake_case)]
fn ORA_immediate() {
    run_case(
        TestState {
            pc: 0x338E,
            s: 0x9A,
            a: 0xBE,
            x: 0xE2,
            y: 0xE8,
            p: 0xAF,
            ram: vec![(0x338E, 0x09), (0x338F, 0xF0)],
        },
        TestState {
            pc: 0x3390,
            s: 0x9A,
            a: 0xFE,
            x: 0xE2,
            y: 0xE8,
            p: 0xAD,
            ram: vec![(0x338E, 0x09), (0x338F, 0xF0)],
        },
        2,
    );
}

#[test]
#[allow(non_snake_case)]
fn ORA_zero_page() {
    run_case(
        TestState {
            pc: 0x09DA,
            s: 0x4E,
            a: 0x2C,
            x: 0x95,
            y: 0xDA,
            p: 0xA5,
            ram: vec![(0x0050, 0x14), (0x09DA, 0x05), (0x09DB, 0x50)],
        },
        TestState {
            pc: 0x09DC,
            s: 0x4E,
            a: 0x3C,
            x: 0x95,
            y: 0xDA,
            p: 0x25,
            ram: vec![(0x0050, 0x14), (0x09DA, 0x05), (0x09DB, 0x50)],
        },
        3,
    );
}

#[test]
#[allow(non_snake_case)]
fn ORA_zero_page_x() {
    run_case(
        TestState {
            pc: 0x2B55,
            s: 0xD2,
            a: 0xDD,
            x: 0x86,
            y: 0xA0,
            p: 0xE5,
            ram: vec![(0x0053, 0x6C), (0x2B55, 0x15), (0x2B56, 0xCD)],
        },
        TestState {
            pc: 0x2B57,
            s: 0xD2,
            a: 0xFD,
            x: 0x86,
            y: 0xA0,
            p: 0xE5,
            ram: vec![(0x0053, 0x6C), (0x2B55, 0x15), (0x2B56, 0xCD)],
        },
        4,
    );
}

#[test]
#[allow(non_snake_case)]
fn ORA_absolute() {
    run_case(
        TestState {
            pc: 0x4133,
            s: 0x8A,
            a: 0x7A,
            x: 0x72,
            y: 0xD5,
            p: 0xAA,
            ram: vec![(0x4133, 0x0D), (0x4134, 0xE4), (0x4135, 0xCD), (0xCDE4, 0x14)],
        },
        TestState {
            pc: 0x4136,
            s: 0x8A,
            a: 0x7E,
            x: 0x72,
            y: 0xD5,
            p: 0x28,
            ram: vec![(0x4133, 0x0D), (0x4134, 0xE4), (0x4135, 0xCD), (0xCDE4, 0x14)],
        },
        4,
    );
}

#[test]
#[allow(non_snake_case)]
fn ORA_absolute_x() {
    run_case(
        TestState {
            pc: 0x5C4D,
            s: 0x97,
            a: 0xF8,
            x: 0x9A,
            y: 0x0E,
            p: 0xEC,
            ram: vec![(0x5C4D, 0x1D), (0x5C4E, 0x23), (0x5C4F, 0xA3), (0xA3BD, 0x30)],
        },
        TestState {
            pc: 0x5C50,
            s: 0x97,
            a: 0xF8,
            x: 0x9A,
            y: 0x0E,
            p: 0xEC,
            ram: vec![(0x5C4D, 0x1D), (0x5C4E, 0x23), (0x5C4F, 0xA3), (0xA3BD, 0x30)],
        },
        4,
    );
}

#[test]
#[allow(non_snake_case)]
fn ORA_absolute_y() {
    run_case(
        TestState {
            pc: 0x40F4,
            s: 0x3B,
            a: 0x6F,
            x: 0x85,
            y: 0x14,
            p: 0x21,
            ram: vec![(0x0A30, 0x47), (0x40F4, 0x19), (0x40F5, 0x1C), (0x40F6, 0x0A)],
        },
        TestState {
            pc: 0x40F7,
            s: 0x3B,
            a: 0x6F,
            x: 0x85,
            y: 0x14,
            p: 0x21,
            ram: vec![(0x0A30, 0x47), (0x40F4, 0x19), (0x40F5, 0x1C), (0x40F6, 0x0A)],
        },
        4,
    );
}

#[test]
#[allow(non_snake_case)]
fn ORA_indirect_x() {
    run_case(
        TestState {
            pc: 0x3FF1,
            s: 0x27,
            a: 0xEE,
            x: 0x8D,
            y: 0x5C,
            p: 0xE6,
            ram: vec![(0x009F, 0x81), (0x00A0, 0xE9), (0x3FF1, 0x01), (0x3FF2, 0x12), (0xE981, 0x5F)],
        },
        TestState {
            pc: 0x3FF3,
            s: 0x27,
            a: 0xFF,
            x: 0x8D,
            y: 0x5C,
            p: 0xE4,
            ram: vec![(0x009F, 0x81), (0x00A0, 0xE9), (0x3FF1, 0x01), (0x3FF2, 0x12), (0xE981, 0x5F)],
        },
        6,
    );
}

#[test]
#[allow(non_snake_case)]
fn ORA_indirect_y() {
    run_case(
        TestState {
            pc: 0xED9C,
            s: 0x2B,
            a: 0x2E,
            x: 0xC4,
            y: 0x8A,
            p: 0xA9,
            ram: vec![(0x00A1, 0x99), (0x00A2, 0x89), (0x8A23, 0x45), (0xED9C, 0x11), (0xED9D, 0xA1)],
        },
        TestState {
            pc: 0xED9E,
            s: 0x2B,
            a: 0x6F,
            x: 0xC4,
            y: 0x8A,
            p: 0x29,
            ram: vec![(0x00A1, 0x99), (0x00A2, 0x89), (0x8A23, 0x45), (0xED9C, 0x11), (0xED9D, 0xA1)],
        },
        6,
    );
}

#[test]
#[allow(non_snake_case)]
fn PHA_implied() {
    run_case(
        TestState {
            pc: 0x6E81,
            s: 0xD7,
            a: 0x07,
            x: 0xD8,
            y: 0x49,
            p: 0xA3,
            ram: vec![(0x6E81, 0x48)],
        },
        TestState {
            pc: 0x6E82,
            s: 0xD6,
            a: 0x07,
            x: 0xD8,
            y: 0x49,
            p: 0xA3,
            ram: vec![(0x01D7, 0x07), (0x6E81, 0x48)],
        },
        3,
    );
}

#[test]
#[allow(non_snake_case)]
fn PHP_implied() {
    run_case(
        TestState {
            pc: 0xB83A,
            s: 0x34,
            a: 0x92,
            x: 0xDF,
            y: 0xBB,
            p: 0xAB,
            ram: vec![(0xB83A, 0x08)],
        },
        TestState {
            pc: 0xB83B,
            s: 0x33,
            a: 0x92,
            x: 0xDF,
            y: 0xBB,
            p: 0xAB,
            ram: vec![(0x0134, 0xBB), (0xB83A, 0x08)],
        },
        3,
    );
}

#[test]
#[allow(non_snake_case)]
fn PLA_implied() {
    run_case(
        TestState {
            pc: 0x0F74,
            s: 0x3F,
            a: 0xD4,
            x: 0xC5,
            y: 0xC0,
            p: 0xEA,
            ram: vec![(0x0140, 0x73), (0x0F74, 0x68)],
        },
        TestState {
            pc: 0x0F75,
            s: 0x40,
            a: 0x73,
            x: 0xC5,
            y: 0xC0,
            p: 0x68,
            ram: vec![(0x0140, 0x73), (0x0F74, 0x68)],
        },
        4,
    );
}

#[test]
#[allow(non_snake_case)]
fn PLP_implied() {
    run_case(
        TestState {
            pc: 0x962B,
            s: 0x9A,
            a: 0xD2,
            x: 0xF5,
            y: 0x12,
            p: 0x2F,
            ram: vec![(0x019B, 0xE6), (0x962B, 0x28)],
        },
        TestState {
            pc: 0x962C,
            s: 0x9B,
            a: 0xD2,
            x: 0xF5,
            y: 0x12,
            p: 0xE6,
            ram: vec![(0x019B, 0xE6), (0x962B, 0x28)],
        },
        4,
    );
}

#[test]
#[allow(non_snake_case)]
fn ROL_accumulator() {
    run_case(
        TestState {
            pc: 0x3A95,
            s: 0xA7,
            a: 0x93,
            x: 0xF9,
            y: 0x86,
            p: 0x66,
            ram: vec![(0x3A95, 0x2A)],
        },
        TestState {
            pc: 0x3A96,
            s: 0xA7,
            a: 0x26,
            x: 0xF9,
            y: 0x86,
            p: 0x65,
            ram: vec![(0x3A95, 0x2A)],
        },
        2,
    );
}

#[test]
#[allow(non_snake_case)]
fn ROL_zero_page() {
    run_case(
        TestState {
            pc: 0x681D,
            s: 0x6F,
            a: 0x9F,
            x: 0x6C,
            y: 0x0F,
            p: 0x25,
            ram: vec![(0x00A5, 0x4D), (0x681D, 0x26), (0x681E, 0xA5)],
        },
        TestState {
            pc: 0x681F,
            s: 0x6F,
            a: 0x9F,
            x: 0x6C,
            y: 0x0F,
            p: 0xA4,
            ram: vec![(0x00A5, 0x9B), (0x681D, 0x26), (0x681E, 0xA5)],
        },
        5,
    );
}

#[test]
#[allow(non_snake_case)]
fn ROL_zero_page_x() {
    run_case(
        TestState {
            pc: 0x82E3,
            s: 0xB4,
            a: 0x4E,
            x: 0x4F,
            y: 0x97,
            p: 0x20,
            ram: vec![(0x0025, 0x7F), (0x82E3, 0x36), (0x82E4, 0xD6)],
        },
        TestState {
            pc: 0x82E5,
            s: 0xB4,
            a: 0x4E,
            x: 0x4F,
            y: 0x97,
            p: 0xA0,
            ram: vec![(0x0025, 0xFE), (0x82E3, 0x36), (0x82E4, 0xD6)],
        },
        6,
    );
}

#[test]
#[allow(non_snake_case)]
fn ROL_absolute() {
    run_case(
        TestState {
            pc: 0x3DCB,
            s: 0x8D,
            a: 0x32,
            x: 0xEE,
            y: 0x1D,
            p: 0x21,
            ram: vec![(0x03FD, 0x83), (0x3DCB, 0x2E), (0x3DCC, 0xFD), (0x3DCD, 0x03)],
        },
        TestState {
            pc: 0x3DCE,
            s: 0x8D,
            a: 0x32,
            x: 0xEE,
            y: 0x1D,
            p: 0x21,
            ram: vec![(0x03FD, 0x07), (0x3DCB, 0x2E), (0x3DCC, 0xFD), (0x3DCD, 0x03)],
        },
        6,
    );
}

#[test]
#[allow(non_snake_case)]
fn ROR_accumulator() {
    run_case(
        TestState {
            pc: 0xA69A,
            s: 0x6B,
            a: 0x40,
            x: 0xCC,
            y: 0xEA,
            p: 0xEA,
            ram: vec![(0xA69A, 0x6A)],
        },
        TestState {
            pc: 0xA69B,
            s: 0x6B,
            a: 0x20,
            x: 0xCC,
            y: 0xEA,
            p: 0x68,
            ram: vec![(0xA69A, 0x6A)],
        },
        2,
    );
}

#[test]
#[allow(non_snake_case)]
fn ROR_zero_page() {
    run_case(
        TestState {
            pc: 0xEAC8,
            s: 0xB4,
            a: 0x5E,
            x: 0xB0,
            y: 0xE9,
            p: 0xAD,
            ram: vec![(0x0056, 0xC9), (0xEAC8, 0x66), (0xEAC9, 0x56)],
        },
        TestState {
            pc: 0xEACA,
            s: 0xB4,
            a: 0x5E,
            x: 0xB0,
            y: 0xE9,
            p: 0xAD,
            ram: vec![(0x0056, 0xE4), (0xEAC8, 0x66), (0xEAC9, 0x56)],
        },
        5,
    );
}

#[test]
#[allow(non_snake_case)]
fn ROR_zero_page_x() {
    run_case(
        TestState {
            pc: 0xD8F3,
            s: 0xB2,
            a: 0xB3,
            x: 0x56,
            y: 0xD6,
            p: 0xAB,
            ram: vec![(0x006C, 0x16), (0xD8F3, 0x76), (0xD8F4, 0x16)],
        },
        TestState {
            pc: 0xD8F5,
            s: 0xB2,
            a: 0xB3,
            x: 0x56,
            y: 0xD6,
            p: 0xA8,
            ram: vec![(0x006C, 0x8B), (0xD8F3, 0x76), (0xD8F4, 0x16)],
        },
        6,
    );
}

#[test]
#[allow(non_snake_case)]
fn ROR_absolute() {
    run_case(
        TestState {
            pc: 0x4733,
            s: 0x7D,
            a: 0x23,
            x: 0xD3,
            y: 0x62,
            p: 0x6E,
            ram: vec![(0x4733, 0x6E), (0x4734, 0x2C), (0x4735, 0x54), (0x542C, 0xE9)],
        },
        TestState {
            pc: 0x4736,
            s: 0x7D,
            a: 0x23,
            x: 0xD3,
            y: 0x62,
            p: 0x6D,
            ram: vec![(0x4733, 0x6E), (0x4734, 0x2C), (0x4735, 0x54), (0x542C, 0x74)],
        },
        6,
    );
}

#[test]
#[allow(non_snake_case)]
fn ROR_absolute_x() {
    run_case(
        TestState {
            pc: 0x0802,
            s: 0x71,
            a: 0x42,
            x: 0xFD,
            y: 0x3F,
            p: 0xE9,
            ram: vec![(0x0802, 0x7E), (0x0803, 0xCD), (0x0804, 0x75), (0x76CA, 0x09)],
        },
        TestState {
            pc: 0x0805,
            s: 0x71,
            a: 0x42,
            x: 0xFD,
            y: 0x3F,
            p: 0xE9,
            ram: vec![(0x0802, 0x7E), (0x0803, 0xCD), (0x0804, 0x75), (0x76CA, 0x84)],
        },
        7,
    );
}

#[test]
#[allow(non_snake_case)]
fn RTI_implied() {
    run_case(
        TestState {
            pc: 0x6CEE,
            s: 0x85,
            a: 0xA6,
            x: 0x31,
            y: 0x5A,
            p: 0x67,
            ram: vec![(0x0186, 0x6B), (0x0187, 0xA5), (0x0188, 0xAA), (0x6CEE, 0x40)],
        },
        TestState {
            pc: 0xAAA5,
            s: 0x88,
            a: 0xA6,
            x: 0x31,
            y: 0x5A,
            p: 0x6B,
            ram: vec![(0x0186, 0x6B), (0x0187, 0xA5), (0x0188, 0xAA), (0x6CEE, 0x40)],
        },
        6,
    );
}

#[test]
#[allow(non_snake_case)]
fn RTS_implied() {
    run_case(
        TestState {
            pc: 0x16DD,
            s: 0xCB,
            a: 0x2B,
            x: 0xFA,
            y: 0x3D,
            p: 0xAC,
            ram: vec![(0x01CC, 0x29), (0x01CD, 0x1D), (0x16DD, 0x60)],
        },
        TestState {
            pc: 0x1D2A,
            s: 0xCD,
            a: 0x2B,
            x: 0xFA,
            y: 0x3D,
            p: 0xAC,
            ram: vec![(0x01CC, 0x29), (0x01CD, 0x1D), (0x16DD, 0x60)],
        },
        6,
    );
}

#[test]
#[allow(non_snake_case)]
fn SBC_immediate() {
    run_case(
        TestState {
            pc: 0xDE6D,
            s: 0x91,
            a: 0x09,
            x: 0xDC,
            y: 0xD9,
            p: 0x23,
            ram: vec![(0xDE6D, 0xE9), (0xDE6E, 0x85)],
        },
        TestState {
            pc: 0xDE6F,
            s: 0x91,
            a: 0x84,
            x: 0xDC,
            y: 0xD9,
            p: 0xE0,
            ram: vec![(0xDE6D, 0xE9), (0xDE6E, 0x85)],
        },
        2,
    );
}

#[test]
#[allow(non_snake_case)]
fn SBC_zero_page() {
    run_case(
        TestState {
            pc: 0xB308,
            s: 0x9F,
            a: 0x28,
            x: 0x28,
            y: 0xF4,
            p: 0x61,
            ram: vec![(0x003A, 0x34), (0xB308, 0xE5), (0xB309, 0x3A)],
        },
        TestState {
            pc: 0xB30A,
            s: 0x9F,
            a: 0xF4,
            x: 0x28,
            y: 0xF4,
            p: 0xA0,
            ram: vec![(0x003A, 0x34), (0xB308, 0xE5), (0xB309, 0x3A)],
        },
        3,
    );
}

#[test]
#[allow(non_snake_case)]
fn SBC_zero_page_x() {
    run_case(
        TestState {
            pc: 0x1ABC,
            s: 0xAA,
            a: 0x48,
            x: 0x1D,
            y: 0x49,
            p: 0xA0,
            ram: vec![(0x00F5, 0xAB), (0x1ABC, 0xF5), (0x1ABD, 0xD8)],
        },
        TestState {
            pc: 0x1ABE,
            s: 0xAA,
            a: 0x9C,
            x: 0x1D,
            y: 0x49,
            p: 0xE0,
            ram: vec![(0x00F5, 0xAB), (0x1ABC, 0xF5), (0x1ABD, 0xD8)],
        },
        4,
    );
}

#[test]
#[allow(non_snake_case)]
fn SBC_absolute() {
    run_case(
        TestState {
            pc: 0x12DD,
            s: 0x8B,
            a: 0xFD,
            x: 0x3B,
            y: 0x63,
            p: 0x61,
            ram: vec![(0x12DD, 0xED), (0x12DE, 0x09), (0x12DF, 0x81), (0x8109, 0x7B)],
        },
        TestState {
            pc: 0x12E0,
            s: 0x8B,
            a: 0x82,
            x: 0x3B,
            y: 0x63,
            p: 0xA1,
            ram: vec![(0x12DD, 0xED), (0x12DE, 0x09), (0x12DF, 0x81), (0x8109, 0x7B)],
        },
        4,
    );
}

#[test]
#[allow(non_snake_case)]
fn SBC_absolute_x() {
    run_case(
        TestState {
            pc: 0xAA25,
            s: 0xCC,
            a: 0xC7,
            x: 0x0D,
            y: 0x35,
            p: 0x25,
            ram: vec![(0xAA25, 0xFD), (0xAA26, 0x34), (0xAA27, 0xDE), (0xDE41, 0x3E)],
        },
        TestState {
            pc: 0xAA28,
            s: 0xCC,
            a: 0x89,
            x: 0x0D,
            y: 0x35,
            p: 0xA5,
            ram: vec![(0xAA25, 0xFD), (0xAA26, 0x34), (0xAA27, 0xDE), (0xDE41, 0x3E)],
        },
        4,
    );
}

#[test]
#[allow(non_snake_case)]
fn SBC_absolute_y() {
    run_case(
        TestState {
            pc: 0xDE25,
            s: 0xE9,
            a: 0xDE,
            x: 0x98,
            y: 0xD3,
            p: 0xEA,
            ram: vec![(0x6C18, 0x08), (0xDE25, 0xF9), (0xDE26, 0x45), (0xDE27, 0x6B)],
        },
        TestState {
            pc: 0xDE28,
            s: 0xE9,
            a: 0xD5,
            x: 0x98,
            y: 0xD3,
            p: 0xA9,
            ram: vec![(0x6C18, 0x08), (0xDE25, 0xF9), (0xDE26, 0x45), (0xDE27, 0x6B)],
        },
        5,
    );
}

#[test]
#[allow(non_snake_case)]
fn SBC_indirect_x() {
    run_case(
        TestState {
            pc: 0xE642,
            s: 0x4A,
            a: 0x66,
            x: 0x3F,
            y: 0x98,
            p: 0x28,
            ram: vec![(0x0079, 0xFA), (0x007A, 0x86), (0x86FA, 0xA3), (0xE642, 0xE1), (0xE643, 0x3A)],
        },
        TestState {
            pc: 0xE644,
            s: 0x4A,
            a: 0xC2,
            x: 0x3F,
            y: 0x98,
            p: 0xE8,
            ram: vec![(0x0079, 0xFA), (0x007A, 0x86), (0x86FA, 0xA3), (0xE642, 0xE1), (0xE643, 0x3A)],
        },
        6,
    );
}

#[test]
#[allow(non_snake_case)]
fn SBC_indirect_y() {
    run_case(
        TestState {
            pc: 0xA2DF,
            s: 0xCA,
            a: 0x99,
            x: 0x47,
            y: 0xF7,
            p: 0x6C,
            ram: vec![(0x00C8, 0xB1), (0x00C9, 0x2C), (0x2DA8, 0x37), (0xA2DF, 0xF1), (0xA2E0, 0xC8)],
        },
        TestState {
            pc: 0xA2E1,
            s: 0xCA,
            a: 0x61,
            x: 0x47,
            y: 0xF7,
            p: 0x6D,
            ram: vec![(0x00C8, 0xB1), (0x00C9, 0x2C), (0x2DA8, 0x37), (0xA2DF, 0xF1), (0xA2E0, 0xC8)],
        },
        6,
    );
}

#[test]
#[allow(non_snake_case)]
fn SEC_implied() {
    run_case(
        TestState {
            pc: 0x6D3A,
            s: 0x53,
            a: 0x41,
            x: 0x6B,
            y: 0x5B,
            p: 0x23,
            ram: vec![(0x6D3A, 0x38)],
        },
        TestState {
            pc: 0x6D3B,
            s: 0x53,
            a: 0x41,
            x: 0x6B,
            y: 0x5B,
            p: 0x23,
            ram: vec![(0x6D3A, 0x38)],
        },
        2,
    );
}

#[test]
#[allow(non_snake_case)]
fn SED_implied() {
    run_case(
        TestState {
            pc: 0x67D9,
            s: 0x9C,
            a: 0x25,
            x: 0x82,
            y: 0x8A,
            p: 0xE6,
            ram: vec![(0x67D9, 0xF8)],
        },
        TestState {
            pc: 0x67DA,
            s: 0x9C,
            a: 0x25,
            x: 0x82,
            y: 0x8A,
            p: 0xEE,
            ram: vec![(0x67D9, 0xF8)],
        },
        2,
    );
}

#[test]
#[allow(non_snake_case)]
fn SEI_implied() {
    run_case(
        TestState {
            pc: 0x6203,
            s: 0xD0,
            a: 0x5B,
            x: 0x04,
            y: 0x25,
            p: 0xE1,
            ram: vec![(0x6203, 0x78)],
        },
        TestState {
            pc: 0x6204,
            s: 0xD0,
            a: 0x5B,
            x: 0x04,
            y: 0x25,
            p: 0xE5,
            ram: vec![(0x6203, 0x78)],
        },
        2,
    );
}

#[test]
#[allow(non_snake_case)]
fn STA_zero_page() {
    run_case(
        TestState {
            pc: 0x783A,
            s: 0x62,
            a: 0x14,
            x: 0x4A,
            y: 0x40,
            p: 0xEF,
            ram: vec![(0x0067, 0xEB), (0x783A, 0x85), (0x783B, 0x67)],
        },
        TestState {
            pc: 0x783C,
            s: 0x62,
            a: 0x14,
            x: 0x4A,
            y: 0x40,
            p: 0xEF,
            ram: vec![(0x0067, 0x14), (0x783A, 0x85), (0x783B, 0x67)],
        },
        3,
    );
}

#[test]
#[allow(non_snake_case)]
fn STA_zero_page_x() {
    run_case(
        TestState {
            pc: 0x87EE,
            s: 0x87,
            a: 0x41,
            x: 0xC1,
            y: 0xE3,
            p: 0x6E,
            ram: vec![(0x0071, 0x4F), (0x87EE, 0x95), (0x87EF, 0xB0)],
        },
        TestState {
            pc: 0x87F0,
            s: 0x87,
            a: 0x41,
            x: 0xC1,
            y: 0xE3,
            p: 0x6E,
            ram: vec![(0x0071, 0x41), (0x87EE, 0x95), (0x87EF, 0xB0)],
        },
        4,
    );
}

#[test]
#[allow(non_snake_case)]
fn STA_absolute() {
    run_case(
        TestState {
            pc: 0xCEBF,
            s: 0xAF,
            a: 0xC5,
            x: 0x9C,
            y: 0x54,
            p: 0xE4,
            ram: vec![(0x806A, 0x34), (0xCEBF, 0x8D), (0xCEC0, 0x6A), (0xCEC1, 0x80)],
        },
        TestState {
            pc: 0xCEC2,
            s: 0xAF,
            a: 0xC5,
            x: 0x9C,
            y: 0x54,
            p: 0xE4,
            ram: vec![(0x806A, 0xC5), (0xCEBF, 0x8D), (0xCEC0, 0x6A), (0xCEC1, 0x80)],
        },
        4,
    );
}

#[test]
#[allow(non_snake_case)]
fn STA_absolute_x() {
    run_case(
        TestState {
            pc: 0x52B3,
            s: 0x98,
            a: 0xD0,
            x: 0x9E,
            y: 0x28,
            p: 0xE7,
            ram: vec![(0x52B3, 0x9D), (0x52B4, 0x99), (0x52B5, 0x92), (0x9337, 0xD9)],
        },
        TestState {
            pc: 0x52B6,
            s: 0x98,
            a: 0xD0,
            x: 0x9E,
            y: 0x28,
            p: 0xE7,
            ram: vec![(0x52B3, 0x9D), (0x52B4, 0x99), (0x52B5, 0x92), (0x9337, 0xD0)],
        },
        5,
    );
}

#[test]
#[allow(non_snake_case)]
fn STA_absolute_y() {
    run_case(
        TestState {
            pc: 0xC90D,
            s: 0xC6,
            a: 0x53,
            x: 0x5C,
            y: 0x89,
            p: 0x2B,
            ram: vec![(0x8F6B, 0x45), (0xC90D, 0x99), (0xC90E, 0xE2), (0xC90F, 0x8E)],
        },
        TestState {
            pc: 0xC910,
            s: 0xC6,
            a: 0x53,
            x: 0x5C,
            y: 0x89,
            p: 0x2B,
            ram: vec![(0x8F6B, 0x53), (0xC90D, 0x99), (0xC90E, 0xE2), (0xC90F, 0x8E)],
        },
        5,
    );
}

#[test]
#[allow(non_snake_case)]
fn STA_indirect_x() {
    run_case(
        TestState {
            pc: 0xB476,
            s: 0x61,
            a: 0x64,
            x: 0x18,
            y: 0xB6,
            p: 0xAF,
            ram: vec![(0x000A, 0x27), (0x000B, 0x7D), (0x7D27, 0xA3), (0xB476, 0x81), (0xB477, 0xF2)],
        },
        TestState {
            pc: 0xB478,
            s: 0x61,
            a: 0x64,
            x: 0x18,
            y: 0xB6,
            p: 0xAF,
            ram: vec![(0x000A, 0x27), (0x000B, 0x7D), (0x7D27, 0x64), (0xB476, 0x81), (0xB477, 0xF2)],
        },
        6,
    );
}

#[test]
#[allow(non_snake_case)]
fn STA_indirect_y() {
    run_case(
        TestState {
            pc: 0xEBDD,
            s: 0x98,
            a: 0x86,
            x: 0x99,
            y: 0xA5,
            p: 0x21,
            ram: vec![(0x00B8, 0xE7), (0x00B9, 0x58), (0x598C, 0xBF), (0xEBDD, 0x91), (0xEBDE, 0xB8)],
        },
        TestState {
            pc: 0xEBDF,
            s: 0x98,
            a: 0x86,
            x: 0x99,
            y: 0xA5,
            p: 0x21,
            ram: vec![(0x00B8, 0xE7), (0x00B9, 0x58), (0x598C, 0x86), (0xEBDD, 0x91), (0xEBDE, 0xB8)],
        },
        6,
    );
}

#[test]
#[allow(non_snake_case)]
fn STX_zero_page() {
    run_case(
        TestState {
            pc: 0x337E,
            s: 0x36,
            a: 0xC0,
            x: 0x72,
            y: 0x3B,
            p: 0xE4,
            ram: vec![(0x00E0, 0x3A), (0x337E, 0x86), (0x337F, 0xE0)],
        },
        TestState {
            pc: 0x3380,
            s: 0x36,
            a: 0xC0,
            x: 0x72,
            y: 0x3B,
            p: 0xE4,
            ram: vec![(0x00E0, 0x72), (0x337E, 0x86), (0x337F, 0xE0)],
        },
        3,
    );
}

#[test]
#[allow(non_snake_case)]
fn STX_zero_page_y() {
    run_case(
        TestState {
            pc: 0x924A,
            s: 0xBE,
            a: 0x30,
            x: 0x8C,
            y: 0xD5,
            p: 0xED,
            ram: vec![(0x00A2, 0x7E), (0x924A, 0x96), (0x924B, 0xCD)],
        },
        TestState {
            pc: 0x924C,
            s: 0xBE,
            a: 0x30,
            x: 0x8C,
            y: 0xD5,
            p: 0xED,
            ram: vec![(0x00A2, 0x8C), (0x924A, 0x96), (0x924B, 0xCD)],
        },
        4,
    );
}

#[test]
#[allow(non_snake_case)]
fn STX_absolute() {
    run_case(
        TestState {
            pc: 0x36CE,
            s: 0x61,
            a: 0xD9,
            x: 0xFB,
            y: 0x47,
            p: 0x28,
            ram: vec![(0x36CE, 0x8E), (0x36CF, 0xD3), (0x36D0, 0x3D), (0x3DD3, 0x63)],
        },
        TestState {
            pc: 0x36D1,
            s: 0x61,
            a: 0xD9,
            x: 0xFB,
            y: 0x47,
            p: 0x28,
            ram: vec![(0x36CE, 0x8E), (0x36CF, 0xD3), (0x36D0, 0x3D), (0x3DD3, 0xFB)],
        },
        4,
    );
}

#[test]
#[allow(non_snake_case)]
fn STY_zero_page() {
    run_case(
        TestState {
            pc: 0xC14E,
            s: 0x80,
            a: 0xD0,
            x: 0xC2,
            y: 0xAB,
            p: 0xA7,
            ram: vec![(0x0021, 0xC2), (0xC14E, 0x84), (0xC14F, 0x21)],
        },
        TestState {
            pc: 0xC150,
            s: 0x80,
            a: 0xD0,
            x: 0xC2,
            y: 0xAB,
            p: 0xA7,
            ram: vec![(0x0021, 0xAB), (0xC14E, 0x84), (0xC14F, 0x21)],
        },
        3,
    );
}

#[test]
#[allow(non_snake_case)]
fn STY_zero_page_x() {
    run_case(
        TestState {
            pc: 0x3EBE,
            s: 0x24,
            a: 0x05,
            x: 0xD5,
            y: 0x0C,
            p: 0x29,
            ram: vec![(0x00A6, 0xCC), (0x3EBE, 0x94), (0x3EBF, 0xD1)],
        },
        TestState {
            pc: 0x3EC0,
            s: 0x24,
            a: 0x05,
            x: 0xD5,
            y: 0x0C,
            p: 0x29,
            ram: vec![(0x00A6, 0x0C), (0x3EBE, 0x94), (0x3EBF, 0xD1)],
        },
        4,
    );
}

#[test]
#[allow(non_snake_case)]
fn STY_absolute() {
    run_case(
        TestState {
            pc: 0x27D5,
            s: 0x5E,
            a: 0x13,
            x: 0x70,
            y: 0xC0,
            p: 0x28,
            ram: vec![(0x27D5, 0x8C), (0x27D6, 0x65), (0x27D7, 0x93), (0x9365, 0x5B)],
        },
        TestState {
            pc: 0x27D8,
            s: 0x5E,
            a: 0x13,
            x: 0x70,
            y: 0xC0,
            p: 0x28,
            ram: vec![(0x27D5, 0x8C), (0x27D6, 0x65), (0x27D7, 0x93), (0x9365, 0xC0)],
        },
        4,
    );
}

#[test]
#[allow(non_snake_case)]
fn TAX_implied() {
    run_case(
        TestState {
            pc: 0x5762,
            s: 0x8A,
            a: 0x03,
            x: 0x00,
            y: 0x7B,
            p: 0x62,
            ram: vec![(0x5762, 0xAA)],
        },
        TestState {
            pc: 0x5763,
            s: 0x8A,
            a: 0x03,
            x: 0x03,
            y: 0x7B,
            p: 0x60,
            ram: vec![(0x5762, 0xAA)],
        },
        2,
    );
}

#[test]
#[allow(non_snake_case)]
fn TAY_implied() {
    run_case(
        TestState {
            pc: 0xC7F1,
            s: 0xD8,
            a: 0x9B,
            x: 0x76,
            y: 0xAC,
            p: 0xA5,
            ram: vec![(0xC7F1, 0xA8)],
        },
        TestState {
            pc: 0xC7F2,
            s: 0xD8,
            a: 0x9B,
            x: 0x76,
            y: 0x9B,
            p: 0xA5,
            ram: vec![(0xC7F1, 0xA8)],
        },
        2,
    );
}

#[test]
#[allow(non_snake_case)]
fn TSX_implied() {
    run_case(
        TestState {
            pc: 0x784D,
            s: 0xC7,
            a: 0xE0,
            x: 0xE9,
            y: 0x57,
            p: 0xEA,
            ram: vec![(0x784D, 0xBA)],
        },
        TestState {
            pc: 0x784E,
            s: 0xC7,
            a: 0xE0,
            x: 0xC7,
            y: 0x57,
            p: 0xE8,
            ram: vec![(0x784D, 0xBA)],
        },
        2,
    );
}

#[test]
#[allow(non_snake_case)]
fn TXA_implied() {
    run_case(
        TestState {
            pc: 0x11F1,
            s: 0xD2,
            a: 0xD7,
            x: 0xBC,
            y: 0x97,
            p: 0x29,
            ram: vec![(0x11F1, 0x8A)],
        },
        TestState {
            pc: 0x11F2,
            s: 0xD2,
            a: 0xBC,
            x: 0xBC,
            y: 0x97,
            p: 0xA9,
            ram: vec![(0x11F1, 0x8A)],
        },
        2,
    );
}

#[test]
#[allow(non_snake_case)]
fn TXS_implied() {
    run_case(
        TestState {
            pc: 0xCF2B,
            s: 0xCE,
            a: 0xCB,
            x: 0xAC,
            y: 0xD3,
            p: 0xAC,
            ram: vec![(0xCF2B, 0x9A)],
        },
        TestState {
            pc: 0xCF2C,
            s: 0xAC,
            a: 0xCB,
            x: 0xAC,
            y: 0xD3,
            p: 0xAC,
            ram: vec![(0xCF2B, 0x9A)],
        },
        2,
    );
}

#[test]
#[allow(non_snake_case)]
fn TYA_implied() {
    run_case(
        TestState {
            pc: 0x3E4D,
            s: 0x8F,
            a: 0x96,
            x: 0x5D,
            y: 0xB7,
            p: 0x61,
            ram: vec![(0x3E4D, 0x98)],
        },
        TestState {
            pc: 0x3E4E,
            s: 0x8F,
            a: 0xB7,
            x: 0x5D,
            y: 0xB7,
            p: 0xE1,
            ram: vec![(0x3E4D, 0x98)],
        },
        2,
    );
}
