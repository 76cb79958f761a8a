use gbmu::cpu::cb_instructions::build_cb_instructions;
use gbmu::cpu::instructions::build_instructions;

#[test]
fn test_instructions_order_and_completeness() {
    let instructions = build_instructions();

    for (expected_opcode, instruction) in instructions.iter().enumerate() {
        assert_eq!(
            instruction.opcode as usize, expected_opcode,
            "Opcode incorrect à l'index {} : trouvé 0x{:02X}, attendu 0x{:02X}",
            expected_opcode, instruction.opcode, expected_opcode
        );
    }

    assert_eq!(
        instructions.len(),
        256,
        "Nombre d'instructions incorrect : {} trouvée(s), 256 attendues",
        instructions.len()
    );
}

#[test]
fn test_cb_instructions_order_and_completeness() {
    let instructions = build_cb_instructions();

    for (expected_opcode, instruction) in instructions.iter().enumerate() {
        assert_eq!(
            instruction.opcode as usize, expected_opcode,
            "Opcode incorrect à l'index {} : trouvé 0x{:02X}, attendu 0x{:02X}",
            expected_opcode, instruction.opcode, expected_opcode
        );
    }

    assert_eq!(
        instructions.len(),
        256,
        "Nombre d'instructions incorrect : {} trouvée(s), 256 attendues",
        instructions.len()
    );
}
