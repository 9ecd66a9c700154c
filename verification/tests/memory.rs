use early_boot::clear_bss;
use early_boot::layout::Segment;

#[test]
fn clear_bss_zeroes_the_range_and_nothing_else() {
    let mut memory = vec![0xaau8; 16];
    clear_bss(&mut memory, 0x1000, Segment { start: 0x1004, end: 0x100c });
    let mut expected = vec![0xaau8; 16];
    for byte in &mut expected[4..12] {
        *byte = 0;
    }
    assert_eq!(memory, expected);
    assert_eq!(memory[3], 0xaa);
    assert_eq!(memory[4], 0);
    assert_eq!(memory[11], 0);
    assert_eq!(memory[12], 0xaa);
}

#[test]
fn clear_bss_overwrites_whatever_was_there() {
    let mut memory: Vec<u8> = (0..=255).collect();
    clear_bss(&mut memory, 0, Segment { start: 10, end: 250 });
    for (i, byte) in memory.iter().enumerate() {
        if (10..250).contains(&i) {
            assert_eq!(*byte, 0);
        } else {
            assert_eq!(*byte as usize, i);
        }
    }
}

#[test]
fn clear_bss_of_the_whole_memory() {
    let mut memory = vec![1u8, 2, 3, 4];
    clear_bss(&mut memory, 0x8020_0000, Segment { start: 0x8020_0000, end: 0x8020_0004 });
    assert_eq!(memory, vec![0u8; 4]);
}

#[test]
fn clear_bss_of_one_byte() {
    let mut memory = vec![7u8, 7, 7];
    clear_bss(&mut memory, 5, Segment { start: 6, end: 7 });
    assert_eq!(memory, vec![7u8, 0, 7]);
}

#[test]
fn clear_bss_of_an_empty_range_changes_nothing() {
    let mut memory = vec![9u8; 8];
    clear_bss(&mut memory, 100, Segment { start: 104, end: 104 });
    assert_eq!(memory, vec![9u8; 8]);
    clear_bss(&mut memory, 100, Segment { start: 106, end: 102 });
    assert_eq!(memory, vec![9u8; 8]);
    clear_bss(&mut memory, 100, Segment { start: 0, end: 0 });
    assert_eq!(memory, vec![9u8; 8]);
}

#[test]
fn clear_bss_twice_is_clear_bss_once() {
    let mut memory = vec![0x55u8; 6];
    clear_bss(&mut memory, 0, Segment { start: 2, end: 4 });
    let once = memory.clone();
    clear_bss(&mut memory, 0, Segment { start: 2, end: 4 });
    assert_eq!(memory, once);
}
