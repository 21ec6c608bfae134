use lc3::Machine;

#[test]
fn receive_char_fills_r0() {
    let mut m = Machine::new();
    m.setr(0, 0xABCD);
    m.setr(1, 5);
    m.receive_char(b'x');
    assert_eq!(m.getr(0), 0x0078);
    assert_eq!(m.getr(1), 5);
    m.receive_char(0xFF);
    assert_eq!(m.getr(0), 0x00FF);
}

#[test]
fn out_char_is_the_low_byte_of_r0() {
    let mut m = Machine::new();
    m.setr(0, 0x1241);
    assert_eq!(m.out_char(), b'A');
    m.setr(0, 0xFF00);
    assert_eq!(m.out_char(), 0);
}

#[test]
fn puts_reads_up_to_the_first_zero_word() {
    let mut m = Machine::new();
    for (i, c) in "Hello".bytes().enumerate() {
        m.setm(0x4000 + i as u16, c as u16);
    }
    m.setm(0x4006, b'!' as u16);
    m.setr(0, 0x4000);
    assert_eq!(m.puts_chars(), b"Hello".to_vec());
    m.setr(0, 0x4005);
    assert_eq!(m.puts_chars(), Vec::<u8>::new());
    m.setr(0, 0x4006);
    assert_eq!(m.puts_chars(), b"!".to_vec());
}

#[test]
fn puts_takes_the_low_byte_and_wraps_past_the_top() {
    let mut m = Machine::new();
    m.setm(0xFFFF, 0x0141);
    m.setm(0x0000, 0x0042);
    m.setr(0, 0xFFFF);
    assert_eq!(m.puts_chars(), vec![0x41, 0x42]);
}

#[test]
fn puts_reads_memory_once_where_no_word_is_zero() {
    let mut m = Machine::new();
    for a in 0u32..=0xFFFF {
        m.setm(a as u16, 0x0100 | (a as u16 & 0xFF));
    }
    m.setr(0, 0x0010);
    let out = m.puts_chars();
    assert_eq!(out.len(), 65536);
    assert_eq!(out[0], 0x10);
    assert_eq!(out[65535], 0x0F);
}

#[test]
fn putsp_reads_two_characters_a_word() {
    let mut m = Machine::new();
    m.setm(0x5000, 0x6548); // "He"
    m.setm(0x5001, 0x6C6C); // "ll"
    m.setm(0x5002, 0x006F); // "o"
    m.setm(0x5003, 0x2121);
    m.setr(0, 0x5000);
    assert_eq!(m.putsp_chars(), b"Hello".to_vec());
    m.setr(0, 0x5003);
    assert_eq!(m.putsp_chars(), b"!!".to_vec());
    m.setr(0, 0x5004);
    assert_eq!(m.putsp_chars(), Vec::<u8>::new());
}

#[test]
fn putsp_stops_at_a_zero_low_byte() {
    let mut m = Machine::new();
    m.setm(0x5000, 0x4241);
    m.setm(0x5001, 0x4300);
    m.setr(0, 0x5000);
    assert_eq!(m.putsp_chars(), b"AB".to_vec());
}

#[test]
fn putsp_reads_memory_once_where_no_byte_is_zero() {
    let mut m = Machine::new();
    for a in 0u32..=0xFFFF {
        m.setm(a as u16, 0x4141);
    }
    m.setr(0, 0x1234);
    assert_eq!(m.putsp_chars().len(), 131072);
}
